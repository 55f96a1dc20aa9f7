use vstd::prelude::*;
use crate::arch::Architecture;
use crate::power::dvfs::FrequencyCache;
use crate::runtime::hal::{
    BootHal, BusHal, DiscoveryHal, DmaHal, FirmwareHal, HardwareAccessHal, InterruptHal, IommuHal,
    MemoryHal, SecurityHal,
};
use crate::runtime::handle::{self, handle_of, probed_registry, AccelHandle, AccelProbe, AccelRegistry, AcceleratorKind};
use crate::runtime::monitor::{
    self, clamp, dvfs_after_read, freq_seen, idx, precision_code, precision_of_code, read_effect,
    temp_after, Component, ComponentSnapshot, Monitor, MonitorView, Precision,
};
use crate::runtime::platform::{self, classify, platform_code, platform_of_code, Platform, PlatformCache};
use crate::runtime::resources::{
    self, admits, counters_reset, freed_dma, freed_mem, freed_swap, granted_dma, granted_mem,
    granted_swap, snapshot_of, ResourceSnapshot, ResourceView, Resources,
};
use crate::runtime::worker::{self, live_workers, released_cpus, WorkerSnapshot, WorkerTable, WorkerView};

verus! {

/// An overview of the system.
pub struct SystemStatus {
    pub arch: Architecture,
    pub gpu_present: bool,
    pub tpu_present: bool,
    pub lpu_present: bool,
    pub dma_allocated: usize,
    pub mem_allocated: usize,
    pub irq_registered: usize,
    pub limits_enforced: bool,
    pub total_ram: usize,
}

/// The handle of each registered accelerator, GPU first, then TPU, then LPU.
pub open spec fn present_handles(accels: AccelRegistry, arch: Architecture) -> Seq<AccelHandle> {
    let one = |h: Option<AccelHandle>|
        match h {
            Some(x) => seq![x],
            None => Seq::<AccelHandle>::empty(),
        };
    one(handle_of(AcceleratorKind::Gpu, accels.gpu, arch)) + one(handle_of(AcceleratorKind::Tpu, accels.tpu, arch))
        + one(handle_of(AcceleratorKind::Lpu, accels.lpu, arch))
}

/// Which components have a worker: the CPU always, memory when its layout is known, and each
/// registered accelerator.
pub open spec fn present_components(memory_info_known: bool, accels: AccelRegistry) -> Seq<bool> {
    seq![true, memory_info_known, accels.gpu.ready, accels.tpu.ready, accels.lpu.ready]
}

/// The runtime: the architecture and platform it runs on, whether it is up, and the shared
/// state of its parts (resource accounting, component monitoring, the CPU frequency, the
/// monitoring workers, the registered accelerators) together with its signature word.
pub struct System {
    arch: Architecture,
    platform: Platform,
    ready: bool,
    resources: Resources,
    monitor: Monitor,
    dvfs: FrequencyCache,
    workers: WorkerTable,
    accels: AccelRegistry,
    signature: usize,
}

#[verifier::ext_equal]
pub ghost struct SystemView {
    pub arch: Architecture,
    pub platform: Platform,
    pub ready: bool,
    pub res: ResourceView,
    pub mon: MonitorView,
    pub dvfs_hz: usize,
    pub workers: WorkerView,
    pub accels: AccelRegistry,
    pub signature: usize,
}

impl View for System {
    type V = SystemView;

    closed spec fn view(&self) -> SystemView {
        SystemView {
            arch: self.arch,
            platform: self.platform,
            ready: self.ready,
            res: self.resources@,
            mon: self.monitor@,
            dvfs_hz: self.dvfs.hz(),
            workers: self.workers@,
            accels: self.accels,
            signature: self.signature,
        }
    }
}

impl System {
    /// Each per-component sequence of the view has one entry per component.
    pub proof fn lemma_view_shape(&self)
        ensures
            Monitor::wf_view(self@.mon),
            self@.workers.pids.len() == 5,
            self@.workers.polls.len() == 5,
            self@.workers.throttles.len() == 5,
            self@.workers.last_temp.len() == 5,
    {
        self.monitor.lemma_view_wf();
        self.workers.lemma_view_shape();
    }

    /// Brings the runtime up on `arch`: the registry `accels` with what the architecture's
    /// bring-up reports (`probe`, see `probed_registry`) registered, plus the first GPU found on
    /// PCI (`pci_gpu`: its BAR0 address, BAR size, vendor and device) when no GPU is registered
    /// then; the platform as `platform::detect`
    /// determines it from the firmware and boot reports; fresh resource, monitoring, frequency
    /// and worker state.
    pub fn init(
        arch: Architecture,
        accels: AccelRegistry,
        probe: &AccelProbe,
        pci_gpu: Option<(usize, usize, usize, usize)>,
        platform_cache: &mut PlatformCache,
        uefi: bool,
        smbios: bool,
        usable_ram: usize,
    ) -> (s: Self)
        ensures
            s@.arch == arch,
            s@.ready,
            s@.platform == if old(platform_cache).code() != 0 {
                platform_of_code(old(platform_cache).code())
            } else {
                classify(uefi, smbios, usable_ram)
            },
            s@.platform != Platform::Unknown,
            final(platform_cache).code() == platform_code(s@.platform),
            s@.accels.tpu == probed_registry(accels, arch, *probe).tpu,
            s@.accels.lpu == probed_registry(accels, arch, *probe).lpu,
            s@.accels.gpu == if !probed_registry(accels, arch, *probe).gpu.ready && pci_gpu is Some {
                handle::AccelSlot {
                    base: pci_gpu->Some_0.0,
                    size: pci_gpu->Some_0.1,
                    vendor: pci_gpu->Some_0.2,
                    devid: pci_gpu->Some_0.3,
                    ready: true,
                }
            } else {
                probed_registry(accels, arch, *probe).gpu
            },
            s@.res == Resources::new_view(),
            s@.mon == Monitor::initial(arch),
            s@.dvfs_hz == 0,
            !s@.workers.running && s@.workers.count == 0,
            s@.signature == 0,
    {
        let mut accels = accels;
        handle::register_probed(&mut accels, arch, probe);
        if handle::gpu_handle(&accels, arch).is_none() {
            if let Some((bar0, bar_size, vendor, device)) = pci_gpu {
                handle::register_gpu(&mut accels, bar0, bar_size, vendor, device);
            }
        }
        let platform = platform::detect(platform_cache, uefi, smbios, usable_ram);
        System {
            arch,
            platform,
            ready: true,
            resources: Resources::new(),
            monitor: Monitor::new(arch),
            dvfs: FrequencyCache::new(),
            workers: WorkerTable::new(),
            accels,
            signature: 0,
        }
    }

    pub fn is_ready(&self) -> (b: bool)
        ensures
            b == self@.ready,
    {
        self.ready
    }

    pub fn arch(&self) -> (a: Architecture)
        ensures
            a == self@.arch,
    {
        self.arch
    }

    pub fn gpu(&self) -> (h: Option<AccelHandle>)
        ensures
            h == handle_of(AcceleratorKind::Gpu, self@.accels.gpu, self@.arch),
    {
        handle::gpu_handle(&self.accels, self.arch)
    }

    pub fn tpu(&self) -> (h: Option<AccelHandle>)
        ensures
            h == handle_of(AcceleratorKind::Tpu, self@.accels.tpu, self@.arch),
    {
        handle::tpu_handle(&self.accels, self.arch)
    }

    pub fn lpu(&self) -> (h: Option<AccelHandle>)
        ensures
            h == handle_of(AcceleratorKind::Lpu, self@.accels.lpu, self@.arch),
    {
        handle::lpu_handle(&self.accels, self.arch)
    }

    /// The overview, with `total_ram` as the boot loader reports it.
    pub fn status(&self, total_ram: usize) -> (st: SystemStatus)
        ensures
            st == (SystemStatus {
                arch: self@.arch,
                gpu_present: self@.accels.gpu.ready,
                tpu_present: self@.accels.tpu.ready,
                lpu_present: self@.accels.lpu.ready,
                dma_allocated: self@.res.dma_allocated,
                mem_allocated: self@.res.mem_allocated,
                irq_registered: self@.res.irq_registered,
                limits_enforced: self@.res.limits_enforced,
                total_ram,
            }),
    {
        let snap = resources::snapshot(&self.resources);
        SystemStatus {
            arch: self.arch,
            gpu_present: handle::gpu_handle(&self.accels, self.arch).is_some(),
            tpu_present: handle::tpu_handle(&self.accels, self.arch).is_some(),
            lpu_present: handle::lpu_handle(&self.accels, self.arch).is_some(),
            dma_allocated: snap.dma_allocated,
            mem_allocated: snap.mem_allocated,
            irq_registered: snap.irq_registered,
            limits_enforced: snap.limits_enforced,
            total_ram,
        }
    }

    pub fn set_dma_limit(&mut self, bytes: usize)
        ensures
            final(self)@ == (SystemView { res: ResourceView { dma_limit: bytes, ..old(self)@.res }, ..old(self)@ }),
    {
        resources::set_dma_limit(&mut self.resources, bytes);
    }

    pub fn set_memory_limit(&mut self, bytes: usize)
        ensures
            final(self)@ == (SystemView { res: ResourceView { mem_limit: bytes, ..old(self)@.res }, ..old(self)@ }),
    {
        resources::set_memory_limit(&mut self.resources, bytes);
    }

    pub fn set_irq_limit(&mut self, max: usize)
        ensures
            final(self)@ == (SystemView { res: ResourceView { irq_limit: max, ..old(self)@.res }, ..old(self)@ }),
    {
        resources::set_irq_limit(&mut self.resources, max);
    }

    pub fn enforce_limits(&mut self, enable: bool)
        ensures
            final(self)@ == (SystemView { res: ResourceView { limits_enforced: enable, ..old(self)@.res }, ..old(self)@ }),
    {
        resources::enforce_limits(&mut self.resources, enable);
    }

    /// See `resources::try_alloc_dma`.
    pub fn try_alloc_dma(&mut self, bytes: usize, gate_ok: bool, now: u64) -> (ok: bool)
        requires
            gate_ok && old(self)@.res.limits_enforced ==> old(self)@.res.dma_allocated + bytes <= usize::MAX,
        ensures
            ok == admits(old(self)@.res.limits_enforced, gate_ok, old(self)@.res.dma_allocated, bytes, old(self)@.res.dma_limit),
            final(self)@ == (SystemView {
                res: if ok { granted_dma(old(self)@.res, bytes, now) } else { old(self)@.res },
                ..old(self)@
            }),
    {
        resources::try_alloc_dma(&mut self.resources, bytes, gate_ok, now)
    }

    /// See `resources::free_dma`.
    pub fn free_dma(&mut self, bytes: usize, now: u64)
        ensures
            final(self)@ == (SystemView { res: freed_dma(old(self)@.res, bytes, now), ..old(self)@ }),
    {
        resources::free_dma(&mut self.resources, bytes, now);
    }

    /// See `resources::try_alloc_memory`.
    pub fn try_alloc_memory(&mut self, bytes: usize, gate_ok: bool, now: u64) -> (ok: bool)
        requires
            gate_ok && old(self)@.res.limits_enforced ==> old(self)@.res.mem_allocated + bytes <= usize::MAX,
        ensures
            ok == admits(old(self)@.res.limits_enforced, gate_ok, old(self)@.res.mem_allocated, bytes, old(self)@.res.mem_limit),
            final(self)@ == (SystemView {
                res: if ok { granted_mem(old(self)@.res, bytes, now) } else { old(self)@.res },
                ..old(self)@
            }),
    {
        resources::try_alloc_memory(&mut self.resources, bytes, gate_ok, now)
    }

    /// See `resources::free_memory`.
    pub fn free_memory(&mut self, bytes: usize, now: u64)
        ensures
            final(self)@ == (SystemView { res: freed_mem(old(self)@.res, bytes, now), ..old(self)@ }),
    {
        resources::free_memory(&mut self.resources, bytes, now);
    }

    /// See `resources::try_alloc_swap`.
    pub fn try_alloc_swap(&mut self, bytes: usize, gate_ok: bool, now: u64) -> (ok: bool)
        ensures
            ok == gate_ok,
            final(self)@ == (SystemView {
                res: if ok { granted_swap(old(self)@.res, bytes, now) } else { old(self)@.res },
                ..old(self)@
            }),
    {
        resources::try_alloc_swap(&mut self.resources, bytes, gate_ok, now)
    }

    /// See `resources::free_swap`.
    pub fn free_swap(&mut self, bytes: usize, now: u64)
        ensures
            final(self)@ == (SystemView { res: freed_swap(old(self)@.res, bytes, now), ..old(self)@ }),
    {
        resources::free_swap(&mut self.resources, bytes, now);
    }

    pub fn resources(&self) -> (s: ResourceSnapshot)
        ensures
            s == snapshot_of(self@.res),
    {
        resources::snapshot(&self.resources)
    }

    /// Starts the monitoring workers (see `worker::spawn_workers`): one for the CPU, for memory
    /// when its layout is known, and for each registered accelerator; `fork_results[i]` is what
    /// starting the worker of component `i` gave.
    pub fn spawn_workers(&mut self, memory_info_known: bool, fork_results: &[i64; 5]) -> (n: usize)
        ensures
            old(self)@.workers.running ==> n == old(self)@.workers.count && final(self)@ == old(self)@,
            !old(self)@.workers.running ==> ({
                let w0 = old(self)@.workers;
                let w = final(self)@.workers;
                let present = present_components(memory_info_known, old(self)@.accels);
                &&& w.running
                &&& n == w.count
                &&& n == worker::started_results(present, fork_results@).filter(|r: i64| r > 0).len()
                &&& forall|i: int| 0 <= i < 5 && present[i] && fork_results@[i] > 0 ==> w.pids[i] == fork_results@[i] as i32
                &&& forall|i: int| 0 <= i < 5 && !(present[i] && fork_results@[i] > 0) ==> w.pids[i] == w0.pids[i]
                &&& w.polls == w0.polls
                &&& w.throttles == w0.throttles
                &&& w.last_temp == w0.last_temp
            }),
            final(self)@ == (SystemView { workers: final(self)@.workers, ..old(self)@ }),
    {
        let present = [
            worker::component_present(Component::Cpu, memory_info_known, &self.accels),
            worker::component_present(Component::Ram, memory_info_known, &self.accels),
            worker::component_present(Component::Gpu, memory_info_known, &self.accels),
            worker::component_present(Component::Tpu, memory_info_known, &self.accels),
            worker::component_present(Component::Lpu, memory_info_known, &self.accels),
        ];
        assert(present@ =~= present_components(memory_info_known, self@.accels));
        worker::spawn_workers(&mut self.workers, &present, fork_results)
    }

    /// Stops the monitoring workers, releasing one CPU thread for each live one, and returns
    /// the process ids to kill (see `worker::stop_workers`).
    pub fn stop_workers(&mut self, now: u64) -> (killed: [i32; 5])
        ensures
            !old(self)@.workers.running ==> final(self)@ == old(self)@
                && forall|i: int| 0 <= i < 5 ==> killed@[i] == 0,
            old(self)@.workers.running ==> ({
                &&& final(self)@ == (SystemView {
                    workers: WorkerView {
                        running: false,
                        pids: Seq::new(5, |i: int| 0i32),
                        count: 0,
                        ..old(self)@.workers
                    },
                    res: released_cpus(old(self)@.res, live_workers(old(self)@.workers.pids), now),
                    ..old(self)@
                })
                &&& forall|i: int| 0 <= i < 5 ==> killed@[i] == if old(self)@.workers.pids[i] > 0 { old(self)@.workers.pids[i] } else { 0 }
            }),
    {
        worker::stop_workers(&mut self.workers, &mut self.resources, now)
    }

    pub fn worker_count(&self) -> (n: usize)
        ensures
            n == self@.workers.count,
    {
        worker::worker_count(&self.workers)
    }

    pub fn workers_running(&self) -> (b: bool)
        ensures
            b == self@.workers.running,
    {
        worker::is_running(&self.workers)
    }

    pub fn worker_snapshot(&self, comp: Component) -> (s: WorkerSnapshot)
        ensures
            s == worker::snapshot_of(self@.workers, comp),
    {
        worker::snapshot(&self.workers, comp)
    }

    pub fn all_worker_snapshots(&self) -> (s: [WorkerSnapshot; 5])
        ensures
            forall|i: int| 0 <= i < 5 ==> #[trigger] s@[i] == worker::snapshot_of(self@.workers, worker::component_at(i)),
    {
        worker::all_snapshots(&self.workers)
    }

    /// Stops the workers (returning the process ids to kill), zeroes the resource counters and
    /// marks the runtime down.
    pub fn shutdown(&mut self, now: u64) -> (killed: [i32; 5])
        ensures
            final(self)@ == (SystemView {
                ready: false,
                workers: if old(self)@.workers.running {
                    WorkerView { running: false, pids: Seq::new(5, |i: int| 0i32), count: 0, ..old(self)@.workers }
                } else {
                    old(self)@.workers
                },
                res: counters_reset(old(self)@.res),
                ..old(self)@
            }),
            old(self)@.workers.running ==> forall|i: int| 0 <= i < 5 ==> killed@[i] == if old(self)@.workers.pids[i] > 0 { old(self)@.workers.pids[i] } else { 0 },
            !old(self)@.workers.running ==> forall|i: int| 0 <= i < 5 ==> killed@[i] == 0,
    {
        let killed = worker::stop_workers(&mut self.workers, &mut self.resources, now);
        resources::reset_counters(&mut self.resources);
        self.ready = false;
        killed
    }

    /// The number of registered accelerators.
    pub fn accel_count(&self) -> (n: usize)
        ensures
            n == (if self@.accels.gpu.ready { 1usize } else { 0 }) + (if self@.accels.tpu.ready { 1usize } else { 0 })
                + (if self@.accels.lpu.ready { 1usize } else { 0 }),
    {
        let mut n: usize = 0;
        if handle::gpu_handle(&self.accels, self.arch).is_some() {
            n += 1;
        }
        if handle::tpu_handle(&self.accels, self.arch).is_some() {
            n += 1;
        }
        if handle::lpu_handle(&self.accels, self.arch).is_some() {
            n += 1;
        }
        n
    }

    /// The registered accelerators' handles, in the order GPU, TPU, LPU (what `for_each_accel`
    /// visits).
    pub fn present_accels(&self) -> (v: Vec<AccelHandle>)
        ensures
            v@ == present_handles(self@.accels, self@.arch),
    {
        let mut v: Vec<AccelHandle> = Vec::new();
        if let Some(g) = handle::gpu_handle(&self.accels, self.arch) {
            v.push(g);
        }
        if let Some(t) = handle::tpu_handle(&self.accels, self.arch) {
            v.push(t);
        }
        if let Some(l) = handle::lpu_handle(&self.accels, self.arch) {
            v.push(l);
        }
        assert(v@ =~= present_handles(self@.accels, self@.arch));
        v
    }

    pub fn accel_by_kind(&self, kind: AcceleratorKind) -> (h: Option<AccelHandle>)
        ensures
            h == handle_of(kind, self@.accels.slot(kind), self@.arch),
    {
        match kind {
            AcceleratorKind::Gpu => handle::gpu_handle(&self.accels, self.arch),
            AcceleratorKind::Tpu => handle::tpu_handle(&self.accels, self.arch),
            AcceleratorKind::Lpu => handle::lpu_handle(&self.accels, self.arch),
        }
    }

    /// See `monitor::read_temperature`.
    pub fn read_temperature(&mut self, comp: Component, reading: u32) -> (t: u32)
        ensures
            t == temp_after(old(self)@.mon, comp, reading),
            final(self)@ == (SystemView { mon: read_effect(old(self)@.mon, comp, reading), ..old(self)@ }),
    {
        monitor::read_temperature(&mut self.monitor, comp, reading)
    }

    pub fn set_temp_limit(&mut self, comp: Component, millideg: u32)
        ensures
            final(self)@ == (SystemView {
                mon: MonitorView { limit: old(self)@.mon.limit.update(idx(comp), millideg), ..old(self)@.mon },
                ..old(self)@
            }),
    {
        monitor::set_temp_limit(&mut self.monitor, comp, millideg);
    }

    /// See `monitor::is_throttled`.
    pub fn is_throttled(&mut self, comp: Component, reading: u32) -> (b: bool)
        ensures
            b == (temp_after(old(self)@.mon, comp, reading) > 0 && temp_after(old(self)@.mon, comp, reading) >= old(self)@.mon.limit[idx(comp)]),
            final(self)@ == (SystemView { mon: read_effect(old(self)@.mon, comp, reading), ..old(self)@ }),
    {
        monitor::is_throttled(&mut self.monitor, comp, reading)
    }

    /// See `monitor::set_frequency`.
    pub fn set_frequency(&mut self, comp: Component, hz: usize) -> (set: usize)
        ensures
            set == clamp(hz, old(self)@.mon.fmin[idx(comp)], old(self)@.mon.fmax[idx(comp)]),
            final(self)@ == (SystemView {
                mon: MonitorView { freq: old(self)@.mon.freq.update(idx(comp), set), ..old(self)@.mon },
                dvfs_hz: if comp == Component::Cpu { set as u64 as usize } else { old(self)@.dvfs_hz },
                ..old(self)@
            }),
    {
        monitor::set_frequency(&mut self.monitor, &mut self.dvfs, comp, hz)
    }

    /// See `monitor::frequency`.
    pub fn frequency(&mut self, comp: Component, sysfs_hz: u64) -> (f: usize)
        ensures
            f == freq_seen(old(self)@.mon, old(self)@.dvfs_hz, comp, sysfs_hz),
            final(self)@ == (SystemView {
                dvfs_hz: dvfs_after_read(old(self)@.mon, old(self)@.dvfs_hz, comp, sysfs_hz),
                ..old(self)@
            }),
    {
        monitor::frequency(&self.monitor, &mut self.dvfs, comp, sysfs_hz)
    }

    /// See `monitor::set_freq_bounds`.
    pub fn set_freq_bounds(&mut self, comp: Component, min_hz: usize, max_hz: usize) -> (reset: Option<usize>)
        ensures
            reset == monitor::bounds_reset(old(self)@.mon, comp, min_hz, max_hz),
            final(self)@ == (SystemView {
                mon: monitor::bounds_effect(old(self)@.mon, comp, min_hz, max_hz),
                dvfs_hz: match reset {
                    Some(v) => if comp == Component::Cpu { v as u64 as usize } else { old(self)@.dvfs_hz },
                    None => old(self)@.dvfs_hz,
                },
                ..old(self)@
            }),
    {
        monitor::set_freq_bounds(&mut self.monitor, &mut self.dvfs, comp, min_hz, max_hz)
    }

    /// See `monitor::read_cycles`.
    pub fn read_cycles(&mut self, comp: Component, timestamp: u64) -> (c: usize)
        ensures
            comp == Component::Cpu ==> c == timestamp as usize && final(self)@ == (SystemView {
                mon: MonitorView { cycles: old(self)@.mon.cycles.update(0, timestamp as usize), ..old(self)@.mon },
                ..old(self)@
            }),
            comp != Component::Cpu ==> c == old(self)@.mon.cycles[idx(comp)] && final(self)@ == old(self)@,
    {
        monitor::read_cycles(&mut self.monitor, comp, timestamp)
    }

    pub fn record_ops(&mut self, comp: Component, count: usize)
        ensures
            final(self)@ == (SystemView {
                mon: MonitorView {
                    ops: old(self)@.mon.ops.update(idx(comp), crate::arith::add_wrap(old(self)@.mon.ops[idx(comp)], count)),
                    ..old(self)@.mon
                },
                ..old(self)@
            }),
    {
        monitor::record_ops(&mut self.monitor, comp, count);
    }

    pub fn read_ops(&self, comp: Component) -> (n: usize)
        ensures
            n == self@.mon.ops[idx(comp)],
    {
        monitor::read_ops(&self.monitor, comp)
    }

    pub fn set_precision(&mut self, comp: Component, prec: Precision)
        ensures
            final(self)@ == (SystemView {
                mon: MonitorView { precision: old(self)@.mon.precision.update(idx(comp), precision_code(prec)), ..old(self)@.mon },
                ..old(self)@
            }),
    {
        monitor::set_precision(&mut self.monitor, comp, prec);
    }

    pub fn precision(&self, comp: Component) -> (p: Precision)
        ensures
            p == precision_of_code(self@.mon.precision[idx(comp)]),
    {
        monitor::precision(&self.monitor, comp)
    }

    /// See `monitor::snapshot`.
    pub fn component_snapshot(&mut self, comp: Component, reading: u32, recheck: u32, sysfs_hz: u64, timestamp: u64) -> (s: ComponentSnapshot)
        ensures
            s == monitor::snapshot_of(old(self)@.mon, old(self)@.dvfs_hz, comp, reading, recheck, sysfs_hz, timestamp),
            final(self)@ == (SystemView {
                mon: monitor::snapshot_effect(old(self)@.mon, comp, reading, recheck, timestamp),
                dvfs_hz: dvfs_after_read(old(self)@.mon, old(self)@.dvfs_hz, comp, sysfs_hz),
                ..old(self)@
            }),
    {
        monitor::snapshot(&mut self.monitor, &mut self.dvfs, comp, reading, recheck, sysfs_hz, timestamp)
    }

    /// See `monitor::snapshot_all`.
    pub fn all_snapshots(&mut self, readings: &[u32; 5], rechecks: &[u32; 5], sysfs_hz: u64, timestamp: u64) -> (s: [ComponentSnapshot; 5])
        ensures
            s[0] == monitor::snapshot_of(old(self)@.mon, old(self)@.dvfs_hz, Component::Cpu, readings[0], rechecks[0], sysfs_hz, timestamp),
            s[1] == monitor::snapshot_of(old(self)@.mon, old(self)@.dvfs_hz, Component::Ram, readings[1], rechecks[1], sysfs_hz, timestamp),
            s[2] == monitor::snapshot_of(old(self)@.mon, old(self)@.dvfs_hz, Component::Gpu, readings[2], rechecks[2], sysfs_hz, timestamp),
            s[3] == monitor::snapshot_of(old(self)@.mon, old(self)@.dvfs_hz, Component::Tpu, readings[3], rechecks[3], sysfs_hz, timestamp),
            s[4] == monitor::snapshot_of(old(self)@.mon, old(self)@.dvfs_hz, Component::Lpu, readings[4], rechecks[4], sysfs_hz, timestamp),
            final(self)@ == (SystemView {
                mon: monitor::snapshot_all_effect(old(self)@.mon, *readings, *rechecks, timestamp),
                dvfs_hz: dvfs_after_read(old(self)@.mon, old(self)@.dvfs_hz, Component::Cpu, sysfs_hz),
                ..old(self)@
            }),
    {
        monitor::snapshot_all(&mut self.monitor, &mut self.dvfs, readings, rechecks, sysfs_hz, timestamp)
    }

    pub fn platform(&self) -> (p: Platform)
        ensures
            p == self@.platform,
    {
        self.platform
    }

    pub fn is_bare_metal(&self) -> (b: bool)
        ensures
            b == (self@.platform == Platform::BareMetal),
    {
        self.platform == Platform::BareMetal
    }

    pub fn is_hosted(&self) -> (b: bool)
        ensures
            b == (self@.platform == Platform::Hosted),
    {
        self.platform == Platform::Hosted
    }

    pub fn memory(&self) -> MemoryHal {
        MemoryHal
    }

    pub fn interrupts(&self) -> InterruptHal {
        InterruptHal
    }

    pub fn bus(&self) -> BusHal {
        BusHal
    }

    pub fn dma(&self) -> DmaHal {
        DmaHal
    }

    pub fn iommu(&self) -> IommuHal {
        IommuHal
    }

    pub fn firmware(&self) -> FirmwareHal {
        FirmwareHal
    }

    pub fn discovery(&self) -> DiscoveryHal {
        DiscoveryHal
    }

    pub fn boot(&self) -> BootHal {
        BootHal
    }

    pub fn security(&self) -> SecurityHal {
        SecurityHal
    }

    pub fn hardware_access(&self) -> HardwareAccessHal {
        HardwareAccessHal
    }
}

/// The system's signature word.
pub fn system_signature(sys: &System) -> (sig: usize)
    ensures
        sig == sys@.signature,
{
    sys.signature
}

/// Replaces the system's signature word.
pub fn set_system_signature(sys: &mut System, sig: usize)
    ensures
        final(sys)@ == (SystemView { signature: sig, ..old(sys)@ }),
{
    sys.signature = sig;
}

} // verus!
