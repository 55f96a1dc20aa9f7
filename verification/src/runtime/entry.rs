use vstd::prelude::*;
use crate::runtime::handle::AccelSlot;
use crate::runtime::monitor::{
    self, bounds_effect, bounds_reset, dvfs_after_read, idx, precision_code, snapshot_all_effect,
    snapshot_of, Component, ComponentSnapshot, MonitorView, Precision,
};
use crate::runtime::resources::ResourceView;
use crate::runtime::system::{present_components, set_system_signature, system_signature, System, SystemView};
use crate::runtime::worker::started_results;

verus! {

/// The DMA limit that bring-up enforces: 64 MiB.
pub const BRINGUP_DMA_LIMIT: usize = 64 * 1024 * 1024;

/// The memory limit that bring-up enforces: 256 MiB.
pub const BRINGUP_MEMORY_LIMIT: usize = 256 * 1024 * 1024;

/// The interrupt-line limit that bring-up enforces.
pub const BRINGUP_IRQ_LIMIT: usize = 128;

/// The CPU's top frequency: the one the CPU reports, or 5 GHz when it reports none.
pub open spec fn cpu_max_of(cpu_freq_hz: Option<u64>) -> usize {
    match cpu_freq_hz {
        Some(f) => if f > 0 { f as usize } else { 5_000_000_000u64 as usize },
        None => 5_000_000_000u64 as usize,
    }
}

/// The monitor after bring-up has set the temperature limits (CPU 95 °C, GPU 90 °C, TPU 85 °C,
/// LPU 80 °C), the frequency bounds (CPU from a sixth of its top frequency to its top, GPU
/// 0.3–2.5 GHz, TPU 0.5–1.5 GHz, LPU 0.2–1 GHz) and the precisions (GPU FP16, TPU BF16, LPU INT8).
pub open spec fn configured_monitor(m: MonitorView, cpu_max: usize) -> MonitorView {
    let m1 = MonitorView {
        limit: m.limit.update(0, 95_000).update(2, 90_000).update(3, 85_000).update(4, 80_000),
        ..m
    };
    let m2 = bounds_effect(m1, Component::Cpu, cpu_max / 6, cpu_max);
    let m3 = bounds_effect(m2, Component::Gpu, 300_000_000, 2_500_000_000);
    let m4 = bounds_effect(m3, Component::Tpu, 500_000_000, 1_500_000_000);
    let m5 = bounds_effect(m4, Component::Lpu, 200_000_000, 1_000_000_000);
    MonitorView {
        precision: m5.precision.update(2, precision_code(Precision::Fp16)).update(
            3,
            precision_code(Precision::Bf16),
        ).update(4, precision_code(Precision::Int8)),
        ..m5
    }
}

/// The CPU frequency target after bring-up has set the CPU's frequency bounds.
pub open spec fn configured_dvfs(m: MonitorView, dvfs_hz: usize, cpu_max: usize) -> usize {
    let m1 = MonitorView {
        limit: m.limit.update(0, 95_000).update(2, 90_000).update(3, 85_000).update(4, 80_000),
        ..m
    };
    match bounds_reset(m1, Component::Cpu, cpu_max / 6, cpu_max) {
        Some(v) => v as u64 as usize,
        None => dvfs_hz,
    }
}

/// The status word: total RAM, DMA and memory in use, which accelerators are present and the
/// interrupt lines in use, folded together with exclusive or.
pub open spec fn status_signature(res: ResourceView, gpu: bool, tpu: bool, lpu: bool, total_ram: usize) -> usize {
    total_ram ^ res.dma_allocated ^ res.mem_allocated ^ (if gpu { 1usize } else { 0usize }) ^ (if tpu {
        1usize
    } else {
        0usize
    }) ^ (if lpu { 1usize } else { 0usize }) ^ res.irq_registered
}

/// One accelerator's window and identity, folded together.
pub open spec fn accel_word(s: AccelSlot) -> usize {
    s.base ^ s.size ^ s.vendor ^ s.devid
}

/// The accelerator word: starting from zero, the word of each registered accelerator (GPU, TPU,
/// LPU, in that order) folded in with exclusive or.
pub open spec fn accel_signature(gpu: AccelSlot, tpu: AccelSlot, lpu: AccelSlot) -> usize {
    let a0 = 0usize;
    let a1 = if gpu.ready { a0 ^ accel_word(gpu) } else { a0 };
    let a2 = if tpu.ready { a1 ^ accel_word(tpu) } else { a1 };
    if lpu.ready { a2 ^ accel_word(lpu) } else { a2 }
}

/// One snapshot's contribution to the monitor word.
pub open spec fn snapshot_word(s: ComponentSnapshot) -> usize {
    s.temp_millideg as usize ^ s.freq_hz ^ s.cycles ^ s.ops
}

/// The monitor word over the first `n` snapshots.
pub open spec fn monitor_signature(snaps: Seq<ComponentSnapshot>, n: nat) -> usize
    decreases n,
{
    if n == 0 {
        0usize
    } else {
        monitor_signature(snaps, (n - 1) as nat) ^ snapshot_word(snaps[n - 1])
    }
}

/// The five snapshots bring-up takes of the configured monitor.
pub open spec fn bringup_snapshots(m: MonitorView, dvfs_hz: usize, readings: [u32; 5], rechecks: [u32; 5], sysfs_hz: u64, timestamp: u64) -> Seq<ComponentSnapshot> {
    seq![
        snapshot_of(m, dvfs_hz, Component::Cpu, readings[0], rechecks[0], sysfs_hz, timestamp),
        snapshot_of(m, dvfs_hz, Component::Ram, readings[1], rechecks[1], sysfs_hz, timestamp),
        snapshot_of(m, dvfs_hz, Component::Gpu, readings[2], rechecks[2], sysfs_hz, timestamp),
        snapshot_of(m, dvfs_hz, Component::Tpu, readings[3], rechecks[3], sysfs_hz, timestamp),
        snapshot_of(m, dvfs_hz, Component::Lpu, readings[4], rechecks[4], sysfs_hz, timestamp),
    ]
}

fn fold_snapshots(snaps: &[ComponentSnapshot; 5]) -> (sig: usize)
    ensures
        sig == monitor_signature(snaps@, 5),
{
    let mut monitor_sig: usize = 0;
    let mut i: usize = 0;
    while i < 5
        invariant
            i <= 5,
            monitor_sig == monitor_signature(snaps@, i as nat),
        decreases 5 - i,
    {
        monitor_sig = monitor_sig ^ (snaps[i].temp_millideg as usize ^ snaps[i].freq_hz ^ snaps[i].cycles
            ^ snaps[i].ops);
        i += 1;
    }
    monitor_sig
}

/// Brings the runtime up: enforces the default resource limits, records the status and
/// accelerator words in the signature, applies the default temperature limits, frequency bounds
/// and precisions, folds a snapshot of every component into the signature, and starts the
/// monitoring workers. Takes the machine's total RAM, the CPU's reported frequency, the five
/// components' sensor readings and the second readings their throttling checks take, the
/// platform's CPU frequency reading, the timestamp counter, whether the memory layout is known
/// and the five fork results; returns how many workers run.
pub fn hardware_start(
    sys: &mut System,
    total_ram: usize,
    cpu_freq_hz: Option<u64>,
    readings: &[u32; 5],
    rechecks: &[u32; 5],
    sysfs_hz: u64,
    timestamp: u64,
    memory_info_known: bool,
    fork_results: &[i64; 5],
) -> (n: usize)
    ensures
        ({
            let v0 = old(sys)@;
            let v = final(sys)@;
            let cpu_max = cpu_max_of(cpu_freq_hz);
            let mc = configured_monitor(v0.mon, cpu_max);
            let dc = configured_dvfs(v0.mon, v0.dvfs_hz, cpu_max);
            let snaps = bringup_snapshots(mc, dc, *readings, *rechecks, sysfs_hz, timestamp);
            let present = present_components(memory_info_known, v0.accels);
            &&& v.arch == v0.arch
            &&& v.platform == v0.platform
            &&& v.ready == v0.ready
            &&& v.accels == v0.accels
            &&& v.res == (ResourceView {
                limits_enforced: true,
                dma_limit: BRINGUP_DMA_LIMIT,
                mem_limit: BRINGUP_MEMORY_LIMIT,
                irq_limit: BRINGUP_IRQ_LIMIT,
                ..v0.res
            })
            &&& v.mon == snapshot_all_effect(mc, *readings, *rechecks, timestamp)
            &&& v.dvfs_hz == dvfs_after_read(mc, dc, Component::Cpu, sysfs_hz)
            &&& v.signature == status_signature(
                v0.res,
                v0.accels.gpu.ready,
                v0.accels.tpu.ready,
                v0.accels.lpu.ready,
                total_ram,
            ) ^ accel_signature(v0.accels.gpu, v0.accels.tpu, v0.accels.lpu) ^ monitor_signature(snaps, 5)
            &&& v0.workers.running ==> n == v0.workers.count && v.workers == v0.workers
            &&& !v0.workers.running ==> {
                &&& v.workers.running
                &&& n == v.workers.count
                &&& n == started_results(present, fork_results@).filter(|r: i64| r > 0).len()
                &&& forall|i: int| 0 <= i < 5 && present[i] && fork_results@[i] > 0 ==> v.workers.pids[i] == fork_results@[i] as i32
                &&& forall|i: int| 0 <= i < 5 && !(present[i] && fork_results@[i] > 0) ==> v.workers.pids[i] == v0.workers.pids[i]
                &&& v.workers.polls == v0.workers.polls
                &&& v.workers.throttles == v0.workers.throttles
                &&& v.workers.last_temp == v0.workers.last_temp
            }
        }),
{
    let ghost v0 = sys@;
    sys.enforce_limits(true);
    sys.set_dma_limit(BRINGUP_DMA_LIMIT);
    sys.set_memory_limit(BRINGUP_MEMORY_LIMIT);
    sys.set_irq_limit(BRINGUP_IRQ_LIMIT);

    let status = sys.status(total_ram);
    let gpu_bit: usize = if status.gpu_present { 1 } else { 0 };
    let tpu_bit: usize = if status.tpu_present { 1 } else { 0 };
    let lpu_bit: usize = if status.lpu_present { 1 } else { 0 };
    set_system_signature(
        sys,
        status.total_ram ^ status.dma_allocated ^ status.mem_allocated ^ gpu_bit ^ tpu_bit ^ lpu_bit
            ^ status.irq_registered,
    );

    let mut accel_sig: usize = 0;
    if let Some(g) = sys.gpu() {
        accel_sig = accel_sig ^ (g.mmio_base ^ g.mmio_size ^ g.vendor_id ^ g.device_id);
    }
    if let Some(t) = sys.tpu() {
        accel_sig = accel_sig ^ (t.mmio_base ^ t.mmio_size ^ t.vendor_id ^ t.device_id);
    }
    if let Some(l) = sys.lpu() {
        accel_sig = accel_sig ^ (l.mmio_base ^ l.mmio_size ^ l.vendor_id ^ l.device_id);
    }
    let sig = system_signature(sys);
    set_system_signature(sys, sig ^ accel_sig);

    sys.set_temp_limit(Component::Cpu, 95_000);
    sys.set_temp_limit(Component::Gpu, 90_000);
    sys.set_temp_limit(Component::Tpu, 85_000);
    sys.set_temp_limit(Component::Lpu, 80_000);

    let cpu_max: usize = match cpu_freq_hz {
        Some(f) => if f > 0 { #[verifier::truncate] (f as usize) } else { #[verifier::truncate] (5_000_000_000u64 as usize) },
        None => #[verifier::truncate] (5_000_000_000u64 as usize),
    };
    sys.set_freq_bounds(Component::Cpu, cpu_max / 6, cpu_max);
    sys.set_freq_bounds(Component::Gpu, 300_000_000, 2_500_000_000);
    sys.set_freq_bounds(Component::Tpu, 500_000_000, 1_500_000_000);
    sys.set_freq_bounds(Component::Lpu, 200_000_000, 1_000_000_000);

    sys.set_precision(Component::Gpu, Precision::Fp16);
    sys.set_precision(Component::Tpu, Precision::Bf16);
    sys.set_precision(Component::Lpu, Precision::Int8);

    let snaps = sys.all_snapshots(readings, rechecks, sysfs_hz, timestamp);
    let monitor_sig = fold_snapshots(&snaps);
    proof {
        let cpu_m = cpu_max_of(cpu_freq_hz);
        let mc = configured_monitor(v0.mon, cpu_m);
        let dc = configured_dvfs(v0.mon, v0.dvfs_hz, cpu_m);
        assert(snaps@ =~= bringup_snapshots(mc, dc, *readings, *rechecks, sysfs_hz, timestamp));
    }
    let sig = system_signature(sys);
    set_system_signature(sys, sig ^ monitor_sig);

    sys.spawn_workers(memory_info_known, fork_results)
}

} // verus!
