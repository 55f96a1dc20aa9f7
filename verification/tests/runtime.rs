use lib::runtime::entry::{hardware_start, BRINGUP_DMA_LIMIT, BRINGUP_IRQ_LIMIT, BRINGUP_MEMORY_LIMIT};
use lib::arch::Architecture;
use lib::power::dvfs::{cached_frequency, current_frequency, FrequencyCache};
use lib::runtime::handle::{
    gpu_handle, lpu_handle, register_gpu, register_lpu, register_probed, register_tpu, tpu_handle,
    AccelProbe, AccelRegistry, AcceleratorKind,
};
use lib::runtime::monitor::{
    self, apply_accel_freq, element_size, frequency_seen, freq_max, freq_min, precision, read_accel_temp, read_cpu_temp,
    read_cycles, read_ops, read_temperature, record_cycles, record_ops, reset_all, reset_cycles, reset_ops,
    set_freq_bounds, set_precision, set_temp_limit, set_temperature, snapshot_all, temp_limit, Component,
    Monitor, Precision, DEFAULT_TEMP_LIMIT,
};
use lib::runtime::platform::{self, current, from_u8, Platform, PlatformCache};
use lib::runtime::resources::{
    self, cpu_threads, dma_alloc_count, dma_allocated, dma_limit, enforce_limits, force_reset_cpu,
    force_reset_dma, force_reset_irq, force_reset_mem, force_reset_swap, free_cpu, free_dma, free_memory,
    free_swap, irq_registered, last_activity_cpu, last_activity_dma, last_activity_irq, last_activity_mem,
    last_activity_swap, limits_active, memory_alloc_count, memory_allocated, memory_limit, reset_counters,
    set_dma_limit, set_irq_limit, set_memory_limit, swap_alloc_count, swap_allocated, try_alloc_cpu,
    try_alloc_dma, try_alloc_memory, try_alloc_swap, try_register_irq, unregister_irq, Resources,
};
use lib::runtime::system::{set_system_signature, system_signature, System};
use lib::runtime::worker::{
    self, all_snapshots, component_present, is_running, last_temperature, poll_count, spawn_workers,
    step_admissible, stop_workers, throttle_count, worker_count, worker_step, WorkerLoop, WorkerTable,
};

#[test]
fn unlimited_allocation_is_always_granted() {
    let mut r = Resources::new();
    assert!(!limits_active(&r));
    assert_eq!(dma_limit(&r), usize::MAX);
    assert!(try_alloc_dma(&mut r, 4096, true, 10));
    assert!(try_alloc_dma(&mut r, 4096, true, 11));
    assert_eq!(dma_allocated(&r), 8192);
    assert_eq!(dma_alloc_count(&r), 2);
    assert_eq!(last_activity_dma(&r), 11);
    // a refused gate refuses the request and changes nothing
    assert!(!try_alloc_dma(&mut r, 1, false, 12));
    assert_eq!(dma_allocated(&r), 8192);
    assert_eq!(last_activity_dma(&r), 11);
}

#[test]
fn enforced_limits_refuse_what_does_not_fit() {
    let mut r = Resources::new();
    set_dma_limit(&mut r, 10_000);
    set_memory_limit(&mut r, 100);
    enforce_limits(&mut r, true);
    assert!(limits_active(&r));
    assert!(try_alloc_dma(&mut r, 6000, true, 1));
    assert!(!try_alloc_dma(&mut r, 4001, true, 2));
    assert!(try_alloc_dma(&mut r, 4000, true, 3));
    assert_eq!(dma_allocated(&r), 10_000);
    assert!(dma_allocated(&r) <= dma_limit(&r));
    assert!(!try_alloc_dma(&mut r, 1, true, 4));
    assert_eq!(memory_limit(&r), 100);
    assert!(try_alloc_memory(&mut r, 100, true, 5));
    assert!(!try_alloc_memory(&mut r, 1, true, 6));
    assert_eq!(memory_allocated(&r), 100);
    assert_eq!(memory_alloc_count(&r), 1);
    assert_eq!(last_activity_mem(&r), 5);
    // lifting the enforcement admits the request again
    enforce_limits(&mut r, false);
    assert!(try_alloc_memory(&mut r, 1, true, 7));
}

#[test]
fn freeing_undoes_allocating() {
    let mut r = Resources::new();
    assert!(try_alloc_dma(&mut r, 300, true, 1));
    assert!(try_alloc_dma(&mut r, 500, true, 2));
    free_dma(&mut r, 500, 3);
    assert_eq!(dma_allocated(&r), 300);
    assert_eq!(dma_alloc_count(&r), 1);
    assert_eq!(last_activity_dma(&r), 3);
    assert!(try_alloc_memory(&mut r, 64, true, 4));
    free_memory(&mut r, 64, 5);
    assert_eq!(memory_allocated(&r), 0);
    assert_eq!(memory_alloc_count(&r), 0);
    assert!(try_alloc_swap(&mut r, 7, true, 6));
    assert!(!try_alloc_swap(&mut r, 7, false, 6));
    free_swap(&mut r, 7, 8);
    assert_eq!(swap_allocated(&r), 0);
    assert_eq!(swap_alloc_count(&r), 0);
    assert_eq!(last_activity_swap(&r), 8);
}

#[test]
fn over_freeing_wraps_and_keeps_the_count() {
    let mut r = Resources::new();
    assert!(try_alloc_dma(&mut r, 10, true, 1));
    free_dma(&mut r, 20, 2);
    assert_eq!(dma_allocated(&r), usize::MAX - 9);
    assert_eq!(dma_alloc_count(&r), 1);
}

#[test]
fn interrupt_lines_respect_their_limit() {
    let mut r = Resources::new();
    set_irq_limit(&mut r, 2);
    enforce_limits(&mut r, true);
    assert!(try_register_irq(&mut r, true, 1));
    assert!(try_register_irq(&mut r, true, 2));
    assert!(!try_register_irq(&mut r, true, 3));
    assert_eq!(irq_registered(&r), 2);
    assert_eq!(last_activity_irq(&r), 2);
    unregister_irq(&mut r, 4);
    assert_eq!(irq_registered(&r), 1);
    assert!(try_register_irq(&mut r, true, 5));
    assert!(!try_register_irq(&mut r, false, 6));
}

#[test]
fn cpu_threads_and_resets() {
    let mut r = Resources::new();
    assert!(try_alloc_cpu(&mut r, 4, true, 1));
    assert!(!try_alloc_cpu(&mut r, 4, false, 2));
    free_cpu(&mut r, 1, 3);
    assert_eq!(cpu_threads(&r), 3);
    assert_eq!(last_activity_cpu(&r), 3);
    assert!(try_alloc_dma(&mut r, 1, true, 1));
    assert!(try_alloc_memory(&mut r, 1, true, 1));
    assert!(try_register_irq(&mut r, true, 1));
    assert!(try_alloc_swap(&mut r, 1, true, 1));
    force_reset_dma(&mut r);
    assert_eq!((dma_allocated(&r), dma_alloc_count(&r), last_activity_dma(&r)), (0, 0, 0));
    assert_eq!(memory_allocated(&r), 1);
    force_reset_mem(&mut r);
    force_reset_irq(&mut r);
    force_reset_swap(&mut r);
    force_reset_cpu(&mut r);
    assert_eq!((memory_allocated(&r), irq_registered(&r), swap_allocated(&r), cpu_threads(&r)), (0, 0, 0, 0));
    set_dma_limit(&mut r, 5);
    assert!(try_alloc_swap(&mut r, 9, true, 9));
    reset_counters(&mut r);
    assert_eq!(swap_allocated(&r), 0);
    assert_eq!(dma_limit(&r), 5);
    let s = resources::snapshot(&r);
    assert_eq!(s.dma_limit, 5);
    assert_eq!(s.irq_limit, 256);
    assert!(!s.limits_enforced);
}

#[test]
fn platform_is_detected_once() {
    let mut c = PlatformCache::new();
    assert!(current(&c) == Platform::Unknown);
    assert!(platform::detect(&mut c, false, false, 0) == Platform::Hosted);
    // the first answer sticks
    assert!(platform::detect(&mut c, true, true, 1) == Platform::Hosted);
    let mut d = PlatformCache::new();
    assert!(platform::detect(&mut d, false, false, 4096) == Platform::BareMetal);
    platform::set(&mut d, Platform::Hosted);
    assert!(current(&d) == Platform::Hosted);
    assert!(from_u8(1) == Platform::BareMetal);
    assert!(from_u8(9) == Platform::Unknown);
}

#[test]
fn accelerator_registry() {
    let mut r = AccelRegistry::new();
    assert!(gpu_handle(&r, Architecture::X86_64).is_none());
    register_gpu(&mut r, 0xE000_0000, 0x100_0000, 0x10DE, 0x2204);
    register_tpu(&mut r, 0xF000_0000, 0x1000, 0x1AE0, 0x1);
    let g = gpu_handle(&r, Architecture::X86_64).unwrap();
    assert!(g.kind == AcceleratorKind::Gpu);
    assert!(g.arch == Architecture::X86_64);
    assert_eq!((g.mmio_base, g.mmio_size, g.vendor_id, g.device_id), (0xE000_0000, 0x100_0000, 0x10DE, 0x2204));
    assert!(g.initialized);
    assert!(g.is_ready(0x1));
    assert!(!g.is_ready(0x4));
    assert!(g.is_error(0x4));
    assert_eq!(tpu_handle(&r, Architecture::AArch64).unwrap().mmio_base, 0xF000_0000);
    assert!(lpu_handle(&r, Architecture::AArch64).is_none());
    register_lpu(&mut r, 1, 2, 3, 4);
    assert_eq!(lpu_handle(&r, Architecture::Other).unwrap().device_id, 4);
    assert!(component_present(Component::Gpu, false, &r));
    assert!(component_present(Component::Cpu, false, &r));
    assert!(!component_present(Component::Ram, false, &r));
    assert!(component_present(Component::Ram, true, &r));
}

#[test]
fn temperatures_and_limits() {
    let mut m = Monitor::new(Architecture::X86_64);
    assert_eq!(temp_limit(&m, Component::Cpu), DEFAULT_TEMP_LIMIT);
    assert_eq!(read_temperature(&mut m, Component::Cpu, 55_000), 55_000);
    // no reading keeps the last known temperature
    assert_eq!(read_temperature(&mut m, Component::Cpu, 0), 55_000);
    // implausible accelerator readings are ignored
    assert_eq!(read_temperature(&mut m, Component::Gpu, 250_000), 0);
    assert_eq!(read_temperature(&mut m, Component::Gpu, 70_000), 70_000);
    assert_eq!(read_temperature(&mut m, Component::Gpu, 300_000), 70_000);
    // memory has no sensor of its own
    set_temperature(&mut m, Component::Ram, 40_000);
    assert_eq!(read_temperature(&mut m, Component::Ram, 99_999), 40_000);
    set_temp_limit(&mut m, Component::Cpu, 60_000);
    assert_eq!(temp_limit(&m, Component::Cpu), 60_000);
    assert!(monitor::is_throttled(&mut m, Component::Cpu, 60_000));
    assert!(!monitor::is_throttled(&mut m, Component::Cpu, 59_999));
    assert!(!monitor::is_throttled(&mut m, Component::Tpu, 0));
    assert_eq!(read_cpu_temp(Some(42_000)), 42_000);
    assert_eq!(read_cpu_temp(None), 0);
    assert_eq!(read_accel_temp(Component::Gpu, Architecture::X86_64, 199_999), 199_999);
    assert_eq!(read_accel_temp(Component::Lpu, Architecture::AArch64, 42), 42);
    assert_eq!(read_accel_temp(Component::Tpu, Architecture::X86_64, 200_000), 0);
    // no accelerator register is read on another architecture, nor for the CPU or memory
    assert_eq!(read_accel_temp(Component::Gpu, Architecture::Other, 50_000), 0);
    assert_eq!(read_accel_temp(Component::Cpu, Architecture::X86_64, 50_000), 0);
}

#[test]
fn frequencies_are_clamped_to_their_bounds() {
    let mut m = Monitor::new(Architecture::X86_64);
    let mut dvfs = FrequencyCache::new();
    assert_eq!(monitor::frequency(&m, &mut dvfs, Component::Cpu, 0), 0);
    assert_eq!(monitor::frequency(&m, &mut dvfs, Component::Cpu, 2_000_000_000), 2_000_000_000);
    assert_eq!(monitor::frequency(&m, &mut dvfs, Component::Gpu, 2_000_000_000), 0);
    assert_eq!(set_freq_bounds(&mut m, &mut dvfs, Component::Gpu, 500, 1500), None);
    assert_eq!((freq_min(&m, Component::Gpu), freq_max(&m, Component::Gpu)), (500, 1500));
    assert_eq!(monitor::set_frequency(&mut m, &mut dvfs, Component::Gpu, 100), 500);
    assert_eq!(monitor::set_frequency(&mut m, &mut dvfs, Component::Gpu, 9999), 1500);
    assert_eq!(monitor::set_frequency(&mut m, &mut dvfs, Component::Gpu, 1000), 1000);
    assert_eq!(monitor::frequency(&m, &mut dvfs, Component::Gpu, 0), 1000);
    // narrowing the bounds pulls the running frequency in
    assert_eq!(set_freq_bounds(&mut m, &mut dvfs, Component::Gpu, 1200, 1400), Some(1200));
    assert_eq!(monitor::frequency(&m, &mut dvfs, Component::Gpu, 0), 1200);
    // setting the CPU frequency sets the DVFS target too
    assert_eq!(monitor::set_frequency(&mut m, &mut dvfs, Component::Cpu, 1_800_000_000), 1_800_000_000);
    assert_eq!(current_frequency(&mut dvfs, 0), 1_800_000_000);
    assert_eq!(apply_accel_freq(1_500_000_000), 1500);
}

#[test]
fn counters_and_precision() {
    let mut m = Monitor::new(Architecture::X86_64);
    record_ops(&mut m, Component::Tpu, 10);
    record_ops(&mut m, Component::Tpu, 5);
    assert_eq!(read_ops(&m, Component::Tpu), 15);
    reset_ops(&mut m, Component::Tpu);
    assert_eq!(read_ops(&m, Component::Tpu), 0);
    record_cycles(&mut m, Component::Gpu, 100);
    assert_eq!(read_cycles(&mut m, Component::Gpu, 5), 100);
    assert_eq!(read_cycles(&mut m, Component::Cpu, 777), 777);
    reset_cycles(&mut m, Component::Gpu);
    assert_eq!(read_cycles(&mut m, Component::Gpu, 5), 0);
    assert!(precision(&m, Component::Lpu) == Precision::Fp32);
    assert_eq!(element_size(&m, Component::Lpu), 4);
    for (p, size) in [
        (Precision::Fp16, 2),
        (Precision::Bf16, 2),
        (Precision::Int8, 1),
        (Precision::Int4, 1),
        (Precision::Fp32, 4),
    ] {
        set_precision(&mut m, Component::Lpu, p);
        assert!(precision(&m, Component::Lpu) == p);
        assert_eq!(element_size(&m, Component::Lpu), size);
    }
}

#[test]
fn snapshots_and_reset() {
    let mut m = Monitor::new(Architecture::X86_64);
    let mut dvfs = FrequencyCache::new();
    set_temp_limit(&mut m, Component::Gpu, 50_000);
    record_ops(&mut m, Component::Gpu, 3);
    let all = snapshot_all(&mut m, &mut dvfs, &[45_000, 1, 60_000, 0, 500_000], &[45_000, 1, 60_000, 0, 500_000], 1_000_000, 42);
    assert!(all[0].component == Component::Cpu);
    assert_eq!(all[0].temp_millideg, 45_000);
    assert_eq!(all[0].freq_hz, 1_000_000);
    assert_eq!(all[0].cycles, 42);
    assert!(!all[0].throttled);
    assert_eq!(all[1].temp_millideg, 0);
    assert_eq!(all[2].temp_millideg, 60_000);
    assert!(all[2].throttled);
    assert_eq!(all[2].temp_limit, 50_000);
    assert_eq!(all[2].ops, 3);
    assert_eq!(all[4].temp_millideg, 0);
    assert_eq!(all[4].freq_max, usize::MAX);
    reset_all(&mut m);
    assert_eq!(temp_limit(&m, Component::Gpu), DEFAULT_TEMP_LIMIT);
    assert_eq!(read_ops(&m, Component::Gpu), 0);
    assert_eq!(read_temperature(&mut m, Component::Gpu, 0), 0);
}

#[test]
fn worker_step_throttles_after_the_cooldown() {
    let mut m = Monitor::new(Architecture::X86_64);
    let mut dvfs = FrequencyCache::new();
    let mut t = WorkerTable::new();
    set_temp_limit(&mut m, Component::Gpu, 80_000);
    set_freq_bounds(&mut m, &mut dvfs, Component::Gpu, 100, 2000);
    monitor::set_frequency(&mut m, &mut dvfs, Component::Gpu, 1000);
    let mut w = WorkerLoop { comp: Component::Gpu, throttled_since: 0 };

    // hot, but the cooldown has not elapsed yet
    assert_eq!(worker_step(&mut w, &mut t, &mut m, &mut dvfs, 90_000, 90_000, 0, 0, 5_000_000), None);
    assert_eq!(w.throttled_since, 5_000_000);
    assert_eq!(throttle_count(&t, Component::Gpu), 1);
    assert_eq!(poll_count(&t, Component::Gpu), 1);
    assert_eq!(last_temperature(&t, Component::Gpu), 90_000);

    // still hot, more than a second later: the frequency drops by a tenth
    let later = 5_000_000 + 1_001_000_000 + 1_000_000;
    assert_eq!(worker_step(&mut w, &mut t, &mut m, &mut dvfs, 90_000, 90_000, 0, 0, later), Some(900));
    assert_eq!(monitor::frequency(&m, &mut dvfs, Component::Gpu, 0), 900);
    assert_eq!(throttle_count(&t, Component::Gpu), 2);

    // cooled down: the frequency comes back up by a twentieth
    assert_eq!(worker_step(&mut w, &mut t, &mut m, &mut dvfs, 60_000, 60_000, 0, 0, later + 1), Some(945));
    assert_eq!(w.throttled_since, 0);
    assert_eq!(throttle_count(&t, Component::Gpu), 2);
    assert_eq!(poll_count(&t, Component::Gpu), 3);

    // nothing to do once cool and not throttled
    assert_eq!(worker_step(&mut w, &mut t, &mut m, &mut dvfs, 60_000, 60_000, 0, 0, later + 2), None);
}

#[test]
fn throttling_never_goes_below_the_minimum() {
    let mut m = Monitor::new(Architecture::X86_64);
    let mut dvfs = FrequencyCache::new();
    let mut t = WorkerTable::new();
    set_temp_limit(&mut m, Component::Tpu, 1);
    set_freq_bounds(&mut m, &mut dvfs, Component::Tpu, 950, 2000);
    monitor::set_frequency(&mut m, &mut dvfs, Component::Tpu, 1000);
    let mut w = WorkerLoop { comp: Component::Tpu, throttled_since: 1 };
    assert_eq!(worker_step(&mut w, &mut t, &mut m, &mut dvfs, 5, 5, 0, 0, 3_000_000_000), Some(950));
}

#[test]
fn workers_start_and_stop() {
    let mut t = WorkerTable::new();
    let mut r = Resources::new();
    assert!(try_alloc_cpu(&mut r, 5, true, 1));
    assert!(!is_running(&t));
    assert_eq!(stop_workers(&mut t, &mut r, 2), [0; 5]);
    assert_eq!(spawn_workers(&mut t, &[true; 5], &[101, -1, 103, 0, 105]), 3);
    assert!(is_running(&t));
    assert_eq!(worker_count(&t), 3);
    // a second start changes nothing
    assert_eq!(spawn_workers(&mut t, &[true; 5], &[7, 7, 7, 7, 7]), 3);
    let snaps = all_snapshots(&t);
    assert_eq!(snaps[0].pid, 101);
    assert!(snaps[0].running);
    assert!(!snaps[1].running);
    assert!(snaps[4].component == Component::Lpu);
    assert_eq!(worker::snapshot(&t, Component::Tpu).pid, 0);
    assert_eq!(stop_workers(&mut t, &mut r, 9), [101, 0, 103, 0, 105]);
    // absent components get no worker
    let mut u = WorkerTable::new();
    assert_eq!(spawn_workers(&mut u, &[true, false, true, false, true], &[1, 2, 3, 4, 5]), 3);
    assert_eq!(worker::snapshot(&u, Component::Ram).pid, 0);
    assert_eq!(worker::snapshot(&u, Component::Lpu).pid, 5);
    assert!(!is_running(&t));
    assert_eq!(worker_count(&t), 0);
    assert_eq!(cpu_threads(&r), 2);
    assert_eq!(last_activity_cpu(&r), 9);
}

fn no_probe() -> AccelProbe {
    AccelProbe {
        gpu_initialized: false,
        tpu_initialized: false,
        lpu_initialized: false,
        gpu_window: (0, 0),
        dt_gpu: None,
        dt_tpu: None,
        dt_lpu: None,
    }
}

fn fresh_system(arch: Architecture, pci_gpu: Option<(usize, usize, usize, usize)>) -> System {
    let mut cache = PlatformCache::new();
    System::init(arch, AccelRegistry::new(), &no_probe(), pci_gpu, &mut cache, false, true, 0)
}

#[test]
fn system_initialisation() {
    let s = fresh_system(Architecture::X86_64, Some((0xE000_0000, 0x1000, 0x1002, 0x73BF)));
    assert!(s.is_ready());
    assert!(s.arch() == Architecture::X86_64);
    assert!(s.is_bare_metal());
    assert!(!s.is_hosted());
    assert!(s.platform() == Platform::BareMetal);
    let g = s.gpu().unwrap();
    assert_eq!((g.mmio_base, g.vendor_id), (0xE000_0000, 0x1002));
    assert!(s.tpu().is_none());
    assert!(s.lpu().is_none());
    assert_eq!(s.accel_count(), 1);
    assert!(s.accel_by_kind(AcceleratorKind::Gpu).is_some());
    assert!(s.accel_by_kind(AcceleratorKind::Lpu).is_none());
    let st = s.status(8 << 30);
    assert!(st.gpu_present && !st.tpu_present);
    assert_eq!(st.total_ram, 8 << 30);
    assert_eq!(system_signature(&s), 0);

    let mut known = AccelRegistry::new();
    register_gpu(&mut known, 1, 2, 3, 4);
    let mut cache = PlatformCache::new();
    let s2 = System::init(Architecture::AArch64, known, &no_probe(), Some((9, 9, 9, 9)), &mut cache, false, false, 0);
    // a GPU found before takes precedence over the PCI one
    assert_eq!(s2.gpu().unwrap().mmio_base, 1);
    assert!(s2.is_hosted());
}

#[test]
fn system_resources_and_monitoring() {
    let mut s = fresh_system(Architecture::X86_64, None);
    s.set_dma_limit(1000);
    s.set_memory_limit(10);
    s.set_irq_limit(3);
    s.enforce_limits(true);
    assert!(s.try_alloc_dma(600, true, 1));
    assert!(!s.try_alloc_dma(600, true, 2));
    assert!(s.try_alloc_memory(10, true, 3));
    assert!(!s.try_alloc_memory(1, true, 4));
    assert!(s.try_alloc_swap(5, true, 5));
    s.free_dma(600, 6);
    s.free_memory(10, 7);
    s.free_swap(5, 8);
    let r = s.resources();
    assert_eq!((r.dma_allocated, r.mem_allocated, r.swap_allocated, r.irq_limit), (0, 0, 0, 3));
    assert!(r.limits_enforced);

    s.set_temp_limit(Component::Cpu, 70_000);
    assert!(s.is_throttled(Component::Cpu, 75_000));
    assert_eq!(s.read_temperature(Component::Cpu, 0), 75_000);
    assert_eq!(s.set_freq_bounds(Component::Cpu, 1000, 2000), None);
    assert_eq!(s.set_frequency(Component::Cpu, 5000), 2000);
    assert_eq!(s.frequency(Component::Cpu, 0), 2000);
    assert_eq!(s.set_freq_bounds(Component::Cpu, 1000, 1500), Some(1500));
    s.record_ops(Component::Gpu, 9);
    assert_eq!(s.read_ops(Component::Gpu), 9);
    assert_eq!(s.read_cycles(Component::Cpu, 123), 123);
    s.set_precision(Component::Gpu, Precision::Int8);
    assert!(s.precision(Component::Gpu) == Precision::Int8);
    let c = s.component_snapshot(Component::Gpu, 0, 0, 0, 0);
    assert_eq!(c.ops, 9);
    assert!(c.precision == Precision::Int8);
    let all = s.all_snapshots(&[0; 5], &[0; 5], 0, 0);
    assert_eq!(all[0].freq_hz, 1500);
}

#[test]
fn system_workers_and_shutdown() {
    let mut s = fresh_system(Architecture::AArch64, None);
    assert_eq!(s.spawn_workers(true, &[11, 12, 0, 0, 0]), 2);
    assert!(s.workers_running());
    assert_eq!(s.worker_count(), 2);
    assert_eq!(s.worker_snapshot(Component::Ram).pid, 12);
    assert_eq!(s.all_worker_snapshots()[1].pid, 12);
    assert_eq!(s.stop_workers(5), [11, 12, 0, 0, 0]);
    assert!(!s.workers_running());
    assert_eq!(s.spawn_workers(false, &[21, 22, 23, 24, 25]), 1);
    assert!(s.try_alloc_dma(7, true, 1));
    assert_eq!(s.shutdown(10), [21, 0, 0, 0, 0]);
    assert!(!s.is_ready());
    assert!(!s.workers_running());
    assert_eq!(s.resources().dma_allocated, 0);
    set_system_signature(&mut s, 0xC0FFEE);
    assert_eq!(system_signature(&s), 0xC0FFEE);
}

#[test]
fn hardware_start_applies_the_defaults() {
    let mut accels = AccelRegistry::new();
    register_gpu(&mut accels, 0x1000, 0x10, 0x3, 0x4);
    let mut cache = PlatformCache::new();
    let mut s = System::init(Architecture::X86_64, accels, &no_probe(), None, &mut cache, true, false, 0);
    let readings = [50_000, 0, 60_000, 0, 0];
    let n = hardware_start(&mut s, 1 << 30, Some(3_000_000_000), &readings, &readings, 0, 77, true, &[10, 11, 0, -1, 14]);
    // no worker for the absent TPU and LPU, and the GPU's start failed
    assert_eq!(n, 2);
    assert_eq!(s.worker_snapshot(Component::Lpu).pid, 0);
    assert!(s.workers_running());
    let r = s.resources();
    assert!(r.limits_enforced);
    assert_eq!((r.dma_limit, r.mem_limit, r.irq_limit), (BRINGUP_DMA_LIMIT, BRINGUP_MEMORY_LIMIT, BRINGUP_IRQ_LIMIT));
    assert!(s.precision(Component::Gpu) == Precision::Fp16);
    assert!(s.precision(Component::Tpu) == Precision::Bf16);
    assert!(s.precision(Component::Lpu) == Precision::Int8);
    assert!(s.precision(Component::Cpu) == Precision::Fp32);
    // the CPU's bounds follow its reported frequency
    let cpu = s.component_snapshot(Component::Cpu, 0, 0, 0, 0);
    assert_eq!((cpu.freq_min, cpu.freq_max), (500_000_000, 3_000_000_000));
    assert_eq!(cpu.temp_limit, 95_000);
    assert_eq!(cpu.temp_millideg, 50_000);
    let gpu = s.component_snapshot(Component::Gpu, 0, 0, 0, 0);
    assert_eq!((gpu.freq_min, gpu.freq_max, gpu.temp_limit), (300_000_000, 2_500_000_000, 90_000));
    // status word, accelerator word, then the monitor word of the five snapshots
    let status_word = (1usize << 30) ^ 1;
    let accel_word = 0x1000 ^ 0x10 ^ 0x3 ^ 0x4;
    let monitor_word = (50_000usize ^ 77) ^ 60_000;
    assert_eq!(system_signature(&s), status_word ^ accel_word ^ monitor_word);
}

#[test]
fn hardware_start_without_a_reported_cpu_frequency() {
    let mut s = fresh_system(Architecture::AArch64, None);
    hardware_start(&mut s, 0, None, &[0; 5], &[0; 5], 0, 0, false, &[0; 5]);
    let cpu = s.component_snapshot(Component::Cpu, 0, 0, 0, 0);
    assert_eq!((cpu.freq_min, cpu.freq_max), (5_000_000_000 / 6, 5_000_000_000));
    assert_eq!(s.worker_count(), 0);
}

#[test]
fn the_throttling_check_uses_its_own_reading() {
    let mut m = Monitor::new(Architecture::X86_64);
    let mut dvfs = FrequencyCache::new();
    let mut t = WorkerTable::new();
    set_temp_limit(&mut m, Component::Gpu, 80_000);
    let mut w = WorkerLoop { comp: Component::Gpu, throttled_since: 0 };
    // the first reading is hot, but the second one, taken for the check, is not
    assert_eq!(worker_step(&mut w, &mut t, &mut m, &mut dvfs, 90_000, 70_000, 0, 0, 1), None);
    assert_eq!(w.throttled_since, 0);
    assert_eq!(throttle_count(&t, Component::Gpu), 0);
    assert_eq!(last_temperature(&t, Component::Gpu), 90_000);
    // the monitor keeps the later reading
    assert_eq!(read_temperature(&mut m, Component::Gpu, 0), 70_000);
    let snap = monitor::snapshot(&mut m, &mut dvfs, Component::Gpu, 60_000, 85_000, 0, 0);
    assert_eq!(snap.temp_millideg, 60_000);
    assert!(snap.throttled);
}

#[test]
fn accelerator_readings_need_a_known_architecture() {
    let mut m = Monitor::new(Architecture::Other);
    assert_eq!(read_temperature(&mut m, Component::Gpu, 70_000), 0);
    // the CPU's thermal zone is read everywhere
    assert_eq!(read_temperature(&mut m, Component::Cpu, 40_000), 40_000);
    reset_all(&mut m);
    assert_eq!(read_temperature(&mut m, Component::Tpu, 70_000), 0);
}

#[test]
fn accelerators_in_visiting_order() {
    let mut accels = AccelRegistry::new();
    register_lpu(&mut accels, 0x3000, 1, 2, 3);
    register_gpu(&mut accels, 0x1000, 1, 2, 3);
    let mut cache = PlatformCache::new();
    let s = System::init(Architecture::Other, accels, &no_probe(), None, &mut cache, false, false, 0);
    let hs = s.present_accels();
    assert_eq!(hs.len(), 2);
    assert!(hs[0].kind == AcceleratorKind::Gpu);
    assert!(hs[1].kind == AcceleratorKind::Lpu);
    assert_eq!(hs[1].mmio_base, 0x3000);
    assert!(!hs[0].registers_reachable());
    let x86 = fresh_system(Architecture::X86_64, Some((0x9000, 0x10, 1, 1)));
    assert!(x86.present_accels()[0].registers_reachable());
    // the cache holds the platform the system was brought up on
    assert!(current(&cache) == s.platform());
    assert!(s.platform() == Platform::Hosted);
}

#[test]
fn a_stopped_table_is_clear() {
    let mut t = WorkerTable::new();
    let mut r = Resources::new();
    assert_eq!(spawn_workers(&mut t, &[true; 5], &[3, 4, 5, 6, 7]), 5);
    assert_eq!(worker_count(&t), 5);
    stop_workers(&mut t, &mut r, 1);
    assert!(!is_running(&t));
    assert_eq!(worker_count(&t), 0);
    for comp in [Component::Cpu, Component::Ram, Component::Gpu, Component::Tpu, Component::Lpu] {
        assert_eq!(worker::snapshot(&t, comp).pid, 0);
    }
}

#[test]
fn freeing_after_a_wrapping_allocation_restores_the_total_only() {
    let mut r = Resources::new();
    assert!(try_alloc_dma(&mut r, usize::MAX - 5, true, 1));
    assert!(try_alloc_dma(&mut r, 10, true, 2));
    assert_eq!(dma_allocated(&r), 4);
    assert_eq!(dma_alloc_count(&r), 2);
    free_dma(&mut r, 10, 3);
    assert_eq!(dma_allocated(&r), usize::MAX - 5);
    // fewer bytes were outstanding than returned, so the count stays
    assert_eq!(dma_alloc_count(&r), 2);
}

#[test]
fn probed_accelerators_on_x86_64() {
    let mut r = AccelRegistry::new();
    let p = AccelProbe {
        gpu_initialized: true,
        tpu_initialized: true,
        lpu_initialized: false,
        gpu_window: (0xF000_0000, 0x100_0000),
        dt_gpu: Some((1, 2, 3)),
        dt_tpu: None,
        dt_lpu: None,
    };
    register_probed(&mut r, Architecture::X86_64, &p);
    let g = gpu_handle(&r, Architecture::X86_64).unwrap();
    assert_eq!((g.mmio_base, g.mmio_size, g.vendor_id, g.device_id), (0xF000_0000, 0x100_0000, 0, 0));
    let t = tpu_handle(&r, Architecture::X86_64).unwrap();
    assert_eq!((t.mmio_base, t.mmio_size), (0, 0));
    assert!(lpu_handle(&r, Architecture::X86_64).is_none());
}

#[test]
fn probed_accelerators_on_aarch64_come_from_the_devicetree() {
    let mut r = AccelRegistry::new();
    let p = AccelProbe {
        gpu_initialized: true,
        tpu_initialized: true,
        lpu_initialized: true,
        gpu_window: (0xF000_0000, 0x100_0000),
        dt_gpu: Some((0x2D00_0000, 0x1_0000, 33)),
        dt_tpu: None,
        dt_lpu: Some((0x2E00_0000, 0x2000, 34)),
    };
    register_probed(&mut r, Architecture::AArch64, &p);
    let g = gpu_handle(&r, Architecture::AArch64).unwrap();
    assert_eq!((g.mmio_base, g.mmio_size), (0x2D00_0000, 0x1_0000));
    let t = tpu_handle(&r, Architecture::AArch64).unwrap();
    assert_eq!((t.mmio_base, t.mmio_size), (0, 0));
    let l = lpu_handle(&r, Architecture::AArch64).unwrap();
    assert_eq!((l.mmio_base, l.mmio_size), (0x2E00_0000, 0x2000));
}

#[test]
fn probed_accelerators_elsewhere_change_nothing() {
    let mut r = AccelRegistry::new();
    register_tpu(&mut r, 0x10, 0x20, 1, 2);
    let p = AccelProbe {
        gpu_initialized: true,
        tpu_initialized: true,
        lpu_initialized: true,
        gpu_window: (0xF000_0000, 0x100_0000),
        dt_gpu: None,
        dt_tpu: None,
        dt_lpu: None,
    };
    register_probed(&mut r, Architecture::Other, &p);
    assert!(gpu_handle(&r, Architecture::Other).is_none());
    assert_eq!(tpu_handle(&r, Architecture::Other).unwrap().mmio_base, 0x10);
    assert!(lpu_handle(&r, Architecture::Other).is_none());
}

#[test]
fn system_init_registers_the_probed_gpu_before_pci() {
    let p = AccelProbe {
        gpu_initialized: true,
        tpu_initialized: false,
        lpu_initialized: false,
        gpu_window: (0xF000_0000, 0x100_0000),
        dt_gpu: None,
        dt_tpu: None,
        dt_lpu: None,
    };
    let mut cache = PlatformCache::new();
    let s = System::init(Architecture::X86_64, AccelRegistry::new(), &p, Some((9, 9, 9, 9)), &mut cache, true, false, 0);
    assert_eq!(s.gpu().unwrap().mmio_base, 0xF000_0000);
    assert_eq!(s.accel_count(), 1);
}

#[test]
fn admissibility_reads_without_recording() {
    let m = Monitor::new(Architecture::X86_64);
    let dvfs = FrequencyCache::new();
    let w = WorkerLoop { comp: Component::Cpu, throttled_since: 10 };
    // the platform's reading is consulted but not cached
    assert_eq!(frequency_seen(&m, &dvfs, Component::Cpu, 2_000_000_000), 2_000_000_000);
    assert_eq!(cached_frequency(&dvfs), 0);
    assert_eq!(frequency_seen(&m, &dvfs, Component::Gpu, 2_000_000_000), 0);
    assert!(step_admissible(&w, &m, &dvfs, 0, 0, 2_000_000_000, 0, 10));
    assert_eq!(cached_frequency(&dvfs), 0);
    // the clock behind the throttling start
    assert!(!step_admissible(&w, &m, &dvfs, 0, 0, 0, 0, 9));
    // a frequency with no room for a 5% raise
    assert!(!step_admissible(&w, &m, &dvfs, 0, 0, u64::MAX, 0, 10));
}
