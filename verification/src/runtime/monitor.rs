use vstd::prelude::*;
use crate::arch::Architecture;
use crate::arith::add_wrap;
use crate::power::dvfs::{current_frequency, set_frequency as dvfs_set_frequency, FrequencyCache};

verus! {

/// Monitored parts of the machine.
#[derive(Clone, Copy, PartialEq, Eq, Structural)]
pub enum Component {
    Cpu,
    Ram,
    Gpu,
    Tpu,
    Lpu,
}

/// Numeric formats an accelerator computes in.
#[derive(Clone, Copy, PartialEq, Eq, Structural)]
pub enum Precision {
    Fp32,
    Fp16,
    Bf16,
    Int8,
    Int4,
}

pub const COMP_COUNT: usize = 5;

/// The temperature limit every component starts with, in millidegrees.
pub const DEFAULT_TEMP_LIMIT: u32 = 105_000;

/// The per-component monitoring state: temperature and its limit (millidegrees), frequency and
/// its bounds (Hz), cycle and operation counters, and the precision code.
pub struct Monitor {
    arch: Architecture,
    temp: [u32; 5],
    limit: [u32; 5],
    freq: [usize; 5],
    fmin: [usize; 5],
    fmax: [usize; 5],
    cycles: [usize; 5],
    ops: [usize; 5],
    precision: [u32; 5],
}

/// The abstract monitoring state: one entry per component, indexed by `idx`.
#[verifier::ext_equal]
pub ghost struct MonitorView {
    pub arch: Architecture,
    pub temp: Seq<u32>,
    pub limit: Seq<u32>,
    pub freq: Seq<usize>,
    pub fmin: Seq<usize>,
    pub fmax: Seq<usize>,
    pub cycles: Seq<usize>,
    pub ops: Seq<usize>,
    pub precision: Seq<u32>,
}

impl View for Monitor {
    type V = MonitorView;

    closed spec fn view(&self) -> MonitorView {
        MonitorView {
            arch: self.arch,
            temp: self.temp@,
            limit: self.limit@,
            freq: self.freq@,
            fmin: self.fmin@,
            fmax: self.fmax@,
            cycles: self.cycles@,
            ops: self.ops@,
            precision: self.precision@,
        }
    }
}

/// The slot of a component.
pub open spec fn idx(c: Component) -> int {
    match c {
        Component::Cpu => 0,
        Component::Ram => 1,
        Component::Gpu => 2,
        Component::Tpu => 3,
        Component::Lpu => 4,
    }
}

pub open spec fn precision_code(p: Precision) -> u32 {
    match p {
        Precision::Fp32 => 0,
        Precision::Fp16 => 1,
        Precision::Bf16 => 2,
        Precision::Int8 => 3,
        Precision::Int4 => 4,
    }
}

pub open spec fn precision_of_code(v: u32) -> Precision {
    if v == 1 {
        Precision::Fp16
    } else if v == 2 {
        Precision::Bf16
    } else if v == 3 {
        Precision::Int8
    } else if v == 4 {
        Precision::Int4
    } else {
        Precision::Fp32
    }
}

/// Bytes per element of a precision.
pub open spec fn element_bytes(p: Precision) -> usize {
    match p {
        Precision::Fp32 => 4,
        Precision::Fp16 => 2,
        Precision::Bf16 => 2,
        Precision::Int8 => 1,
        Precision::Int4 => 1,
    }
}

/// An accelerator temperature register value is plausible when strictly between 0 and 200 °C.
pub open spec fn plausible_accel_temp(raw: u32) -> u32 {
    if raw > 0 && raw < 200_000 { raw } else { 0 }
}

/// An accelerator's temperature from its register value: the value when plausible, on an
/// architecture whose accelerator registers can be read (x86-64 and AArch64); 0 otherwise, and
/// 0 for a component that is no accelerator.
pub open spec fn accel_temp(c: Component, arch: Architecture, raw: u32) -> u32 {
    if (c == Component::Gpu || c == Component::Tpu || c == Component::Lpu) && (arch
        == Architecture::X86_64 || arch == Architecture::AArch64) {
        plausible_accel_temp(raw)
    } else {
        0
    }
}

/// The hardware temperature of a component given its sensor reading: the CPU's thermal-zone
/// temperature as is, an accelerator's temperature register (see `accel_temp`), nothing for RAM.
pub open spec fn hw_temp(arch: Architecture, c: Component, reading: u32) -> u32 {
    match c {
        Component::Cpu => reading,
        Component::Ram => 0,
        _ => accel_temp(c, arch, reading),
    }
}

/// The temperature after a reading: a non-zero hardware temperature, else the last known one.
pub open spec fn temp_after(m: MonitorView, c: Component, reading: u32) -> u32 {
    if hw_temp(m.arch, c, reading) != 0 { hw_temp(m.arch, c, reading) } else { m.temp[idx(c)] }
}

/// The monitoring state after a reading.
pub open spec fn read_effect(m: MonitorView, c: Component, reading: u32) -> MonitorView {
    MonitorView { temp: m.temp.update(idx(c), temp_after(m, c, reading)), ..m }
}

/// The frequency `frequency` reports: the recorded one if any, else for the CPU the cached CPU
/// frequency or else the platform's reading, else 0.
pub open spec fn freq_seen(m: MonitorView, dvfs_hz: usize, c: Component, sysfs_hz: u64) -> usize {
    if m.freq[idx(c)] != 0 {
        m.freq[idx(c)]
    } else if c == Component::Cpu {
        let cached = dvfs_hz as u64;
        (if cached > 0 { cached } else if sysfs_hz > 0 { sysfs_hz } else { 0 }) as usize
    } else {
        0
    }
}

/// The cached CPU frequency after `frequency` ran: the platform's reading is cached when it was
/// consulted and non-zero.
pub open spec fn dvfs_after_read(m: MonitorView, dvfs_hz: usize, c: Component, sysfs_hz: u64) -> usize {
    if m.freq[idx(c)] == 0 && c == Component::Cpu && dvfs_hz as u64 == 0 && sysfs_hz > 0 {
        sysfs_hz as usize
    } else {
        dvfs_hz
    }
}

/// A frequency request clamped to a component's bounds: below the minimum gives the minimum,
/// otherwise above the maximum gives the maximum.
pub open spec fn clamp(hz: usize, min: usize, max: usize) -> usize {
    if hz < min { min } else if hz > max { max } else { hz }
}

/// The register value that programs an accelerator's clock: the frequency in MHz (truncated to
/// 32 bits).
pub open spec fn accel_freq_reg(hz: usize) -> u32 {
    (hz / 1_000_000) as u32
}

impl Monitor {
    pub open spec fn wf_view(v: MonitorView) -> bool {
        &&& v.temp.len() == 5
        &&& v.limit.len() == 5
        &&& v.freq.len() == 5
        &&& v.fmin.len() == 5
        &&& v.fmax.len() == 5
        &&& v.cycles.len() == 5
        &&& v.ops.len() == 5
        &&& v.precision.len() == 5
    }

    /// The power-on state: no temperature known, limits at 105 °C, no frequency known, bounds
    /// 0 to `usize::MAX`, counters zero, FP32.
    pub open spec fn initial(arch: Architecture) -> MonitorView {
        MonitorView {
            arch,
            temp: Seq::new(5, |i: int| 0u32),
            limit: Seq::new(5, |i: int| DEFAULT_TEMP_LIMIT),
            freq: Seq::new(5, |i: int| 0usize),
            fmin: Seq::new(5, |i: int| 0usize),
            fmax: Seq::new(5, |i: int| usize::MAX),
            cycles: Seq::new(5, |i: int| 0usize),
            ops: Seq::new(5, |i: int| 0usize),
            precision: Seq::new(5, |i: int| 0u32),
        }
    }

    /// Every per-component sequence has one entry per component.
    pub proof fn lemma_view_wf(&self)
        ensures
            Self::wf_view(self@),
    {
    }

    pub fn new(arch: Architecture) -> (m: Self)
        ensures
            m@ == Self::initial(arch),
    {
        let m = Monitor {
            arch,
            temp: [0; 5],
            limit: [105_000; 5],
            freq: [0; 5],
            fmin: [0; 5],
            fmax: [usize::MAX; 5],
            cycles: [0; 5],
            ops: [0; 5],
            precision: [0; 5],
        };
        assert(m@ =~= Self::initial(arch));
        m
    }
}

fn comp_idx(c: Component) -> (i: usize)
    ensures
        i == idx(c),
        i < 5,
{
    match c {
        Component::Cpu => 0,
        Component::Ram => 1,
        Component::Gpu => 2,
        Component::Tpu => 3,
        Component::Lpu => 4,
    }
}

fn precision_to_u32(p: Precision) -> (v: u32)
    ensures
        v == precision_code(p),
{
    match p {
        Precision::Fp32 => 0,
        Precision::Fp16 => 1,
        Precision::Bf16 => 2,
        Precision::Int8 => 3,
        Precision::Int4 => 4,
    }
}

fn u32_to_precision(v: u32) -> (p: Precision)
    ensures
        p == precision_of_code(v),
{
    match v {
        1 => Precision::Fp16,
        2 => Precision::Bf16,
        3 => Precision::Int8,
        4 => Precision::Int4,
        _ => Precision::Fp32,
    }
}

/// The temperature of `comp` given its sensor `reading` (see `hw_temp`): a non-zero hardware
/// temperature is recorded and returned, otherwise the last recorded one is returned.
pub fn read_temperature(m: &mut Monitor, comp: Component, reading: u32) -> (t: u32)
    ensures
        t == temp_after(old(m)@, comp, reading),
        final(m)@ == read_effect(old(m)@, comp, reading),
{
    let idx = comp_idx(comp);
    let hw = match comp {
        Component::Cpu => reading,
        Component::Gpu => read_accel_temp(comp, m.arch, reading),
        Component::Tpu => read_accel_temp(comp, m.arch, reading),
        Component::Lpu => read_accel_temp(comp, m.arch, reading),
        Component::Ram => 0,
    };
    if hw != 0 {
        m.temp[idx] = hw;
        return hw;
    }
    let t = m.temp[idx];
    assert(m@ =~= read_effect(old(m)@, comp, reading));
    t
}

pub fn set_temperature(m: &mut Monitor, comp: Component, millideg: u32)
    ensures
        final(m)@ == (MonitorView { temp: old(m)@.temp.update(idx(comp), millideg), ..old(m)@ }),
{
    m.temp[comp_idx(comp)] = millideg;
}

pub fn set_temp_limit(m: &mut Monitor, comp: Component, millideg: u32)
    ensures
        final(m)@ == (MonitorView { limit: old(m)@.limit.update(idx(comp), millideg), ..old(m)@ }),
{
    m.limit[comp_idx(comp)] = millideg;
}

pub fn temp_limit(m: &Monitor, comp: Component) -> (l: u32)
    ensures
        l == m@.limit[idx(comp)],
{
    m.limit[comp_idx(comp)]
}

/// Reads the temperature (as `read_temperature`) and reports whether it is known and at or
/// above the component's limit.
pub fn is_throttled(m: &mut Monitor, comp: Component, reading: u32) -> (b: bool)
    ensures
        final(m)@ == read_effect(old(m)@, comp, reading),
        b == (temp_after(old(m)@, comp, reading) > 0 && temp_after(old(m)@, comp, reading) >= old(m)@.limit[idx(comp)]),
{
    let current = read_temperature(m, comp, reading);
    let limit = temp_limit(m, comp);
    current > 0 && current >= limit
}

/// Sets the frequency of `comp`, clamped to its bounds, and returns the value set; the CPU's is
/// also recorded as the CPU frequency. An accelerator is then programmed by the caller with
/// `apply_accel_freq` of the returned value.
pub fn set_frequency(m: &mut Monitor, dvfs: &mut FrequencyCache, comp: Component, hz: usize) -> (set: usize)
    ensures
        set == clamp(hz, old(m)@.fmin[idx(comp)], old(m)@.fmax[idx(comp)]),
        final(m)@ == (MonitorView { freq: old(m)@.freq.update(idx(comp), set), ..old(m)@ }),
        comp == Component::Cpu ==> final(dvfs).hz() == set as u64 as usize,
        comp != Component::Cpu ==> final(dvfs).hz() == old(dvfs).hz(),
{
    let idx = comp_idx(comp);
    let min = m.fmin[idx];
    let max = m.fmax[idx];
    let clamped = if hz < min {
        min
    } else if hz > max {
        max
    } else {
        hz
    };
    m.freq[idx] = clamped;
    if comp == Component::Cpu {
        dvfs_set_frequency(dvfs, clamped as u64);
    }
    clamped
}

/// The frequency of `comp`: the recorded one if any, else for the CPU its frequency as
/// `current_frequency` gives it (with the platform's reading `sysfs_hz`), else 0.
pub fn frequency(m: &Monitor, dvfs: &mut FrequencyCache, comp: Component, sysfs_hz: u64) -> (f: usize)
    ensures
        f == freq_seen(m@, old(dvfs).hz(), comp, sysfs_hz),
        final(dvfs).hz() == dvfs_after_read(m@, old(dvfs).hz(), comp, sysfs_hz),
{
    let idx = comp_idx(comp);
    let stored = m.freq[idx];
    if stored != 0 {
        return stored;
    }
    if comp == Component::Cpu {
        return current_frequency(dvfs, sysfs_hz) as usize;
    }
    0
}

/// The frequency `frequency` would report, read without recording the platform's reading.
pub fn frequency_seen(m: &Monitor, dvfs: &FrequencyCache, comp: Component, sysfs_hz: u64) -> (f: usize)
    ensures
        f == freq_seen(m@, dvfs.hz(), comp, sysfs_hz),
{
    let idx = comp_idx(comp);
    let stored = m.freq[idx];
    if stored != 0 {
        return stored;
    }
    if comp == Component::Cpu {
        let cached = crate::power::dvfs::cached_frequency(dvfs) as u64;
        let v: u64 = if cached > 0 {
            cached
        } else if sysfs_hz > 0 {
            sysfs_hz
        } else {
            0
        };
        return #[verifier::truncate] (v as usize);
    }
    0
}

/// The frequency re-set when `comp`'s bounds become `min_hz..=max_hz`: a known frequency outside
/// them, clamped (and then clamped once more by `set_frequency` with the new bounds).
pub open spec fn bounds_reset(m: MonitorView, comp: Component, min_hz: usize, max_hz: usize) -> Option<usize> {
    let cur = m.freq[idx(comp)];
    let c = if cur < min_hz { min_hz } else if cur > max_hz { max_hz } else { cur };
    if cur != 0 && c != cur { Some(clamp(c, min_hz, max_hz)) } else { None }
}

/// The monitoring state after `comp`'s bounds become `min_hz..=max_hz`.
pub open spec fn bounds_effect(m: MonitorView, comp: Component, min_hz: usize, max_hz: usize) -> MonitorView {
    let i = idx(comp);
    let bounded = MonitorView { fmin: m.fmin.update(i, min_hz), fmax: m.fmax.update(i, max_hz), ..m };
    match bounds_reset(m, comp, min_hz, max_hz) {
        Some(v) => MonitorView { freq: bounded.freq.update(i, v), ..bounded },
        None => bounded,
    }
}

/// Sets the frequency bounds of `comp`; a known frequency outside them is set again to the
/// clamped value (through `set_frequency`, with the new bounds), which is returned.
pub fn set_freq_bounds(m: &mut Monitor, dvfs: &mut FrequencyCache, comp: Component, min_hz: usize, max_hz: usize) -> (reset: Option<usize>)
    ensures
        reset == bounds_reset(old(m)@, comp, min_hz, max_hz),
        final(m)@ == bounds_effect(old(m)@, comp, min_hz, max_hz),
        final(dvfs).hz() == match bounds_reset(old(m)@, comp, min_hz, max_hz) {
            Some(v) => if comp == Component::Cpu { v as u64 as usize } else { old(dvfs).hz() },
            None => old(dvfs).hz(),
        },
{
    let idx = comp_idx(comp);
    m.fmin[idx] = min_hz;
    m.fmax[idx] = max_hz;
    let current = m.freq[idx];
    if current != 0 {
        let clamped = if current < min_hz {
            min_hz
        } else if current > max_hz {
            max_hz
        } else {
            current
        };
        if clamped != current {
            return Some(set_frequency(m, dvfs, comp, clamped));
        }
    }
    None
}

pub fn freq_min(m: &Monitor, comp: Component) -> (f: usize)
    ensures
        f == m@.fmin[idx(comp)],
{
    m.fmin[comp_idx(comp)]
}

pub fn freq_max(m: &Monitor, comp: Component) -> (f: usize)
    ensures
        f == m@.fmax[idx(comp)],
{
    m.fmax[comp_idx(comp)]
}

/// Adds `count` cycles to the component's counter (wrapping).
pub fn record_cycles(m: &mut Monitor, comp: Component, count: usize)
    ensures
        final(m)@ == (MonitorView {
            cycles: old(m)@.cycles.update(idx(comp), add_wrap(old(m)@.cycles[idx(comp)], count)),
            ..old(m)@
        }),
{
    let i = comp_idx(comp);
    m.cycles[i] = m.cycles[i].wrapping_add(count);
}

/// The cycle counter of `comp`; for the CPU the timestamp counter (`timestamp`) is recorded as
/// the count first.
pub fn read_cycles(m: &mut Monitor, comp: Component, timestamp: u64) -> (c: usize)
    ensures
        comp == Component::Cpu ==> c == timestamp as usize
            && final(m)@ == (MonitorView { cycles: old(m)@.cycles.update(0, timestamp as usize), ..old(m)@ }),
        comp != Component::Cpu ==> c == old(m)@.cycles[idx(comp)] && final(m)@ == old(m)@,
{
    let idx = comp_idx(comp);
    if comp == Component::Cpu {
        m.cycles[idx] = timestamp as usize;
        return timestamp as usize;
    }
    m.cycles[idx]
}

pub fn reset_cycles(m: &mut Monitor, comp: Component)
    ensures
        final(m)@ == (MonitorView { cycles: old(m)@.cycles.update(idx(comp), 0), ..old(m)@ }),
{
    m.cycles[comp_idx(comp)] = 0;
}

/// Adds `count` operations to the component's counter (wrapping).
pub fn record_ops(m: &mut Monitor, comp: Component, count: usize)
    ensures
        final(m)@ == (MonitorView {
            ops: old(m)@.ops.update(idx(comp), add_wrap(old(m)@.ops[idx(comp)], count)),
            ..old(m)@
        }),
{
    let i = comp_idx(comp);
    m.ops[i] = m.ops[i].wrapping_add(count);
}

pub fn read_ops(m: &Monitor, comp: Component) -> (n: usize)
    ensures
        n == m@.ops[idx(comp)],
{
    m.ops[comp_idx(comp)]
}

pub fn reset_ops(m: &mut Monitor, comp: Component)
    ensures
        final(m)@ == (MonitorView { ops: old(m)@.ops.update(idx(comp), 0), ..old(m)@ }),
{
    m.ops[comp_idx(comp)] = 0;
}

pub fn set_precision(m: &mut Monitor, comp: Component, prec: Precision)
    ensures
        final(m)@ == (MonitorView {
            precision: old(m)@.precision.update(idx(comp), precision_code(prec)),
            ..old(m)@
        }),
{
    m.precision[comp_idx(comp)] = precision_to_u32(prec);
}

pub fn precision(m: &Monitor, comp: Component) -> (p: Precision)
    ensures
        p == precision_of_code(m@.precision[idx(comp)]),
{
    u32_to_precision(m.precision[comp_idx(comp)])
}

/// A precision that was set reads back as set.
pub proof fn law_precision_round_trip(p: Precision)
    ensures
        precision_of_code(precision_code(p)) == p,
{
}

/// Bytes per element in the component's precision.
pub fn element_size(m: &Monitor, comp: Component) -> (n: usize)
    ensures
        n == element_bytes(precision_of_code(m@.precision[idx(comp)])),
{
    match precision(m, comp) {
        Precision::Fp32 => 4,
        Precision::Fp16 => 2,
        Precision::Bf16 => 2,
        Precision::Int8 => 1,
        Precision::Int4 => 1,
    }
}

/// Everything known about one component at one moment.
pub struct ComponentSnapshot {
    pub component: Component,
    pub temp_millideg: u32,
    pub temp_limit: u32,
    pub throttled: bool,
    pub freq_hz: usize,
    pub freq_min: usize,
    pub freq_max: usize,
    pub cycles: usize,
    pub ops: usize,
    pub precision: Precision,
}

/// The snapshot of `comp` taken in state `m` (see `snapshot`).
pub open spec fn snapshot_of(m: MonitorView, dvfs_hz: usize, comp: Component, reading: u32, recheck: u32, sysfs_hz: u64, timestamp: u64) -> ComponentSnapshot {
    let i = idx(comp);
    let t = temp_after(m, comp, reading);
    let t2 = temp_after(read_effect(m, comp, reading), comp, recheck);
    ComponentSnapshot {
        component: comp,
        temp_millideg: t,
        temp_limit: m.limit[i],
        throttled: t2 > 0 && t2 >= m.limit[i],
        freq_hz: freq_seen(m, dvfs_hz, comp, sysfs_hz),
        freq_min: m.fmin[i],
        freq_max: m.fmax[i],
        cycles: if comp == Component::Cpu { timestamp as usize } else { m.cycles[i] },
        ops: m.ops[i],
        precision: precision_of_code(m.precision[i]),
    }
}

/// The monitoring state after taking a snapshot: both readings recorded in turn and, for the
/// CPU, the timestamp recorded as its cycle count.
pub open spec fn snapshot_effect(m: MonitorView, comp: Component, reading: u32, recheck: u32, timestamp: u64) -> MonitorView {
    let r = read_effect(read_effect(m, comp, reading), comp, recheck);
    if comp == Component::Cpu {
        MonitorView { cycles: r.cycles.update(0, timestamp as usize), ..r }
    } else {
        r
    }
}

/// The snapshot of `comp` given its sensor reading, a second reading taken for the throttling
/// check, the platform's CPU frequency reading and the timestamp counter; taking it records the
/// readings (and, for the CPU, the timestamp as cycles).
pub fn snapshot(m: &mut Monitor, dvfs: &mut FrequencyCache, comp: Component, reading: u32, recheck: u32, sysfs_hz: u64, timestamp: u64) -> (s: ComponentSnapshot)
    ensures
        s == snapshot_of(old(m)@, old(dvfs).hz(), comp, reading, recheck, sysfs_hz, timestamp),
        final(m)@ == snapshot_effect(old(m)@, comp, reading, recheck, timestamp),
        final(dvfs).hz() == dvfs_after_read(old(m)@, old(dvfs).hz(), comp, sysfs_hz),
{
    let temp_millideg = read_temperature(m, comp, reading);
    let temp_limit = temp_limit(m, comp);
    let throttled = is_throttled(m, comp, recheck);
    let freq_hz = frequency(m, dvfs, comp, sysfs_hz);
    let freq_min = freq_min(m, comp);
    let freq_max = freq_max(m, comp);
    let cycles = read_cycles(m, comp, timestamp);
    let ops = read_ops(m, comp);
    let precision = precision(m, comp);
    ComponentSnapshot {
        component: comp,
        temp_millideg,
        temp_limit,
        throttled,
        freq_hz,
        freq_min,
        freq_max,
        cycles,
        ops,
        precision,
    }
}

/// What taking the five snapshots in component order does to the monitor.
pub open spec fn snapshot_all_effect(m: MonitorView, readings: [u32; 5], rechecks: [u32; 5], timestamp: u64) -> MonitorView {
    let m1 = snapshot_effect(m, Component::Cpu, readings[0], rechecks[0], timestamp);
    let m2 = snapshot_effect(m1, Component::Ram, readings[1], rechecks[1], timestamp);
    let m3 = snapshot_effect(m2, Component::Gpu, readings[2], rechecks[2], timestamp);
    let m4 = snapshot_effect(m3, Component::Tpu, readings[3], rechecks[3], timestamp);
    snapshot_effect(m4, Component::Lpu, readings[4], rechecks[4], timestamp)
}

/// Snapshots of all five components, in slot order, given each one's two sensor readings; each
/// is the snapshot of that component in the state before the call.
pub fn snapshot_all(m: &mut Monitor, dvfs: &mut FrequencyCache, readings: &[u32; 5], rechecks: &[u32; 5], sysfs_hz: u64, timestamp: u64) -> (s: [ComponentSnapshot; 5])
    ensures
        final(m)@ == snapshot_all_effect(old(m)@, *readings, *rechecks, timestamp),
        final(dvfs).hz() == dvfs_after_read(old(m)@, old(dvfs).hz(), Component::Cpu, sysfs_hz),
        s[0] == snapshot_of(old(m)@, old(dvfs).hz(), Component::Cpu, readings[0], rechecks[0], sysfs_hz, timestamp),
        s[1] == snapshot_of(old(m)@, old(dvfs).hz(), Component::Ram, readings[1], rechecks[1], sysfs_hz, timestamp),
        s[2] == snapshot_of(old(m)@, old(dvfs).hz(), Component::Gpu, readings[2], rechecks[2], sysfs_hz, timestamp),
        s[3] == snapshot_of(old(m)@, old(dvfs).hz(), Component::Tpu, readings[3], rechecks[3], sysfs_hz, timestamp),
        s[4] == snapshot_of(old(m)@, old(dvfs).hz(), Component::Lpu, readings[4], rechecks[4], sysfs_hz, timestamp),
{
    let ghost m0 = m@;
    let ghost d0 = dvfs.hz();
    proof {
        m.lemma_view_wf();
    }
    let s0 = snapshot(m, dvfs, Component::Cpu, readings[0], rechecks[0], sysfs_hz, timestamp);
    let ghost m1 = m@;
    proof {
        m.lemma_view_wf();
        assert(m1.temp[1] == m0.temp[1] && m1.temp[2] == m0.temp[2] && m1.temp[3] == m0.temp[3] && m1.temp[4] == m0.temp[4]);
        assert(m1.cycles[1] == m0.cycles[1] && m1.cycles[2] == m0.cycles[2] && m1.cycles[3] == m0.cycles[3] && m1.cycles[4] == m0.cycles[4]);
    }
    let s1 = snapshot(m, dvfs, Component::Ram, readings[1], rechecks[1], sysfs_hz, timestamp);
    let ghost m2 = m@;
    proof {
        m.lemma_view_wf();
        assert(m2.temp[2] == m0.temp[2] && m2.temp[3] == m0.temp[3] && m2.temp[4] == m0.temp[4]);
    }
    let s2 = snapshot(m, dvfs, Component::Gpu, readings[2], rechecks[2], sysfs_hz, timestamp);
    let ghost m3 = m@;
    proof {
        m.lemma_view_wf();
        assert(m3.temp[3] == m0.temp[3] && m3.temp[4] == m0.temp[4]);
    }
    let s3 = snapshot(m, dvfs, Component::Tpu, readings[3], rechecks[3], sysfs_hz, timestamp);
    let ghost m4 = m@;
    proof {
        m.lemma_view_wf();
        assert(m4.temp[4] == m0.temp[4]);
    }
    let s4 = snapshot(m, dvfs, Component::Lpu, readings[4], rechecks[4], sysfs_hz, timestamp);
    [s0, s1, s2, s3, s4]
}

/// Returns every component to the power-on state.
pub fn reset_all(m: &mut Monitor)
    ensures
        final(m)@ == Monitor::initial(old(m)@.arch),
{
    let mut i: usize = 0;
    while i < COMP_COUNT
        invariant
            i <= 5,
            m.arch == old(m).arch,
            forall|k: int| 0 <= k < i ==> m.temp@[k] == 0 && m.limit@[k] == DEFAULT_TEMP_LIMIT
                && m.freq@[k] == 0 && m.fmin@[k] == 0 && m.fmax@[k] == usize::MAX
                && m.cycles@[k] == 0 && m.ops@[k] == 0 && m.precision@[k] == 0,
        decreases 5 - i,
    {
        m.temp[i] = 0;
        m.limit[i] = DEFAULT_TEMP_LIMIT;
        m.freq[i] = 0;
        m.fmin[i] = 0;
        m.fmax[i] = usize::MAX;
        m.cycles[i] = 0;
        m.ops[i] = 0;
        m.precision[i] = 0;
        i += 1;
    }
    assert(m@ =~= Monitor::initial(old(m)@.arch));
}

/// The CPU temperature from thermal zone 0, or 0 when the zone gives none.
pub fn read_cpu_temp(zone0: Option<u32>) -> (t: u32)
    ensures
        t == match zone0 {
            Some(z) => z,
            None => 0,
        },
{
    if let Some(zone_temp) = zone0 {
        return zone_temp;
    }
    0
}

/// An accelerator's temperature from the value its temperature register (offset 0x08) reads
/// (see `accel_temp`): the register is read only on x86-64 and AArch64, and its value is kept
/// only when plausible.
pub fn read_accel_temp(comp: Component, arch: Architecture, raw: u32) -> (t: u32)
    ensures
        t == accel_temp(comp, arch, raw),
{
    let value = match (comp, arch) {
        (Component::Gpu, Architecture::X86_64) => raw,
        (Component::Gpu, Architecture::AArch64) => raw,
        (Component::Tpu, Architecture::X86_64) => raw,
        (Component::Tpu, Architecture::AArch64) => raw,
        (Component::Lpu, Architecture::X86_64) => raw,
        (Component::Lpu, Architecture::AArch64) => raw,
        _ => 0,
    };
    if value > 0 && value < 200_000 {
        return value;
    }
    0
}

/// The clock register value (offset 0x0C) that programs an accelerator to `hz`.
pub fn apply_accel_freq(hz: usize) -> (v: u32)
    ensures
        v == accel_freq_reg(hz),
{
    (hz / 1_000_000) as u32
}

/// Clamping to bounds with the minimum at most the maximum lands within the bounds, and keeps a
/// frequency already within them.
pub proof fn law_clamp_within_bounds(hz: usize, min: usize, max: usize)
    requires
        min <= max,
    ensures
        min <= clamp(hz, min, max) <= max,
        min <= hz <= max ==> clamp(hz, min, max) == hz,
{
}

/// After new bounds with `min <= max` are set, a component whose frequency is known runs within
/// them, and the bounds read back are the ones set; nothing else of the monitor changes.
pub proof fn law_bounds_hold_after_setting(m: MonitorView, comp: Component, min_hz: usize, max_hz: usize)
    requires
        Monitor::wf_view(m),
        min_hz <= max_hz,
    ensures
        ({
            let after = bounds_effect(m, comp, min_hz, max_hz);
            &&& after.fmin[idx(comp)] == min_hz
            &&& after.fmax[idx(comp)] == max_hz
            &&& m.freq[idx(comp)] != 0 ==> min_hz <= after.freq[idx(comp)] <= max_hz
            &&& m.freq[idx(comp)] == 0 ==> after.freq[idx(comp)] == 0
            &&& after.temp == m.temp && after.limit == m.limit && after.cycles == m.cycles
            &&& after.ops == m.ops && after.precision == m.precision
        }),
{
}

/// A temperature set for a component is what reading it gives while its sensor reports
/// nothing new.
pub proof fn law_set_then_read_temperature(m: MonitorView, comp: Component, millideg: u32)
    requires
        Monitor::wf_view(m),
    ensures
        temp_after(MonitorView { temp: m.temp.update(idx(comp), millideg), ..m }, comp, 0) == millideg,
{
}

} // verus!
