use vstd::prelude::*;
use crate::arch::Architecture;
use crate::arith::{add_wrap, sub_wrap};
use crate::power::dvfs::FrequencyCache;
use crate::runtime::handle::{gpu_handle, lpu_handle, tpu_handle, AccelRegistry};
use crate::runtime::monitor::{
    self, clamp, freq_seen, idx, read_effect, temp_after, Component, Monitor, MonitorView,
};
use crate::runtime::resources::{free_cpu, ResourceView, Resources};

verus! {

pub const MAX_WORKERS: usize = 5;
/// How long a worker sleeps between polls, in milliseconds.
pub const POLL_INTERVAL_MS: u64 = 250;
/// How long a component must stay throttled before its frequency is lowered, in milliseconds.
pub const THROTTLE_COOLDOWN_MS: u64 = 1000;

/// The monitoring workers: whether they run, each component's worker process id (0 for none),
/// how many were started, and per component the polls, throttled polls and last temperature.
pub struct WorkerTable {
    running: bool,
    pids: [i32; 5],
    count: usize,
    polls: [usize; 5],
    throttles: [usize; 5],
    last_temp: [u32; 5],
}

#[verifier::ext_equal]
pub ghost struct WorkerView {
    pub running: bool,
    pub pids: Seq<i32>,
    pub count: usize,
    pub polls: Seq<usize>,
    pub throttles: Seq<usize>,
    pub last_temp: Seq<u32>,
}

impl View for WorkerTable {
    type V = WorkerView;

    closed spec fn view(&self) -> WorkerView {
        WorkerView {
            running: self.running,
            pids: self.pids@,
            count: self.count,
            polls: self.polls@,
            throttles: self.throttles@,
            last_temp: self.last_temp@,
        }
    }
}

impl WorkerTable {
    /// At most five workers are counted, and while the workers are stopped none is counted and
    /// no process id is kept.
    #[verifier::type_invariant]
    spec fn stopped_table_is_clear(self) -> bool {
        &&& self.count <= MAX_WORKERS
        &&& !self.running ==> self.count == 0 && forall|i: int| 0 <= i < 5 ==> self.pids@[i] == 0
    }

    /// Each per-component sequence of the view has one entry per component.
    pub proof fn lemma_view_shape(&self)
        ensures
            self@.pids.len() == 5,
            self@.polls.len() == 5,
            self@.throttles.len() == 5,
            self@.last_temp.len() == 5,
    {
    }

    /// No worker started, all counters zero.
    pub fn new() -> (t: Self)
        ensures
            t@ == (WorkerView {
                running: false,
                pids: Seq::new(5, |i: int| 0i32),
                count: 0,
                polls: Seq::new(5, |i: int| 0usize),
                throttles: Seq::new(5, |i: int| 0usize),
                last_temp: Seq::new(5, |i: int| 0u32),
            }),
    {
        let t = WorkerTable {
            running: false,
            pids: [0; 5],
            count: 0,
            polls: [0; 5],
            throttles: [0; 5],
            last_temp: [0; 5],
        };
        assert(t@ =~= WorkerView {
            running: false,
            pids: Seq::new(5, |i: int| 0i32),
            count: 0,
            polls: Seq::new(5, |i: int| 0usize),
            throttles: Seq::new(5, |i: int| 0usize),
            last_temp: Seq::new(5, |i: int| 0u32),
        });
        t
    }
}

/// The components in worker order.
pub open spec fn component_at(i: int) -> Component {
    if i == 0 {
        Component::Cpu
    } else if i == 1 {
        Component::Ram
    } else if i == 2 {
        Component::Gpu
    } else if i == 3 {
        Component::Tpu
    } else {
        Component::Lpu
    }
}

fn component_index(comp: Component) -> (i: usize)
    ensures
        i == idx(comp),
        i < 5,
{
    match comp {
        Component::Cpu => 0,
        Component::Ram => 1,
        Component::Gpu => 2,
        Component::Tpu => 3,
        Component::Lpu => 4,
    }
}

/// A component is there to be watched: the CPU always, RAM when the platform reports memory
/// information, an accelerator when it is registered.
pub fn component_present(comp: Component, memory_info_known: bool, accels: &AccelRegistry) -> (b: bool)
    ensures
        b == match comp {
            Component::Cpu => true,
            Component::Ram => memory_info_known,
            Component::Gpu => accels.gpu.ready,
            Component::Tpu => accels.tpu.ready,
            Component::Lpu => accels.lpu.ready,
        },
{
    match comp {
        Component::Cpu => true,
        Component::Ram => memory_info_known,
        Component::Gpu => gpu_handle(accels, Architecture::Other).is_some(),
        Component::Tpu => tpu_handle(accels, Architecture::Other).is_some(),
        Component::Lpu => lpu_handle(accels, Architecture::Other).is_some(),
    }
}

/// The state one worker carries from poll to poll: its component and since when (monotonic ns)
/// the component has been throttled, 0 when it is not.
pub struct WorkerLoop {
    pub comp: Component,
    pub throttled_since: u64,
}

/// The frequency a throttled component is lowered to: 10 % less, but not below its minimum.
pub open spec fn throttle_target(cur: usize, fmin: usize) -> usize {
    let reduced = (cur - cur / 10) as usize;
    if reduced > fmin { reduced } else { fmin }
}

/// The frequency a component recovering from throttling is raised to: 5 % more, but not above
/// its maximum.
pub open spec fn restore_target(cur: usize, fmax: usize) -> usize {
    let restored = (cur + cur / 20) as usize;
    if restored < fmax { restored } else { fmax }
}

/// The component is hot: its temperature after the reading is known and at or above its limit.
pub open spec fn hot(m: MonitorView, c: Component, reading: u32) -> bool {
    temp_after(m, c, reading) > 0 && temp_after(m, c, reading) >= m.limit[idx(c)]
}

/// The monitoring state after a poll's reading and, for the CPU, its cycle bookkeeping (the
/// timestamp counter is recorded as the count and then added to it once more).
pub open spec fn polled(m: MonitorView, c: Component, reading: u32, timestamp: u64) -> MonitorView {
    let r = read_effect(m, c, reading);
    if c == Component::Cpu {
        MonitorView { cycles: r.cycles.update(0, add_wrap(timestamp as usize, timestamp as usize)), ..r }
    } else {
        r
    }
}

/// The frequency change a poll asks for, before clamping to the bounds: while hot for longer
/// than the cool-down, a known frequency is lowered (`throttle_target`); when no longer hot after
/// having been, a known frequency below a non-zero maximum is raised (`restore_target`).
pub open spec fn poll_target(hot: bool, since: u64, now: u64, cur: usize, fmin: usize, fmax: usize) -> Option<usize> {
    if hot {
        let start = if since == 0 { now } else { since };
        if (now - start) / 1_000_000 > THROTTLE_COOLDOWN_MS && cur > 0 {
            Some(throttle_target(cur, fmin))
        } else {
            None
        }
    } else if since > 0 && cur < fmax && fmax > 0 {
        Some(restore_target(cur, fmax))
    } else {
        None
    }
}

/// Whether `worker_step` may take this poll: the monotonic time has not gone back behind the
/// start of the throttling, and the frequency it would consult leaves room for a 5% raise.
/// Reads only; nothing is recorded.
pub fn step_admissible(
    w: &WorkerLoop,
    m: &Monitor,
    dvfs: &FrequencyCache,
    reading: u32,
    recheck: u32,
    sysfs_hz: u64,
    timestamp: u64,
    now: u64,
) -> (ok: bool)
    ensures
        ok == (w.throttled_since <= now && ({
            let pm = polled(m@, w.comp, reading, timestamp);
            let qm = read_effect(pm, w.comp, recheck);
            let f = freq_seen(qm, dvfs.hz(), w.comp, sysfs_hz);
            f + f / 20 <= usize::MAX
        })),
{
    if now < w.throttled_since {
        return false;
    }
    let f = monitor::frequency_seen(m, dvfs, w.comp, sysfs_hz);
    assert(read_effect(polled(m@, w.comp, reading, timestamp), w.comp, recheck).freq == m@.freq);
    f.checked_add(f / 20).is_some()
}

/// One poll of a worker (the body of its loop, after the sleep), given the component's sensor
/// reading, a second reading taken for the throttling check, the platform's CPU frequency
/// reading, the timestamp counter and the monotonic time:
/// counts the poll, records the temperature, keeps the CPU cycle count, tracks throttling, and
/// lowers or restores the frequency. Returns the frequency set, if any, which the caller programs
/// into an accelerator (the CPU's is recorded here).
pub fn worker_step(
    w: &mut WorkerLoop,
    t: &mut WorkerTable,
    m: &mut Monitor,
    dvfs: &mut FrequencyCache,
    reading: u32,
    recheck: u32,
    sysfs_hz: u64,
    timestamp: u64,
    now: u64,
) -> (set: Option<usize>)
    requires
        old(w).throttled_since <= now,
        ({
            let pm = polled(old(m)@, old(w).comp, reading, timestamp);
            let qm = read_effect(pm, old(w).comp, recheck);
            let f = freq_seen(qm, old(dvfs).hz(), old(w).comp, sysfs_hz);
            f + f / 20 <= usize::MAX
        }),
    ensures
        ({
            let c = old(w).comp;
            let i = idx(c);
            let pm = polled(old(m)@, c, reading, timestamp);
            let h = hot(pm, c, recheck);
            let qm = read_effect(pm, c, recheck);
            let f = freq_seen(qm, old(dvfs).hz(), c, sysfs_hz);
            let target = poll_target(h, old(w).throttled_since, now, f, qm.fmin[i], qm.fmax[i]);
            &&& final(w).comp == c
            &&& final(w).throttled_since == if h {
                if old(w).throttled_since == 0 { now } else { old(w).throttled_since }
            } else {
                0
            }
            &&& final(t)@ == (WorkerView {
                polls: old(t)@.polls.update(i, add_wrap(old(t)@.polls[i], 1)),
                last_temp: old(t)@.last_temp.update(i, temp_after(old(m)@, c, reading)),
                throttles: if h { old(t)@.throttles.update(i, add_wrap(old(t)@.throttles[i], 1)) } else { old(t)@.throttles },
                ..old(t)@
            })
            &&& set == match target {
                Some(g) => Some(clamp(g, qm.fmin[i], qm.fmax[i])),
                None => None::<usize>,
            }
            &&& final(m)@ == match set {
                Some(v) => MonitorView { freq: qm.freq.update(i, v), ..qm },
                None => qm,
            }
        }),
{
    proof {
        use_type_invariant(&*t);
    }
    let comp = w.comp;
    let slot = component_index(comp);
    t.polls[slot] = t.polls[slot].wrapping_add(1);
    let temp = monitor::read_temperature(m, comp, reading);
    t.last_temp[slot] = temp;
    let ghost r1 = m@;
    proof {
        old(m).lemma_view_wf();
        m.lemma_view_wf();
    }
    assert(r1 == read_effect(old(m)@, comp, reading));
    assert(r1.temp[slot as int] == temp_after(old(m)@, comp, reading));
    if comp == Component::Cpu {
        let c = monitor::read_cycles(m, comp, timestamp);
        let ghost r2 = m@;
        proof {
            m.lemma_view_wf();
        }
        assert(r2.cycles == r1.cycles.update(0, timestamp as usize));
        assert(r2.temp == r1.temp);
        monitor::record_cycles(m, comp, c);
        assert(m@.cycles[0] == add_wrap(timestamp as usize, timestamp as usize));
        assert(m@.cycles =~= r1.cycles.update(0, add_wrap(timestamp as usize, timestamp as usize)));
        assert(m@.temp == r1.temp);
    }
    let ghost pm = m@;
    assert(pm =~= polled(old(m)@, comp, reading, timestamp));
    assert(pm.temp[slot as int] == temp_after(old(m)@, comp, reading));
    let throttled = monitor::is_throttled(m, comp, recheck);
    let mut result: Option<usize> = None;
    if throttled {
        if w.throttled_since == 0 {
            w.throttled_since = now;
        }
        t.throttles[slot] = t.throttles[slot].wrapping_add(1);
        let elapsed = (now - w.throttled_since) / 1_000_000;
        if elapsed > THROTTLE_COOLDOWN_MS {
            let cur_freq = monitor::frequency(m, dvfs, comp, sysfs_hz);
            if cur_freq > 0 {
                let reduced = cur_freq - cur_freq / 10;
                let min = monitor::freq_min(m, comp);
                let target = if reduced > min {
                    reduced
                } else {
                    min
                };
                result = Some(monitor::set_frequency(m, dvfs, comp, target));
            }
        }
    } else if w.throttled_since > 0 {
        w.throttled_since = 0;
        let cur_freq = monitor::frequency(m, dvfs, comp, sysfs_hz);
        let max_freq = monitor::freq_max(m, comp);
        if cur_freq < max_freq && max_freq > 0 {
            let restored = cur_freq + cur_freq / 20;
            let target = if restored < max_freq {
                restored
            } else {
                max_freq
            };
            result = Some(monitor::set_frequency(m, dvfs, comp, target));
        }
    }
    assert(t@ =~= WorkerView {
        polls: old(t)@.polls.update(slot as int, add_wrap(old(t)@.polls[slot as int], 1)),
        last_temp: old(t)@.last_temp.update(slot as int, temp_after(old(m)@, comp, reading)),
        throttles: if throttled { old(t)@.throttles.update(slot as int, add_wrap(old(t)@.throttles[slot as int], 1)) } else { old(t)@.throttles },
        ..old(t)@
    });
    result
}

/// The fork result that counts for each component: its own when the component is present, none
/// (0) when it is absent and no worker is started for it.
pub open spec fn started_results(present: Seq<bool>, fork_results: Seq<i64>) -> Seq<i64> {
    Seq::new(5, |i: int| if present[i] { fork_results[i] } else { 0i64 })
}

/// Records the started workers, unless they are running already: a worker is started for each
/// present component, and `fork_results[i]` is what starting the worker of component `i` gave
/// (a process id when positive, a failure otherwise). Returns the number of workers running.
pub fn spawn_workers(t: &mut WorkerTable, present: &[bool; 5], fork_results: &[i64; 5]) -> (n: usize)
    ensures
        old(t)@.running ==> n == old(t)@.count && final(t)@ == old(t)@,
        !old(t)@.running ==> ({
            &&& final(t)@.running
            &&& n == final(t)@.count
            &&& n == started_results(present@, fork_results@).filter(|r: i64| r > 0).len()
            &&& forall|i: int| 0 <= i < 5 && present@[i] && fork_results@[i] > 0 ==> final(t)@.pids[i] == fork_results@[i] as i32
            &&& forall|i: int| 0 <= i < 5 && !(present@[i] && fork_results@[i] > 0) ==> final(t)@.pids[i] == old(t)@.pids[i]
            &&& final(t)@.polls == old(t)@.polls
            &&& final(t)@.throttles == old(t)@.throttles
            &&& final(t)@.last_temp == old(t)@.last_temp
        }),
{
    proof {
        use_type_invariant(&*t);
    }
    if t.running {
        return t.count;
    }
    t.running = true;
    let ghost rs = started_results(present@, fork_results@);
    let ghost pred = |r: i64| r > 0;
    let mut count: usize = 0;
    let mut i: usize = 0;
    while i < MAX_WORKERS
        invariant
            i <= 5,
            t.running,
            t.count == 0,
            rs == started_results(present@, fork_results@),
            pred == (|r: i64| r > 0),
            count == rs.take(i as int).filter(pred).len(),
            count <= i,
            forall|k: int| 0 <= k < i && present@[k] && fork_results@[k] > 0 ==> #[trigger] t.pids@[k] == fork_results@[k] as i32,
            forall|k: int| 0 <= k < 5 && !(k < i && present@[k] && fork_results@[k] > 0) ==> #[trigger] t.pids@[k] == old(t).pids@[k],
            t.polls@ == old(t).polls@,
            t.throttles@ == old(t).throttles@,
            t.last_temp@ == old(t).last_temp@,
        decreases 5 - i,
    {
        proof {
            crate::bytes::lemma_filter_take_step(rs, pred, i as int);
        }
        let pid: i64 = if present[i] { fork_results[i] } else { 0 };
        if pid > 0 {
            t.pids[i] = #[verifier::truncate] (pid as i32);
            count += 1;
        }
        i += 1;
    }
    assert(rs.take(5) =~= rs);
    t.count = count;
    count
}

/// Stops the workers, if they run: every recorded worker process id is cleared and returned (0
/// where there was none) for the caller to kill and reap, and each one releases its CPU thread.
pub fn stop_workers(t: &mut WorkerTable, res: &mut Resources, now: u64) -> (killed: [i32; 5])
    ensures
        !old(t)@.running ==> final(t)@ == old(t)@ && final(res)@ == old(res)@
            && forall|i: int| 0 <= i < 5 ==> killed@[i] == 0,
        old(t)@.running ==> ({
            &&& final(t)@ == (WorkerView {
                running: false,
                pids: Seq::new(5, |i: int| 0i32),
                count: 0,
                ..old(t)@
            })
            &&& forall|i: int| 0 <= i < 5 ==> killed@[i] == if old(t)@.pids[i] > 0 { old(t)@.pids[i] } else { 0 }
            &&& final(res)@ == released_cpus(old(res)@, live_workers(old(t)@.pids), now)
        }),
{
    proof {
        use_type_invariant(&*t);
    }
    let mut killed = [0i32; 5];
    if !t.running {
        return killed;
    }
    let ghost pids0 = old(t).pids@;
    let ghost res0 = res@;
    let mut i: usize = 0;
    while i < MAX_WORKERS
        invariant
            i <= 5,
            t.running,
            t.count <= MAX_WORKERS,
            pids0 == old(t).pids@,
            res@ == released_cpus(res0, live_workers(pids0.take(i as int)), now),
            t.count == old(t).count,
            forall|k: int| 0 <= k < i ==> t.pids@[k] == 0,
            forall|k: int| i <= k < 5 ==> t.pids@[k] == old(t).pids@[k],
            forall|k: int| 0 <= k < i ==> killed@[k] == if old(t).pids@[k] > 0 { old(t).pids@[k] } else { 0 },
            forall|k: int| i <= k < 5 ==> killed@[k] == 0,
            t.polls@ == old(t).polls@,
            t.throttles@ == old(t).throttles@,
            t.last_temp@ == old(t).last_temp@,
        decreases 5 - i,
    {
        let pid = t.pids[i];
        t.pids[i] = 0;
        proof {
            crate::bytes::lemma_filter_take_step(pids0, |p: i32| p > 0, i as int);
            lemma_live_workers_bound(pids0.take(i as int));
        }
        if pid > 0 {
            killed[i] = pid;
            free_cpu(res, 1, now);
        }
        i += 1;
    }
    assert(pids0.take(5) =~= pids0);
    t.count = 0;
    t.running = false;
    assert(t@ =~= WorkerView { running: false, pids: Seq::new(5, |i: int| 0i32), count: 0, ..old(t)@ });
    killed
}

/// The process ids of the workers that were started.
pub open spec fn live_workers(pids: Seq<i32>) -> Seq<i32> {
    pids.filter(|p: i32| p > 0)
}

/// The accounting after `k` stopped workers each released their CPU thread at time `now`.
pub open spec fn released_cpus(v: ResourceView, k: Seq<i32>, now: u64) -> ResourceView {
    if k.len() == 0 {
        v
    } else {
        ResourceView { cpu_threads: sub_wrap(v.cpu_threads, k.len() as usize), last_activity_cpu: now, ..v }
    }
}

proof fn lemma_live_workers_bound(pids: Seq<i32>)
    ensures
        live_workers(pids).len() <= pids.len(),
{
    pids.lemma_filter_len(|p: i32| p > 0);
}

pub fn worker_count(t: &WorkerTable) -> (n: usize)
    ensures
        n == t@.count,
        n <= MAX_WORKERS,
{
    proof {
        use_type_invariant(t);
    }
    t.count
}

/// Whether the workers run; while they are stopped none is counted and no process id is kept.
pub fn is_running(t: &WorkerTable) -> (b: bool)
    ensures
        b == t@.running,
        !b ==> t@.count == 0 && forall|i: int| 0 <= i < 5 ==> t@.pids[i] == 0,
{
    proof {
        use_type_invariant(t);
    }
    t.running
}

pub fn poll_count(t: &WorkerTable, comp: Component) -> (n: usize)
    ensures
        n == t@.polls[idx(comp)],
{
    t.polls[component_index(comp)]
}

pub fn throttle_count(t: &WorkerTable, comp: Component) -> (n: usize)
    ensures
        n == t@.throttles[idx(comp)],
{
    t.throttles[component_index(comp)]
}

pub fn last_temperature(t: &WorkerTable, comp: Component) -> (temp: u32)
    ensures
        temp == t@.last_temp[idx(comp)],
{
    t.last_temp[component_index(comp)]
}

/// What is known about one component's worker.
pub struct WorkerSnapshot {
    pub component: Component,
    pub pid: i32,
    pub polls: usize,
    pub throttles: usize,
    pub last_temp_millideg: u32,
    pub running: bool,
}

/// The snapshot of one component's worker in table `t`.
pub open spec fn snapshot_of(t: WorkerView, comp: Component) -> WorkerSnapshot {
    WorkerSnapshot {
        component: comp,
        pid: t.pids[idx(comp)],
        polls: t.polls[idx(comp)],
        throttles: t.throttles[idx(comp)],
        last_temp_millideg: t.last_temp[idx(comp)],
        running: t.pids[idx(comp)] > 0 && t.running,
    }
}

pub fn snapshot(t: &WorkerTable, comp: Component) -> (s: WorkerSnapshot)
    ensures
        s == snapshot_of(t@, comp),
{
    let idx = component_index(comp);
    WorkerSnapshot {
        component: comp,
        pid: t.pids[idx],
        polls: t.polls[idx],
        throttles: t.throttles[idx],
        last_temp_millideg: t.last_temp[idx],
        running: t.pids[idx] > 0 && t.running,
    }
}

pub fn all_snapshots(t: &WorkerTable) -> (s: [WorkerSnapshot; 5])
    ensures
        forall|i: int| 0 <= i < 5 ==> #[trigger] s@[i] == snapshot_of(t@, component_at(i)),
{
    [
        snapshot(t, Component::Cpu),
        snapshot(t, Component::Ram),
        snapshot(t, Component::Gpu),
        snapshot(t, Component::Tpu),
        snapshot(t, Component::Lpu),
    ]
}

/// A worker step moves a component's frequency the right way: a hot component is never sped
/// up (as long as it runs at or above its minimum), a cool one is never slowed down, and with
/// `min <= max` whatever is set lies within the bounds.
pub proof fn law_throttling_direction(h: bool, since: u64, now: u64, cur: usize, fmin: usize, fmax: usize)
    requires
        since <= now,
        cur + cur / 20 <= usize::MAX,
    ensures
        match poll_target(h, since, now, cur, fmin, fmax) {
            Some(g) => {
                &&& h && fmin <= cur ==> clamp(g, fmin, fmax) <= cur
                &&& !h ==> clamp(g, fmin, fmax) >= cur
                &&& fmin <= fmax ==> fmin <= clamp(g, fmin, fmax) <= fmax
            },
            None => true,
        },
{
}

} // verus!
