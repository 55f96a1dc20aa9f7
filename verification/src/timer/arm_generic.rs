use vstd::prelude::*;

verus! {

/// The ARM generic timer.
pub struct ArmGenericTimer;

/// The counter frequency once read, in Hz; 0 until then.
pub struct TimerFrequency {
    hz: usize,
}

impl TimerFrequency {
    pub closed spec fn hz(&self) -> usize {
        self.hz
    }

    /// Not read yet.
    pub fn new() -> (f: Self)
        ensures
            f.hz() == 0,
    {
        TimerFrequency { hz: 0 }
    }
}

/// The number of nanoseconds in `ticks` ticks of a `freq` Hz counter, rounded down.
pub open spec fn ticks_to_ns(ticks: int, freq: int) -> int {
    (ticks * 1_000_000_000) / freq
}

impl ArmGenericTimer {
    /// The counter frequency: the cached one, or else `cntfrq` (the CNTFRQ_EL0 register), which
    /// is then cached.
    pub fn frequency(cache: &mut TimerFrequency, cntfrq: u64) -> (f: u64)
        ensures
            old(cache).hz() != 0 ==> f == old(cache).hz() as u64 && final(cache).hz() == old(cache).hz(),
            old(cache).hz() == 0 ==> f == cntfrq && final(cache).hz() == cntfrq as usize,
    {
        let cached = cache.hz;
        if cached != 0 {
            return cached as u64;
        }
        cache.hz = cntfrq as usize;
        cntfrq
    }

    /// The nanoseconds between two counter readings (the counter may have wrapped once) at
    /// frequency `freq`; 0 when the frequency is unknown.
    pub fn elapsed_ns(freq: u64, start: u64, end: u64) -> (ns: u64)
        requires
            freq != 0 ==> crate::arith::sub_wrap_u64(end, start) * 1_000_000_000 <= u64::MAX,
        ensures
            freq == 0 ==> ns == 0,
            freq != 0 ==> ns == ticks_to_ns(crate::arith::sub_wrap_u64(end, start) as int, freq as int),
    {
        if freq == 0 {
            return 0;
        }
        let ticks = end.wrapping_sub(start);
        (ticks * 1_000_000_000) / freq
    }
}

} // verus!
