use vstd::prelude::*;

verus! {

/// The CPU frequency last set or read, in Hz; 0 while unknown.
pub struct FrequencyCache {
    hz: usize,
}

impl FrequencyCache {
    pub closed spec fn hz(&self) -> usize {
        self.hz
    }

    /// Nothing known yet.
    pub fn new() -> (c: Self)
        ensures
            c.hz() == 0,
    {
        FrequencyCache { hz: 0 }
    }
}

/// Records the CPU frequency.
pub fn set_frequency(c: &mut FrequencyCache, freq_hz: u64)
    ensures
        final(c).hz() == freq_hz as usize,
{
    c.hz = freq_hz as usize;
}

/// The recorded CPU frequency, without consulting the platform.
pub fn cached_frequency(c: &FrequencyCache) -> (hz: usize)
    ensures
        hz == c.hz(),
{
    c.hz
}

/// The CPU frequency: the recorded one if known, else the platform's reading `sysfs_hz` (which
/// is then recorded) if it is non-zero, else 0.
pub fn current_frequency(c: &mut FrequencyCache, sysfs_hz: u64) -> (f: u64)
    ensures
        old(c).hz() as u64 > 0 ==> f == old(c).hz() as u64 && final(c).hz() == old(c).hz(),
        old(c).hz() as u64 == 0 && sysfs_hz > 0 ==> f == sysfs_hz && final(c).hz() == sysfs_hz as usize,
        old(c).hz() as u64 == 0 && sysfs_hz == 0 ==> f == 0 && final(c).hz() == old(c).hz(),
{
    let cached = c.hz as u64;
    if cached > 0 {
        return cached;
    }
    if sysfs_hz > 0 {
        c.hz = sysfs_hz as usize;
        return sysfs_hz;
    }
    0
}

} // verus!
