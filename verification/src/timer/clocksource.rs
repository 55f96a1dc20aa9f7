use vstd::prelude::*;

verus! {

/// The clock source's shared state: its frequency (Hz) and whether a source has been installed
/// (only the first installation counts).
pub struct ClockSources {
    freq: usize,
    installed: bool,
}

impl ClockSources {
    pub closed spec fn freq_hz(&self) -> usize {
        self.freq
    }

    pub closed spec fn is_installed(&self) -> bool {
        self.installed
    }

    /// No source installed.
    pub fn new() -> (s: Self)
        ensures
            s.freq_hz() == 0,
            !s.is_installed(),
    {
        ClockSources { freq: 0, installed: false }
    }
}

/// Installs a source of the given frequency. The frequency is recorded in any case; the source
/// is installed only if none was, and the result says whether it was.
pub fn register(s: &mut ClockSources, frequency_hz: u64) -> (ok: bool)
    ensures
        final(s).freq_hz() == frequency_hz as usize,
        ok == !old(s).is_installed(),
        final(s).is_installed(),
{
    s.freq = frequency_hz as usize;
    if s.installed {
        return false;
    }
    s.installed = true;
    true
}

/// The frequency of the clock source.
pub fn frequency(s: &ClockSources) -> (hz: u64)
    ensures
        hz == s.freq_hz() as u64,
{
    s.freq as u64
}

/// The TSC frequency to announce: the platform's reported CPU frequency if non-zero, else the
/// frequency CPU identification gives if that is known and non-zero, else the estimate.
pub fn tsc_frequency(sysfs_hz: u64, detected_hz: Option<u64>, estimate_hz: u64) -> (hz: u64)
    ensures
        sysfs_hz > 0 ==> hz == sysfs_hz,
        sysfs_hz == 0 ==> hz == match detected_hz {
            Some(d) => if d > 0 { d } else { estimate_hz },
            None => estimate_hz,
        },
{
    if sysfs_hz > 0 {
        sysfs_hz
    } else if let Some(d) = detected_hz {
        if d > 0 {
            d
        } else {
            estimate_hz
        }
    } else {
        estimate_hz
    }
}

} // verus!
