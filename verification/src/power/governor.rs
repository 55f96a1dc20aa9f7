use vstd::prelude::*;
use crate::power::dvfs::{current_frequency, set_frequency, FrequencyCache};

verus! {

/// CPU frequency-scaling policies.
#[derive(Copy, Clone, PartialEq, Eq, Debug, Structural)]
pub enum GovernorPolicy {
    Performance,
    Powersave,
    OnDemand,
    Conservative,
    Schedutil,
    Unknown,
}

/// The frequency governor.
pub struct Governor;

/// The chosen policy by its one-byte code; 0xFF while none has been chosen.
pub struct PolicyStore {
    code: u8,
}

pub open spec fn policy_code(p: GovernorPolicy) -> u8 {
    match p {
        GovernorPolicy::Performance => 0,
        GovernorPolicy::Powersave => 1,
        GovernorPolicy::OnDemand => 2,
        GovernorPolicy::Conservative => 3,
        GovernorPolicy::Schedutil => 4,
        GovernorPolicy::Unknown => 5,
    }
}

pub open spec fn policy_of_code(v: u8) -> GovernorPolicy {
    if v == 0 {
        GovernorPolicy::Performance
    } else if v == 1 {
        GovernorPolicy::Powersave
    } else if v == 2 {
        GovernorPolicy::OnDemand
    } else if v == 3 {
        GovernorPolicy::Conservative
    } else if v == 4 {
        GovernorPolicy::Schedutil
    } else {
        GovernorPolicy::Unknown
    }
}

/// The policy in force: the chosen one, or `Unknown` while none has been chosen (the platform
/// reports no policy of its own).
pub open spec fn policy_in_force(code: u8) -> GovernorPolicy {
    if code != 0xFF { policy_of_code(code) } else { GovernorPolicy::Unknown }
}

/// The frequency a policy sets when the CPU runs at `freq` Hz: unchanged for performance,
/// schedutil and on-demand, halved for conservative, nothing for the others or an unknown
/// frequency.
pub open spec fn policy_target(p: GovernorPolicy, freq: u64) -> Option<u64> {
    if freq == 0 {
        None
    } else {
        match p {
            GovernorPolicy::Performance | GovernorPolicy::Schedutil | GovernorPolicy::OnDemand => Some(freq),
            GovernorPolicy::Conservative => Some(freq / 2),
            _ => None,
        }
    }
}

/// The recorded CPU frequency after the policy stored as `code` has been applied to a cache
/// holding `hz`, with the platform's reading `sysfs_hz` (see `current_frequency`).
pub open spec fn governed_hz(code: u8, hz: usize, sysfs_hz: u64) -> usize {
    let f: u64 = if hz as u64 > 0 { hz as u64 } else { sysfs_hz };
    let read_hz: usize = if hz as u64 > 0 || sysfs_hz == 0 { hz } else { sysfs_hz as usize };
    match policy_target(policy_in_force(code), f) {
        Some(t) => t as usize,
        None => read_hz,
    }
}

impl PolicyStore {
    pub closed spec fn code(&self) -> u8 {
        self.code
    }

    /// No policy chosen.
    pub fn new() -> (s: Self)
        ensures
            s.code() == 0xFF,
    {
        PolicyStore { code: 0xFF }
    }
}

impl Governor {
    /// Chooses policy `p`.
    pub fn set_policy(store: &mut PolicyStore, p: GovernorPolicy)
        ensures
            final(store).code() == policy_code(p),
            policy_in_force(final(store).code()) == p,
    {
        let val: u8 = match p {
            GovernorPolicy::Performance => 0,
            GovernorPolicy::Powersave => 1,
            GovernorPolicy::OnDemand => 2,
            GovernorPolicy::Conservative => 3,
            GovernorPolicy::Schedutil => 4,
            GovernorPolicy::Unknown => 5,
        };
        store.code = val;
    }

    /// The policy in force.
    pub fn get_policy(store: &mut PolicyStore) -> (p: GovernorPolicy)
        ensures
            p == policy_in_force(old(store).code()),
            final(store).code() == old(store).code(),
    {
        let cached = store.code;
        if cached != 0xFF {
            return match cached {
                0 => GovernorPolicy::Performance,
                1 => GovernorPolicy::Powersave,
                2 => GovernorPolicy::OnDemand,
                3 => GovernorPolicy::Conservative,
                4 => GovernorPolicy::Schedutil,
                _ => GovernorPolicy::Unknown,
            };
        }
        let detected = read_governor_sysfs();
        if detected != GovernorPolicy::Unknown {
            Self::set_policy(store, detected);
        }
        detected
    }

    /// Applies the policy in force to the CPU frequency (read as `current_frequency` does).
    pub fn apply(&self, store: &mut PolicyStore, freq: &mut FrequencyCache, sysfs_hz: u64)
        ensures
            final(store).code() == old(store).code(),
            final(freq).hz() == governed_hz(old(store).code(), old(freq).hz(), sysfs_hz),
    {
        let policy = Self::get_policy(store);
        let f = current_frequency(freq, sysfs_hz);
        match policy {
            GovernorPolicy::Performance | GovernorPolicy::Schedutil => {
                if f > 0 {
                    set_frequency(freq, f);
                }
            },
            GovernorPolicy::Powersave => {},
            GovernorPolicy::OnDemand => {
                if f > 0 {
                    set_frequency(freq, f);
                }
            },
            GovernorPolicy::Conservative => {
                if f > 0 {
                    set_frequency(freq, f / 2);
                }
            },
            GovernorPolicy::Unknown => {},
        }
    }
}

/// The policy the platform reports; no platform source is consulted, so it is always `Unknown`.
fn read_governor_sysfs() -> (p: GovernorPolicy)
    ensures
        p == GovernorPolicy::Unknown,
{
    GovernorPolicy::Unknown
}


/// What applying each policy does to the CPU frequency that `current_frequency` reads (the
/// cached one when known, else the platform's reading): performance, schedutil and on-demand
/// keep it, conservative halves it, and powersave, an unknown policy, or no chosen policy at all
/// leave it as read.
pub proof fn law_governor_apply(hz: usize, sysfs_hz: u64)
    ensures
        ({
            let f: u64 = if hz > 0 { hz as u64 } else { sysfs_hz };
            let read: usize = if hz > 0 { hz } else { sysfs_hz as usize };
            &&& governed_hz(policy_code(GovernorPolicy::Performance), hz, sysfs_hz) == read
            &&& governed_hz(policy_code(GovernorPolicy::Schedutil), hz, sysfs_hz) == read
            &&& governed_hz(policy_code(GovernorPolicy::OnDemand), hz, sysfs_hz) == read
            &&& governed_hz(policy_code(GovernorPolicy::Conservative), hz, sysfs_hz) == (f / 2) as usize
            &&& governed_hz(policy_code(GovernorPolicy::Powersave), hz, sysfs_hz) == read
            &&& governed_hz(policy_code(GovernorPolicy::Unknown), hz, sysfs_hz) == read
            &&& governed_hz(0xFF, hz, sysfs_hz) == read
        }),
{
    assert(hz as u64 == hz);
}

} // verus!
