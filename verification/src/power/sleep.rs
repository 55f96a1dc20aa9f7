use vstd::prelude::*;

verus! {

/// ACPI sleep states.
#[derive(Copy, Clone, PartialEq, Eq, Debug, Structural)]
pub enum SleepState {
    S0,
    S1,
    S3,
    S5,
}

/// What entering a sleep state asks of the platform.
#[derive(Copy, Clone, PartialEq, Eq, Debug, Structural)]
pub enum SleepAction {
    /// Keep running (S0).
    Stay,
    /// Sleep for this many nanoseconds (S1).
    SleepNs(u64),
    /// Sleep for this many seconds (S3).
    SleepSecs(u64),
    /// Power off (S5).
    PowerOff,
}

/// The sleep state last entered, by its ACPI number.
pub struct SleepStateStore {
    code: u8,
}

pub open spec fn state_code(s: SleepState) -> u8 {
    match s {
        SleepState::S0 => 0,
        SleepState::S1 => 1,
        SleepState::S3 => 3,
        SleepState::S5 => 5,
    }
}

pub open spec fn state_of_code(v: u8) -> SleepState {
    if v == 1 {
        SleepState::S1
    } else if v == 3 {
        SleepState::S3
    } else if v == 5 {
        SleepState::S5
    } else {
        SleepState::S0
    }
}

impl SleepStateStore {
    pub closed spec fn code(&self) -> u8 {
        self.code
    }

    /// Running (S0).
    pub fn new() -> (s: Self)
        ensures
            s.code() == 0,
    {
        SleepStateStore { code: 0 }
    }
}

/// Records `state` as entered and gives what the platform must do: S1 sleeps 100 ms, S3 sleeps
/// one second, S5 powers off, S0 does nothing.
pub fn suspend(store: &mut SleepStateStore, state: SleepState) -> (a: SleepAction)
    ensures
        final(store).code() == state_code(state),
        a == match state {
            SleepState::S0 => SleepAction::Stay,
            SleepState::S1 => SleepAction::SleepNs(100_000_000),
            SleepState::S3 => SleepAction::SleepSecs(1),
            SleepState::S5 => SleepAction::PowerOff,
        },
{
    let val: u8 = match state {
        SleepState::S0 => 0,
        SleepState::S1 => 1,
        SleepState::S3 => 3,
        SleepState::S5 => 5,
    };
    store.code = val;
    match state {
        SleepState::S1 => SleepAction::SleepNs(100_000_000),
        SleepState::S3 => SleepAction::SleepSecs(1),
        SleepState::S5 => SleepAction::PowerOff,
        SleepState::S0 => SleepAction::Stay,
    }
}

/// The sleep state last entered.
pub fn current_state(store: &SleepStateStore) -> (s: SleepState)
    ensures
        s == state_of_code(store.code()),
{
    match store.code {
        1 => SleepState::S1,
        3 => SleepState::S3,
        5 => SleepState::S5,
        _ => SleepState::S0,
    }
}

/// The state entered last is the state reported.
pub proof fn law_suspend_then_current(s: SleepState)
    ensures
        state_of_code(state_code(s)) == s,
{
}

} // verus!
