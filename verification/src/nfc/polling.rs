use vstd::prelude::*;
use crate::bits::any_bit;
use crate::nfc::hw::{target_present, STATUS_TARGET_PRESENT};

verus! {

/// Phases of the NFC polling loop.
#[derive(Clone, Copy, PartialEq, Eq, Structural)]
pub enum PollState {
    Idle,
    Polling,
    TargetFound,
    Activated,
    DataExchange,
}

/// The poller's shared settings: the current phase, kept in its one-byte encoding, and the
/// polling interval in milliseconds.
pub struct Poller {
    state: u8,
    interval: u8,
}

/// The one-byte code of a polling phase.
pub open spec fn state_code(s: PollState) -> u8 {
    match s {
        PollState::Idle => 0,
        PollState::Polling => 1,
        PollState::TargetFound => 2,
        PollState::Activated => 3,
        PollState::DataExchange => 4,
    }
}

/// The polling phase a byte decodes to; bytes that are no phase's code decode to `Idle`.
pub open spec fn state_of_code(v: u8) -> PollState {
    if v == 1 {
        PollState::Polling
    } else if v == 2 {
        PollState::TargetFound
    } else if v == 3 {
        PollState::Activated
    } else if v == 4 {
        PollState::DataExchange
    } else {
        PollState::Idle
    }
}

impl Poller {
    /// The current phase.
    pub closed spec fn phase(&self) -> PollState {
        state_of_code(self.state)
    }

    /// The polling interval in milliseconds.
    pub closed spec fn interval(&self) -> u8 {
        self.interval
    }

    /// A poller that is idle and polls every 100 ms.
    pub fn new() -> (p: Self)
        ensures
            p.phase() == PollState::Idle,
            p.interval() == 100,
    {
        Poller { state: 0, interval: 100 }
    }
}

/// Encodes a phase as one byte.
pub fn state_to_u8(s: PollState) -> (v: u8)
    ensures
        v == state_code(s),
{
    match s {
        PollState::Idle => 0,
        PollState::Polling => 1,
        PollState::TargetFound => 2,
        PollState::Activated => 3,
        PollState::DataExchange => 4,
    }
}

/// Decodes a byte into a phase.
pub fn u8_to_state(v: u8) -> (s: PollState)
    ensures
        s == state_of_code(v),
{
    match v {
        1 => PollState::Polling,
        2 => PollState::TargetFound,
        3 => PollState::Activated,
        4 => PollState::DataExchange,
        _ => PollState::Idle,
    }
}

/// Decoding the code of a phase gives that phase back.
pub proof fn law_state_code_round_trip(s: PollState)
    ensures
        state_of_code(state_code(s)) == s,
{
}

/// Moves the poller to phase `state`.
pub fn set_state(p: &mut Poller, state: PollState)
    ensures
        final(p).phase() == state,
        final(p).interval() == old(p).interval(),
{
    p.state = state_to_u8(state);
}

/// The poller's current phase.
pub fn current_state(p: &Poller) -> (s: PollState)
    ensures
        s == p.phase(),
{
    u8_to_state(p.state)
}

/// The poller is in any phase but `Idle`.
pub fn is_active(p: &Poller) -> (b: bool)
    ensures
        b == (p.phase() != PollState::Idle),
{
    current_state(p) != PollState::Idle
}

/// Sets the polling interval.
pub fn set_interval_ms(p: &mut Poller, ms: u8)
    ensures
        final(p).interval() == ms,
        final(p).phase() == old(p).phase(),
{
    p.interval = ms;
}

/// The polling interval in milliseconds.
pub fn interval_ms(p: &Poller) -> (ms: u8)
    ensures
        ms == p.interval(),
{
    p.interval
}

/// One polling step on a freshly read status register value: a target present moves the
/// poller to `TargetFound`, otherwise it keeps `Polling`. Returns whether a target is present.
pub fn poll_cycle(p: &mut Poller, status: u32) -> (present: bool)
    ensures
        present == any_bit(status, STATUS_TARGET_PRESENT),
        final(p).phase() == if present { PollState::TargetFound } else { PollState::Polling },
        final(p).interval() == old(p).interval(),
{
    let present = target_present(status);
    if present {
        set_state(p, PollState::TargetFound);
    } else {
        set_state(p, PollState::Polling);
    }
    present
}

/// Records that polling has started (the RF field and the poll bit are switched on by the caller).
pub fn start(p: &mut Poller)
    ensures
        final(p).phase() == PollState::Polling,
        final(p).interval() == old(p).interval(),
{
    set_state(p, PollState::Polling);
}

/// Records that polling has stopped (the poll bit and the RF field are switched off by the caller).
pub fn stop(p: &mut Poller)
    ensures
        final(p).phase() == PollState::Idle,
        final(p).interval() == old(p).interval(),
{
    set_state(p, PollState::Idle);
}

} // verus!
