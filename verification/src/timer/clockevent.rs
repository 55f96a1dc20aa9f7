use vstd::prelude::*;

verus! {

/// The periodic clock event's shared state: the programmed interval (ns), how many events have
/// fired, and whether an event source has been installed (only the first installation counts).
pub struct ClockEvents {
    interval: usize,
    count: usize,
    installed: bool,
}

impl ClockEvents {
    pub closed spec fn interval_ns(&self) -> usize {
        self.interval
    }

    pub closed spec fn fired(&self) -> usize {
        self.count
    }

    pub closed spec fn is_installed(&self) -> bool {
        self.installed
    }

    /// No event installed.
    pub fn new() -> (e: Self)
        ensures
            e.interval_ns() == 0,
            e.fired() == 0,
            !e.is_installed(),
    {
        ClockEvents { interval: 0, count: 0, installed: false }
    }
}

/// Installs an event source with the given interval. The interval is recorded in any case; the
/// source is installed only if none was, and the result says whether it was.
pub fn register(e: &mut ClockEvents, interval_ns: u64) -> (ok: bool)
    ensures
        final(e).interval_ns() == interval_ns as usize,
        ok == !old(e).is_installed(),
        final(e).is_installed(),
        final(e).fired() == old(e).fired(),
{
    e.interval = interval_ns as usize;
    if e.installed {
        return false;
    }
    e.installed = true;
    true
}

/// One timer interrupt: with a source installed it counts the event (wrapping) and tells the
/// caller to run the handler.
pub fn fire(e: &mut ClockEvents) -> (run_handler: bool)
    ensures
        run_handler == old(e).is_installed(),
        run_handler ==> final(e).fired() == crate::arith::add_wrap(old(e).fired(), 1),
        !run_handler ==> final(e).fired() == old(e).fired(),
        final(e).is_installed() == old(e).is_installed(),
        final(e).interval_ns() == old(e).interval_ns(),
{
    if e.installed {
        e.count = e.count.wrapping_add(1);
        return true;
    }
    false
}

pub fn event_count(e: &ClockEvents) -> (n: usize)
    ensures
        n == e.fired(),
{
    e.count
}

pub fn interval(e: &ClockEvents) -> (ns: u64)
    ensures
        ns == e.interval_ns() as u64,
{
    e.interval as u64
}

} // verus!
