use vstd::prelude::*;
use crate::storage::command::Command;

verus! {

pub const MAX_QUEUE_DEPTH: usize = 32;

/// A bounded first-in first-out queue of commands, kept in a ring of 32 slots.
pub struct CommandQueue {
    entries: [Option<Command>; 32],
    head: usize,
    tail: usize,
    count: usize,
}

/// The number of commands submitted to any queue and not yet taken out, counted modulo 2^16.
pub struct InflightCounter {
    count: u16,
}

impl InflightCounter {
    pub closed spec fn value(&self) -> u16 {
        self.count
    }

    /// No command in flight.
    pub fn new() -> (c: Self)
        ensures
            c.value() == 0,
    {
        InflightCounter { count: 0 }
    }
}

impl CommandQueue {
    /// The ring invariant: the `count` queued commands occupy the slots from `head` onwards,
    /// wrapping around, and `tail` is the slot after the last of them.
    pub closed spec fn wf(&self) -> bool {
        &&& self.head < 32
        &&& self.tail < 32
        &&& self.count <= 32
        &&& self.tail == (self.head + self.count) % 32
        &&& forall|k: int| 0 <= k < self.count ==> (#[trigger] self.entries@[(self.head + k) % 32]) is Some
    }

    /// The queued commands, oldest first.
    pub closed spec fn view(&self) -> Seq<Command> {
        Seq::new(self.count as nat, |k: int| self.entries@[(self.head + k) % 32]->Some_0)
    }

    /// A queue never holds more than `MAX_QUEUE_DEPTH` commands.
    pub proof fn law_depth_bounded(&self)
        requires
            self.wf(),
        ensures
            self@.len() <= MAX_QUEUE_DEPTH,
    {
    }

    /// An empty queue.
    pub fn new() -> (q: Self)
        ensures
            q.wf(),
            q@ == Seq::<Command>::empty(),
    {
        CommandQueue { entries: [None; 32], head: 0, tail: 0, count: 0 }
    }

    /// Appends `cmd` unless the queue already holds 32 commands; returns whether it did.
    pub fn submit(&mut self, cmd: Command, inflight: &mut InflightCounter) -> (ok: bool)
        requires
            old(self).wf(),
        ensures
            final(self).wf(),
            ok == (old(self)@.len() < MAX_QUEUE_DEPTH),
            ok ==> final(self)@ == old(self)@.push(cmd),
            !ok ==> final(self)@ == old(self)@,
            final(inflight).value() == if ok {
                (old(inflight).value() + 1) % 0x10000
            } else {
                old(inflight).value() as int
            },
    {
        if self.count >= MAX_QUEUE_DEPTH {
            return false;
        }
        let ghost old_view = self@;
        let ghost old_entries = self.entries@;
        self.entries[self.tail] = Some(cmd);
        self.tail = (self.tail + 1) % MAX_QUEUE_DEPTH;
        self.count += 1;
        inflight.count = inflight.count.wrapping_add(1);
        proof {
            assert forall|k: int| 0 <= k < self.count implies (#[trigger] self.entries@[(self.head + k) % 32]) is Some by {
                if k < self.count - 1 {
                    assert((self.head + k) % 32 != (self.head + self.count - 1) % 32);
                }
            }
            assert forall|k: int| 0 <= k < old_view.len() implies self@[k] == old_view[k] by {
                assert((self.head + k) % 32 != (self.head + self.count - 1) % 32);
            }
            assert(self@ =~= old_view.push(cmd));
        }
        true
    }

    /// Takes out the oldest command, or gives `None` when the queue is empty.
    pub fn dequeue(&mut self, inflight: &mut InflightCounter) -> (r: Option<Command>)
        requires
            old(self).wf(),
        ensures
            final(self).wf(),
            old(self)@.len() == 0 ==> r is None && final(self)@ == old(self)@
                && final(inflight).value() == old(inflight).value(),
            old(self)@.len() > 0 ==> r == Some(old(self)@[0]) && final(self)@ == old(self)@.drop_first()
                && final(inflight).value() == (old(inflight).value() + 0xFFFF) % 0x10000,
    {
        if self.count == 0 {
            return None;
        }
        let ghost old_view = self@;
        let cmd = self.entries[self.head];
        self.entries[self.head] = None;
        let ghost old_head = self.head;
        self.head = (self.head + 1) % MAX_QUEUE_DEPTH;
        self.count -= 1;
        assert(cmd is Some) by {
            assert(old_view.len() > 0);
            assert((old_head + 0) % 32 == old_head);
        }
        if cmd.is_some() {
            inflight.count = inflight.count.wrapping_sub(1);
        }
        proof {
            assert forall|k: int| 0 <= k < self.count implies (#[trigger] self.entries@[(self.head + k) % 32]) is Some by {
                assert((self.head + k) % 32 == (old_head + (k + 1)) % 32);
                assert((old_head + (k + 1)) % 32 != old_head);
            }
            assert forall|k: int| 0 <= k < self.count implies self@[k] == old_view[k + 1] by {
                assert((self.head + k) % 32 == (old_head + (k + 1)) % 32);
                assert((old_head + (k + 1)) % 32 != old_head);
            }
            assert(self@ =~= old_view.drop_first());
            assert(old_view[0] == cmd->Some_0) by {
                assert((old_head + 0) % 32 == old_head);
            }
        }
        cmd
    }

    /// The queue holds no command.
    pub fn is_empty(&self) -> (b: bool)
        requires
            self.wf(),
        ensures
            b == (self@.len() == 0),
    {
        self.count == 0
    }

    /// The queue holds 32 commands and accepts no more.
    pub fn is_full(&self) -> (b: bool)
        requires
            self.wf(),
        ensures
            b == (self@.len() >= MAX_QUEUE_DEPTH),
    {
        self.count >= MAX_QUEUE_DEPTH
    }

    /// The number of queued commands.
    pub fn depth(&self) -> (n: usize)
        requires
            self.wf(),
        ensures
            n == self@.len(),
    {
        self.count
    }
}

impl Default for CommandQueue {
    fn default() -> (q: Self)
        ensures
            q.wf(),
            q@ == Seq::<Command>::empty(),
    {
        Self::new()
    }
}

/// The number of commands in flight across all queues, modulo 2^16.
pub fn inflight_count(inflight: &InflightCounter) -> (n: u16)
    ensures
        n == inflight.value(),
{
    inflight.count
}

/// Commands leave the queue in the order they were submitted: submitting does not change
/// which command is dequeued next, and a command submitted to an empty queue is the next out.
pub proof fn law_first_in_first_out(q: Seq<Command>, c: Command)
    ensures
        q.len() > 0 ==> q.push(c)[0] == q[0] && q.push(c).drop_first() == q.drop_first().push(c),
        q.len() == 0 ==> q.push(c)[0] == c && q.push(c).drop_first() == Seq::<Command>::empty(),
{
    if q.len() > 0 {
        assert(q.push(c).drop_first() =~= q.drop_first().push(c));
    } else {
        assert(q.push(c).drop_first() =~= Seq::<Command>::empty());
    }
}

} // verus!
