use vstd::prelude::*;

verus! {

pub const MAX_SYSCALLS: usize = 256;

/// The outcome of a system call.
#[derive(Debug, Copy, Clone)]
pub enum SyscallResult {
    Success(usize),
    Denied,
    NotFound,
    Fault,
}

/// The system-call table: the handler address of each of the 256 call numbers, 0 where none is
/// registered.
pub struct SyscallTable {
    handlers: [usize; 256],
}

impl SyscallTable {
    pub closed spec fn handler(&self, nr: int) -> usize {
        self.handlers@[nr]
    }

    /// No handler registered.
    pub fn new() -> (t: Self)
        ensures
            forall|nr: int| 0 <= nr < 256 ==> t.handler(nr) == 0,
    {
        SyscallTable { handlers: [0; 256] }
    }
}

/// What dispatching system call `nr` finds: its handler, or `NotFound` when the number is out of
/// range or no handler is registered for it.
pub open spec fn resolution(t: SyscallTable, nr: usize) -> Result<usize, SyscallResult> {
    if nr >= MAX_SYSCALLS || t.handler(nr as int) == 0 {
        Err(SyscallResult::NotFound)
    } else {
        Ok(t.handler(nr as int))
    }
}

/// Dispatch finds the handler last registered for a number, as long as it is not zero; a
/// registration for another number does not change what a number resolves to.
pub proof fn law_register_then_resolve(before: SyscallTable, after: SyscallTable, nr: usize, handler: usize)
    requires
        nr < MAX_SYSCALLS,
        after.handler(nr as int) == handler,
        forall|k: int| 0 <= k < 256 && k != nr ==> after.handler(k) == before.handler(k),
    ensures
        handler != 0 ==> resolution(after, nr) == Ok::<usize, SyscallResult>(handler),
        handler == 0 ==> resolution(after, nr) == Err::<usize, SyscallResult>(SyscallResult::NotFound),
        forall|other: usize| other != nr ==> #[trigger] resolution(after, other) == resolution(before, other),
{
}

/// Registers `handler` for call number `nr`; refuses numbers of 256 or more.
pub fn register_syscall(t: &mut SyscallTable, nr: usize, handler: usize) -> (ok: bool)
    ensures
        ok == (nr < MAX_SYSCALLS),
        ok ==> final(t).handler(nr as int) == handler,
        forall|k: int| 0 <= k < 256 && k != nr ==> final(t).handler(k) == old(t).handler(k),
{
    if nr >= MAX_SYSCALLS {
        return false;
    }
    t.handlers[nr] = handler;
    true
}

/// The handler a call number dispatches to, or `NotFound` for a number out of range or with
/// no handler registered. The caller invokes the handler and wraps its result in `Success`.
pub fn resolve_syscall(t: &SyscallTable, nr: usize) -> (r: Result<usize, SyscallResult>)
    ensures
        r == resolution(*t, nr),
{
    if nr >= MAX_SYSCALLS {
        return Err(SyscallResult::NotFound);
    }
    let h = t.handlers[nr];
    if h == 0 {
        return Err(SyscallResult::NotFound);
    }
    Ok(h)
}

} // verus!
