use vstd::prelude::*;
use crate::arch::Architecture;
use crate::security::speculation::{mitigations_active, MitigationState};

verus! {

pub const MAX_DOMAINS: usize = 16;

/// An isolation domain: its index and level.
pub struct IsolationDomain {
    pub id: u8,
    pub level: IsolationLevel,
}

/// How strongly a domain is isolated.
#[derive(Copy, Clone, PartialEq, Eq, Structural)]
pub enum IsolationLevel {
    NoIsolation,
    Process,
    Hardware,
    Enclave,
}

/// The one-byte code of a level.
pub open spec fn level_code(level: IsolationLevel) -> u8 {
    match level {
        IsolationLevel::NoIsolation => 0,
        IsolationLevel::Process => 1,
        IsolationLevel::Hardware => 2,
        IsolationLevel::Enclave => 3,
    }
}

/// The level a byte decodes to; unknown codes decode to `None`.
pub open spec fn level_of_code(v: u8) -> IsolationLevel {
    if v == 1 {
        IsolationLevel::Process
    } else if v == 2 {
        IsolationLevel::Hardware
    } else if v == 3 {
        IsolationLevel::Enclave
    } else {
        IsolationLevel::NoIsolation
    }
}

/// The domain registry: up to sixteen domains, numbered in creation order, each slot holding
/// its level's code (slots of domains not created yet hold 0).
pub struct DomainTable {
    count: u8,
    flags: [u8; 16],
}

impl DomainTable {
    pub closed spec fn wf(&self) -> bool {
        &&& self.count <= 16
        &&& forall|i: int| self.count <= i < 16 ==> self.flags@[i] == 0
    }

    /// The levels of the created domains, in creation order.
    pub closed spec fn view(&self) -> Seq<IsolationLevel> {
        Seq::new(self.count as nat, |i: int| level_of_code(self.flags@[i]))
    }

    /// The registry never holds more than `MAX_DOMAINS` domains.
    pub proof fn law_count_bounded(&self)
        requires
            self.wf(),
        ensures
            self@.len() <= MAX_DOMAINS,
    {
    }

    /// An empty registry.
    pub fn new() -> (t: Self)
        ensures
            t.wf(),
            t@ == Seq::<IsolationLevel>::empty(),
    {
        let t = DomainTable { count: 0, flags: [0; 16] };
        assert(t@ =~= Seq::<IsolationLevel>::empty());
        t
    }
}

fn level_to_u8(level: IsolationLevel) -> (v: u8)
    ensures
        v == level_code(level),
{
    match level {
        IsolationLevel::NoIsolation => 0,
        IsolationLevel::Process => 1,
        IsolationLevel::Hardware => 2,
        IsolationLevel::Enclave => 3,
    }
}

/// Creates the next domain with `level`, unless sixteen exist.
pub fn create_domain(t: &mut DomainTable, level: IsolationLevel) -> (r: Option<IsolationDomain>)
    requires
        old(t).wf(),
    ensures
        final(t).wf(),
        old(t)@.len() < MAX_DOMAINS ==> (r matches Some(d) && d.id == old(t)@.len() && d.level == level
            && final(t)@ == old(t)@.push(level)),
        old(t)@.len() >= MAX_DOMAINS ==> r is None && final(t)@ == old(t)@,
{
    let idx = t.count;
    if idx as usize >= MAX_DOMAINS {
        return None;
    }
    let ghost before = t@;
    t.flags[idx as usize] = level_to_u8(level);
    t.count = idx + 1;
    assert(level_of_code(level_code(level)) == level);
    assert(t@ =~= before.push(level));
    Some(IsolationDomain { id: idx, level })
}

/// The number of created domains.
pub fn domain_count(t: &DomainTable) -> (n: u8)
    requires
        t.wf(),
    ensures
        n == t@.len(),
{
    t.count
}

/// The level of domain `id`; `None` for indices with no domain.
pub fn domain_level(t: &DomainTable, id: u8) -> (level: IsolationLevel)
    requires
        t.wf(),
    ensures
        id < t@.len() ==> level == t@[id as int],
        id >= t@.len() ==> level == IsolationLevel::NoIsolation,
{
    if (id as usize) >= MAX_DOMAINS {
        return IsolationLevel::NoIsolation;
    }
    match t.flags[id as usize] {
        1 => IsolationLevel::Process,
        2 => IsolationLevel::Hardware,
        3 => IsolationLevel::Enclave,
        _ => IsolationLevel::NoIsolation,
    }
}

/// Isolates the platform: on x86-64 a hardware domain is created when speculation mitigations
/// are active, on AArch64 a process domain is created; elsewhere nothing happens.
pub fn isolate(t: &mut DomainTable, arch: Architecture, mitigation: &MitigationState)
    requires
        old(t).wf(),
    ensures
        final(t).wf(),
        ({
            let wanted: Option<IsolationLevel> = if arch == Architecture::X86_64 && mitigation.code() != 0 {
                Some(IsolationLevel::Hardware)
            } else if arch == Architecture::AArch64 {
                Some(IsolationLevel::Process)
            } else {
                None
            };
            final(t)@ == match wanted {
                Some(l) => if old(t)@.len() < MAX_DOMAINS { old(t)@.push(l) } else { old(t)@ },
                None => old(t)@,
            }
        }),
{
    match arch {
        Architecture::X86_64 => {
            if mitigations_active(mitigation) {
                create_domain(t, IsolationLevel::Hardware);
            }
        },
        Architecture::AArch64 => {
            create_domain(t, IsolationLevel::Process);
        },
        _ => {},
    }
}

} // verus!
