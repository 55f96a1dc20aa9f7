use vstd::prelude::*;
use crate::arch::Architecture;

verus! {

pub const MAX_ENCLAVES: usize = 8;

/// A registered enclave: its index, base address and size.
#[derive(Copy, Clone)]
pub struct Enclave {
    pub id: u8,
    pub base: usize,
    pub size: usize,
}

/// The enclave registry: up to eight (base, size) regions, numbered in registration order.
pub struct EnclaveTable {
    count: u8,
    base: [usize; 8],
    size: [usize; 8],
}

impl EnclaveTable {
    pub closed spec fn wf(&self) -> bool {
        self.count <= 8
    }

    /// The registered regions, in registration order.
    pub closed spec fn view(&self) -> Seq<(usize, usize)> {
        Seq::new(self.count as nat, |i: int| (self.base@[i], self.size@[i]))
    }

    /// The registry never holds more than `MAX_ENCLAVES` enclaves.
    pub proof fn law_count_bounded(&self)
        requires
            self.wf(),
        ensures
            self@.len() <= MAX_ENCLAVES,
    {
    }

    /// An empty registry.
    pub fn new() -> (t: Self)
        ensures
            t.wf(),
            t@ == Seq::<(usize, usize)>::empty(),
    {
        EnclaveTable { count: 0, base: [0; 8], size: [0; 8] }
    }
}

/// CPUID leaf 7 (as `(eax, ebx, ecx, edx)`, when it could be read) announces SGX: bit 2 of EBX,
/// on x86-64 only.
pub fn sgx_supported(arch: Architecture, leaf7: Option<(u32, u32, u32, u32)>) -> (b: bool)
    ensures
        b == (arch == Architecture::X86_64 && (leaf7 matches Some(r) && r.1 & 4 != 0)),
{
    if arch == Architecture::X86_64 {
        if let Some((_eax, ebx, _ecx, _edx)) = leaf7 {
            return ebx & 0x04 != 0;
        }
    }
    false
}

/// Registers the region `base..base+size` as the next enclave, unless eight are registered.
pub fn create_enclave(t: &mut EnclaveTable, base: usize, size: usize) -> (r: Option<Enclave>)
    requires
        old(t).wf(),
    ensures
        final(t).wf(),
        old(t)@.len() < MAX_ENCLAVES ==> r == Some(Enclave { id: old(t)@.len() as u8, base, size })
            && final(t)@ == old(t)@.push((base, size)),
        old(t)@.len() >= MAX_ENCLAVES ==> r is None && final(t)@ == old(t)@,
{
    let idx = t.count;
    if idx as usize >= MAX_ENCLAVES {
        return None;
    }
    let ghost before = t@;
    t.base[idx as usize] = base;
    t.size[idx as usize] = size;
    t.count = idx + 1;
    assert(t@ =~= before.push((base, size)));
    Some(Enclave { id: idx, base, size })
}

/// The number of registered enclaves.
pub fn enclave_count(t: &EnclaveTable) -> (n: u8)
    requires
        t.wf(),
    ensures
        n == t@.len(),
{
    t.count
}

/// The enclave with index `id`, if one is registered.
pub fn enclave_info(t: &EnclaveTable, id: u8) -> (r: Option<Enclave>)
    requires
        t.wf(),
    ensures
        id < t@.len() ==> r == Some(Enclave { id, base: t@[id as int].0, size: t@[id as int].1 }),
        id >= t@.len() ==> r is None,
{
    if id >= t.count {
        return None;
    }
    let base = t.base[id as usize];
    let size = t.size[id as usize];
    Some(Enclave { id, base, size })
}

} // verus!
