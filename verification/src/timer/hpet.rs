use vstd::prelude::*;

verus! {

/// A High Precision Event Timer at a register-window address.
pub struct Hpet {
    pub base_addr: usize,
}

impl Hpet {
    pub fn new(base_addr: usize) -> (h: Self)
        ensures
            h.base_addr == base_addr,
    {
        Hpet { base_addr }
    }
}

} // verus!
