use vstd::prelude::*;

verus! {

/// The processor architecture the runtime finds itself on.
#[derive(Clone, Copy, PartialEq, Eq, Structural)]
pub enum Architecture {
    X86_64,
    AArch64,
    Other,
}

} // verus!
