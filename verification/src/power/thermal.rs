use vstd::prelude::*;

verus! {

/// The digital temperature readout (bits 16-22) of the package thermal-status MSR (0x19C), when
/// the MSR could be read.
pub fn check_temp(msr: Option<u64>) -> (digital: Option<u8>)
    ensures
        msr is None ==> digital is None,
        msr matches Some(v) ==> digital == Some(((v / 0x1_0000) % 0x80) as u8),
{
    match msr {
        Some(v) => Some(((v / 0x1_0000) % 0x80) as u8),
        None => None,
    }
}

} // verus!
