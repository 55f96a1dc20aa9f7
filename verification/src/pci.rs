use vstd::prelude::*;

verus! {

/// A PCI function as the bus scan reports it.
#[derive(Copy, Clone)]
pub struct PciDevice {
    pub bus: u8,
    pub device: u8,
    pub function: u8,
    pub vendor_id: u16,
    pub device_id: u16,
    pub class: u8,
    pub subclass: u8,
}

/// A PCI function together with the two configuration dwords that storage detection reads:
/// the one at offset 0x10 (BAR0) and the one at offset 0x24 (BAR5, the AHCI base); a dword
/// that cannot be read is 0.
#[derive(Copy, Clone)]
pub struct PciConfigSnapshot {
    pub dev: PciDevice,
    pub cfg10: u32,
    pub cfg24: u32,
}

/// The configuration dword of `f` at offset `offset` (0x10 or 0x24).
pub open spec fn config_at(f: PciConfigSnapshot, offset: u8) -> u32 {
    if offset == 0x24 { f.cfg24 } else { f.cfg10 }
}

/// Reads one of the captured configuration dwords.
pub fn read_config_u32(f: &PciConfigSnapshot, offset: u8) -> (v: u32)
    ensures
        v == config_at(*f, offset),
{
    if offset == 0x24 { f.cfg24 } else { f.cfg10 }
}

/// The most functions one scan of the PCI bus yields.
pub const MAX_PCI_FUNCTIONS: usize = 64;

/// The functions a scan goes through: the first 64 reported.
pub open spec fn scanned_functions(funcs: Seq<PciConfigSnapshot>) -> Seq<PciConfigSnapshot> {
    if funcs.len() > MAX_PCI_FUNCTIONS { funcs.take(MAX_PCI_FUNCTIONS as int) } else { funcs }
}

/// The functions to scan (see `scanned_functions`).
pub fn functions_to_scan(funcs: &[PciConfigSnapshot]) -> (s: &[PciConfigSnapshot])
    ensures
        s@ == scanned_functions(funcs@),
{
    if funcs.len() > MAX_PCI_FUNCTIONS {
        let s = &funcs[0..MAX_PCI_FUNCTIONS];
        assert(s@ =~= funcs@.take(MAX_PCI_FUNCTIONS as int));
        s
    } else {
        funcs
    }
}

} // verus!
