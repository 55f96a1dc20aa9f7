use vstd::prelude::*;
use crate::bits::{any_bit, with_bits, without_bits};

verus! {

pub const AHCI_CAP: usize = 0x00;
pub const AHCI_GHC: usize = 0x04;
pub const AHCI_IS: usize = 0x08;
pub const AHCI_PI: usize = 0x0C;
pub const AHCI_VS: usize = 0x10;
pub const AHCI_PORT_BASE: usize = 0x100;
pub const AHCI_PORT_SIZE: usize = 0x80;

pub const NVME_CAP: usize = 0x00;
pub const NVME_VS: usize = 0x08;
pub const NVME_CC: usize = 0x14;
pub const NVME_CSTS: usize = 0x1C;
pub const NVME_AQA: usize = 0x24;
pub const NVME_ASQ: usize = 0x28;
pub const NVME_ACQ: usize = 0x30;

/// AHCI global-host-control bit that switches the controller to AHCI mode.
pub const AHCI_GHC_AE: u32 = 0x8000_0000;

/// The 64-bit register value made of two 32-bit halves, low half at the lower address.
pub fn read_reg64(lo: u32, hi: u32) -> (v: u64)
    ensures
        v == hi * 0x1_0000_0000 + lo,
{
    (hi as u64) * 0x1_0000_0000 + (lo as u64)
}

/// The two 32-bit halves, low then high, in which a 64-bit register value is written.
pub fn write_reg64(val: u64) -> (halves: (u32, u32))
    ensures
        halves.0 == val % 0x1_0000_0000,
        halves.1 == val / 0x1_0000_0000,
{
    ((val % 0x1_0000_0000) as u32, (val / 0x1_0000_0000) as u32)
}

/// Writing a 64-bit register as two halves and reading the halves back gives the value back.
pub proof fn law_reg64_round_trip(val: u64)
    ensures
        (val / 0x1_0000_0000) * 0x1_0000_0000 + val % 0x1_0000_0000 == val,
{
}

/// The number of ports an AHCI capability register value announces: its low five bits plus one.
pub fn ahci_port_count(cap: u32) -> (n: u8)
    ensures
        n == cap % 32 + 1,
        1 <= n <= 32,
{
    (cap % 32 + 1) as u8
}

/// Global-host-control value with AHCI mode enabled.
pub fn ahci_enable(ghc: u32) -> (v: u32)
    ensures
        v == with_bits(ghc, AHCI_GHC_AE),
{
    ghc | AHCI_GHC_AE
}

/// The register offset of an AHCI port's block: 0x100 plus 0x80 per port.
pub fn ahci_port_offset(port: u8) -> (off: usize)
    ensures
        off == AHCI_PORT_BASE + port * AHCI_PORT_SIZE,
{
    AHCI_PORT_BASE + (port as usize) * AHCI_PORT_SIZE
}

/// The (major, minor, tertiary) version held in an NVMe version register value.
pub fn nvme_version(vs: u32) -> (v: (u16, u8, u8))
    ensures
        v.0 == vs / 0x10000,
        v.1 == (vs / 0x100) % 0x100,
        v.2 == vs % 0x100,
{
    let major = (vs / 0x10000) as u16;
    let minor = ((vs / 0x100) % 0x100) as u8;
    let ter = (vs % 0x100) as u8;
    (major, minor, ter)
}

/// Controller-configuration value with the enable bit set.
pub fn nvme_enable(cc: u32) -> (v: u32)
    ensures
        v == with_bits(cc, 1),
{
    cc | 1
}

/// Controller-configuration value with the enable bit cleared.
pub fn nvme_disable(cc: u32) -> (v: u32)
    ensures
        v == without_bits(cc, 1),
{
    cc & !1
}

/// A controller-status value reports the controller ready.
pub fn nvme_ready(csts: u32) -> (b: bool)
    ensures
        b == any_bit(csts, 1),
{
    (csts & 1) != 0
}

} // verus!
