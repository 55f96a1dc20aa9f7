use vstd::prelude::*;
use crate::bits::any_bit;
use crate::driver_state::{DriverState, STATE_ACTIVE, STATE_PROBED};
use crate::storage::detection::StorageProtocol;
use crate::storage::hw::{ahci_port_count, nvme_ready, nvme_version};

verus! {

/// A probed AHCI host adapter.
pub struct AhciDriver {
    pub base: usize,
    pub port_count: u8,
    pub ports_implemented: u32,
}

/// A probed NVMe controller and the specification version it reports.
pub struct NvmeDriver {
    pub base: usize,
    pub version_major: u16,
    pub version_minor: u16,
}

/// A probed storage controller of either kind.
pub enum StorageDriver {
    Ahci(AhciDriver),
    Nvme(NvmeDriver),
}

/// The identification registers probing reads: for AHCI the capability (0x00) and
/// ports-implemented (0x0C) registers, for NVMe the version register (0x08).
#[derive(Clone, Copy)]
pub struct ProbeRegisters {
    pub ahci_cap: u32,
    pub ahci_pi: u32,
    pub nvme_vs: u32,
}

/// Builds the driver for the controller at `base` from its identification registers and
/// records it as probed; only AHCI and NVMe controllers are driven.
pub fn probe(st: &mut DriverState, base: usize, protocol: StorageProtocol, regs: &ProbeRegisters) -> (r: Option<StorageDriver>)
    ensures
        protocol == StorageProtocol::Ahci ==> (r matches Some(StorageDriver::Ahci(a)) && a.base == base
            && a.port_count == regs.ahci_cap % 32 + 1 && a.ports_implemented == regs.ahci_pi),
        protocol == StorageProtocol::Nvme ==> (r matches Some(StorageDriver::Nvme(n)) && n.base == base
            && n.version_major == regs.nvme_vs / 0x10000 && n.version_minor == (regs.nvme_vs / 0x100) % 0x100),
        protocol != StorageProtocol::Ahci && protocol != StorageProtocol::Nvme ==> r is None,
        r is Some ==> final(st).code() == STATE_PROBED,
        r is None ==> final(st).code() == old(st).code(),
{
    match protocol {
        StorageProtocol::Ahci => {
            let ports = ahci_port_count(regs.ahci_cap);
            let implemented = regs.ahci_pi;
            st.set(STATE_PROBED);
            Some(StorageDriver::Ahci(AhciDriver { base, port_count: ports, ports_implemented: implemented }))
        },
        StorageProtocol::Nvme => {
            let (major, minor, _) = nvme_version(regs.nvme_vs);
            st.set(STATE_PROBED);
            Some(StorageDriver::Nvme(NvmeDriver { base, version_major: major, version_minor: minor as u16 }))
        },
        _ => None,
    }
}

/// Brings a probed controller up, after the caller has set its enable bit: an AHCI adapter is
/// active at once; an NVMe controller is active when its status register (`csts`, read after
/// enabling) reports it ready. Returns whether the controller is active.
pub fn init(st: &mut DriverState, driver: &StorageDriver, csts: u32) -> (ok: bool)
    ensures
        driver is Ahci ==> ok,
        driver is Nvme ==> ok == any_bit(csts, 1),
        ok ==> final(st).code() == STATE_ACTIVE,
        !ok ==> final(st).code() == old(st).code(),
{
    match driver {
        StorageDriver::Ahci(_) => {
            st.set(STATE_ACTIVE);
            true
        },
        StorageDriver::Nvme(_) => {
            let ready = nvme_ready(csts);
            if ready {
                st.set(STATE_ACTIVE);
            }
            ready
        },
    }
}

/// The driver's life-cycle code.
pub fn state(st: &DriverState) -> (code: u8)
    ensures
        code == st.code(),
{
    st.get()
}

} // verus!
