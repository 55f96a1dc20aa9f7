use vstd::prelude::*;
use crate::arch::Architecture;
use crate::security::enclaves::{self, Enclave, EnclaveTable, MAX_ENCLAVES};
use crate::security::isolation::{self, DomainTable, IsolationDomain, IsolationLevel, MAX_DOMAINS};
use crate::security::speculation::{self, chosen_code, mitigation_of_code, MitigationState, SpeculationMitigation};

verus! {

/// Physical and virtual memory services.
pub struct MemoryHal;

/// Interrupt-controller services.
pub struct InterruptHal;

/// Bus-enumeration services.
pub struct BusHal;

/// DMA-engine services.
pub struct DmaHal;

/// IOMMU services.
pub struct IommuHal;

/// Firmware-table services (ACPI, devicetree, SMBIOS, UEFI).
pub struct FirmwareHal;

/// Device-discovery services.
pub struct DiscoveryHal;

/// Boot-information services.
pub struct BootHal;

/// Isolation, speculation-mitigation and enclave services.
pub struct SecurityHal;

/// Raw hardware access (MMIO, CPUID, MSRs).
pub struct HardwareAccessHal;

impl SecurityHal {
    /// See `isolation::create_domain`.
    pub fn create_isolation_domain(t: &mut DomainTable, level: IsolationLevel) -> (r: Option<IsolationDomain>)
        requires
            old(t).wf(),
        ensures
            final(t).wf(),
            old(t)@.len() < MAX_DOMAINS ==> (r matches Some(d) && d.id == old(t)@.len() && d.level == level
                && final(t)@ == old(t)@.push(level)),
            old(t)@.len() >= MAX_DOMAINS ==> r is None && final(t)@ == old(t)@,
    {
        isolation::create_domain(t, level)
    }

    /// See `isolation::domain_count`.
    pub fn isolation_domain_count(t: &DomainTable) -> (n: u8)
        requires
            t.wf(),
        ensures
            n == t@.len(),
    {
        isolation::domain_count(t)
    }

    /// See `isolation::domain_level`.
    pub fn isolation_domain_level(t: &DomainTable, id: u8) -> (level: IsolationLevel)
        requires
            t.wf(),
        ensures
            id < t@.len() ==> level == t@[id as int],
            id >= t@.len() ==> level == IsolationLevel::NoIsolation,
    {
        isolation::domain_level(t, id)
    }

    /// See `isolation::isolate`.
    pub fn isolate(t: &mut DomainTable, arch: Architecture, mitigation: &MitigationState)
        requires
            old(t).wf(),
        ensures
            final(t).wf(),
            ({
                let wanted: Option<IsolationLevel> = if arch == Architecture::X86_64 && mitigation.code() != 0 {
                    Some(IsolationLevel::Hardware)
                } else if arch == Architecture::AArch64 {
                    Some(IsolationLevel::Process)
                } else {
                    None
                };
                final(t)@ == match wanted {
                    Some(l) => if old(t)@.len() < MAX_DOMAINS { old(t)@.push(l) } else { old(t)@ },
                    None => old(t)@,
                }
            }),
    {
        isolation::isolate(t, arch, mitigation)
    }

    /// See `speculation::mitigations_active`.
    pub fn mitigations_active(m: &MitigationState) -> (b: bool)
        ensures
            b == (m.code() != 0),
    {
        speculation::mitigations_active(m)
    }

    /// See `speculation::active_mitigation`.
    pub fn active_mitigation(m: &MitigationState) -> (r: SpeculationMitigation)
        ensures
            r == mitigation_of_code(m.code()),
    {
        speculation::active_mitigation(m)
    }

    /// See `speculation::mitigations`.
    pub fn apply_mitigations(m: &mut MitigationState, arch: Architecture, leaf7: Option<(u32, u32, u32, u32)>)
        ensures
            final(m).code() == chosen_code(arch, leaf7, old(m).code()),
    {
        speculation::mitigations(m, arch, leaf7)
    }

    /// See `enclaves::sgx_supported`.
    pub fn sgx_supported(arch: Architecture, leaf7: Option<(u32, u32, u32, u32)>) -> (b: bool)
        ensures
            b == (arch == Architecture::X86_64 && (leaf7 matches Some(r) && r.1 & 4 != 0)),
    {
        enclaves::sgx_supported(arch, leaf7)
    }

    /// See `enclaves::create_enclave`.
    pub fn create_enclave(t: &mut EnclaveTable, base: usize, size: usize) -> (r: Option<Enclave>)
        requires
            old(t).wf(),
        ensures
            final(t).wf(),
            old(t)@.len() < MAX_ENCLAVES ==> r == Some(Enclave { id: old(t)@.len() as u8, base, size })
                && final(t)@ == old(t)@.push((base, size)),
            old(t)@.len() >= MAX_ENCLAVES ==> r is None && final(t)@ == old(t)@,
    {
        enclaves::create_enclave(t, base, size)
    }

    /// See `enclaves::enclave_count`.
    pub fn enclave_count(t: &EnclaveTable) -> (n: u8)
        requires
            t.wf(),
        ensures
            n == t@.len(),
    {
        enclaves::enclave_count(t)
    }

    /// See `enclaves::enclave_info`.
    pub fn enclave_info(t: &EnclaveTable, id: u8) -> (r: Option<Enclave>)
        requires
            t.wf(),
        ensures
            id < t@.len() ==> r == Some(Enclave { id, base: t@[id as int].0, size: t@[id as int].1 }),
            id >= t@.len() ==> r is None,
    {
        enclaves::enclave_info(t, id)
    }
}

} // verus!
