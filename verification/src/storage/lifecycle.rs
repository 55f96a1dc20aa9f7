use vstd::prelude::*;
use crate::arch::Architecture;
use crate::devicetree::{all_wf, scanned_nodes, DtDeviceEntry};
use crate::pci::{scanned_functions, PciConfigSnapshot};
use crate::storage::detection::{
    detect, dt_controller, min_nat, pci_controller, storage_entries, storage_fns, StorageController,
    StorageProtocol,
};

verus! {

/// The most controllers the subsystem brings up.
pub const MAX_STORAGE_CONTROLLERS: usize = 8;

/// What bringing the storage subsystem up records: how many controllers were found, and the
/// signature word of the last one brought up (left as it was when none is found).
pub struct StorageRecord {
    pub count: usize,
    pub signature: usize,
}

/// A controller's signature word: its PCI identity, its BAR, its register base and its port
/// count, folded together with exclusive or.
pub open spec fn controller_signature(c: StorageController) -> usize {
    c.vendor_id as usize ^ c.device_id as usize ^ c.bar as usize ^ c.reg_base as usize ^ c.ports as usize
}

/// The number of PCI controllers among the first `cap` detected ones.
pub open spec fn pci_found(funcs: Seq<PciConfigSnapshot>, cap: int) -> int {
    min_nat(storage_fns(funcs).len() as int, cap)
}

/// The number of controllers detected when room is left for `cap`.
pub open spec fn found_count(funcs: Seq<PciConfigSnapshot>, entries: Seq<DtDeviceEntry>, cap: int) -> int {
    let np = pci_found(funcs, cap);
    np + min_nat(storage_entries(entries).len() as int, cap - np)
}

/// The `k`-th controller detected: the mass-storage PCI functions come first, then the storage
/// nodes of the devicetree.
pub open spec fn detected_at(funcs: Seq<PciConfigSnapshot>, entries: Seq<DtDeviceEntry>, cap: int, k: int) -> StorageController {
    let np = pci_found(funcs, cap);
    if k < np {
        pci_controller(storage_fns(funcs)[k])
    } else {
        dt_controller(storage_entries(entries)[k - np])
    }
}

/// On AArch64 the subsystem is brought up only when the devicetree has a node compatible with
/// "arm,storage" at a nonzero base: `node` is what that lookup found (base, size, interrupt).
pub open spec fn arm_node_missing(arch: Architecture, node: Option<(u64, u64, u32)>) -> bool {
    arch == Architecture::AArch64 && match node {
        Some(n) => n.0 == 0,
        None => true,
    }
}

/// Brings the storage subsystem up over the PCI functions and the devicetree (a blob of
/// `blob_len` bytes and the nodes enumerated from it), as `detect` scans them: on AArch64 without an "arm,storage" node it stops at once, recording nothing;
/// otherwise it detects at most eight controllers and records their number and the signature of
/// the last one.
pub fn init(
    arch: Architecture,
    arm_node: Option<(u64, u64, u32)>,
    funcs: &[PciConfigSnapshot],
    blob_len: usize,
    entries: &[DtDeviceEntry],
    rec: &mut StorageRecord,
) -> (found: usize)
    requires
        all_wf(entries@),
    ensures
        arm_node_missing(arch, arm_node) ==> found == 0 && final(rec).count == old(rec).count
            && final(rec).signature == old(rec).signature,
        !arm_node_missing(arch, arm_node) ==> {
            &&& found == found_count(scanned_functions(funcs@), scanned_nodes(blob_len, entries@), MAX_STORAGE_CONTROLLERS as int)
            &&& final(rec).count == found
            &&& found > 0 ==> final(rec).signature == controller_signature(
                detected_at(scanned_functions(funcs@), scanned_nodes(blob_len, entries@), MAX_STORAGE_CONTROLLERS as int, found - 1),
            )
            &&& found == 0 ==> final(rec).signature == old(rec).signature
        },
{
    if arch == Architecture::AArch64 {
        let base: u64 = match arm_node {
            Some(n) => n.0,
            None => 0,
        };
        if base == 0 {
            return 0;
        }
    }
    let blank = StorageController {
        vendor_id: 0,
        device_id: 0,
        protocol: StorageProtocol::Unknown,
        ports: 0,
        bar: 0,
        bus: 0,
        dev: 0,
        func: 0,
        pci: false,
        reg_base: 0,
        reg_size: 0,
    };
    let mut devices = [blank; 8];
    let found = detect(funcs, blob_len, entries, &mut devices);
    rec.count = found;
    let ghost cap = MAX_STORAGE_CONTROLLERS as int;
    assert forall|k: int| 0 <= k < found implies #[trigger] devices@[k] == detected_at(scanned_functions(funcs@), scanned_nodes(blob_len, entries@), cap, k) by {
        let np = pci_found(scanned_functions(funcs@), cap);
        if k >= np {
            assert(devices@[np + (k - np)] == dt_controller(storage_entries(scanned_nodes(blob_len, entries@))[k - np]));
        }
    }
    let mut i: usize = 0;
    while i < found
        invariant
            found == found_count(scanned_functions(funcs@), scanned_nodes(blob_len, entries@), cap),
            cap == 8,
            found <= 8,
            i <= found,
            devices@.len() == 8,
            forall|k: int| 0 <= k < found ==> #[trigger] devices@[k] == detected_at(scanned_functions(funcs@), scanned_nodes(blob_len, entries@), cap, k),
            rec.count == found,
            i > 0 ==> rec.signature == controller_signature(detected_at(scanned_functions(funcs@), scanned_nodes(blob_len, entries@), cap, i - 1)),
            i == 0 ==> rec.signature == old(rec).signature,
        decreases found - i,
    {
        let d = devices[i];
        rec.signature = d.vendor_id as usize ^ d.device_id as usize ^ d.bar as usize ^ #[verifier::truncate] (d.reg_base as usize)
            ^ d.ports as usize;
        i += 1;
    }
    found
}

} // verus!
