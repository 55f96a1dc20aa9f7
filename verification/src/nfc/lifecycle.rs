use vstd::prelude::*;
use crate::bytes::clipped_len;
use crate::arch::Architecture;
use crate::devicetree::{all_wf, scanned_nodes, DtDeviceEntry};
use crate::nfc::detection::{describes, detect, nfc_entries, NfcChip, NfcController};

verus! {

/// The most controllers the subsystem brings up.
pub const MAX_NFC_CONTROLLERS: usize = 4;

/// What bringing the NFC subsystem up records: how many controllers were found, and the
/// signature word of the last one brought up (left as it was when none is found).
pub struct NfcRecord {
    pub count: usize,
    pub signature: usize,
}

/// A controller's signature word: its register base, its interrupt and the length of its
/// `compatible` string, folded together with exclusive or.
pub open spec fn controller_signature(e: DtDeviceEntry) -> usize {
    e.reg_base as usize ^ e.irq as usize ^ clipped_len(e.compatible_len as nat) as usize
}

/// On AArch64 the subsystem is brought up only when the devicetree has a node compatible with
/// "arm,nfc" at a nonzero base: `node` is what that lookup found (base, size, interrupt).
pub open spec fn arm_node_missing(arch: Architecture, node: Option<(u64, u64, u32)>) -> bool {
    arch == Architecture::AArch64 && match node {
        Some(n) => n.0 == 0,
        None => true,
    }
}

/// Brings the NFC subsystem up over the devicetree (a blob of `blob_len` bytes and the nodes
/// enumerated from it): on AArch64 without an "arm,nfc" node it stops at once, recording
/// nothing; otherwise it detects at most four controllers among the scanned nodes and records
/// their number and the signature of the last one.
pub fn init(
    arch: Architecture,
    arm_node: Option<(u64, u64, u32)>,
    blob_len: usize,
    entries: &[DtDeviceEntry],
    rec: &mut NfcRecord,
) -> (found: usize)
    requires
        all_wf(entries@),
    ensures
        arm_node_missing(arch, arm_node) ==> found == 0 && final(rec).count == old(rec).count
            && final(rec).signature == old(rec).signature,
        !arm_node_missing(arch, arm_node) ==> {
            &&& found == if nfc_entries(scanned_nodes(blob_len, entries@)).len() < MAX_NFC_CONTROLLERS {
                nfc_entries(scanned_nodes(blob_len, entries@)).len() as int
            } else {
                MAX_NFC_CONTROLLERS as int
            }
            &&& final(rec).count == found
            &&& found > 0 ==> final(rec).signature == controller_signature(nfc_entries(scanned_nodes(blob_len, entries@))[found - 1])
            &&& found == 0 ==> final(rec).signature == old(rec).signature
        },
{
    if arch == Architecture::AArch64 {
        let base: u64 = match arm_node {
            Some(n) => n.0,
            None => 0,
        };
        if base == 0 {
            return 0;
        }
    }
    let blank = NfcController { chip: NfcChip::Unknown, reg_base: 0, irq: 0, compat: [0u8; 64], compat_len: 0 };
    let mut devices = [blank; 4];
    let found = detect(blob_len, entries, &mut devices);
    rec.count = found;
    let mut i: usize = 0;
    while i < found
        invariant
            found <= 4,
            i <= found,
            devices@.len() == 4,
            forall|k: int| 0 <= k < found ==> describes(#[trigger] devices@[k], nfc_entries(scanned_nodes(blob_len, entries@))[k]),
            rec.count == found,
            i > 0 ==> rec.signature == controller_signature(nfc_entries(scanned_nodes(blob_len, entries@))[i - 1]),
            i == 0 ==> rec.signature == old(rec).signature,
        decreases found - i,
    {
        let d = devices[i];
        proof {
            assert(describes(devices@[i as int], nfc_entries(scanned_nodes(blob_len, entries@))[i as int]));
        }
        rec.signature = #[verifier::truncate] (d.reg_base as usize) ^ d.irq as usize ^ d.compat_len;
        i += 1;
    }
    found
}

} // verus!
