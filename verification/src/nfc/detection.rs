use vstd::prelude::*;
use crate::bytes::{clipped_len, contains, copy_min, has_subslice, lemma_embedded, lemma_filter_take_prefix, lemma_filter_take_step};
use crate::devicetree::{all_wf, nodes_to_scan, scanned_nodes, DtDeviceEntry};

verus! {

/// NFC controller families recognised from devicetree `compatible` strings.
#[derive(Copy, Clone, PartialEq, Eq, Structural)]
pub enum NfcChip {
    Nxp,
    St,
    Broadcom,
    Ti,
    Unknown,
}

/// An NFC controller found in the devicetree.
#[derive(Copy, Clone)]
pub struct NfcController {
    pub chip: NfcChip,
    pub reg_base: u64,
    pub irq: u32,
    pub compat: [u8; 64],
    pub compat_len: usize,
}

/// The chip family that a `compatible` string and a node name identify; the first rule that
/// matches wins, and a bare "nfc" anywhere counts as NXP.
pub open spec fn nfc_chip_of(compat: Seq<u8>, name: Seq<u8>) -> NfcChip {
    if has_subslice(compat, seq![0x6e, 0x78, 0x70, 0x2c, 0x70, 0x6e, 0x35])
        || has_subslice(compat, seq![0x6e, 0x78, 0x70, 0x2c, 0x70, 0x6e, 0x37])
        || has_subslice(compat, seq![0x6e, 0x78, 0x70, 0x2c, 0x6e, 0x71])
        || has_subslice(compat, seq![0x6e, 0x78, 0x70, 0x2c, 0x73, 0x6e]) {
        // "nxp,pn5", "nxp,pn7", "nxp,nq", "nxp,sn"
        NfcChip::Nxp
    } else if has_subslice(compat, seq![0x73, 0x74, 0x2c, 0x73, 0x74, 0x32, 0x31])
        || has_subslice(compat, seq![0x73, 0x74, 0x2c, 0x73, 0x74, 0x35, 0x34])
        || has_subslice(compat, seq![0x73, 0x74, 0x2c, 0x73, 0x74, 0x32, 0x35]) {
        // "st,st21", "st,st54", "st,st25"
        NfcChip::St
    } else if has_subslice(compat, seq![0x62, 0x72, 0x63, 0x6d, 0x2c, 0x62, 0x63, 0x6d, 0x32, 0x30, 0x37, 0x39])
        || has_subslice(compat, seq![0x62, 0x72, 0x63, 0x6d, 0x2c, 0x6e, 0x66, 0x63]) {
        // "brcm,bcm2079", "brcm,nfc"
        NfcChip::Broadcom
    } else if has_subslice(compat, seq![0x74, 0x69, 0x2c, 0x74, 0x72, 0x66, 0x37]) {
        // "ti,trf7"
        NfcChip::Ti
    } else if has_subslice(compat, seq![0x6e, 0x66, 0x63])
        || has_subslice(name, seq![0x6e, 0x66, 0x63]) {
        // "nfc", "nfc"
        NfcChip::Nxp
    } else {
        NfcChip::Unknown
    }
}

/// A devicetree node that describes an NFC controller.
pub open spec fn is_nfc_entry(e: DtDeviceEntry) -> bool {
    nfc_chip_of(e.compat_bytes(), e.name_bytes()) != NfcChip::Unknown
}

pub open spec fn nfc_pred() -> spec_fn(DtDeviceEntry) -> bool {
    |e: DtDeviceEntry| is_nfc_entry(e)
}

/// The NFC nodes among `entries`, in order.
pub open spec fn nfc_entries(entries: Seq<DtDeviceEntry>) -> Seq<DtDeviceEntry> {
    entries.filter(nfc_pred())
}

/// `c` is the controller record made from node `e`: its chip, its window base, its interrupt,
/// and the first (at most 64) bytes of its `compatible` string, zero-padded.
pub open spec fn describes(c: NfcController, e: DtDeviceEntry) -> bool {
    &&& c.chip == nfc_chip_of(e.compat_bytes(), e.name_bytes())
    &&& c.reg_base == e.reg_base
    &&& c.irq == e.irq
    &&& c.compat_len == clipped_len(e.compatible_len as nat)
    &&& c.compat@ =~= Seq::new(64, |k: int| if k < c.compat_len { e.compatible@[k] } else { 0u8 })
}

/// Fills `out` with the NFC controllers among the scanned devicetree nodes (see
/// `scanned_nodes`: none when the blob of `blob_len` bytes is too short, at most the first 64
/// enumerated), in node order, as many as fit, and returns how many it wrote.
pub fn detect(blob_len: usize, entries: &[DtDeviceEntry], out: &mut [NfcController]) -> (found: usize)
    requires
        all_wf(entries@),
    ensures
        ({
            let nodes = nfc_entries(scanned_nodes(blob_len, entries@));
            &&& found == if nodes.len() < old(out)@.len() { nodes.len() } else { old(out)@.len() }
            &&& forall|k: int| 0 <= k < found ==> describes(#[trigger] final(out)@[k], nodes[k])
        }),
        final(out)@.len() == old(out)@.len(),
        forall|k: int| found <= k < old(out)@.len() ==> #[trigger] final(out)@[k] == old(out)@[k],
{
    if out.len() == 0 {
        return 0;
    }
    let nodes = nodes_to_scan(blob_len, entries);
    scan_dt(nodes, out)
}

fn scan_dt(entries: &[DtDeviceEntry], out: &mut [NfcController]) -> (found: usize)
    requires
        all_wf(entries@),
    ensures
        found == if nfc_entries(entries@).len() < old(out)@.len() {
            nfc_entries(entries@).len()
        } else {
            old(out)@.len()
        },
        final(out)@.len() == old(out)@.len(),
        forall|k: int| 0 <= k < found ==> describes(#[trigger] final(out)@[k], nfc_entries(entries@)[k]),
        forall|k: int| found <= k < old(out)@.len() ==> #[trigger] final(out)@[k] == old(out)@[k],
{
    let ghost es = entries@;
    let mut found: usize = 0;
    let mut i: usize = 0;
    while i < entries.len() && found < out.len()
        invariant
            es == entries@,
            all_wf(es),
            i <= es.len(),
            out@.len() == old(out)@.len(),
            found == nfc_entries(es.take(i as int)).len(),
            found <= out@.len(),
            forall|k: int| 0 <= k < found ==> describes(#[trigger] out@[k], nfc_entries(es.take(i as int))[k]),
            forall|k: int| found <= k < out@.len() ==> #[trigger] out@[k] == old(out)@[k],
        decreases es.len() - i,
    {
        let e = &entries[i];
        proof {
            lemma_filter_take_step(es, nfc_pred(), i as int);
            assert(e.wf());
        }
        let compat = e.compat_slice();
        let name = e.name_slice();
        let chip = classify_nfc(compat, name);
        if chip != NfcChip::Unknown {
            let mut compat_buf = [0u8; 64];
            assert(forall|k: int| 0 <= k < 64 ==> compat_buf@[k] == 0u8);
            let clen = copy_min(compat, &mut compat_buf);
            let c = NfcController {
                chip,
                reg_base: e.reg_base,
                irq: e.irq,
                compat: compat_buf,
                compat_len: clen,
            };
            assert(describes(c, *e)) by {
                assert forall|k: int| 0 <= k < 64 implies c.compat@[k]
                    == (if k < clen { e.compatible@[k] } else { 0u8 }) by {
                    if k < clen {
                        assert(compat@[k] == e.compatible@[k]);
                    }
                }
            }
            out[found] = c;
            found += 1;
        }
        i += 1;
    }
    proof {
        lemma_filter_take_prefix(es, nfc_pred(), i as int);
        if i == es.len() {
            assert(es.take(i as int) =~= es);
        }
    }
    found
}

fn classify_nfc(compat: &[u8], name: &[u8]) -> (chip: NfcChip)
    ensures
        chip == nfc_chip_of(compat@, name@),
{
    // "nxp,pn5", "nxp,pn7", "nxp,nq", "nxp,sn"
    if contains(compat, &[0x6e, 0x78, 0x70, 0x2c, 0x70, 0x6e, 0x35]) || contains(compat, &[0x6e, 0x78, 0x70, 0x2c, 0x70, 0x6e, 0x37]) || contains(compat, &[0x6e, 0x78, 0x70, 0x2c, 0x6e, 0x71]) || contains(compat, &[0x6e, 0x78, 0x70, 0x2c, 0x73, 0x6e]) {
        return NfcChip::Nxp;
    }
    // "st,st21", "st,st54", "st,st25"
    if contains(compat, &[0x73, 0x74, 0x2c, 0x73, 0x74, 0x32, 0x31]) || contains(compat, &[0x73, 0x74, 0x2c, 0x73, 0x74, 0x35, 0x34]) || contains(compat, &[0x73, 0x74, 0x2c, 0x73, 0x74, 0x32, 0x35]) {
        return NfcChip::St;
    }
    // "brcm,bcm2079", "brcm,nfc"
    if contains(compat, &[0x62, 0x72, 0x63, 0x6d, 0x2c, 0x62, 0x63, 0x6d, 0x32, 0x30, 0x37, 0x39]) || contains(compat, &[0x62, 0x72, 0x63, 0x6d, 0x2c, 0x6e, 0x66, 0x63]) {
        return NfcChip::Broadcom;
    }
    // "ti,trf7"
    if contains(compat, &[0x74, 0x69, 0x2c, 0x74, 0x72, 0x66, 0x37]) {
        return NfcChip::Ti;
    }
    // "nfc", "nfc"
    if contains(compat, &[0x6e, 0x66, 0x63]) || contains(name, &[0x6e, 0x66, 0x63]) {
        return NfcChip::Nxp;
    }
    NfcChip::Unknown
}


/// Marks an NXP controller by its part family: "nxp,pn5", "nxp,pn7", "nxp,nq", "nxp,sn".
pub open spec fn marks_nxp(compat: Seq<u8>, name: Seq<u8>) -> bool {
    has_subslice(compat, seq![0x6e, 0x78, 0x70, 0x2c, 0x70, 0x6e, 0x35])
        || has_subslice(compat, seq![0x6e, 0x78, 0x70, 0x2c, 0x70, 0x6e, 0x37])
        || has_subslice(compat, seq![0x6e, 0x78, 0x70, 0x2c, 0x6e, 0x71])
        || has_subslice(compat, seq![0x6e, 0x78, 0x70, 0x2c, 0x73, 0x6e])
}

/// Marks an ST controller: "st,st21", "st,st54", "st,st25".
pub open spec fn marks_st(compat: Seq<u8>, name: Seq<u8>) -> bool {
    has_subslice(compat, seq![0x73, 0x74, 0x2c, 0x73, 0x74, 0x32, 0x31])
        || has_subslice(compat, seq![0x73, 0x74, 0x2c, 0x73, 0x74, 0x35, 0x34])
        || has_subslice(compat, seq![0x73, 0x74, 0x2c, 0x73, 0x74, 0x32, 0x35])
}

/// Marks a Broadcom controller: "brcm,bcm2079", "brcm,nfc".
pub open spec fn marks_broadcom(compat: Seq<u8>, name: Seq<u8>) -> bool {
    has_subslice(compat, seq![0x62, 0x72, 0x63, 0x6d, 0x2c, 0x62, 0x63, 0x6d, 0x32, 0x30, 0x37, 0x39])
        || has_subslice(compat, seq![0x62, 0x72, 0x63, 0x6d, 0x2c, 0x6e, 0x66, 0x63])
}

/// Marks a TI controller: "ti,trf7".
pub open spec fn marks_ti(compat: Seq<u8>, name: Seq<u8>) -> bool {
    has_subslice(compat, seq![0x74, 0x69, 0x2c, 0x74, 0x72, 0x66, 0x37])
}

/// Marks a controller by a bare "nfc" in its compatible string or its node name.
pub open spec fn marks_nxp_fallback(compat: Seq<u8>, name: Seq<u8>) -> bool {
    has_subslice(compat, seq![0x6e, 0x66, 0x63])
        || has_subslice(name, seq![0x6e, 0x66, 0x63])
}

/// The chip family follows the table in order: an NXP part family wins; otherwise "st,st21",
/// "st,st54" or "st,st25" mean ST; otherwise Broadcom's parts; otherwise TI's; otherwise a
/// bare "nfc" in the compatible string or the node name counts as NXP; and a node with none of
/// these is no NFC controller.
pub proof fn law_nfc_chip_table(compat: Seq<u8>, name: Seq<u8>)
    ensures
        marks_nxp(compat, name)
            ==> nfc_chip_of(compat, name) == NfcChip::Nxp,
        !marks_nxp(compat, name) && marks_st(compat, name)
            ==> nfc_chip_of(compat, name) == NfcChip::St,
        !marks_nxp(compat, name) && !marks_st(compat, name) && marks_broadcom(compat, name)
            ==> nfc_chip_of(compat, name) == NfcChip::Broadcom,
        !marks_nxp(compat, name) && !marks_st(compat, name) && !marks_broadcom(compat, name) && marks_ti(compat, name)
            ==> nfc_chip_of(compat, name) == NfcChip::Ti,
        !marks_nxp(compat, name) && !marks_st(compat, name) && !marks_broadcom(compat, name) && !marks_ti(compat, name) && marks_nxp_fallback(compat, name)
            ==> nfc_chip_of(compat, name) == NfcChip::Nxp,
        !marks_nxp(compat, name) && !marks_st(compat, name) && !marks_broadcom(compat, name) && !marks_ti(compat, name) && !marks_nxp_fallback(compat, name)
            ==> nfc_chip_of(compat, name) == NfcChip::Unknown,
{
}

/// "st,st21", "st,st54" or "st,st25" anywhere in a compatible string makes the controller an ST
/// one, unless the string also names an NXP part family.
pub proof fn law_st_parts(pre: Seq<u8>, post: Seq<u8>, name: Seq<u8>)
    ensures
        !marks_nxp(pre + seq![0x73, 0x74, 0x2c, 0x73, 0x74, 0x32, 0x31] + post, name) ==> nfc_chip_of(pre + seq![0x73, 0x74, 0x2c, 0x73, 0x74, 0x32, 0x31] + post, name) == NfcChip::St,
        !marks_nxp(pre + seq![0x73, 0x74, 0x2c, 0x73, 0x74, 0x35, 0x34] + post, name) ==> nfc_chip_of(pre + seq![0x73, 0x74, 0x2c, 0x73, 0x74, 0x35, 0x34] + post, name) == NfcChip::St,
        !marks_nxp(pre + seq![0x73, 0x74, 0x2c, 0x73, 0x74, 0x32, 0x35] + post, name) ==> nfc_chip_of(pre + seq![0x73, 0x74, 0x2c, 0x73, 0x74, 0x32, 0x35] + post, name) == NfcChip::St,
{
    lemma_embedded(pre, seq![0x73, 0x74, 0x2c, 0x73, 0x74, 0x32, 0x31], post);
    lemma_embedded(pre, seq![0x73, 0x74, 0x2c, 0x73, 0x74, 0x35, 0x34], post);
    lemma_embedded(pre, seq![0x73, 0x74, 0x2c, 0x73, 0x74, 0x32, 0x35], post);
}

} // verus!
