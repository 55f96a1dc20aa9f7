use vstd::prelude::*;

verus! {

/// One device node as the devicetree enumeration reports it: a name, a register window,
/// an interrupt and a `compatible` string, each byte string stored with its length.
#[derive(Copy, Clone)]
pub struct DtDeviceEntry {
    pub name: [u8; 64],
    pub name_len: usize,
    pub reg_base: u64,
    pub reg_size: u64,
    pub irq: u32,
    pub compatible: [u8; 128],
    pub compatible_len: usize,
}

impl DtDeviceEntry {
    /// The stored lengths fit their buffers.
    pub open spec fn wf(&self) -> bool {
        self.name_len <= 64 && self.compatible_len <= 128
    }

    /// The `compatible` bytes in use.
    pub open spec fn compat_bytes(&self) -> Seq<u8> {
        self.compatible@.subrange(0, self.compatible_len as int)
    }

    /// The name bytes in use.
    pub open spec fn name_bytes(&self) -> Seq<u8> {
        self.name@.subrange(0, self.name_len as int)
    }

    /// The `compatible` bytes in use, as a slice.
    pub fn compat_slice(&self) -> (s: &[u8])
        requires
            self.wf(),
        ensures
            s@ == self.compat_bytes(),
    {
        &self.compatible[0..self.compatible_len]
    }

    /// The name bytes in use, as a slice.
    pub fn name_slice(&self) -> (s: &[u8])
        requires
            self.wf(),
        ensures
            s@ == self.name_bytes(),
    {
        &self.name[0..self.name_len]
    }
}

/// A devicetree blob shorter than this holds no usable tree, and no node is enumerated from it.
pub const MIN_FDT_BLOB_LEN: usize = 40;

/// The most nodes one enumeration of the devicetree yields.
pub const MAX_DT_NODES: usize = 64;

/// Every enumerated node's stored lengths fit its buffers.
pub open spec fn all_wf(entries: Seq<DtDeviceEntry>) -> bool {
    forall|i: int| 0 <= i < entries.len() ==> #[trigger] entries[i].wf()
}

/// The nodes a scan goes through, given the length of the devicetree blob and the nodes
/// enumerated from it: none when the blob is too short to hold a tree, otherwise the first 64.
pub open spec fn scanned_nodes(blob_len: usize, entries: Seq<DtDeviceEntry>) -> Seq<DtDeviceEntry> {
    if blob_len < MIN_FDT_BLOB_LEN {
        Seq::<DtDeviceEntry>::empty()
    } else if entries.len() > MAX_DT_NODES {
        entries.take(MAX_DT_NODES as int)
    } else {
        entries
    }
}

/// The nodes to scan (see `scanned_nodes`).
pub fn nodes_to_scan(blob_len: usize, entries: &[DtDeviceEntry]) -> (s: &[DtDeviceEntry])
    requires
        all_wf(entries@),
    ensures
        s@ == scanned_nodes(blob_len, entries@),
        all_wf(s@),
{
    if blob_len < MIN_FDT_BLOB_LEN {
        let s = &entries[0..0];
        assert(s@ =~= Seq::<DtDeviceEntry>::empty());
        s
    } else if entries.len() > MAX_DT_NODES {
        let s = &entries[0..MAX_DT_NODES];
        assert(s@ =~= entries@.take(MAX_DT_NODES as int));
        s
    } else {
        entries
    }
}

} // verus!
