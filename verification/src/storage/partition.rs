use vstd::prelude::*;

verus! {

pub const MBR_SIGNATURE: u16 = 0xAA55;
pub const MBR_PARTITION_TABLE_OFFSET: usize = 446;
pub const MBR_ENTRY_SIZE: usize = 16;
pub const MBR_MAX_PARTITIONS: usize = 4;

pub const GPT_SIGNATURE: u64 = 0x5452415020494645;
pub const GPT_HEADER_LBA: u64 = 1;
pub const GPT_ENTRY_SIZE: usize = 128;
pub const GPT_MAX_PARTITIONS: usize = 128;

/// Partition-table formats.
#[derive(Clone, Copy)]
pub enum PartitionScheme {
    Mbr,
    Gpt,
    Unknown,
}

/// One primary partition of an MBR table.
#[derive(Clone, Copy)]
pub struct MbrEntry {
    pub status: u8,
    pub partition_type: u8,
    pub start_lba: u32,
    pub sector_count: u32,
}

/// One entry of a GPT partition array.
#[derive(Clone, Copy)]
pub struct GptEntry {
    pub type_guid: [u8; 16],
    pub unique_guid: [u8; 16],
    pub start_lba: u64,
    pub end_lba: u64,
    pub attributes: u64,
}

/// The little-endian 32-bit value of the four bytes at `off`.
pub open spec fn le32(s: Seq<u8>, off: int) -> int {
    s[off] + s[off + 1] * 0x100 + s[off + 2] * 0x1_0000 + s[off + 3] * 0x100_0000
}

/// The little-endian 64-bit value of the eight bytes at `off`.
pub open spec fn le64(s: Seq<u8>, off: int) -> int {
    le32(s, off) + le32(s, off + 4) * 0x1_0000_0000
}

/// The number of sectors from `start` to `end` inclusive, or zero when `end` is before `start`.
pub open spec fn gpt_size_lba(e: GptEntry) -> int {
    if e.end_lba >= e.start_lba { e.end_lba - e.start_lba + 1 } else { 0 }
}

impl MbrEntry {
    /// The partition is marked bootable (status 0x80).
    pub fn is_active(&self) -> (b: bool)
        ensures
            b == (self.status == 0x80),
    {
        self.status == 0x80
    }

    /// The slot is unused (partition type 0).
    pub fn is_empty(&self) -> (b: bool)
        ensures
            b == (self.partition_type == 0),
    {
        self.partition_type == 0
    }

    /// The partition's size in bytes for the given sector size.
    pub fn size_bytes(&self, sector_size: u32) -> (n: u64)
        ensures
            n == self.sector_count * sector_size,
    {
        proof {
            assert(self.sector_count * sector_size <= 0xFFFF_FFFF * 0xFFFF_FFFF) by (nonlinear_arith)
                requires
                    self.sector_count <= 0xFFFF_FFFF,
                    sector_size <= 0xFFFF_FFFF,
            ;
        }
        self.sector_count as u64 * sector_size as u64
    }
}

impl GptEntry {
    /// The entry is unused: its partition-type GUID is all zero.
    pub fn is_empty(&self) -> (b: bool)
        ensures
            b == (forall|k: int| 0 <= k < 16 ==> self.type_guid@[k] == 0),
    {
        let mut all_zero = true;
        let mut i: usize = 0;
        while i < 16
            invariant
                i <= 16,
                all_zero == (forall|k: int| 0 <= k < i ==> self.type_guid@[k] == 0),
            decreases 16 - i,
        {
            if self.type_guid[i] != 0 {
                all_zero = false;
            }
            i += 1;
        }
        all_zero
    }

    /// The number of sectors the partition spans (see `gpt_size_lba`).
    pub fn size_lba(&self) -> (n: u64)
        requires
            gpt_size_lba(*self) <= u64::MAX,
        ensures
            n == gpt_size_lba(*self),
    {
        if self.end_lba >= self.start_lba {
            self.end_lba - self.start_lba + 1
        } else {
            0
        }
    }

    /// The partition's size in bytes for the given sector size.
    pub fn size_bytes(&self, sector_size: u64) -> (n: u64)
        requires
            gpt_size_lba(*self) * sector_size <= u64::MAX,
        ensures
            n == gpt_size_lba(*self) * sector_size,
    {
        proof {
            if sector_size > 0 {
                assert(gpt_size_lba(*self) <= gpt_size_lba(*self) * sector_size) by (nonlinear_arith)
                    requires
                        sector_size > 0,
                        gpt_size_lba(*self) >= 0,
                ;
            }
        }
        if sector_size == 0 {
            return 0;
        }
        self.size_lba() * sector_size
    }
}

/// The partition scheme of a disk's first sector: no 0xAA55 signature at offsets 510-511 means
/// unknown; a protective entry (type 0xEE) in the first MBR slot means GPT; otherwise MBR.
pub open spec fn scheme_of(sector0: Seq<u8>) -> PartitionScheme {
    if sector0.len() < 512 {
        PartitionScheme::Unknown
    } else if sector0[511] * 0x100 + sector0[510] != MBR_SIGNATURE {
        PartitionScheme::Unknown
    } else if sector0[MBR_PARTITION_TABLE_OFFSET + 4] == 0xEE {
        PartitionScheme::Gpt
    } else {
        PartitionScheme::Mbr
    }
}

pub fn detect_scheme(sector0: &[u8]) -> (s: PartitionScheme)
    ensures
        s == scheme_of(sector0@),
{
    if sector0.len() < 512 {
        return PartitionScheme::Unknown;
    }
    let sig = (sector0[511] as u16) * 0x100 + sector0[510] as u16;
    if sig != MBR_SIGNATURE {
        return PartitionScheme::Unknown;
    }
    let off = MBR_PARTITION_TABLE_OFFSET;
    if sector0[off + 4] == 0xEE {
        return PartitionScheme::Gpt;
    }
    PartitionScheme::Mbr
}

fn read_le32(s: &[u8], off: usize) -> (v: u32)
    requires
        off + 4 <= s@.len(),
    ensures
        v == le32(s@, off as int),
{
    (s[off] as u32) + (s[off + 1] as u32) * 0x100 + (s[off + 2] as u32) * 0x1_0000 + (s[off + 3] as u32)
        * 0x100_0000
}

fn read_le64(s: &[u8], off: usize) -> (v: u64)
    requires
        off + 8 <= s@.len(),
    ensures
        v == le64(s@, off as int),
{
    let len = s.len();
    assert(off + 8 <= len);
    (read_le32(s, off) as u64) + (read_le32(s, off + 4) as u64) * 0x1_0000_0000
}

/// Entry `index` (0 to 3) of the MBR partition table in a disk's first sector: status at byte 0,
/// type at byte 4, first sector and sector count as little-endian 32-bit values at bytes 8 and 12.
pub fn parse_mbr_entry(sector0: &[u8], index: usize) -> (r: Option<MbrEntry>)
    ensures
        (index >= MBR_MAX_PARTITIONS || sector0@.len() < 512) ==> r is None,
        (index < MBR_MAX_PARTITIONS && sector0@.len() >= 512) ==> ({
            let off = MBR_PARTITION_TABLE_OFFSET + index * MBR_ENTRY_SIZE;
            r == Some(MbrEntry {
                status: sector0@[off],
                partition_type: sector0@[off + 4],
                start_lba: le32(sector0@, off + 8) as u32,
                sector_count: le32(sector0@, off + 12) as u32,
            })
        }),
{
    if index >= MBR_MAX_PARTITIONS || sector0.len() < 512 {
        return None;
    }
    let off = MBR_PARTITION_TABLE_OFFSET + index * MBR_ENTRY_SIZE;
    let status = sector0[off];
    let partition_type = sector0[off + 4];
    let start_lba = read_le32(sector0, off + 8);
    let sector_count = read_le32(sector0, off + 12);
    Some(MbrEntry { status, partition_type, start_lba, sector_count })
}

/// A 128-byte GPT partition entry: type GUID at bytes 0-15, unique GUID at 16-31, first and last
/// sector and attribute flags as little-endian 64-bit values at bytes 32, 40 and 48.
pub fn parse_gpt_entry(entry_data: &[u8]) -> (r: Option<GptEntry>)
    ensures
        entry_data@.len() < GPT_ENTRY_SIZE ==> r is None,
        entry_data@.len() >= GPT_ENTRY_SIZE ==> (r matches Some(e) && {
            &&& e.type_guid@ == entry_data@.subrange(0, 16)
            &&& e.unique_guid@ == entry_data@.subrange(16, 32)
            &&& e.start_lba == le64(entry_data@, 32)
            &&& e.end_lba == le64(entry_data@, 40)
            &&& e.attributes == le64(entry_data@, 48)
        }),
{
    if entry_data.len() < GPT_ENTRY_SIZE {
        return None;
    }
    let mut type_guid = [0u8; 16];
    let mut unique_guid = [0u8; 16];
    let mut i: usize = 0;
    while i < 16
        invariant
            i <= 16,
            entry_data@.len() >= GPT_ENTRY_SIZE,
            forall|k: int| 0 <= k < i ==> type_guid@[k] == entry_data@[k],
            forall|k: int| 0 <= k < i ==> unique_guid@[k] == entry_data@[16 + k],
        decreases 16 - i,
    {
        type_guid[i] = entry_data[i];
        unique_guid[i] = entry_data[16 + i];
        i += 1;
    }
    let start_lba = read_le64(entry_data, 32);
    let end_lba = read_le64(entry_data, 40);
    let attributes = read_le64(entry_data, 48);
    assert(type_guid@ =~= entry_data@.subrange(0, 16));
    assert(unique_guid@ =~= entry_data@.subrange(16, 32));
    Some(GptEntry { type_guid, unique_guid, start_lba, end_lba, attributes })
}


/// A first sector is recognised by its boot signature, bytes 0x55 and 0xAA at offsets 510 and
/// 511: without them (or with fewer than 512 bytes) the scheme is unknown; with them, a first
/// partition entry of type 0xEE (the byte at offset 0x1C2) marks a protective MBR, so GPT, and any
/// other type a plain MBR.
pub proof fn law_partition_scheme(sector0: Seq<u8>)
    ensures
        sector0.len() < 512 ==> scheme_of(sector0) == PartitionScheme::Unknown,
        sector0.len() >= 512 && !(sector0[510] == 0x55 && sector0[511] == 0xAA)
            ==> scheme_of(sector0) == PartitionScheme::Unknown,
        sector0.len() >= 512 && sector0[510] == 0x55 && sector0[511] == 0xAA && sector0[0x1C2] == 0xEE
            ==> scheme_of(sector0) == PartitionScheme::Gpt,
        sector0.len() >= 512 && sector0[510] == 0x55 && sector0[511] == 0xAA && sector0[0x1C2] != 0xEE
            ==> scheme_of(sector0) == PartitionScheme::Mbr,
{
}

} // verus!
