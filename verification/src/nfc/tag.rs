use vstd::prelude::*;

verus! {

pub const NDEF_MAGIC: u8 = 0xE1;
pub const NDEF_TLV_TERMINATOR: u8 = 0xFE;
pub const NDEF_TLV_NDEF_MESSAGE: u8 = 0x03;
pub const NDEF_TLV_NULL: u8 = 0x00;

pub const MAX_UID_LEN: usize = 10;
pub const MAX_NDEF_SIZE: usize = 256;

/// NDEF record kinds.
#[derive(Clone, Copy, PartialEq, Eq, Structural)]
pub enum NdefRecordType {
    Text,
    Uri,
    SmartPoster,
    MimeMedia,
    AbsoluteUri,
    External,
    Unknown,
}

/// A tag's unique identifier: up to ten bytes and their count.
#[derive(Clone, Copy)]
pub struct TagUid {
    pub bytes: [u8; 10],
    pub len: u8,
}

impl TagUid {
    /// An identifier of no bytes.
    pub fn empty() -> (u: Self)
        ensures
            u.len == 0,
            forall|k: int| 0 <= k < 10 ==> u.bytes@[k] == 0,
    {
        TagUid { bytes: [0u8; 10], len: 0 }
    }

    /// The identifier bytes in use.
    pub fn uid_bytes(&self) -> (s: &[u8])
        requires
            self.len <= 10,
        ensures
            s@ == self.bytes@.subrange(0, self.len as int),
    {
        &self.bytes[0..self.len as usize]
    }

    /// An identifier holds between one and ten bytes.
    pub fn is_valid(&self) -> (b: bool)
        ensures
            b == (0 < self.len && self.len <= MAX_UID_LEN),
    {
        self.len > 0 && self.len as usize <= MAX_UID_LEN
    }
}

/// An NDEF message buffer: up to 256 bytes and their count.
pub struct NdefMessage {
    pub data: [u8; 256],
    pub len: usize,
}

impl NdefMessage {
    /// A message of no bytes.
    pub fn empty() -> (m: Self)
        ensures
            m.len == 0,
            forall|k: int| 0 <= k < 256 ==> m.data@[k] == 0,
    {
        NdefMessage { data: [0u8; 256], len: 0 }
    }

    /// The message bytes in use.
    pub fn bytes(&self) -> (s: &[u8])
        requires
            self.len <= 256,
        ensures
            s@ == self.data@.subrange(0, self.len as int),
    {
        &self.data[0..self.len]
    }
}

/// Tag memory starts with the NDEF capability-container magic byte.
pub fn has_ndef_magic(data: &[u8]) -> (b: bool)
    ensures
        b == (data@.len() > 0 && data@[0] == NDEF_MAGIC),
{
    data.len() != 0 && data[0] == NDEF_MAGIC
}

/// The TLV scan from offset `i`: NULL blocks are one byte, the terminator ends the scan, any other
/// block is a tag, a length byte and that many value bytes. The first NDEF-message block gives
/// `(start of its value, its length)`, provided the value lies within the data.
pub open spec fn tlv_scan(data: Seq<u8>, i: int) -> Option<(int, int)>
    decreases (if i < data.len() { data.len() - i } else { 0 }),
{
    if i < 0 || i >= data.len() {
        None
    } else if data[i] == NDEF_TLV_TERMINATOR {
        None
    } else if data[i] == NDEF_TLV_NULL {
        tlv_scan(data, i + 1)
    } else if i + 1 >= data.len() {
        None
    } else if data[i] == NDEF_TLV_NDEF_MESSAGE {
        if i + 2 + data[i + 1] <= data.len() {
            Some((i + 2, data[i + 1] as int))
        } else {
            None
        }
    } else {
        tlv_scan(data, i + 2 + data[i + 1])
    }
}

/// Finds the value of the first NDEF-message TLV in tag memory.
pub fn find_ndef_tlv(data: &[u8]) -> (r: Option<(usize, usize)>)
    requires
        data@.len() + 257 <= usize::MAX,
    ensures
        r matches Some(p) ==> tlv_scan(data@, 0) == Some((p.0 as int, p.1 as int)),
        r is None ==> tlv_scan(data@, 0) is None,
{
    let mut i: usize = 0;
    while i < data.len()
        invariant
            data@.len() + 257 <= usize::MAX,
            tlv_scan(data@, 0) == tlv_scan(data@, i as int),
            i <= data@.len() + 257,
        decreases (if i < data@.len() { data@.len() - i } else { 0 }),
    {
        let tag = data[i];
        if tag == NDEF_TLV_TERMINATOR {
            return None;
        }
        if tag == NDEF_TLV_NULL {
            i += 1;
            continue;
        }
        if i + 1 >= data.len() {
            return None;
        }
        let length = data[i + 1] as usize;
        if tag == NDEF_TLV_NDEF_MESSAGE {
            let start = i + 2;
            if start + length <= data.len() {
                return Some((start, length));
            }
            return None;
        }
        i += 2 + length;
    }
    None
}

/// The type-name-format field of an NDEF record header: its low three bits.
pub fn ndef_record_tnf(header: u8) -> (tnf: u8)
    ensures
        tnf == header % 8,
{
    header % 8
}

/// The record kind a type-name format announces.
pub fn ndef_record_type_from_tnf(tnf: u8) -> (t: NdefRecordType)
    ensures
        t == if tnf == 1 {
            NdefRecordType::Text
        } else if tnf == 2 {
            NdefRecordType::MimeMedia
        } else if tnf == 3 {
            NdefRecordType::AbsoluteUri
        } else if tnf == 4 {
            NdefRecordType::External
        } else {
            NdefRecordType::Unknown
        },
{
    match tnf {
        0x01 => NdefRecordType::Text,
        0x02 => NdefRecordType::MimeMedia,
        0x03 => NdefRecordType::AbsoluteUri,
        0x04 => NdefRecordType::External,
        _ => NdefRecordType::Unknown,
    }
}

/// A record type field that is exactly "U" (a URI record).
pub fn is_uri_record(type_field: &[u8]) -> (b: bool)
    ensures
        b == (type_field@.len() == 1 && type_field@[0] == 0x55),
{
    type_field.len() == 1 && type_field[0] == 0x55
}

/// A record type field that is exactly "T" (a text record).
pub fn is_text_record(type_field: &[u8]) -> (b: bool)
    ensures
        b == (type_field@.len() == 1 && type_field@[0] == 0x54),
{
    type_field.len() == 1 && type_field[0] == 0x54
}


/// A scan result moved `off` bytes further into the data.
pub open spec fn tlv_shifted(r: Option<(int, int)>, off: int) -> Option<(int, int)> {
    match r {
        Some(v) => Some((v.0 + off, v.1)),
        None => None,
    }
}

/// How the scan walks tag memory, one TLV block at a time: outside the data it finds nothing; a
/// terminator (0xFE) ends it with nothing found; a NULL byte (0x00) is skipped alone; any other
/// tag needs a length byte after it, else nothing is found; an NDEF-message block (0x03) is the
/// answer, its value's start and length, when the value fits in the data and nothing otherwise;
/// and a block with any other tag is skipped whole, tag, length byte and value, and the scan
/// goes on after it.
pub proof fn law_tlv_blocks(data: Seq<u8>, i: int)
    ensures
        i < 0 || i >= data.len() ==> tlv_scan(data, i) is None,
        0 <= i < data.len() && data[i] == 0xFE ==> tlv_scan(data, i) is None,
        0 <= i < data.len() && data[i] == 0x00 ==> tlv_scan(data, i) == tlv_scan(data, i + 1),
        0 <= i && i + 1 == data.len() && data[i] != 0x00 ==> tlv_scan(data, i) is None,
        0 <= i && i + 1 < data.len() && data[i] == 0x03 ==> tlv_scan(data, i) == if i + 2 + data[i + 1] <= data.len() {
            Some((i + 2, data[i + 1] as int))
        } else {
            None
        },
        0 <= i && i + 1 < data.len() && data[i] != 0x00 && data[i] != 0x03 && data[i] != 0xFE
            ==> tlv_scan(data, i) == tlv_scan(data, i + 2 + data[i + 1]),
{
}

/// Scanning data placed after a prefix finds what scanning the data alone finds, moved by the
/// prefix's length.
pub proof fn lemma_tlv_after_prefix(pre: Seq<u8>, rest: Seq<u8>, k: int)
    requires
        0 <= k,
    ensures
        tlv_scan(pre + rest, pre.len() + k) == tlv_shifted(tlv_scan(rest, k), pre.len() as int),
    decreases (if k < rest.len() { rest.len() - k } else { 0 }),
{
    let d = pre + rest;
    let j = pre.len() + k;
    if k < rest.len() {
        assert(d[j] == rest[k]);
        if rest[k] == 0xFE {
        } else if rest[k] == 0x00 {
            lemma_tlv_after_prefix(pre, rest, k + 1);
        } else if k + 1 >= rest.len() {
        } else {
            assert(d[j + 1] == rest[k + 1]);
            if rest[k] != 0x03 {
                lemma_tlv_after_prefix(pre, rest, k + 2 + rest[k + 1]);
            }
        }
    }
}

/// A block whose tag is neither NULL, NDEF message nor terminator is passed over: tag memory
/// that starts with such a block (tag `t`, its length byte and `value`) gives what the memory
/// after the block gives, moved by the block's length.
pub proof fn law_tlv_skips_other_blocks(t: u8, value: Seq<u8>, rest: Seq<u8>)
    requires
        t != 0x00,
        t != 0x03,
        t != 0xFE,
        value.len() < 256,
    ensures
        tlv_scan(seq![t, value.len() as u8] + value + rest, 0)
            == tlv_shifted(tlv_scan(rest, 0), value.len() + 2int),
{
    let block = seq![t, value.len() as u8] + value;
    let d = block + rest;
    assert(seq![t, value.len() as u8] + value + rest == d);
    assert(d[0] == t);
    assert(d[1] == value.len() as u8);
    assert(tlv_scan(d, 0) == tlv_scan(d, 2int + value.len()));
    lemma_tlv_after_prefix(block, rest, 0);
}

} // verus!
