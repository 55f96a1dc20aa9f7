use vstd::prelude::*;

verus! {

/// NFC signalling technologies and the protocols above them.
#[derive(Clone, Copy, PartialEq, Eq, Structural)]
pub enum NfcProtocol {
    NfcA,
    NfcB,
    NfcF,
    NfcV,
    IsoDep,
    NfcDep,
}

/// NFC Forum tag types.
#[derive(Clone, Copy, PartialEq, Eq, Structural)]
pub enum TagType {
    Type1,
    Type2,
    Type3,
    Type4,
    Type5,
}

pub const SENS_REQ: u8 = 0x26;
pub const ALL_REQ: u8 = 0x52;
pub const SDD_REQ: u8 = 0x93;
pub const SEL_REQ: u8 = 0x93;
pub const RATS: u8 = 0xE0;

pub const SENSB_REQ: u8 = 0x05;
pub const ATTRIB: u8 = 0x1D;

pub const SENSF_REQ: u8 = 0x04;

/// The bit rate, in kbit/s, that each protocol starts at.
pub open spec fn bitrate_of(protocol: NfcProtocol) -> u32 {
    match protocol {
        NfcProtocol::NfcA => 106,
        NfcProtocol::NfcB => 106,
        NfcProtocol::NfcF => 212,
        NfcProtocol::NfcV => 26,
        NfcProtocol::IsoDep => 106,
        NfcProtocol::NfcDep => 106,
    }
}

/// The modulation register code of each protocol: one distinct bit per protocol.
pub open spec fn modulation_of(protocol: NfcProtocol) -> u32 {
    match protocol {
        NfcProtocol::NfcA => 0x01,
        NfcProtocol::NfcB => 0x02,
        NfcProtocol::NfcF => 0x04,
        NfcProtocol::NfcV => 0x08,
        NfcProtocol::IsoDep => 0x10,
        NfcProtocol::NfcDep => 0x20,
    }
}

pub fn protocol_bitrate(protocol: NfcProtocol) -> (rate: u32)
    ensures
        rate == bitrate_of(protocol),
{
    match protocol {
        NfcProtocol::NfcA => 106,
        NfcProtocol::NfcB => 106,
        NfcProtocol::NfcF => 212,
        NfcProtocol::NfcV => 26,
        NfcProtocol::IsoDep => 106,
        NfcProtocol::NfcDep => 106,
    }
}

pub fn modulation_code(protocol: NfcProtocol) -> (code: u32)
    ensures
        code == modulation_of(protocol),
{
    match protocol {
        NfcProtocol::NfcA => 0x01,
        NfcProtocol::NfcB => 0x02,
        NfcProtocol::NfcF => 0x04,
        NfcProtocol::NfcV => 0x08,
        NfcProtocol::IsoDep => 0x10,
        NfcProtocol::NfcDep => 0x20,
    }
}

/// Distinct protocols have distinct modulation codes.
pub proof fn law_modulation_codes_distinct(a: NfcProtocol, b: NfcProtocol)
    requires
        a != b,
    ensures
        modulation_of(a) != modulation_of(b),
{
}

/// The tag type carried over each signalling technology; ISO-DEP and NFC-DEP name none.
pub fn tag_type_for_protocol(protocol: NfcProtocol) -> (t: Option<TagType>)
    ensures
        t == match protocol {
            NfcProtocol::NfcA => Some(TagType::Type2),
            NfcProtocol::NfcB => Some(TagType::Type4),
            NfcProtocol::NfcF => Some(TagType::Type3),
            NfcProtocol::NfcV => Some(TagType::Type5),
            _ => None,
        },
{
    match protocol {
        NfcProtocol::NfcA => Some(TagType::Type2),
        NfcProtocol::NfcB => Some(TagType::Type4),
        NfcProtocol::NfcF => Some(TagType::Type3),
        NfcProtocol::NfcV => Some(TagType::Type5),
        _ => None,
    }
}

/// The NFC-A wake-up command: ALL_REQ wakes halted tags too, SENS_REQ only idle ones.
pub fn build_sens_req(all: bool) -> (cmd: u8)
    ensures
        cmd == if all { ALL_REQ } else { SENS_REQ },
{
    if all {
        ALL_REQ
    } else {
        SENS_REQ
    }
}

} // verus!
