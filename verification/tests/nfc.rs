use lib::nfc::lifecycle::{init as bring_up, NfcRecord};
use lib::arch::Architecture;
use lib::devicetree::DtDeviceEntry;
use lib::driver_state::{DriverState, STATE_ACTIVE, STATE_PROBED, STATE_STOPPED};
use lib::nfc::detection::{detect, NfcChip, NfcController};
use lib::nfc::drivers::generic::{init, probe, recv_step, recv_store, send_step, shutdown, state};
use lib::nfc::hw::{
    disable, enable, field_detected, read_rx, rf_active, rf_field_off, rf_field_on, rx_ready,
    start_poll, stop_poll, target_present, tx_busy, write_tx, CTRL_ENABLE, CTRL_POLL, CTRL_RF_ON,
};
use lib::nfc::polling::{
    current_state, interval_ms, is_active, poll_cycle, set_interval_ms, set_state, start, state_to_u8,
    stop, u8_to_state, PollState, Poller,
};
use lib::nfc::protocol::{
    build_sens_req, modulation_code, protocol_bitrate, tag_type_for_protocol, NfcProtocol, TagType,
    ALL_REQ, SENS_REQ,
};
use lib::nfc::tag::{
    find_ndef_tlv, has_ndef_magic, is_text_record, is_uri_record, ndef_record_tnf,
    ndef_record_type_from_tnf, NdefMessage, NdefRecordType, TagUid,
};

fn nfc_node(name: &str, compat: &str, base: u64, irq: u32) -> DtDeviceEntry {
    let mut e = DtDeviceEntry {
        name: [0; 64],
        name_len: name.len(),
        reg_base: base,
        reg_size: 0x1000,
        irq,
        compatible: [0; 128],
        compatible_len: compat.len(),
    };
    e.name[..name.len()].copy_from_slice(name.as_bytes());
    e.compatible[..compat.len()].copy_from_slice(compat.as_bytes());
    e
}

fn nfc_blank() -> NfcController {
    NfcController { chip: NfcChip::Unknown, reg_base: 0, irq: 0, compat: [0; 64], compat_len: 0 }
}

#[test]
fn detect_keeps_nfc_nodes_in_order() {
    let entries = [
        nfc_node("uart0", "ns16550a", 0x1000, 1),
        nfc_node("nfc@2000", "nxp,pn544", 0x2000, 5),
        nfc_node("i2c", "vendor,i2c", 0x3000, 2),
        nfc_node("reader", "st,st21nfc", 0x4000, 6),
        nfc_node("x", "brcm,bcm20791", 0x5000, 7),
        nfc_node("y", "ti,trf7970a", 0x6000, 8),
        nfc_node("nfc", "vendor,thing", 0x7000, 9),
    ];
    let mut out = [nfc_blank(); 8];
    let n = detect(4096, &entries, &mut out);
    assert_eq!(n, 5);
    assert!(out[0].chip == NfcChip::Nxp);
    assert_eq!(out[0].reg_base, 0x2000);
    assert_eq!(out[0].irq, 5);
    assert_eq!(out[0].compat_len, 9);
    assert_eq!(&out[0].compat[..9], b"nxp,pn544");
    assert!(out[1].chip == NfcChip::St);
    assert!(out[2].chip == NfcChip::Broadcom);
    assert!(out[3].chip == NfcChip::Ti);
    // a node named "nfc" with an unknown compatible string counts as NXP
    assert!(out[4].chip == NfcChip::Nxp);
    assert_eq!(out[4].reg_base, 0x7000);
    // untouched slots stay as they were
    assert_eq!(out[5].compat_len, 0);
}

#[test]
fn detect_stops_when_the_output_is_full() {
    let entries = [nfc_node("a", "nxp,nq-nci", 1, 1), nfc_node("b", "nxp,sn100", 2, 2), nfc_node("c", "brcm,nfc", 3, 3)];
    let mut out = [nfc_blank(); 2];
    assert_eq!(detect(4096, &entries, &mut out), 2);
    assert_eq!(out[1].reg_base, 2);
    let mut none: [NfcController; 0] = [];
    assert_eq!(detect(4096, &entries, &mut none), 0);
}

#[test]
fn detect_finds_nothing_among_other_nodes() {
    let entries = [nfc_node("uart", "ns16550a", 1, 1), nfc_node("gpio", "vendor,gpio", 2, 2)];
    let mut out = [nfc_blank(); 4];
    assert_eq!(detect(4096, &entries, &mut out), 0);
}

#[test]
fn control_bits_set_and_clear() {
    assert_eq!(enable(0), CTRL_ENABLE);
    assert_eq!(disable(0xFF), 0xFE);
    assert_eq!(rf_field_on(0x01), 0x05);
    assert_eq!(rf_field_off(0x0F), 0x0B);
    assert_eq!(start_poll(0), CTRL_POLL);
    assert_eq!(stop_poll(0xFF), 0xF7);
}

#[test]
fn switching_off_undoes_switching_on() {
    for ctrl in [0u32, 0x01, 0x04, 0x0F, 0xFFFF_FFFF, 0x1234_5678] {
        assert_eq!(rf_field_off(rf_field_on(ctrl)), rf_field_off(ctrl));
        assert_eq!(stop_poll(start_poll(ctrl)), stop_poll(ctrl));
        assert_eq!(disable(enable(ctrl)), disable(ctrl));
        assert_eq!(rf_field_on(ctrl) & !CTRL_RF_ON, ctrl & !CTRL_RF_ON);
    }
}

#[test]
fn status_bits_decode() {
    assert!(target_present(0x04));
    assert!(!target_present(0x03));
    assert!(rf_active(0x02));
    assert!(!rf_active(0x01));
    assert!(tx_busy(0x08));
    assert!(rx_ready(0x10));
    assert!(!rx_ready(0x0F));
    assert!(field_detected(0x01));
    assert!(!field_detected(0x02));
}

#[test]
fn data_registers_carry_one_byte() {
    assert_eq!(write_tx(0xAB), 0xAB);
    assert_eq!(read_rx(0x1234_56CD), 0xCD);
}

#[test]
fn poll_state_codes_round_trip() {
    let all = [
        PollState::Idle,
        PollState::Polling,
        PollState::TargetFound,
        PollState::Activated,
        PollState::DataExchange,
    ];
    for (i, s) in all.iter().enumerate() {
        assert_eq!(state_to_u8(*s), i as u8);
        assert!(u8_to_state(state_to_u8(*s)) == *s);
    }
    assert!(u8_to_state(200) == PollState::Idle);
}

#[test]
fn poller_follows_the_status_register() {
    let mut p = Poller::new();
    assert!(current_state(&p) == PollState::Idle);
    assert!(!is_active(&p));
    assert_eq!(interval_ms(&p), 100);
    start(&mut p);
    assert!(current_state(&p) == PollState::Polling);
    assert!(is_active(&p));
    assert!(!poll_cycle(&mut p, 0x03));
    assert!(current_state(&p) == PollState::Polling);
    assert!(poll_cycle(&mut p, 0x04));
    assert!(current_state(&p) == PollState::TargetFound);
    set_state(&mut p, PollState::DataExchange);
    assert!(current_state(&p) == PollState::DataExchange);
    set_interval_ms(&mut p, 20);
    assert_eq!(interval_ms(&p), 20);
    stop(&mut p);
    assert!(current_state(&p) == PollState::Idle);
    assert_eq!(interval_ms(&p), 20);
}

#[test]
fn protocol_tables() {
    assert_eq!(protocol_bitrate(NfcProtocol::NfcA), 106);
    assert_eq!(protocol_bitrate(NfcProtocol::NfcF), 212);
    assert_eq!(protocol_bitrate(NfcProtocol::NfcV), 26);
    let all = [
        NfcProtocol::NfcA,
        NfcProtocol::NfcB,
        NfcProtocol::NfcF,
        NfcProtocol::NfcV,
        NfcProtocol::IsoDep,
        NfcProtocol::NfcDep,
    ];
    for a in all {
        for b in all {
            if a != b {
                assert_ne!(modulation_code(a), modulation_code(b));
            }
        }
    }
    assert_eq!(modulation_code(NfcProtocol::IsoDep), 0x10);
    assert!(tag_type_for_protocol(NfcProtocol::NfcA) == Some(TagType::Type2));
    assert!(tag_type_for_protocol(NfcProtocol::NfcF) == Some(TagType::Type3));
    assert!(tag_type_for_protocol(NfcProtocol::NfcDep).is_none());
    assert_eq!(build_sens_req(true), ALL_REQ);
    assert_eq!(build_sens_req(false), SENS_REQ);
}

#[test]
fn ndef_tlv_scan() {
    // NULL, NULL, lock-control TLV of two bytes, then the NDEF message of three bytes
    let data = [0x00, 0x00, 0x01, 0x02, 0xAA, 0xBB, 0x03, 0x03, 0xD1, 0x01, 0x00, 0xFE];
    assert_eq!(find_ndef_tlv(&data), Some((8, 3)));
    // terminator first
    assert_eq!(find_ndef_tlv(&[0xFE, 0x03, 0x01, 0x00]), None);
    // message longer than the data
    assert_eq!(find_ndef_tlv(&[0x03, 0x05, 0x01]), None);
    // a tag without its length byte
    assert_eq!(find_ndef_tlv(&[0x00, 0x03]), None);
    assert_eq!(find_ndef_tlv(&[]), None);
    // an empty message
    assert_eq!(find_ndef_tlv(&[0x03, 0x00]), Some((2, 0)));
}

#[test]
fn ndef_record_helpers() {
    assert!(has_ndef_magic(&[0xE1, 0x10]));
    assert!(!has_ndef_magic(&[0xE2]));
    assert!(!has_ndef_magic(&[]));
    assert_eq!(ndef_record_tnf(0xD1), 1);
    assert!(ndef_record_type_from_tnf(1) == NdefRecordType::Text);
    assert!(ndef_record_type_from_tnf(2) == NdefRecordType::MimeMedia);
    assert!(ndef_record_type_from_tnf(3) == NdefRecordType::AbsoluteUri);
    assert!(ndef_record_type_from_tnf(4) == NdefRecordType::External);
    assert!(ndef_record_type_from_tnf(7) == NdefRecordType::Unknown);
    assert!(is_uri_record(b"U"));
    assert!(!is_uri_record(b"UU"));
    assert!(is_text_record(b"T"));
    assert!(!is_text_record(b"U"));
}

#[test]
fn empty_tag_values() {
    let u = TagUid::empty();
    assert_eq!(u.uid_bytes().len(), 0);
    assert!(!u.is_valid());
    let v = TagUid { bytes: [7; 10], len: 7 };
    assert!(v.is_valid());
    assert_eq!(v.uid_bytes(), &[7u8; 7][..]);
    assert!(!TagUid { bytes: [0; 10], len: 11 }.is_valid());
    let m = NdefMessage::empty();
    assert_eq!(m.bytes().len(), 0);
}

#[test]
fn nfc_driver_life_cycle() {
    let mut st = DriverState::new();
    assert_eq!(state(&st), STATE_STOPPED);
    let d = probe(&mut st, 0xFE00_0000, 0x544);
    assert_eq!(d.base, 0xFE00_0000);
    assert_eq!(d.chip_id, 0x544);
    assert!(d.protocol == NfcProtocol::NfcA);
    assert_eq!(state(&st), STATE_PROBED);
    assert!(init(&mut st, &d));
    assert_eq!(state(&st), STATE_ACTIVE);
    shutdown(&mut st, &d);
    assert_eq!(state(&st), STATE_STOPPED);
}

#[test]
fn nfc_bring_up_records_count_and_last_signature() {
    let entries = [
        nfc_node("a", "nxp,pn544", 0x1000, 3),
        nfc_node("b", "uart", 0x2000, 4),
        nfc_node("c", "st,st21nfc", 0x3000, 5),
    ];
    let mut rec = NfcRecord { count: 99, signature: 7 };
    assert_eq!(bring_up(Architecture::X86_64, None, 4096, &entries, &mut rec), 2);
    assert_eq!(rec.count, 2);
    assert_eq!(rec.signature, 0x3000 ^ 5 ^ "st,st21nfc".len());
    // no controller: the count is recorded, the signature left alone
    let mut quiet = NfcRecord { count: 1, signature: 7 };
    assert_eq!(bring_up(Architecture::AArch64, Some((0x9000_0000, 0x1000, 7)), 4096, &entries[1..2], &mut quiet), 0);
    assert_eq!((quiet.count, quiet.signature), (0, 7));
    // at most four controllers are brought up
    let many: Vec<DtDeviceEntry> = (0..6).map(|i| nfc_node("nfc", "x", 0x100 * i, i as u32)).collect();
    let mut rec6 = NfcRecord { count: 0, signature: 0 };
    assert_eq!(bring_up(Architecture::Other, None, 4096, &many, &mut rec6), 4);
    assert_eq!(rec6.signature, 0x300 ^ 3 ^ 1);
}

#[test]
fn nfc_bring_up_stops_without_an_arm_node() {
    let entries = [nfc_node("a", "nxp,pn544", 0x1000, 3)];
    let mut rec = NfcRecord { count: 9, signature: 7 };
    assert_eq!(bring_up(Architecture::AArch64, None, 4096, &entries, &mut rec), 0);
    assert_eq!((rec.count, rec.signature), (9, 7));
    assert_eq!(bring_up(Architecture::AArch64, Some((0, 0x1000, 1)), 4096, &entries, &mut rec), 0);
    assert_eq!((rec.count, rec.signature), (9, 7));
    assert_eq!(bring_up(Architecture::AArch64, Some((0x8000, 0x1000, 1)), 4096, &entries, &mut rec), 1);
    assert_eq!(rec.count, 1);
}

#[test]
fn detect_needs_a_whole_devicetree_header() {
    let entries = [nfc_node("nfc@2000", "nxp,pn544", 0x2000, 5)];
    let mut out = [nfc_blank(); 2];
    assert_eq!(detect(39, &entries, &mut out), 0);
    assert_eq!(out[0].compat_len, 0);
    assert_eq!(detect(0, &entries, &mut out), 0);
    assert_eq!(detect(40, &entries, &mut out), 1);
    assert_eq!(out[0].reg_base, 0x2000);
}

#[test]
fn detect_scans_at_most_sixty_four_nodes() {
    let mut entries: Vec<DtDeviceEntry> = (0..64).map(|i| nfc_node("uart", "ns16550a", i, 1)).collect();
    entries.push(nfc_node("nfc", "nxp,pn544", 0x9000, 2));
    let mut out = [nfc_blank(); 2];
    assert_eq!(detect(4096, &entries, &mut out), 0);
    entries[63] = nfc_node("nfc", "st,st21nfc", 0x8000, 3);
    assert_eq!(detect(4096, &entries, &mut out), 1);
    assert!(out[0].chip == NfcChip::St);
    assert_eq!(out[0].reg_base, 0x8000);
}

#[test]
fn nfc_bring_up_with_a_short_blob_finds_nothing() {
    let entries = [nfc_node("a", "nxp,pn544", 0x1000, 3)];
    let mut rec = NfcRecord { count: 5, signature: 7 };
    assert_eq!(bring_up(Architecture::X86_64, None, 16, &entries, &mut rec), 0);
    assert_eq!((rec.count, rec.signature), (0, 7));
}

#[test]
fn send_steps_write_until_busy_or_done() {
    let data = [0xA5u8, 0x5A];
    let mut sent = 0usize;
    assert_eq!(send_step(&data, &mut sent, 0), Some(0xA5));
    assert_eq!(sent, 1);
    // a busy transmitter stops the transfer where it is
    assert_eq!(send_step(&data, &mut sent, 0x08), None);
    assert_eq!(sent, 1);
    assert_eq!(send_step(&data, &mut sent, 0x10), Some(0x5A));
    assert_eq!(sent, 2);
    assert_eq!(send_step(&data, &mut sent, 0), None);
    assert_eq!(sent, 2);
}

#[test]
fn receive_steps_store_while_ready() {
    assert!(recv_step(0, 2, 0x10));
    assert!(!recv_step(0, 2, 0x08));
    assert!(!recv_step(2, 2, 0x10));
    let mut buf = [0u8; 2];
    let mut received = 0usize;
    recv_store(&mut buf, &mut received, 0x1_23);
    recv_store(&mut buf, &mut received, 0xFF);
    assert_eq!(buf, [0x23, 0xFF]);
    assert_eq!(received, 2);
}
