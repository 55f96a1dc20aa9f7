use lib::storage::lifecycle::{init as bring_up, StorageRecord};
use lib::arch::Architecture;
use lib::devicetree::DtDeviceEntry;
use lib::driver_state::{DriverState, STATE_ACTIVE, STATE_PROBED, STATE_STOPPED};
use lib::pci::{read_config_u32, PciConfigSnapshot, PciDevice};
use lib::storage::command::{flush_cmd, identify_cmd, read_cmd, trim_cmd, write_cmd, Command, CommandOpcode};
use lib::storage::detection::{
    bar_for_protocol, classify_storage_compat, classify_storage_pci, count_bits, detect, StorageController,
    StorageProtocol,
};
use lib::storage::drivers::generic::{init, probe, state, ProbeRegisters, StorageDriver};
use lib::storage::hw::{
    ahci_enable, ahci_port_count, ahci_port_offset, nvme_disable, nvme_enable, nvme_ready, nvme_version,
    read_reg64, write_reg64, AHCI_GHC_AE,
};
use lib::storage::partition::{
    detect_scheme, parse_gpt_entry, parse_mbr_entry, GptEntry, MbrEntry, PartitionScheme,
};
use lib::storage::queue::{inflight_count, CommandQueue, InflightCounter, MAX_QUEUE_DEPTH};

fn storage_func(class: u8, subclass: u8, cfg10: u32, cfg24: u32, device: u8) -> PciConfigSnapshot {
    PciConfigSnapshot {
        dev: PciDevice { bus: 0, device, function: 0, vendor_id: 0x8086, device_id: 0x2922, class, subclass },
        cfg10,
        cfg24,
    }
}

fn storage_node(compat: &str, base: u64) -> DtDeviceEntry {
    let mut e = DtDeviceEntry {
        name: [0; 64],
        name_len: 0,
        reg_base: base,
        reg_size: 0x2000,
        irq: 0,
        compatible: [0; 128],
        compatible_len: compat.len(),
    };
    e.compatible[..compat.len()].copy_from_slice(compat.as_bytes());
    e
}

fn storage_blank() -> StorageController {
    StorageController {
        vendor_id: 0xFFFF,
        device_id: 0xFFFF,
        protocol: StorageProtocol::Unknown,
        ports: 0,
        bar: 0,
        bus: 0,
        dev: 0,
        func: 0,
        pci: false,
        reg_base: 0,
        reg_size: 0,
    }
}

#[test]
fn commands_carry_their_arguments() {
    let r = read_cmd(100, 8, 0x1000);
    assert!(r.opcode == CommandOpcode::Read);
    assert_eq!((r.lba, r.sector_count, r.buffer_addr, r.flags), (100, 8, 0x1000, 0));
    let w = write_cmd(7, 1, 0x2000);
    assert!(w.opcode == CommandOpcode::Write);
    assert_eq!((w.lba, w.sector_count, w.buffer_addr), (7, 1, 0x2000));
    let f = flush_cmd();
    assert!(f.opcode == CommandOpcode::Flush);
    assert_eq!((f.lba, f.sector_count, f.buffer_addr), (0, 0, 0));
    let t = trim_cmd(50, 16);
    assert!(t.opcode == CommandOpcode::Trim);
    assert_eq!((t.lba, t.sector_count, t.buffer_addr), (50, 16, 0));
    let i = identify_cmd(0x3000);
    assert!(i.opcode == CommandOpcode::Identify);
    assert_eq!(i.buffer_addr, 0x3000);
}

#[test]
fn queue_is_first_in_first_out() {
    let mut q = CommandQueue::new();
    let mut inflight = InflightCounter::new();
    assert!(q.is_empty());
    assert!(q.dequeue(&mut inflight).is_none());
    assert_eq!(inflight_count(&inflight), 0);
    for lba in 0..5u64 {
        assert!(q.submit(read_cmd(lba, 1, 0), &mut inflight));
    }
    assert_eq!(q.depth(), 5);
    assert_eq!(inflight_count(&inflight), 5);
    for lba in 0..5u64 {
        let c: Command = q.dequeue(&mut inflight).unwrap();
        assert_eq!(c.lba, lba);
    }
    assert!(q.is_empty());
    assert_eq!(inflight_count(&inflight), 0);
}

#[test]
fn queue_refuses_when_full_and_wraps_around() {
    let mut q = CommandQueue::default();
    let mut inflight = InflightCounter::new();
    for lba in 0..MAX_QUEUE_DEPTH as u64 {
        assert!(q.submit(write_cmd(lba, 1, 0), &mut inflight));
    }
    assert!(q.is_full());
    assert!(!q.submit(flush_cmd(), &mut inflight));
    assert_eq!(q.depth(), MAX_QUEUE_DEPTH);
    assert_eq!(inflight_count(&inflight), 32);
    // take ten out, put ten more in: the ring wraps and order is kept
    for lba in 0..10u64 {
        assert_eq!(q.dequeue(&mut inflight).unwrap().lba, lba);
    }
    for lba in 100..110u64 {
        assert!(q.submit(trim_cmd(lba, 1), &mut inflight));
    }
    let mut expected: Vec<u64> = (10..32).collect();
    expected.extend(100..110);
    for lba in expected {
        assert_eq!(q.dequeue(&mut inflight).unwrap().lba, lba);
    }
    assert!(q.is_empty());
    assert_eq!(inflight_count(&inflight), 0);
}

#[test]
fn queues_share_one_inflight_counter() {
    let mut a = CommandQueue::new();
    let mut b = CommandQueue::new();
    let mut inflight = InflightCounter::new();
    assert!(a.submit(flush_cmd(), &mut inflight));
    assert!(b.submit(flush_cmd(), &mut inflight));
    assert_eq!(inflight_count(&inflight), 2);
    assert!(a.dequeue(&mut inflight).is_some());
    assert_eq!(inflight_count(&inflight), 1);
}

fn mbr_sector(type0: u8, signature: bool) -> Vec<u8> {
    let mut s = vec![0u8; 512];
    let off = 446;
    s[off] = 0x80;
    s[off + 4] = type0;
    s[off + 8..off + 12].copy_from_slice(&2048u32.to_le_bytes());
    s[off + 12..off + 16].copy_from_slice(&0x0010_0000u32.to_le_bytes());
    // second entry
    s[off + 16 + 4] = 0x83;
    s[off + 16 + 8..off + 16 + 12].copy_from_slice(&0x0010_0800u32.to_le_bytes());
    s[off + 16 + 12..off + 16 + 16].copy_from_slice(&4096u32.to_le_bytes());
    if signature {
        s[510] = 0x55;
        s[511] = 0xAA;
    }
    s
}

#[test]
fn partition_scheme_detection() {
    assert!(matches!(detect_scheme(&mbr_sector(0x0C, true)), PartitionScheme::Mbr));
    assert!(matches!(detect_scheme(&mbr_sector(0xEE, true)), PartitionScheme::Gpt));
    assert!(matches!(detect_scheme(&mbr_sector(0x0C, false)), PartitionScheme::Unknown));
    assert!(matches!(detect_scheme(&[0u8; 100]), PartitionScheme::Unknown));
}

#[test]
fn mbr_entries_parse_little_endian() {
    let s = mbr_sector(0x0C, true);
    let e: MbrEntry = parse_mbr_entry(&s, 0).unwrap();
    assert_eq!((e.status, e.partition_type, e.start_lba, e.sector_count), (0x80, 0x0C, 2048, 0x0010_0000));
    assert!(e.is_active());
    assert!(!e.is_empty());
    assert_eq!(e.size_bytes(512), 0x0010_0000u64 * 512);
    let e1 = parse_mbr_entry(&s, 1).unwrap();
    assert_eq!((e1.status, e1.partition_type, e1.start_lba, e1.sector_count), (0, 0x83, 0x0010_0800, 4096));
    assert!(!e1.is_active());
    let e3 = parse_mbr_entry(&s, 3).unwrap();
    assert!(e3.is_empty());
    assert!(parse_mbr_entry(&s, 4).is_none());
    assert!(parse_mbr_entry(&s[..511], 0).is_none());
    let huge = MbrEntry { status: 0, partition_type: 7, start_lba: 0, sector_count: u32::MAX };
    assert_eq!(huge.size_bytes(u32::MAX), u32::MAX as u64 * u32::MAX as u64);
}

#[test]
fn gpt_entries_parse_little_endian() {
    let mut d = vec![0u8; 128];
    for k in 0..16 {
        d[k] = k as u8 + 1;
        d[16 + k] = 0xA0 + k as u8;
    }
    d[32..40].copy_from_slice(&34u64.to_le_bytes());
    d[40..48].copy_from_slice(&2047u64.to_le_bytes());
    d[48..56].copy_from_slice(&0x8000_0000_0000_0001u64.to_le_bytes());
    let e: GptEntry = parse_gpt_entry(&d).unwrap();
    assert_eq!(e.type_guid[0], 1);
    assert_eq!(e.type_guid[15], 16);
    assert_eq!(e.unique_guid[3], 0xA3);
    assert_eq!((e.start_lba, e.end_lba, e.attributes), (34, 2047, 0x8000_0000_0000_0001));
    assert!(!e.is_empty());
    assert_eq!(e.size_lba(), 2014);
    assert_eq!(e.size_bytes(512), 2014 * 512);
    assert!(parse_gpt_entry(&d[..127]).is_none());
    let empty = parse_gpt_entry(&[0u8; 128]).unwrap();
    assert!(empty.is_empty());
    assert_eq!(empty.size_lba(), 1);
    let backwards = GptEntry { type_guid: [1; 16], unique_guid: [0; 16], start_lba: 10, end_lba: 5, attributes: 0 };
    assert_eq!(backwards.size_lba(), 0);
    assert_eq!(backwards.size_bytes(4096), 0);
}

#[test]
fn register_halves_round_trip() {
    for v in [0u64, 1, 0xFFFF_FFFF, 0x1_0000_0000, 0x1234_5678_9ABC_DEF0, u64::MAX] {
        let (lo, hi) = write_reg64(v);
        assert_eq!(read_reg64(lo, hi), v);
    }
    assert_eq!(write_reg64(0x1234_5678_9ABC_DEF0), (0x9ABC_DEF0, 0x1234_5678));
}

#[test]
fn ahci_and_nvme_registers() {
    assert_eq!(ahci_port_count(0), 1);
    assert_eq!(ahci_port_count(0x4000_001F), 32);
    assert_eq!(ahci_enable(0), AHCI_GHC_AE);
    assert_eq!(ahci_port_offset(0), 0x100);
    assert_eq!(ahci_port_offset(3), 0x280);
    assert_eq!(nvme_version(0x0001_0400), (1, 4, 0));
    assert_eq!(nvme_version(0x0002_0103), (2, 1, 3));
    assert_eq!(nvme_enable(0x10), 0x11);
    assert_eq!(nvme_disable(0x11), 0x10);
    assert!(nvme_ready(1));
    assert!(!nvme_ready(2));
}

#[test]
fn bits_are_counted() {
    assert_eq!(count_bits(0), 0);
    assert_eq!(count_bits(0b1011), 3);
    assert_eq!(count_bits(u32::MAX), 32);
    assert_eq!(count_bits(0x8000_0001), 2);
}

#[test]
fn pci_functions_are_classified() {
    let sata = storage_func(0x01, 0x06, 0x1111, 0x0000_000F, 2);
    assert_eq!(bar_for_protocol(0x06, &sata), 0x0000_000F);
    assert_eq!(bar_for_protocol(0x08, &sata), 0x1111);
    assert_eq!(read_config_u32(&sata, 0x10), 0x1111);
    let (p, ports) = classify_storage_pci(0x06, 0, &sata);
    assert!(p == StorageProtocol::Ahci);
    assert_eq!(ports, 4);
    let (p, ports) = classify_storage_pci(0x01, 0, &sata);
    assert!(p == StorageProtocol::Ide);
    assert_eq!(ports, 2);
    assert!(classify_storage_pci(0x04, 0, &sata).0 == StorageProtocol::Raid);
    assert!(classify_storage_pci(0x07, 0, &sata).0 == StorageProtocol::Scsi);
    assert!(classify_storage_pci(0x08, 0, &sata) == (StorageProtocol::Nvme, 1));
    assert!(classify_storage_pci(0x80, 0, &sata) == (StorageProtocol::Unknown, 0));
}

#[test]
fn compatible_strings_are_classified() {
    assert!(classify_storage_compat(b"nvme-pci") == StorageProtocol::Nvme);
    assert!(classify_storage_compat(b"generic-ahci") == StorageProtocol::Ahci);
    assert!(classify_storage_compat(b"vendor,sata-ctrl") == StorageProtocol::Ahci);
    assert!(classify_storage_compat(b"qcom,ufshc") == StorageProtocol::Ufs);
    assert!(classify_storage_compat(b"arasan,sdhci-5.1") == StorageProtocol::Sdhci);
    assert!(classify_storage_compat(b"brcm,bcm2835-mmc") == StorageProtocol::Mmc);
    assert!(classify_storage_compat(b"ns16550a") == StorageProtocol::Unknown);
    assert!(classify_storage_compat(b"") == StorageProtocol::Unknown);
}

#[test]
fn storage_detection_lists_pci_then_devicetree() {
    let funcs = [
        storage_func(0x02, 0x00, 0, 0, 1),
        storage_func(0x01, 0x08, 0xFEB0_0000, 0, 3),
        storage_func(0x01, 0x06, 0, 0x3, 4),
    ];
    let entries = [storage_node("ns16550a", 0x100), storage_node("snps,dw-mshc-mmc", 0x200), storage_node("nvme", 0x300)];
    let mut out = [storage_blank(); 8];
    let n = detect(&funcs, 4096, &entries, &mut out);
    assert_eq!(n, 4);
    assert!(out[0].protocol == StorageProtocol::Nvme);
    assert!(out[0].pci);
    assert_eq!(out[0].bar, 0xFEB0_0000);
    assert_eq!(out[0].dev, 3);
    assert_eq!(out[0].vendor_id, 0x8086);
    assert!(out[1].protocol == StorageProtocol::Ahci);
    assert_eq!(out[1].ports, 2);
    assert_eq!(out[1].bar, 0x3);
    assert!(out[2].protocol == StorageProtocol::Mmc);
    assert!(!out[2].pci);
    assert_eq!(out[2].reg_base, 0x200);
    assert_eq!(out[2].reg_size, 0x2000);
    assert_eq!(out[2].ports, 1);
    assert!(out[3].protocol == StorageProtocol::Nvme);
    assert_eq!(out[3].reg_base, 0x300);
    assert_eq!(out[4].vendor_id, 0xFFFF);
}

#[test]
fn storage_detection_fills_only_what_fits() {
    let funcs = [storage_func(0x01, 0x01, 0, 0, 1), storage_func(0x01, 0x01, 0, 0, 2)];
    let entries = [storage_node("nvme", 0x300)];
    let mut out = [storage_blank(); 2];
    assert_eq!(detect(&funcs, 4096, &entries, &mut out), 2);
    assert_eq!(out[1].dev, 2);
    let mut three = [storage_blank(); 3];
    assert_eq!(detect(&funcs, 4096, &entries, &mut three), 3);
    assert!(three[2].protocol == StorageProtocol::Nvme);
    let mut none: [StorageController; 0] = [];
    assert_eq!(detect(&funcs, 4096, &entries, &mut none), 0);
}

#[test]
fn storage_driver_probe_and_init() {
    let regs = ProbeRegisters { ahci_cap: 0x5, ahci_pi: 0x3F, nvme_vs: 0x0001_0300 };
    let mut st = DriverState::new();
    assert!(probe(&mut st, 0x1000, StorageProtocol::Ide, &regs).is_none());
    assert_eq!(state(&st), STATE_STOPPED);
    let a = probe(&mut st, 0x1000, StorageProtocol::Ahci, &regs).unwrap();
    assert_eq!(state(&st), STATE_PROBED);
    match &a {
        StorageDriver::Ahci(d) => {
            assert_eq!((d.base, d.port_count, d.ports_implemented), (0x1000, 6, 0x3F));
        }
        StorageDriver::Nvme(_) => panic!("expected an AHCI driver"),
    }
    assert!(init(&mut st, &a, 0));
    assert_eq!(state(&st), STATE_ACTIVE);

    let mut st2 = DriverState::new();
    let n = probe(&mut st2, 0x2000, StorageProtocol::Nvme, &regs).unwrap();
    match &n {
        StorageDriver::Nvme(d) => assert_eq!((d.base, d.version_major, d.version_minor), (0x2000, 1, 3)),
        StorageDriver::Ahci(_) => panic!("expected an NVMe driver"),
    }
    assert!(!init(&mut st2, &n, 0));
    assert_eq!(state(&st2), STATE_PROBED);
    assert!(init(&mut st2, &n, 1));
    assert_eq!(state(&st2), STATE_ACTIVE);
}

#[test]
fn storage_bring_up_records_count_and_last_signature() {
    let funcs = [storage_func(0x01, 0x08, 0xFEB0_0000, 0, 3)];
    let entries = [storage_node("generic-ahci", 0x4000)];
    let mut rec = StorageRecord { count: 0, signature: 5 };
    assert_eq!(bring_up(Architecture::X86_64, None, &funcs, 4096, &entries, &mut rec), 2);
    assert_eq!(rec.count, 2);
    // the last one is the devicetree AHCI node: no PCI identity, one port
    assert_eq!(rec.signature, 0x4000 ^ 1);
    let mut only_pci = StorageRecord { count: 0, signature: 5 };
    assert_eq!(bring_up(Architecture::Other, None, &funcs, 4096, &[], &mut only_pci), 1);
    assert_eq!(only_pci.signature, 0x8086 ^ 0x2922 ^ 0xFEB0_0000 ^ 1);
    let mut none = StorageRecord { count: 3, signature: 5 };
    assert_eq!(bring_up(Architecture::AArch64, Some((0x4000, 0x100, 2)), &[], 4096, &[], &mut none), 0);
    assert_eq!((none.count, none.signature), (0, 5));
    let ten: Vec<PciConfigSnapshot> = (0..10).map(|d| storage_func(0x01, 0x01, 0, 0, d)).collect();
    let mut capped = StorageRecord { count: 0, signature: 0 };
    assert_eq!(bring_up(Architecture::X86_64, None, &ten, 4096, &entries, &mut capped), 8);
    assert_eq!(capped.signature, 0x8086 ^ 0x2922 ^ 2);
}

#[test]
fn storage_bring_up_stops_without_an_arm_node() {
    let funcs = [storage_func(0x01, 0x08, 0xFEB0_0000, 0, 3)];
    let mut rec = StorageRecord { count: 4, signature: 5 };
    assert_eq!(bring_up(Architecture::AArch64, None, &funcs, 4096, &[], &mut rec), 0);
    assert_eq!((rec.count, rec.signature), (4, 5));
    assert_eq!(bring_up(Architecture::AArch64, Some((0x1000, 0x100, 2)), &funcs, 4096, &[], &mut rec), 1);
    assert_eq!(rec.count, 1);
}

#[test]
fn storage_detection_skips_the_devicetree_below_a_header() {
    let funcs = [storage_func(0x01, 0x08, 0xFEB0_0000, 0, 3)];
    let entries = [storage_node("nvme", 0x300)];
    let mut out = [storage_blank(); 4];
    assert_eq!(detect(&funcs, 39, &entries, &mut out), 1);
    assert!(out[0].pci);
    assert_eq!(out[1].vendor_id, 0xFFFF);
    assert_eq!(detect(&funcs, 40, &entries, &mut out), 2);
    assert_eq!(out[1].reg_base, 0x300);
}

#[test]
fn storage_detection_scans_at_most_sixty_four_of_each() {
    let mut funcs: Vec<PciConfigSnapshot> = (0..64).map(|d| storage_func(0x02, 0x00, 0, 0, d as u8)).collect();
    funcs.push(storage_func(0x01, 0x08, 0xFEB0_0000, 0, 99));
    let mut nodes: Vec<DtDeviceEntry> = (0..64).map(|i| storage_node("ns16550a", i)).collect();
    nodes.push(storage_node("nvme", 0x300));
    let mut out = [storage_blank(); 4];
    assert_eq!(detect(&funcs, 4096, &nodes, &mut out), 0);
    funcs[63] = storage_func(0x01, 0x08, 0xFEB0_0000, 0, 63);
    nodes[63] = storage_node("generic-ahci", 0x4000);
    assert_eq!(detect(&funcs, 4096, &nodes, &mut out), 2);
    assert_eq!(out[0].dev, 63);
    assert!(out[1].protocol == StorageProtocol::Ahci);
}
