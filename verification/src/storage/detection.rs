use vstd::prelude::*;
use crate::bytes::{contains, has_subslice, lemma_embedded, lemma_filter_take_prefix, lemma_filter_take_step};
use crate::devicetree::{all_wf, nodes_to_scan, scanned_nodes, DtDeviceEntry};
use crate::pci::{config_at, functions_to_scan, read_config_u32, scanned_functions, PciConfigSnapshot};

verus! {

/// Storage controller interfaces.
#[derive(Copy, Clone, PartialEq, Eq, Structural)]
pub enum StorageProtocol {
    Ide,
    Ahci,
    Nvme,
    Raid,
    Scsi,
    Mmc,
    Ufs,
    Sdhci,
    Unknown,
}

/// A storage controller found on the PCI bus or in the devicetree.
#[derive(Copy, Clone)]
pub struct StorageController {
    pub vendor_id: u16,
    pub device_id: u16,
    pub protocol: StorageProtocol,
    pub ports: u8,
    pub bar: u32,
    pub bus: u8,
    pub dev: u8,
    pub func: u8,
    pub pci: bool,
    pub reg_base: u64,
    pub reg_size: u64,
}

/// The number of set bits.
pub open spec fn popcount(v: u32) -> nat
    decreases v,
{
    if v == 0 { 0 } else { (v % 2) as nat + popcount(v / 2) }
}

/// The configuration offset of the BAR that locates a mass-storage function's registers:
/// 0x24 (the AHCI base) for SATA functions, 0x10 (BAR0) for all others.
pub open spec fn bar_offset(subclass: u8) -> u8 {
    if subclass == 0x06 { 0x24 } else { 0x10 }
}

/// The interface and port count of a mass-storage PCI function by its subclass; for SATA and
/// other ATA functions the ports are the set bits of the dword at offset 0x24.
pub open spec fn pci_protocol(subclass: u8, cfg24: u32) -> (StorageProtocol, u8) {
    if subclass == 0x01 {
        (StorageProtocol::Ide, 2)
    } else if subclass == 0x04 {
        (StorageProtocol::Raid, 0)
    } else if subclass == 0x05 || subclass == 0x06 {
        (StorageProtocol::Ahci, popcount(cfg24) as u8)
    } else if subclass == 0x07 {
        (StorageProtocol::Scsi, 0)
    } else if subclass == 0x08 {
        (StorageProtocol::Nvme, 1)
    } else {
        (StorageProtocol::Unknown, 0)
    }
}

/// A PCI function of the mass-storage class (0x01).
pub open spec fn is_storage_fn(f: PciConfigSnapshot) -> bool {
    f.dev.class == 0x01
}

pub open spec fn storage_fn_pred() -> spec_fn(PciConfigSnapshot) -> bool {
    |f: PciConfigSnapshot| is_storage_fn(f)
}

/// The controller record of a mass-storage PCI function.
pub open spec fn pci_controller(f: PciConfigSnapshot) -> StorageController {
    let (protocol, ports) = pci_protocol(f.dev.subclass, f.cfg24);
    StorageController {
        vendor_id: f.dev.vendor_id,
        device_id: f.dev.device_id,
        protocol,
        ports,
        bar: config_at(f, bar_offset(f.dev.subclass)),
        bus: f.dev.bus,
        dev: f.dev.device,
        func: f.dev.function,
        pci: true,
        reg_base: 0,
        reg_size: 0,
    }
}

/// The mass-storage functions among `funcs`, in order.
pub open spec fn storage_fns(funcs: Seq<PciConfigSnapshot>) -> Seq<PciConfigSnapshot> {
    funcs.filter(storage_fn_pred())
}

/// The interface a devicetree `compatible` string names; the first rule that matches wins.
pub open spec fn compat_protocol(compat: Seq<u8>) -> StorageProtocol {
    if has_subslice(compat, seq![0x6e, 0x76, 0x6d, 0x65]) {
        // "nvme"
        StorageProtocol::Nvme
    } else if has_subslice(compat, seq![0x61, 0x68, 0x63, 0x69])
        || has_subslice(compat, seq![0x73, 0x61, 0x74, 0x61]) {
        // "ahci", "sata"
        StorageProtocol::Ahci
    } else if has_subslice(compat, seq![0x75, 0x66, 0x73])
        || has_subslice(compat, seq![0x75, 0x66, 0x73, 0x68, 0x63]) {
        // "ufs", "ufshc"
        StorageProtocol::Ufs
    } else if has_subslice(compat, seq![0x73, 0x64, 0x68, 0x63, 0x69]) {
        // "sdhci"
        StorageProtocol::Sdhci
    } else if has_subslice(compat, seq![0x6d, 0x6d, 0x63])
        || has_subslice(compat, seq![0x65, 0x6d, 0x6d, 0x63]) {
        // "mmc", "emmc"
        StorageProtocol::Mmc
    } else {
        StorageProtocol::Unknown
    }
}

/// A devicetree node that describes a storage controller.
pub open spec fn is_storage_entry(e: DtDeviceEntry) -> bool {
    compat_protocol(e.compat_bytes()) != StorageProtocol::Unknown
}

pub open spec fn storage_entry_pred() -> spec_fn(DtDeviceEntry) -> bool {
    |e: DtDeviceEntry| is_storage_entry(e)
}

/// The storage nodes among `entries`, in order.
pub open spec fn storage_entries(entries: Seq<DtDeviceEntry>) -> Seq<DtDeviceEntry> {
    entries.filter(storage_entry_pred())
}

/// The controller record of a devicetree storage node: one port, no PCI location.
pub open spec fn dt_controller(e: DtDeviceEntry) -> StorageController {
    StorageController {
        vendor_id: 0,
        device_id: 0,
        protocol: compat_protocol(e.compat_bytes()),
        ports: 1,
        bar: 0,
        bus: 0,
        dev: 0,
        func: 0,
        pci: false,
        reg_base: e.reg_base,
        reg_size: e.reg_size,
    }
}

pub open spec fn min_nat(a: int, b: int) -> int {
    if a < b { a } else { b }
}

/// Fills `out` with storage controllers: first every mass-storage PCI function among the
/// scanned ones (see `scanned_functions`: at most the first 64), in bus-scan order, then every
/// storage node among the scanned devicetree nodes (see `scanned_nodes`: none when the blob of
/// `blob_len` bytes is too short, at most the first 64 enumerated), as many as fit; returns how
/// many it wrote.
pub fn detect(funcs: &[PciConfigSnapshot], blob_len: usize, entries: &[DtDeviceEntry], out: &mut [StorageController]) -> (found: usize)
    requires
        all_wf(entries@),
    ensures
        ({
            let fns = storage_fns(scanned_functions(funcs@));
            let nodes = storage_entries(scanned_nodes(blob_len, entries@));
            let np = min_nat(fns.len() as int, old(out)@.len() as int);
            let nd = min_nat(nodes.len() as int, old(out)@.len() - np);
            &&& found == np + nd
            &&& forall|k: int| 0 <= k < np ==> #[trigger] final(out)@[k] == pci_controller(fns[k])
            &&& forall|k: int| 0 <= k < nd ==> #[trigger] final(out)@[np + k] == dt_controller(nodes[k])
        }),
        final(out)@.len() == old(out)@.len(),
        forall|k: int| found <= k < old(out)@.len() ==> #[trigger] final(out)@[k] == old(out)@[k],
{
    if out.len() == 0 {
        return 0;
    }
    let scanned = functions_to_scan(funcs);
    let nodes = nodes_to_scan(blob_len, entries);
    let np = scan_pci(scanned, out, 0);
    let ghost mid = out@;
    let nd = scan_dt(nodes, out, np);
    assert forall|k: int| 0 <= k < np implies #[trigger] out@[k] == pci_controller(storage_fns(scanned@)[k]) by {
        assert(out@[k] == mid[k]);
        assert(mid[0 + k] == pci_controller(storage_fns(scanned@)[k]));
    }
    np + nd
}

fn scan_pci(funcs: &[PciConfigSnapshot], out: &mut [StorageController], start: usize) -> (found: usize)
    requires
        start <= old(out)@.len(),
    ensures
        found == min_nat(storage_fns(funcs@).len() as int, old(out)@.len() - start),
        final(out)@.len() == old(out)@.len(),
        forall|k: int| 0 <= k < found ==> #[trigger] final(out)@[start + k] == pci_controller(storage_fns(funcs@)[k]),
        forall|k: int| 0 <= k < start ==> #[trigger] final(out)@[k] == old(out)@[k],
        forall|k: int| start + found <= k < old(out)@.len() ==> #[trigger] final(out)@[k] == old(out)@[k],
{
    let ghost fs = funcs@;
    let mut found: usize = 0;
    let mut i: usize = 0;
    while i < funcs.len() && found < out.len() - start
        invariant
            fs == funcs@,
            start <= out@.len(),
            i <= fs.len(),
            out@.len() == old(out)@.len(),
            found == storage_fns(fs.take(i as int)).len(),
            found <= out@.len() - start,
            forall|k: int| 0 <= k < found ==> #[trigger] out@[start + k] == pci_controller(storage_fns(fs.take(i as int))[k]),
            forall|k: int| 0 <= k < start ==> #[trigger] out@[k] == old(out)@[k],
            forall|k: int| start + found <= k < out@.len() ==> #[trigger] out@[k] == old(out)@[k],
        decreases fs.len() - i,
    {
        let f = &funcs[i];
        proof {
            lemma_filter_take_step(fs, storage_fn_pred(), i as int);
        }
        if f.dev.class == 0x01 {
            let bar = bar_for_protocol(f.dev.subclass, f);
            let (proto, ports) = classify_storage_pci(f.dev.subclass, bar, f);
            let c = StorageController {
                vendor_id: f.dev.vendor_id,
                device_id: f.dev.device_id,
                protocol: proto,
                ports,
                bar,
                bus: f.dev.bus,
                dev: f.dev.device,
                func: f.dev.function,
                pci: true,
                reg_base: 0,
                reg_size: 0,
            };
            out[start + found] = c;
            found += 1;
        }
        i += 1;
    }
    proof {
        lemma_filter_take_prefix(fs, storage_fn_pred(), i as int);
        if i == fs.len() {
            assert(fs.take(i as int) =~= fs);
        }
    }
    found
}

/// The BAR that locates a mass-storage function's registers (see `bar_offset`).
pub fn bar_for_protocol(subclass: u8, dev: &PciConfigSnapshot) -> (bar: u32)
    ensures
        bar == config_at(*dev, bar_offset(subclass)),
{
    let offset: u8 = match subclass {
        0x06 => 0x24,
        0x08 => 0x10,
        _ => 0x10,
    };
    read_config_u32(dev, offset)
}

/// The interface and port count of a mass-storage function (see `pci_protocol`).
pub fn classify_storage_pci(subclass: u8, bar: u32, dev: &PciConfigSnapshot) -> (r: (StorageProtocol, u8))
    ensures
        r == pci_protocol(subclass, dev.cfg24),
{
    match subclass {
        0x01 => (StorageProtocol::Ide, 2),
        0x04 => (StorageProtocol::Raid, 0),
        0x05 | 0x06 => {
            let pi_reg = read_config_u32(dev, 0x24);
            let port_count = count_bits(pi_reg);
            (StorageProtocol::Ahci, port_count)
        },
        0x07 => (StorageProtocol::Scsi, 0),
        0x08 => (StorageProtocol::Nvme, 1),
        _ => (StorageProtocol::Unknown, 0),
    }
}

proof fn lemma_popcount_log(v: u32, bits: nat)
    requires
        bits <= 32,
        v < vstd::arithmetic::power2::pow2(bits),
    ensures
        popcount(v) <= bits,
    decreases bits,
{
    vstd::arithmetic::power2::lemma2_to64();
    if bits > 0 && v > 0 {
        vstd::arithmetic::power2::lemma_pow2_unfold(bits);
        lemma_popcount_log((v / 2) as u32, (bits - 1) as nat);
    }
}

/// The number of set bits of `val`.
pub fn count_bits(val: u32) -> (c: u8)
    ensures
        c == popcount(val),
{
    proof {
        vstd::arithmetic::power2::lemma2_to64();
        lemma_popcount_log(val, 32);
    }
    let mut n = val;
    let mut c: u8 = 0;
    while n != 0
        invariant
            c + popcount(n) == popcount(val),
            popcount(val) <= 32,
        decreases n,
    {
        c += (n % 2) as u8;
        n = n / 2;
    }
    c
}

fn scan_dt(entries: &[DtDeviceEntry], out: &mut [StorageController], start: usize) -> (found: usize)
    requires
        all_wf(entries@),
        start <= old(out)@.len(),
    ensures
        found == min_nat(storage_entries(entries@).len() as int, old(out)@.len() - start),
        final(out)@.len() == old(out)@.len(),
        forall|k: int| 0 <= k < found ==> #[trigger] final(out)@[start + k] == dt_controller(storage_entries(entries@)[k]),
        forall|k: int| 0 <= k < start ==> #[trigger] final(out)@[k] == old(out)@[k],
        forall|k: int| start + found <= k < old(out)@.len() ==> #[trigger] final(out)@[k] == old(out)@[k],
{
    if start == out.len() {
        return 0;
    }
    let ghost es = entries@;
    let mut found: usize = 0;
    let mut i: usize = 0;
    while i < entries.len() && found < out.len() - start
        invariant
            es == entries@,
            all_wf(es),
            start <= out@.len(),
            i <= es.len(),
            out@.len() == old(out)@.len(),
            found == storage_entries(es.take(i as int)).len(),
            found <= out@.len() - start,
            forall|k: int| 0 <= k < found ==> #[trigger] out@[start + k] == dt_controller(storage_entries(es.take(i as int))[k]),
            forall|k: int| 0 <= k < start ==> #[trigger] out@[k] == old(out)@[k],
            forall|k: int| start + found <= k < out@.len() ==> #[trigger] out@[k] == old(out)@[k],
        decreases es.len() - i,
    {
        let e = &entries[i];
        proof {
            lemma_filter_take_step(es, storage_entry_pred(), i as int);
            assert(e.wf());
        }
        let compat = e.compat_slice();
        let proto = classify_storage_compat(compat);
        if proto != StorageProtocol::Unknown {
            let c = StorageController {
                vendor_id: 0,
                device_id: 0,
                protocol: proto,
                ports: 1,
                bar: 0,
                bus: 0,
                dev: 0,
                func: 0,
                pci: false,
                reg_base: e.reg_base,
                reg_size: e.reg_size,
            };
            out[start + found] = c;
            found += 1;
        }
        i += 1;
    }
    proof {
        lemma_filter_take_prefix(es, storage_entry_pred(), i as int);
        if i == es.len() {
            assert(es.take(i as int) =~= es);
        }
    }
    found
}

/// The interface a devicetree `compatible` string names (see `compat_protocol`).
pub fn classify_storage_compat(compat: &[u8]) -> (p: StorageProtocol)
    ensures
        p == compat_protocol(compat@),
{
    // "nvme"
    if contains(compat, &[0x6e, 0x76, 0x6d, 0x65]) {
        return StorageProtocol::Nvme;
    }
    // "ahci", "sata"
    if contains(compat, &[0x61, 0x68, 0x63, 0x69]) || contains(compat, &[0x73, 0x61, 0x74, 0x61]) {
        return StorageProtocol::Ahci;
    }
    // "ufs", "ufshc"
    if contains(compat, &[0x75, 0x66, 0x73]) || contains(compat, &[0x75, 0x66, 0x73, 0x68, 0x63]) {
        return StorageProtocol::Ufs;
    }
    // "sdhci"
    if contains(compat, &[0x73, 0x64, 0x68, 0x63, 0x69]) {
        return StorageProtocol::Sdhci;
    }
    // "mmc", "emmc"
    if contains(compat, &[0x6d, 0x6d, 0x63]) || contains(compat, &[0x65, 0x6d, 0x6d, 0x63]) {
        return StorageProtocol::Mmc;
    }
    StorageProtocol::Unknown
}


/// Names NVMe: "nvme".
pub open spec fn names_nvme(compat: Seq<u8>) -> bool {
    has_subslice(compat, seq![0x6e, 0x76, 0x6d, 0x65])
}

/// Names AHCI: "ahci", "sata".
pub open spec fn names_ahci(compat: Seq<u8>) -> bool {
    has_subslice(compat, seq![0x61, 0x68, 0x63, 0x69])
        || has_subslice(compat, seq![0x73, 0x61, 0x74, 0x61])
}

/// Names UFS: "ufs", "ufshc".
pub open spec fn names_ufs(compat: Seq<u8>) -> bool {
    has_subslice(compat, seq![0x75, 0x66, 0x73])
        || has_subslice(compat, seq![0x75, 0x66, 0x73, 0x68, 0x63])
}

/// Names SDHCI: "sdhci".
pub open spec fn names_sdhci(compat: Seq<u8>) -> bool {
    has_subslice(compat, seq![0x73, 0x64, 0x68, 0x63, 0x69])
}

/// Names MMC: "mmc", "emmc".
pub open spec fn names_mmc(compat: Seq<u8>) -> bool {
    has_subslice(compat, seq![0x6d, 0x6d, 0x63])
        || has_subslice(compat, seq![0x65, 0x6d, 0x6d, 0x63])
}

/// The interface a compatible string names follows the table in order: "nvme" first, then
/// "ahci" or "sata", then "ufs", then "sdhci", then "mmc"; a string naming none of them names
/// no storage interface.
pub proof fn law_storage_compat_table(compat: Seq<u8>)
    ensures
        names_nvme(compat)
            ==> compat_protocol(compat) == StorageProtocol::Nvme,
        !names_nvme(compat) && names_ahci(compat)
            ==> compat_protocol(compat) == StorageProtocol::Ahci,
        !names_nvme(compat) && !names_ahci(compat) && names_ufs(compat)
            ==> compat_protocol(compat) == StorageProtocol::Ufs,
        !names_nvme(compat) && !names_ahci(compat) && !names_ufs(compat) && names_sdhci(compat)
            ==> compat_protocol(compat) == StorageProtocol::Sdhci,
        !names_nvme(compat) && !names_ahci(compat) && !names_ufs(compat) && !names_sdhci(compat) && names_mmc(compat)
            ==> compat_protocol(compat) == StorageProtocol::Mmc,
        !names_nvme(compat) && !names_ahci(compat) && !names_ufs(compat) && !names_sdhci(compat) && !names_mmc(compat)
            ==> compat_protocol(compat) == StorageProtocol::Unknown,
{
}

/// "ufs" anywhere in a compatible string names UFS, unless the string also names NVMe, AHCI or
/// SATA.
pub proof fn law_ufs_named(pre: Seq<u8>, post: Seq<u8>)
    ensures
        !names_nvme(pre + seq![0x75, 0x66, 0x73] + post) && !names_ahci(pre + seq![0x75, 0x66, 0x73] + post) ==> compat_protocol(pre + seq![0x75, 0x66, 0x73] + post) == StorageProtocol::Ufs,
{
    lemma_embedded(pre, seq![0x75, 0x66, 0x73], post);
}


/// Mass-storage PCI functions are told apart by their subclass: 0x01 is IDE with two channels,
/// 0x04 RAID, 0x05 and 0x06 AHCI with as many ports as bits set in the dword at offset 0x24,
/// 0x07 SCSI, 0x08 NVMe with one controller, anything else unknown; only SATA (0x06) functions
/// are located by the AHCI base at offset 0x24, all others by BAR0 at offset 0x10.
pub proof fn law_pci_storage_subclasses(subclass: u8, cfg24: u32)
    ensures
        subclass == 0x01 ==> pci_protocol(subclass, cfg24) == (StorageProtocol::Ide, 2u8),
        subclass == 0x04 ==> pci_protocol(subclass, cfg24) == (StorageProtocol::Raid, 0u8),
        subclass == 0x05 || subclass == 0x06
            ==> pci_protocol(subclass, cfg24) == (StorageProtocol::Ahci, popcount(cfg24) as u8),
        subclass == 0x07 ==> pci_protocol(subclass, cfg24) == (StorageProtocol::Scsi, 0u8),
        subclass == 0x08 ==> pci_protocol(subclass, cfg24) == (StorageProtocol::Nvme, 1u8),
        subclass != 0x01 && subclass != 0x04 && subclass != 0x05 && subclass != 0x06 && subclass != 0x07
            && subclass != 0x08 ==> pci_protocol(subclass, cfg24) == (StorageProtocol::Unknown, 0u8),
        bar_offset(subclass) == if subclass == 0x06 { 0x24u8 } else { 0x10u8 },
        popcount(0) == 0,
        popcount(cfg24) == (cfg24 % 2) as nat + popcount(cfg24 / 2),
{
}

} // verus!
