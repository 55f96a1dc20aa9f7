use vstd::prelude::*;
use crate::bytes::{clipped_len, contains, copy_min, has_subslice, lemma_embedded, lemma_filter_take_prefix, lemma_filter_take_step};
use crate::devicetree::{all_wf, nodes_to_scan, scanned_nodes, DtDeviceEntry};

verus! {

/// Sensor kinds recognised from devicetree `compatible` strings and node names.
#[derive(Copy, Clone, PartialEq, Eq, Structural)]
pub enum SensorKind {
    Accelerometer,
    Gyroscope,
    Magnetometer,
    Barometer,
    Proximity,
    Light,
    Imu,
    Temperature,
    Humidity,
    Gravity,
    Unknown,
}

/// A sensor found in the devicetree.
#[derive(Copy, Clone)]
pub struct SensorDevice {
    pub kind: SensorKind,
    pub reg_base: u64,
    pub irq: u32,
    pub compat: [u8; 64],
    pub compat_len: usize,
}

/// The sensor kind that a `compatible` string and a node name identify; the first rule that
/// matches wins (combined IMU parts before single-purpose ones).
pub open spec fn sensor_kind_of(compat: Seq<u8>, name: Seq<u8>) -> SensorKind {
    if has_subslice(compat, seq![0x6d, 0x70, 0x75, 0x36, 0x30, 0x35, 0x30])
        || has_subslice(compat, seq![0x6d, 0x70, 0x75, 0x36, 0x35, 0x30, 0x30])
        || has_subslice(compat, seq![0x6d, 0x70, 0x75, 0x39, 0x32, 0x35, 0x30])
        || has_subslice(compat, seq![0x69, 0x63, 0x6d, 0x32, 0x30])
        || has_subslice(compat, seq![0x62, 0x6d, 0x69, 0x31, 0x36, 0x30])
        || has_subslice(compat, seq![0x62, 0x6d, 0x69, 0x32, 0x37, 0x30])
        || has_subslice(compat, seq![0x6c, 0x73, 0x6d, 0x36, 0x64, 0x73])
        || has_subslice(name, seq![0x69, 0x6d, 0x75]) {
        // "mpu6050", "mpu6500", "mpu9250", "icm20", "bmi160", "bmi270", "lsm6ds", "imu"
        SensorKind::Imu
    } else if has_subslice(compat, seq![0x62, 0x6d, 0x61])
        || has_subslice(compat, seq![0x6c, 0x69, 0x73, 0x33, 0x64, 0x68])
        || has_subslice(compat, seq![0x6c, 0x69, 0x73, 0x32, 0x64, 0x68])
        || has_subslice(compat, seq![0x6b, 0x78, 0x74, 0x6a])
        || has_subslice(compat, seq![0x61, 0x64, 0x78, 0x6c])
        || has_subslice(compat, seq![0x6d, 0x63, 0x33])
        || has_subslice(name, seq![0x61, 0x63, 0x63, 0x65, 0x6c]) {
        // "bma", "lis3dh", "lis2dh", "kxtj", "adxl", "mc3", "accel"
        SensorKind::Accelerometer
    } else if has_subslice(compat, seq![0x6c, 0x33, 0x67])
        || has_subslice(compat, seq![0x62, 0x6d, 0x67])
        || has_subslice(name, seq![0x67, 0x79, 0x72, 0x6f]) {
        // "l3g", "bmg", "gyro"
        SensorKind::Gyroscope
    } else if has_subslice(compat, seq![0x61, 0x6b, 0x38, 0x39, 0x36, 0x33])
        || has_subslice(compat, seq![0x61, 0x6b, 0x30, 0x39, 0x39, 0x31, 0x31])
        || has_subslice(compat, seq![0x6d, 0x6d, 0x63, 0x35, 0x36, 0x30, 0x33])
        || has_subslice(compat, seq![0x68, 0x6d, 0x63, 0x35, 0x38, 0x38, 0x33])
        || has_subslice(compat, seq![0x62, 0x6d, 0x6d, 0x31, 0x35, 0x30])
        || has_subslice(name, seq![0x6d, 0x61, 0x67, 0x6e]) {
        // "ak8963", "ak09911", "mmc5603", "hmc5883", "bmm150", "magn"
        SensorKind::Magnetometer
    } else if has_subslice(compat, seq![0x62, 0x6d, 0x70])
        || has_subslice(compat, seq![0x6d, 0x73, 0x35, 0x36, 0x31, 0x31])
        || has_subslice(compat, seq![0x6c, 0x70, 0x73, 0x32, 0x32])
        || has_subslice(compat, seq![0x68, 0x70, 0x32, 0x30, 0x36, 0x63])
        || has_subslice(name, seq![0x62, 0x61, 0x72, 0x6f]) {
        // "bmp", "ms5611", "lps22", "hp206c", "baro"
        SensorKind::Barometer
    } else if has_subslice(compat, seq![0x73, 0x74, 0x6b, 0x33])
        || has_subslice(compat, seq![0x61, 0x70, 0x64, 0x73, 0x39])
        || has_subslice(compat, seq![0x76, 0x63, 0x6e, 0x6c, 0x34])
        || has_subslice(name, seq![0x70, 0x72, 0x6f, 0x78]) {
        // "stk3", "apds9", "vcnl4", "prox"
        SensorKind::Proximity
    } else if has_subslice(compat, seq![0x74, 0x73, 0x6c, 0x32])
        || has_subslice(compat, seq![0x62, 0x68, 0x31, 0x37, 0x35, 0x30])
        || has_subslice(compat, seq![0x76, 0x65, 0x6d, 0x6c])
        || has_subslice(compat, seq![0x6c, 0x74, 0x72, 0x35])
        || has_subslice(name, seq![0x6c, 0x69, 0x67, 0x68, 0x74])
        || has_subslice(name, seq![0x61, 0x6c, 0x73]) {
        // "tsl2", "bh1750", "veml", "ltr5", "light", "als"
        SensorKind::Light
    } else if has_subslice(compat, seq![0x74, 0x6d, 0x70, 0x31])
        || has_subslice(compat, seq![0x6c, 0x6d, 0x37, 0x35])
        || has_subslice(compat, seq![0x61, 0x68, 0x74])
        || has_subslice(name, seq![0x74, 0x65, 0x6d, 0x70]) {
        // "tmp1", "lm75", "aht", "temp"
        SensorKind::Temperature
    } else if has_subslice(compat, seq![0x68, 0x64, 0x63, 0x31])
        || has_subslice(compat, seq![0x73, 0x68, 0x74])
        || has_subslice(compat, seq![0x73, 0x69, 0x37, 0x30, 0x32, 0x31])
        || has_subslice(name, seq![0x68, 0x75, 0x6d, 0x69, 0x64]) {
        // "hdc1", "sht", "si7021", "humid"
        SensorKind::Humidity
    } else {
        SensorKind::Unknown
    }
}

/// A devicetree node that describes a sensor.
pub open spec fn is_sensor_entry(e: DtDeviceEntry) -> bool {
    sensor_kind_of(e.compat_bytes(), e.name_bytes()) != SensorKind::Unknown
}

pub open spec fn sensor_pred() -> spec_fn(DtDeviceEntry) -> bool {
    |e: DtDeviceEntry| is_sensor_entry(e)
}

/// The sensor nodes among `entries`, in order.
pub open spec fn sensor_entries(entries: Seq<DtDeviceEntry>) -> Seq<DtDeviceEntry> {
    entries.filter(sensor_pred())
}

/// `c` is the device record made from node `e`: its kind, its window base, its interrupt,
/// and the first (at most 64) bytes of its `compatible` string, zero-padded.
pub open spec fn describes(c: SensorDevice, e: DtDeviceEntry) -> bool {
    &&& c.kind == sensor_kind_of(e.compat_bytes(), e.name_bytes())
    &&& c.reg_base == e.reg_base
    &&& c.irq == e.irq
    &&& c.compat_len == clipped_len(e.compatible_len as nat)
    &&& c.compat@ =~= Seq::new(64, |k: int| if k < c.compat_len { e.compatible@[k] } else { 0u8 })
}

/// Fills `out` with the sensors among the scanned devicetree nodes (see `scanned_nodes`: none
/// when the blob of `blob_len` bytes is too short, at most the first 64 enumerated), in node
/// order, as many as fit, and returns how many it wrote.
pub fn detect(blob_len: usize, entries: &[DtDeviceEntry], out: &mut [SensorDevice]) -> (found: usize)
    requires
        all_wf(entries@),
    ensures
        ({
            let nodes = sensor_entries(scanned_nodes(blob_len, entries@));
            &&& found == if nodes.len() < old(out)@.len() { nodes.len() } else { old(out)@.len() }
            &&& forall|k: int| 0 <= k < found ==> describes(#[trigger] final(out)@[k], nodes[k])
        }),
        final(out)@.len() == old(out)@.len(),
        forall|k: int| found <= k < old(out)@.len() ==> #[trigger] final(out)@[k] == old(out)@[k],
{
    if out.len() == 0 {
        return 0;
    }
    let nodes = nodes_to_scan(blob_len, entries);
    scan_dt(nodes, out)
}

fn scan_dt(entries: &[DtDeviceEntry], out: &mut [SensorDevice]) -> (found: usize)
    requires
        all_wf(entries@),
    ensures
        found == if sensor_entries(entries@).len() < old(out)@.len() {
            sensor_entries(entries@).len()
        } else {
            old(out)@.len()
        },
        final(out)@.len() == old(out)@.len(),
        forall|k: int| 0 <= k < found ==> describes(#[trigger] final(out)@[k], sensor_entries(entries@)[k]),
        forall|k: int| found <= k < old(out)@.len() ==> #[trigger] final(out)@[k] == old(out)@[k],
{
    let ghost es = entries@;
    let mut found: usize = 0;
    let mut i: usize = 0;
    while i < entries.len() && found < out.len()
        invariant
            es == entries@,
            all_wf(es),
            i <= es.len(),
            out@.len() == old(out)@.len(),
            found == sensor_entries(es.take(i as int)).len(),
            found <= out@.len(),
            forall|k: int| 0 <= k < found ==> describes(#[trigger] out@[k], sensor_entries(es.take(i as int))[k]),
            forall|k: int| found <= k < out@.len() ==> #[trigger] out@[k] == old(out)@[k],
        decreases es.len() - i,
    {
        let e = &entries[i];
        proof {
            lemma_filter_take_step(es, sensor_pred(), i as int);
            assert(e.wf());
        }
        let compat = e.compat_slice();
        let name = e.name_slice();
        let kind = classify_sensor(compat, name);
        if kind != SensorKind::Unknown {
            let mut compat_buf = [0u8; 64];
            assert(forall|k: int| 0 <= k < 64 ==> compat_buf@[k] == 0u8);
            let clen = copy_min(compat, &mut compat_buf);
            let c = SensorDevice {
                kind,
                reg_base: e.reg_base,
                irq: e.irq,
                compat: compat_buf,
                compat_len: clen,
            };
            assert(describes(c, *e)) by {
                assert forall|k: int| 0 <= k < 64 implies c.compat@[k]
                    == (if k < clen { e.compatible@[k] } else { 0u8 }) by {
                    if k < clen {
                        assert(compat@[k] == e.compatible@[k]);
                    }
                }
            }
            out[found] = c;
            found += 1;
        }
        i += 1;
    }
    proof {
        lemma_filter_take_prefix(es, sensor_pred(), i as int);
        if i == es.len() {
            assert(es.take(i as int) =~= es);
        }
    }
    found
}

fn classify_sensor(compat: &[u8], name: &[u8]) -> (kind: SensorKind)
    ensures
        kind == sensor_kind_of(compat@, name@),
{
    // "mpu6050", "mpu6500", "mpu9250", "icm20", "bmi160", "bmi270", "lsm6ds", "imu"
    if contains(compat, &[0x6d, 0x70, 0x75, 0x36, 0x30, 0x35, 0x30]) || contains(compat, &[0x6d, 0x70, 0x75, 0x36, 0x35, 0x30, 0x30]) || contains(compat, &[0x6d, 0x70, 0x75, 0x39, 0x32, 0x35, 0x30]) || contains(compat, &[0x69, 0x63, 0x6d, 0x32, 0x30]) || contains(compat, &[0x62, 0x6d, 0x69, 0x31, 0x36, 0x30]) || contains(compat, &[0x62, 0x6d, 0x69, 0x32, 0x37, 0x30]) || contains(compat, &[0x6c, 0x73, 0x6d, 0x36, 0x64, 0x73]) || contains(name, &[0x69, 0x6d, 0x75]) {
        return SensorKind::Imu;
    }
    // "bma", "lis3dh", "lis2dh", "kxtj", "adxl", "mc3", "accel"
    if contains(compat, &[0x62, 0x6d, 0x61]) || contains(compat, &[0x6c, 0x69, 0x73, 0x33, 0x64, 0x68]) || contains(compat, &[0x6c, 0x69, 0x73, 0x32, 0x64, 0x68]) || contains(compat, &[0x6b, 0x78, 0x74, 0x6a]) || contains(compat, &[0x61, 0x64, 0x78, 0x6c]) || contains(compat, &[0x6d, 0x63, 0x33]) || contains(name, &[0x61, 0x63, 0x63, 0x65, 0x6c]) {
        return SensorKind::Accelerometer;
    }
    // "l3g", "bmg", "gyro"
    if contains(compat, &[0x6c, 0x33, 0x67]) || contains(compat, &[0x62, 0x6d, 0x67]) || contains(name, &[0x67, 0x79, 0x72, 0x6f]) {
        return SensorKind::Gyroscope;
    }
    // "ak8963", "ak09911", "mmc5603", "hmc5883", "bmm150", "magn"
    if contains(compat, &[0x61, 0x6b, 0x38, 0x39, 0x36, 0x33]) || contains(compat, &[0x61, 0x6b, 0x30, 0x39, 0x39, 0x31, 0x31]) || contains(compat, &[0x6d, 0x6d, 0x63, 0x35, 0x36, 0x30, 0x33]) || contains(compat, &[0x68, 0x6d, 0x63, 0x35, 0x38, 0x38, 0x33]) || contains(compat, &[0x62, 0x6d, 0x6d, 0x31, 0x35, 0x30]) || contains(name, &[0x6d, 0x61, 0x67, 0x6e]) {
        return SensorKind::Magnetometer;
    }
    // "bmp", "ms5611", "lps22", "hp206c", "baro"
    if contains(compat, &[0x62, 0x6d, 0x70]) || contains(compat, &[0x6d, 0x73, 0x35, 0x36, 0x31, 0x31]) || contains(compat, &[0x6c, 0x70, 0x73, 0x32, 0x32]) || contains(compat, &[0x68, 0x70, 0x32, 0x30, 0x36, 0x63]) || contains(name, &[0x62, 0x61, 0x72, 0x6f]) {
        return SensorKind::Barometer;
    }
    // "stk3", "apds9", "vcnl4", "prox"
    if contains(compat, &[0x73, 0x74, 0x6b, 0x33]) || contains(compat, &[0x61, 0x70, 0x64, 0x73, 0x39]) || contains(compat, &[0x76, 0x63, 0x6e, 0x6c, 0x34]) || contains(name, &[0x70, 0x72, 0x6f, 0x78]) {
        return SensorKind::Proximity;
    }
    // "tsl2", "bh1750", "veml", "ltr5", "light", "als"
    if contains(compat, &[0x74, 0x73, 0x6c, 0x32]) || contains(compat, &[0x62, 0x68, 0x31, 0x37, 0x35, 0x30]) || contains(compat, &[0x76, 0x65, 0x6d, 0x6c]) || contains(compat, &[0x6c, 0x74, 0x72, 0x35]) || contains(name, &[0x6c, 0x69, 0x67, 0x68, 0x74]) || contains(name, &[0x61, 0x6c, 0x73]) {
        return SensorKind::Light;
    }
    // "tmp1", "lm75", "aht", "temp"
    if contains(compat, &[0x74, 0x6d, 0x70, 0x31]) || contains(compat, &[0x6c, 0x6d, 0x37, 0x35]) || contains(compat, &[0x61, 0x68, 0x74]) || contains(name, &[0x74, 0x65, 0x6d, 0x70]) {
        return SensorKind::Temperature;
    }
    // "hdc1", "sht", "si7021", "humid"
    if contains(compat, &[0x68, 0x64, 0x63, 0x31]) || contains(compat, &[0x73, 0x68, 0x74]) || contains(compat, &[0x73, 0x69, 0x37, 0x30, 0x32, 0x31]) || contains(name, &[0x68, 0x75, 0x6d, 0x69, 0x64]) {
        return SensorKind::Humidity;
    }
    SensorKind::Unknown
}


/// Marks an IMU: "mpu6050", "mpu6500", "mpu9250", "icm20", "bmi160", "bmi270", "lsm6ds", "imu" in the node name.
pub open spec fn marks_imu(compat: Seq<u8>, name: Seq<u8>) -> bool {
    has_subslice(compat, seq![0x6d, 0x70, 0x75, 0x36, 0x30, 0x35, 0x30])
        || has_subslice(compat, seq![0x6d, 0x70, 0x75, 0x36, 0x35, 0x30, 0x30])
        || has_subslice(compat, seq![0x6d, 0x70, 0x75, 0x39, 0x32, 0x35, 0x30])
        || has_subslice(compat, seq![0x69, 0x63, 0x6d, 0x32, 0x30])
        || has_subslice(compat, seq![0x62, 0x6d, 0x69, 0x31, 0x36, 0x30])
        || has_subslice(compat, seq![0x62, 0x6d, 0x69, 0x32, 0x37, 0x30])
        || has_subslice(compat, seq![0x6c, 0x73, 0x6d, 0x36, 0x64, 0x73])
        || has_subslice(name, seq![0x69, 0x6d, 0x75])
}

/// Marks an accelerometer: "bma", "lis3dh", "lis2dh", "kxtj", "adxl", "mc3", "accel" in the node name.
pub open spec fn marks_accelerometer(compat: Seq<u8>, name: Seq<u8>) -> bool {
    has_subslice(compat, seq![0x62, 0x6d, 0x61])
        || has_subslice(compat, seq![0x6c, 0x69, 0x73, 0x33, 0x64, 0x68])
        || has_subslice(compat, seq![0x6c, 0x69, 0x73, 0x32, 0x64, 0x68])
        || has_subslice(compat, seq![0x6b, 0x78, 0x74, 0x6a])
        || has_subslice(compat, seq![0x61, 0x64, 0x78, 0x6c])
        || has_subslice(compat, seq![0x6d, 0x63, 0x33])
        || has_subslice(name, seq![0x61, 0x63, 0x63, 0x65, 0x6c])
}

/// Marks a gyroscope: "l3g", "bmg", "gyro" in the node name.
pub open spec fn marks_gyroscope(compat: Seq<u8>, name: Seq<u8>) -> bool {
    has_subslice(compat, seq![0x6c, 0x33, 0x67])
        || has_subslice(compat, seq![0x62, 0x6d, 0x67])
        || has_subslice(name, seq![0x67, 0x79, 0x72, 0x6f])
}

/// Marks a magnetometer: "ak8963", "ak09911", "mmc5603", "hmc5883", "bmm150", "magn" in the node name.
pub open spec fn marks_magnetometer(compat: Seq<u8>, name: Seq<u8>) -> bool {
    has_subslice(compat, seq![0x61, 0x6b, 0x38, 0x39, 0x36, 0x33])
        || has_subslice(compat, seq![0x61, 0x6b, 0x30, 0x39, 0x39, 0x31, 0x31])
        || has_subslice(compat, seq![0x6d, 0x6d, 0x63, 0x35, 0x36, 0x30, 0x33])
        || has_subslice(compat, seq![0x68, 0x6d, 0x63, 0x35, 0x38, 0x38, 0x33])
        || has_subslice(compat, seq![0x62, 0x6d, 0x6d, 0x31, 0x35, 0x30])
        || has_subslice(name, seq![0x6d, 0x61, 0x67, 0x6e])
}

/// Marks a barometer: "bmp", "ms5611", "lps22", "hp206c", "baro" in the node name.
pub open spec fn marks_barometer(compat: Seq<u8>, name: Seq<u8>) -> bool {
    has_subslice(compat, seq![0x62, 0x6d, 0x70])
        || has_subslice(compat, seq![0x6d, 0x73, 0x35, 0x36, 0x31, 0x31])
        || has_subslice(compat, seq![0x6c, 0x70, 0x73, 0x32, 0x32])
        || has_subslice(compat, seq![0x68, 0x70, 0x32, 0x30, 0x36, 0x63])
        || has_subslice(name, seq![0x62, 0x61, 0x72, 0x6f])
}

/// Marks a proximity sensor: "stk3", "apds9", "vcnl4", "prox" in the node name.
pub open spec fn marks_proximity(compat: Seq<u8>, name: Seq<u8>) -> bool {
    has_subslice(compat, seq![0x73, 0x74, 0x6b, 0x33])
        || has_subslice(compat, seq![0x61, 0x70, 0x64, 0x73, 0x39])
        || has_subslice(compat, seq![0x76, 0x63, 0x6e, 0x6c, 0x34])
        || has_subslice(name, seq![0x70, 0x72, 0x6f, 0x78])
}

/// Marks a light sensor: "tsl2", "bh1750", "veml", "ltr5", "light" in the node name, "als" in the node name.
pub open spec fn marks_light(compat: Seq<u8>, name: Seq<u8>) -> bool {
    has_subslice(compat, seq![0x74, 0x73, 0x6c, 0x32])
        || has_subslice(compat, seq![0x62, 0x68, 0x31, 0x37, 0x35, 0x30])
        || has_subslice(compat, seq![0x76, 0x65, 0x6d, 0x6c])
        || has_subslice(compat, seq![0x6c, 0x74, 0x72, 0x35])
        || has_subslice(name, seq![0x6c, 0x69, 0x67, 0x68, 0x74])
        || has_subslice(name, seq![0x61, 0x6c, 0x73])
}

/// Marks a temperature sensor: "tmp1", "lm75", "aht", "temp" in the node name.
pub open spec fn marks_temperature(compat: Seq<u8>, name: Seq<u8>) -> bool {
    has_subslice(compat, seq![0x74, 0x6d, 0x70, 0x31])
        || has_subslice(compat, seq![0x6c, 0x6d, 0x37, 0x35])
        || has_subslice(compat, seq![0x61, 0x68, 0x74])
        || has_subslice(name, seq![0x74, 0x65, 0x6d, 0x70])
}

/// Marks a humidity sensor: "hdc1", "sht", "si7021", "humid" in the node name.
pub open spec fn marks_humidity(compat: Seq<u8>, name: Seq<u8>) -> bool {
    has_subslice(compat, seq![0x68, 0x64, 0x63, 0x31])
        || has_subslice(compat, seq![0x73, 0x68, 0x74])
        || has_subslice(compat, seq![0x73, 0x69, 0x37, 0x30, 0x32, 0x31])
        || has_subslice(name, seq![0x68, 0x75, 0x6d, 0x69, 0x64])
}

/// The sensor kind follows the part-number table in order: a node marked as an IMU (by any of
/// its part numbers, or "imu" in its name) is an IMU whatever else it names; otherwise the first
/// kind among accelerometer, gyroscope, magnetometer, barometer, proximity, light, temperature
/// and humidity whose markers it carries; and a node carrying none of them is no sensor.
pub proof fn law_sensor_kind_table(compat: Seq<u8>, name: Seq<u8>)
    ensures
        marks_imu(compat, name)
            ==> sensor_kind_of(compat, name) == SensorKind::Imu,
        !marks_imu(compat, name) && marks_accelerometer(compat, name)
            ==> sensor_kind_of(compat, name) == SensorKind::Accelerometer,
        !marks_imu(compat, name) && !marks_accelerometer(compat, name) && marks_gyroscope(compat, name)
            ==> sensor_kind_of(compat, name) == SensorKind::Gyroscope,
        !marks_imu(compat, name) && !marks_accelerometer(compat, name) && !marks_gyroscope(compat, name) && marks_magnetometer(compat, name)
            ==> sensor_kind_of(compat, name) == SensorKind::Magnetometer,
        !marks_imu(compat, name) && !marks_accelerometer(compat, name) && !marks_gyroscope(compat, name) && !marks_magnetometer(compat, name) && marks_barometer(compat, name)
            ==> sensor_kind_of(compat, name) == SensorKind::Barometer,
        !marks_imu(compat, name) && !marks_accelerometer(compat, name) && !marks_gyroscope(compat, name) && !marks_magnetometer(compat, name) && !marks_barometer(compat, name) && marks_proximity(compat, name)
            ==> sensor_kind_of(compat, name) == SensorKind::Proximity,
        !marks_imu(compat, name) && !marks_accelerometer(compat, name) && !marks_gyroscope(compat, name) && !marks_magnetometer(compat, name) && !marks_barometer(compat, name) && !marks_proximity(compat, name) && marks_light(compat, name)
            ==> sensor_kind_of(compat, name) == SensorKind::Light,
        !marks_imu(compat, name) && !marks_accelerometer(compat, name) && !marks_gyroscope(compat, name) && !marks_magnetometer(compat, name) && !marks_barometer(compat, name) && !marks_proximity(compat, name) && !marks_light(compat, name) && marks_temperature(compat, name)
            ==> sensor_kind_of(compat, name) == SensorKind::Temperature,
        !marks_imu(compat, name) && !marks_accelerometer(compat, name) && !marks_gyroscope(compat, name) && !marks_magnetometer(compat, name) && !marks_barometer(compat, name) && !marks_proximity(compat, name) && !marks_light(compat, name) && !marks_temperature(compat, name) && marks_humidity(compat, name)
            ==> sensor_kind_of(compat, name) == SensorKind::Humidity,
        !marks_imu(compat, name) && !marks_accelerometer(compat, name) && !marks_gyroscope(compat, name) && !marks_magnetometer(compat, name) && !marks_barometer(compat, name) && !marks_proximity(compat, name) && !marks_light(compat, name) && !marks_temperature(compat, name) && !marks_humidity(compat, name)
            ==> sensor_kind_of(compat, name) == SensorKind::Unknown,
{
}

/// Every IMU part number of the table ("mpu6050", "mpu6500", "mpu9250", "icm20", "bmi160",
/// "bmi270", "lsm6ds") anywhere in a compatible string, or "imu" anywhere in a node name, makes
/// the node an IMU, whatever else it says.
pub proof fn law_imu_parts(pre: Seq<u8>, post: Seq<u8>, compat: Seq<u8>, name: Seq<u8>)
    ensures
        sensor_kind_of(pre + seq![0x6d, 0x70, 0x75, 0x36, 0x30, 0x35, 0x30] + post, name) == SensorKind::Imu,
        sensor_kind_of(pre + seq![0x6d, 0x70, 0x75, 0x36, 0x35, 0x30, 0x30] + post, name) == SensorKind::Imu,
        sensor_kind_of(pre + seq![0x6d, 0x70, 0x75, 0x39, 0x32, 0x35, 0x30] + post, name) == SensorKind::Imu,
        sensor_kind_of(pre + seq![0x69, 0x63, 0x6d, 0x32, 0x30] + post, name) == SensorKind::Imu,
        sensor_kind_of(pre + seq![0x62, 0x6d, 0x69, 0x31, 0x36, 0x30] + post, name) == SensorKind::Imu,
        sensor_kind_of(pre + seq![0x62, 0x6d, 0x69, 0x32, 0x37, 0x30] + post, name) == SensorKind::Imu,
        sensor_kind_of(pre + seq![0x6c, 0x73, 0x6d, 0x36, 0x64, 0x73] + post, name) == SensorKind::Imu,
        sensor_kind_of(compat, pre + seq![0x69, 0x6d, 0x75] + post) == SensorKind::Imu,
{
    lemma_embedded(pre, seq![0x6d, 0x70, 0x75, 0x36, 0x30, 0x35, 0x30], post);
    lemma_embedded(pre, seq![0x6d, 0x70, 0x75, 0x36, 0x35, 0x30, 0x30], post);
    lemma_embedded(pre, seq![0x6d, 0x70, 0x75, 0x39, 0x32, 0x35, 0x30], post);
    lemma_embedded(pre, seq![0x69, 0x63, 0x6d, 0x32, 0x30], post);
    lemma_embedded(pre, seq![0x62, 0x6d, 0x69, 0x31, 0x36, 0x30], post);
    lemma_embedded(pre, seq![0x62, 0x6d, 0x69, 0x32, 0x37, 0x30], post);
    lemma_embedded(pre, seq![0x6c, 0x73, 0x6d, 0x36, 0x64, 0x73], post);
    lemma_embedded(pre, seq![0x69, 0x6d, 0x75], post);
}

} // verus!
