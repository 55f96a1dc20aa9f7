use lib::arith::div_trunc_i64;
use lib::devicetree::DtDeviceEntry;
use lib::driver_state::{DriverState, STATE_ACTIVE, STATE_PROBED, STATE_STOPPED};
use lib::sensor::calibration::{apply_offset, apply_scale, calibrate_sample, compute_offset, CalibrationData};
use lib::sensor::data::{combine_bytes, scale_raw, sign_extend_12, sign_extend_16, Axis, RawSample};
use lib::sensor::detection::{detect, SensorDevice, SensorKind};
use lib::sensor::drivers::generic::{init, probe, read_xyz, shutdown, state};
use lib::sensor::hw::{
    disable, enable, enable_fifo, fifo_level, set_continuous, set_single_shot, CTRL_CONTINUOUS,
    CTRL_FIFO_EN, CTRL_POWER_ON, CTRL_SINGLE_SHOT,
};
use lib::sensor::sampling::{
    current_rate_hz, period_us, rate_to_hz, rate_to_register, samples_for_duration_ms, set_rate,
    SampleRate, SamplingConfig,
};

fn sensor_node(name: &str, compat: &str, base: u64) -> DtDeviceEntry {
    let mut e = DtDeviceEntry {
        name: [0; 64],
        name_len: name.len(),
        reg_base: base,
        reg_size: 0x100,
        irq: 3,
        compatible: [0; 128],
        compatible_len: compat.len(),
    };
    e.name[..name.len()].copy_from_slice(name.as_bytes());
    e.compatible[..compat.len()].copy_from_slice(compat.as_bytes());
    e
}

fn sensor_blank() -> SensorDevice {
    SensorDevice { kind: SensorKind::Unknown, reg_base: 0, irq: 0, compat: [0; 64], compat_len: 0 }
}

#[test]
fn sign_extension() {
    assert_eq!(sign_extend_12(0x7FF), 2047);
    assert_eq!(sign_extend_12(0x800), -2048);
    assert_eq!(sign_extend_12(0xFFF), -1);
    assert_eq!(sign_extend_12(0x1_0005), 5);
    assert_eq!(sign_extend_16(0x7FFF), 32767);
    assert_eq!(sign_extend_16(0x8000), -32768);
    assert_eq!(sign_extend_16(0xFFFF_FFFE), -2);
}

#[test]
fn byte_pairs_combine_big_endian() {
    assert_eq!(combine_bytes(0x01, 0x02), 0x0102);
    assert_eq!(combine_bytes(0xFF, 0xFF), -1);
    assert_eq!(combine_bytes(0x80, 0x00), -32768);
    assert_eq!(combine_bytes(0x7F, 0xFF), 32767);
}

#[test]
fn raw_scaling_rounds_toward_zero() {
    assert_eq!(scale_raw(10, 3, 4), 7);
    assert_eq!(scale_raw(-10, 3, 4), -7);
    assert_eq!(scale_raw(10, -3, 4), -7);
    assert_eq!(scale_raw(10, 3, -4), -7);
    assert_eq!(scale_raw(-10, 3, -4), 7);
    assert_eq!(scale_raw(123, 5, 0), 0);
    assert_eq!(div_trunc_i64(-7, 2), -3);
    assert_eq!(div_trunc_i64(7, -2), -3);
}

#[test]
fn sample_accessors() {
    let z = RawSample::zero();
    assert_eq!((z.x, z.y, z.z, z.timestamp), (0, 0, 0, 0));
    let s = RawSample { x: 3, y: -4, z: 12, timestamp: 9 };
    assert_eq!(s.magnitude_squared(), 169);
    assert_eq!(s.axis(Axis::X), 3);
    assert_eq!(s.axis(Axis::Y), -4);
    assert_eq!(s.axis(Axis::Z), 12);
    let big = RawSample { x: i32::MIN, y: 0, z: 0, timestamp: 0 };
    assert_eq!(big.magnitude_squared(), 1i64 << 62);
}

#[test]
fn offset_and_scale_correction() {
    assert_eq!(apply_offset(100, 30), 70);
    assert_eq!(apply_offset(i32::MIN, 1), i32::MAX);
    assert_eq!(apply_scale(1234, 1000), 1234);
    assert_eq!(apply_scale(1234, 500), 617);
    assert_eq!(apply_scale(-1235, 500), -617);
}

#[test]
fn identity_calibration_keeps_the_sample() {
    let cal = CalibrationData::identity();
    for raw in [
        RawSample { x: 1, y: -2, z: 3, timestamp: 77 },
        RawSample { x: i32::MAX, y: i32::MIN, z: 0, timestamp: 1 },
    ] {
        let c = calibrate_sample(&raw, &cal);
        assert_eq!((c.x, c.y, c.z, c.timestamp), (raw.x, raw.y, raw.z, raw.timestamp));
    }
}

#[test]
fn calibration_applies_offset_then_scale() {
    let cal = CalibrationData {
        offset_x: 10,
        offset_y: -10,
        offset_z: 0,
        scale_x: 2000,
        scale_y: 500,
        scale_z: 1000,
        cross_xy: 0,
        cross_xz: 0,
        cross_yz: 0,
    };
    let c = calibrate_sample(&RawSample { x: 110, y: 90, z: -5, timestamp: 4 }, &cal);
    assert_eq!((c.x, c.y, c.z, c.timestamp), (200, 50, -5, 4));
}

#[test]
fn offset_is_the_truncated_mean() {
    assert_eq!(compute_offset(&[]), 0);
    assert_eq!(compute_offset(&[1, 2, 4]), 2);
    assert_eq!(compute_offset(&[-1, -2, -4]), -2);
    assert_eq!(compute_offset(&[i32::MAX, i32::MAX]), i32::MAX);
    assert_eq!(compute_offset(&[i32::MIN, i32::MIN, i32::MIN]), i32::MIN);
}

#[test]
fn sampling_rates() {
    let rates = [
        SampleRate::Hz1,
        SampleRate::Hz10,
        SampleRate::Hz25,
        SampleRate::Hz50,
        SampleRate::Hz100,
        SampleRate::Hz200,
        SampleRate::Hz400,
        SampleRate::Hz800,
    ];
    for a in rates {
        for b in rates {
            assert_eq!(rate_to_hz(a) < rate_to_hz(b), rate_to_register(a) < rate_to_register(b));
        }
    }
    assert_eq!(rate_to_register(SampleRate::Hz1), 1);
    assert_eq!(rate_to_register(SampleRate::Hz800), 8);
    assert_eq!(period_us(SampleRate::Hz100), 10_000);
    assert_eq!(period_us(SampleRate::Hz800), 1250);
    assert_eq!(samples_for_duration_ms(SampleRate::Hz25, 200), 5);
    assert_eq!(samples_for_duration_ms(SampleRate::Hz1, 999), 0);
    let mut cfg = SamplingConfig::new();
    assert_eq!(current_rate_hz(&cfg), 100);
    set_rate(&mut cfg, SampleRate::Hz400);
    assert_eq!(current_rate_hz(&cfg), 400);
}

#[test]
fn control_register_modes() {
    assert_eq!(enable(0), CTRL_POWER_ON);
    assert_eq!(disable(0xFF), 0xFE);
    let c = set_continuous(CTRL_SINGLE_SHOT | 0x01);
    assert_eq!(c, CTRL_CONTINUOUS | 0x01);
    let s = set_single_shot(c);
    assert_eq!(s, CTRL_SINGLE_SHOT | 0x01);
    assert_eq!(enable_fifo(0), CTRL_FIFO_EN);
    assert_eq!(fifo_level(0xFFFF_FF45), 5);
}

#[test]
fn sensor_detection_classifies_nodes() {
    let entries = [
        sensor_node("imu@68", "invensense,mpu6050", 0x68),
        sensor_node("serial", "ns16550a", 0x10),
        sensor_node("a", "bosch,bma280", 0x18),
        sensor_node("g", "st,l3gd20", 0x6A),
        sensor_node("m", "asahi-kasei,ak8963", 0x0C),
        sensor_node("p", "bosch,bmp280", 0x76),
        sensor_node("x", "vishay,vcnl4000", 0x13),
        sensor_node("light0", "vendor,x", 0x29),
        sensor_node("t", "ti,tmp102", 0x48),
        sensor_node("h", "ti,hdc1080", 0x40),
        sensor_node("gyro0", "vendor,y", 0x33),
    ];
    let mut out = [sensor_blank(); 16];
    let n = detect(4096, &entries, &mut out);
    assert_eq!(n, 10);
    let kinds = [
        SensorKind::Imu,
        SensorKind::Accelerometer,
        SensorKind::Gyroscope,
        SensorKind::Magnetometer,
        SensorKind::Barometer,
        SensorKind::Proximity,
        SensorKind::Light,
        SensorKind::Temperature,
        SensorKind::Humidity,
        SensorKind::Gyroscope,
    ];
    for i in 0..n {
        assert!(out[i].kind == kinds[i], "slot {}", i);
    }
    assert_eq!(out[0].reg_base, 0x68);
    assert_eq!(&out[0].compat[..out[0].compat_len], b"invensense,mpu6050");
    assert_eq!(out[9].reg_base, 0x33);
}

#[test]
fn sensor_detection_truncates_long_compatible_strings() {
    let long = "x".repeat(100) + ",bmp280";
    let entries = [sensor_node("s", &long, 1)];
    let mut out = [sensor_blank(); 1];
    assert_eq!(detect(4096, &entries, &mut out), 1);
    assert!(out[0].kind == SensorKind::Barometer);
    assert_eq!(out[0].compat_len, 64);
}

#[test]
fn xyz_registers_decode() {
    assert_eq!(read_xyz(0xFFFE_0003, 0x0000_8000), (3, -2, -32768));
    assert_eq!(read_xyz(0, 0x1_7FFF), (0, 0, 32767));
}

#[test]
fn sensor_driver_life_cycle() {
    let mut st = DriverState::new();
    let d = probe(&mut st, 0x4000, 0x68);
    assert_eq!(d.base, 0x4000);
    assert_eq!(d.sensor_id, 0x68);
    assert!(d.rate == SampleRate::Hz100);
    assert_eq!(state(&st), STATE_PROBED);
    assert!(init(&mut st, &d));
    assert_eq!(state(&st), STATE_ACTIVE);
    shutdown(&mut st, &d);
    assert_eq!(state(&st), STATE_STOPPED);
}

#[test]
fn combining_bytes_is_sign_extension() {
    for (h, l) in [(0u8, 0u8), (0x12, 0x34), (0x7F, 0xFF), (0x80, 0x00), (0xFF, 0xFE), (0xAB, 0xCD)] {
        assert_eq!(combine_bytes(h, l) as i32, sign_extend_16(h as u32 * 256 + l as u32));
    }
}

#[test]
fn sensor_detection_needs_a_devicetree_blob() {
    let entries = [sensor_node("imu@68", "invensense,mpu6050", 0x68)];
    let mut out = [sensor_blank(); 1];
    assert_eq!(detect(39, &entries, &mut out), 0);
    assert!(out[0].kind == SensorKind::Unknown);
    assert_eq!(detect(40, &entries, &mut out), 1);
    assert!(out[0].kind == SensorKind::Imu);
}

#[test]
fn sensor_detection_scans_at_most_sixty_four_nodes() {
    let mut entries: Vec<DtDeviceEntry> = (0..64).map(|i| sensor_node("serial", "ns16550a", i)).collect();
    entries.push(sensor_node("t", "ti,tmp102", 0x48));
    let mut out = [sensor_blank(); 2];
    assert_eq!(detect(4096, &entries, &mut out), 0);
    entries[0] = sensor_node("h", "ti,hdc1080", 0x40);
    assert_eq!(detect(4096, &entries, &mut out), 1);
    assert!(out[0].kind == SensorKind::Humidity);
}
