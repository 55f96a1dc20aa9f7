use vstd::prelude::*;
use crate::driver_state::{DriverState, STATE_ACTIVE, STATE_PROBED, STATE_STOPPED};
use crate::sensor::data::{sign_extend_16, signed_field};
use crate::sensor::sampling::SampleRate;

verus! {

/// A probed memory-mapped sensor: its register window, its identification register and the
/// rate it samples at.
pub struct MmioSensorDriver {
    pub base: usize,
    pub sensor_id: u32,
    pub rate: SampleRate,
}

/// Builds the driver for the sensor at `base` whose identification register reads `id`,
/// sampling at 100 Hz, and records it as probed.
pub fn probe(st: &mut DriverState, base: usize, id: u32) -> (d: MmioSensorDriver)
    ensures
        d.base == base,
        d.sensor_id == id,
        d.rate == SampleRate::Hz100,
        final(st).code() == STATE_PROBED,
{
    st.set(STATE_PROBED);
    MmioSensorDriver { base, sensor_id: id, rate: SampleRate::Hz100 }
}

/// Records that the sensor has been reset, enabled, set to its rate and to continuous mode;
/// initialisation always succeeds.
pub fn init(st: &mut DriverState, driver: &MmioSensorDriver) -> (ok: bool)
    ensures
        ok,
        final(st).code() == STATE_ACTIVE,
{
    st.set(STATE_ACTIVE);
    true
}

/// Decodes one reading from the two data registers: X is the low and Y the high half of the
/// first, Z the low half of the second, each a 16-bit two's-complement value.
pub fn read_xyz(raw: u32, raw_h: u32) -> (xyz: (i32, i32, i32))
    ensures
        xyz.0 == signed_field(raw, 16),
        xyz.1 == signed_field(raw / 65536, 16),
        xyz.2 == signed_field(raw_h, 16),
{
    let x = sign_extend_16(raw % 65536);
    let y = sign_extend_16((raw / 65536) % 65536);
    let z = sign_extend_16(raw_h % 65536);
    proof {
        vstd::arithmetic::power2::lemma2_to64();
    }
    (x, y, z)
}

/// Records that the sensor has been switched off.
pub fn shutdown(st: &mut DriverState, driver: &MmioSensorDriver)
    ensures
        final(st).code() == STATE_STOPPED,
{
    st.set(STATE_STOPPED);
}

/// The driver's life-cycle code.
pub fn state(st: &DriverState) -> (code: u8)
    ensures
        code == st.code(),
{
    st.get()
}

} // verus!
