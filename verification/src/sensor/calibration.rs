use vstd::prelude::*;
use crate::arith::{div_trunc_i64, trunc_div};
use crate::sensor::data::{lemma_product_bound, CalibratedSample, RawSample};

verus! {

/// Per-axis offsets, per-axis scales in thousandths, and cross-axis terms.
#[derive(Clone, Copy)]
pub struct CalibrationData {
    pub offset_x: i32,
    pub offset_y: i32,
    pub offset_z: i32,
    pub scale_x: i32,
    pub scale_y: i32,
    pub scale_z: i32,
    pub cross_xy: i32,
    pub cross_xz: i32,
    pub cross_yz: i32,
}

/// `x` reduced into the `i32` range modulo 2^32 (two's-complement wrap-around).
pub open spec fn wrap_i32(x: int) -> int {
    if x > i32::MAX {
        x - 0x1_0000_0000
    } else if x < i32::MIN {
        x + 0x1_0000_0000
    } else {
        x
    }
}

/// The offset correction: `raw - offset`, wrapping around in 32 bits.
pub open spec fn offset_corrected(raw: i32, offset: i32) -> int {
    wrap_i32(raw - offset)
}

/// The scale correction: `corrected * scale / 1000`, rounded toward zero, truncated to 32 bits.
pub open spec fn scale_corrected(corrected: i32, scale: i32) -> i32 {
    trunc_div(corrected * scale, 1000) as i32
}

impl CalibrationData {
    /// No offset, unit scale (1000 thousandths), no cross-axis terms.
    pub fn identity() -> (c: Self)
        ensures
            c.offset_x == 0 && c.offset_y == 0 && c.offset_z == 0,
            c.scale_x == 1000 && c.scale_y == 1000 && c.scale_z == 1000,
            c.cross_xy == 0 && c.cross_xz == 0 && c.cross_yz == 0,
    {
        CalibrationData {
            offset_x: 0,
            offset_y: 0,
            offset_z: 0,
            scale_x: 1000,
            scale_y: 1000,
            scale_z: 1000,
            cross_xy: 0,
            cross_xz: 0,
            cross_yz: 0,
        }
    }
}

pub fn apply_offset(raw: i32, offset: i32) -> (v: i32)
    ensures
        v == offset_corrected(raw, offset),
{
    raw.wrapping_sub(offset)
}

pub fn apply_scale(corrected: i32, scale: i32) -> (v: i32)
    ensures
        v == scale_corrected(corrected, scale),
{
    proof {
        lemma_product_bound(corrected, scale);
    }
    div_trunc_i64(corrected as i64 * scale as i64, 1000) as i32
}

/// Scaling by the unit scale (1000 thousandths) keeps a value unchanged.
pub proof fn law_unit_scale_is_identity(v: i32)
    ensures
        scale_corrected(v, 1000) == v,
{
    assert((v * 1000) / 1000 == v) by (nonlinear_arith);
    assert((-(v * 1000)) / 1000 == -v) by (nonlinear_arith);
}

/// Corrects each axis of a reading: offset first, then scale; the timestamp is kept.
pub fn calibrate_sample(raw: &RawSample, cal: &CalibrationData) -> (s: CalibratedSample)
    ensures
        s.x == scale_corrected(offset_corrected(raw.x, cal.offset_x) as i32, cal.scale_x),
        s.y == scale_corrected(offset_corrected(raw.y, cal.offset_y) as i32, cal.scale_y),
        s.z == scale_corrected(offset_corrected(raw.z, cal.offset_z) as i32, cal.scale_z),
        s.timestamp == raw.timestamp,
{
    let cx = apply_scale(apply_offset(raw.x, cal.offset_x), cal.scale_x);
    let cy = apply_scale(apply_offset(raw.y, cal.offset_y), cal.scale_y);
    let cz = apply_scale(apply_offset(raw.z, cal.offset_z), cal.scale_z);
    CalibratedSample { x: cx, y: cy, z: cz, timestamp: raw.timestamp }
}

/// Calibrating with the identity calibration leaves a reading unchanged.
pub proof fn law_identity_calibration_keeps_sample(raw: RawSample)
    ensures
        scale_corrected(offset_corrected(raw.x, 0) as i32, 1000) == raw.x,
        scale_corrected(offset_corrected(raw.y, 0) as i32, 1000) == raw.y,
        scale_corrected(offset_corrected(raw.z, 0) as i32, 1000) == raw.z,
{
    law_unit_scale_is_identity(raw.x);
    law_unit_scale_is_identity(raw.y);
    law_unit_scale_is_identity(raw.z);
}

/// The sum of a sequence of readings.
pub open spec fn sum_i32(s: Seq<i32>) -> int
    decreases s.len(),
{
    if s.len() == 0 {
        0
    } else {
        sum_i32(s.drop_last()) + s.last()
    }
}

proof fn lemma_sum_bound(s: Seq<i32>)
    ensures
        s.len() * i32::MIN <= sum_i32(s) <= s.len() * i32::MAX,
    decreases s.len(),
{
    if s.len() > 0 {
        lemma_sum_bound(s.drop_last());
        assert(s.len() * i32::MIN == (s.len() - 1) * i32::MIN + i32::MIN) by (nonlinear_arith);
        assert(s.len() * i32::MAX == (s.len() - 1) * i32::MAX + i32::MAX) by (nonlinear_arith);
    }
}

/// The mean of the readings, rounded toward zero (zero for no readings): the offset that
/// centres them.
pub fn compute_offset(samples: &[i32]) -> (v: i32)
    requires
        samples@.len() <= 0xFFFF_FFFF,
    ensures
        samples@.len() == 0 ==> v == 0,
        samples@.len() > 0 ==> v == trunc_div(sum_i32(samples@), samples@.len() as int) as i32,
{
    if samples.len() == 0 {
        return 0;
    }
    let mut sum: i64 = 0;
    let mut i: usize = 0;
    while i < samples.len()
        invariant
            i <= samples@.len(),
            samples@.len() <= 0xFFFF_FFFF,
            sum == sum_i32(samples@.take(i as int)),
        decreases samples@.len() - i,
    {
        proof {
            let t = samples@.take(i as int + 1);
            assert(t.drop_last() =~= samples@.take(i as int));
            lemma_sum_bound(t);
            assert(t.len() * i32::MIN >= 0xFFFF_FFFF * i32::MIN) by (nonlinear_arith)
                requires
                    t.len() <= 0xFFFF_FFFF,
            ;
            assert(t.len() * i32::MAX <= 0xFFFF_FFFF * i32::MAX) by (nonlinear_arith)
                requires
                    t.len() <= 0xFFFF_FFFF,
            ;
        }
        sum += samples[i] as i64;
        i += 1;
    }
    assert(samples@.take(samples@.len() as int) =~= samples@);
    proof {
        lemma_sum_bound(samples@);
        assert(samples@.len() * i32::MIN >= 0xFFFF_FFFF * i32::MIN) by (nonlinear_arith)
            requires
                samples@.len() <= 0xFFFF_FFFF,
        ;
    }
    div_trunc_i64(sum, samples.len() as i64) as i32
}

} // verus!
