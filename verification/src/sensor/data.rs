use vstd::prelude::*;

verus! {

/// Measurement axes.
#[derive(Clone, Copy, PartialEq, Eq, Structural)]
pub enum Axis {
    X,
    Y,
    Z,
}

/// A three-axis reading as the sensor reports it, with its timestamp.
#[derive(Clone, Copy)]
pub struct RawSample {
    pub x: i32,
    pub y: i32,
    pub z: i32,
    pub timestamp: u64,
}

/// A three-axis reading after offset and scale correction.
#[derive(Clone, Copy)]
pub struct CalibratedSample {
    pub x: i32,
    pub y: i32,
    pub z: i32,
    pub timestamp: u64,
}

/// A single-value reading with its timestamp.
#[derive(Clone, Copy)]
pub struct ScalarSample {
    pub value: i32,
    pub timestamp: u64,
}

/// The squared length of a reading.
pub open spec fn magnitude_sq(s: RawSample) -> int {
    s.x * s.x + s.y * s.y + s.z * s.z
}

/// The value of the low `bits` bits of `val` read as a two's-complement number.
pub open spec fn signed_field(val: u32, bits: nat) -> int {
    let m = vstd::arithmetic::power2::pow2(bits) as int;
    let low = val as int % m;
    if low >= m / 2 { low - m } else { low }
}

impl RawSample {
    /// The all-zero reading at time zero.
    pub fn zero() -> (s: Self)
        ensures
            s.x == 0 && s.y == 0 && s.z == 0 && s.timestamp == 0,
    {
        RawSample { x: 0, y: 0, z: 0, timestamp: 0 }
    }

    /// The squared length of the reading, when it fits in `i64`.
    pub fn magnitude_squared(&self) -> (m: i64)
        requires
            magnitude_sq(*self) <= i64::MAX,
        ensures
            m == magnitude_sq(*self),
    {
        let x = self.x as i64;
        let y = self.y as i64;
        let z = self.z as i64;
        proof {
            lemma_square_bound(self.x);
            lemma_square_bound(self.y);
            lemma_square_bound(self.z);
        }
        x * x + y * y + z * z
    }

    /// The reading on one axis.
    pub fn axis(&self, axis: Axis) -> (v: i32)
        ensures
            v == match axis {
                Axis::X => self.x,
                Axis::Y => self.y,
                Axis::Z => self.z,
            },
    {
        match axis {
            Axis::X => self.x,
            Axis::Y => self.y,
            Axis::Z => self.z,
        }
    }
}

proof fn lemma_square_bound(v: i32)
    ensures
        0 <= v * v <= 0x4000_0000_0000_0000,
{
    assert(0 <= v * v <= 0x4000_0000_0000_0000) by (nonlinear_arith)
        requires
            -0x8000_0000 <= v <= 0x7fff_ffff,
    ;
}

/// The low twelve bits of `val` as a two's-complement number.
pub fn sign_extend_12(val: u32) -> (v: i32)
    ensures
        v == signed_field(val, 12),
        -2048 <= v < 2048,
{
    proof {
        vstd::arithmetic::power2::lemma2_to64();
    }
    let low = (val % 4096) as i32;
    if low >= 2048 {
        low - 4096
    } else {
        low
    }
}

/// The low sixteen bits of `val` as a two's-complement number.
pub fn sign_extend_16(val: u32) -> (v: i32)
    ensures
        v == signed_field(val, 16),
        -32768 <= v < 32768,
{
    proof {
        vstd::arithmetic::power2::lemma2_to64();
    }
    let low = (val % 65536) as i32;
    if low >= 32768 {
        low - 65536
    } else {
        low
    }
}

/// The big-endian 16-bit two's-complement value of a high and a low byte.
pub fn combine_bytes(high: u8, low: u8) -> (v: i16)
    ensures
        v == if high * 256 + low >= 32768 { high * 256 + low - 65536 } else { high * 256 + low },
{
    let w = (high as i32) * 256 + (low as i32);
    if w >= 32768 {
        (w - 65536) as i16
    } else {
        w as i16
    }
}

/// `raw * num / den`, computed in 64 bits and rounded toward zero, then truncated to `i32`;
/// a zero denominator gives zero.
pub fn scale_raw(raw: i32, scale_num: i32, scale_den: i32) -> (v: i32)
    ensures
        scale_den == 0 ==> v == 0,
        scale_den != 0 ==> v == (crate::arith::trunc_div(raw * scale_num, scale_den as int)) as i32,
{
    if scale_den == 0 {
        return 0;
    }
    proof {
        lemma_product_bound(raw, scale_num);
    }
    let p = raw as i64 * scale_num as i64;
    crate::arith::div_trunc_i64(p, scale_den as i64) as i32
}

pub proof fn lemma_product_bound(a: i32, b: i32)
    ensures
        -0x4000_0000_0000_0000 <= a * b <= 0x4000_0000_0000_0000,
{
    assert(-0x4000_0000_0000_0000 <= a * b <= 0x4000_0000_0000_0000) by (nonlinear_arith)
        requires
            -0x8000_0000 <= a <= 0x7fff_ffff,
            -0x8000_0000 <= b <= 0x7fff_ffff,
    ;
}

/// Combining a high and a low byte gives the same value as sign-extending the 16-bit word
/// they form.
pub proof fn law_combine_is_sign_extension(high: u8, low: u8)
    ensures
        (if high * 256 + low >= 32768 { high * 256 + low - 65536 } else { high * 256 + low })
            == signed_field((high * 256 + low) as u32, 16),
{
    vstd::arithmetic::power2::lemma2_to64();
    let w: int = high * 256 + low;
    assert(0 <= w < 65536) by (nonlinear_arith)
        requires
            w == high * 256 + low,
            0 <= high < 256,
            0 <= low < 256,
    ;
    assert(w % 65536 == w);
}

} // verus!
