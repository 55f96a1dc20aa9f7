use vstd::prelude::*;

verus! {

/// The 8253/8254 programmable interval timer.
pub struct Pit;

pub const PIT_FREQ: u32 = 1193182;
pub const PIT_CMD: u16 = 0x43;
pub const PIT_CH0: u16 = 0x40;

/// The 16-bit reload divisor for a requested rate: the input clock divided by `hz`, clamped to
/// 1..=0xFFFF.
pub open spec fn pit_divisor(hz: u32) -> u16 {
    let d = PIT_FREQ / hz;
    if d > 0xFFFF { 0xFFFF } else if d == 0 { 1 } else { d as u16 }
}

impl Pit {
    /// The divisor to program for `hz` and the rate it actually yields, or `None` for `hz` 0.
    /// The caller writes command 0x36 and then the divisor's low and high bytes to channel 0.
    pub fn set_frequency(hz: u32) -> (r: Option<(u16, u32)>)
        ensures
            hz == 0 ==> r is None,
            hz != 0 ==> r == Some((pit_divisor(hz), PIT_FREQ / (pit_divisor(hz) as u32))),
    {
        if hz == 0 {
            return None;
        }
        let divisor = PIT_FREQ / hz;
        let divisor16: u16 = if divisor > 0xFFFF {
            0xFFFF
        } else if divisor == 0 {
            1
        } else {
            divisor as u16
        };
        Some((divisor16, PIT_FREQ / (divisor16 as u32)))
    }
}

} // verus!
