use vstd::prelude::*;
use crate::bits::{lemma_set_clear_effect, with_bits, without_bits};

verus! {

pub const SENSOR_ID_REG: usize = 0x00;
pub const SENSOR_STATUS: usize = 0x04;
pub const SENSOR_CTRL: usize = 0x08;
pub const SENSOR_DATA_OUT: usize = 0x0C;
pub const SENSOR_DATA_OUT_H: usize = 0x10;
pub const SENSOR_CONFIG: usize = 0x14;
pub const SENSOR_RATE: usize = 0x18;
pub const SENSOR_FIFO_CTRL: usize = 0x1C;
pub const SENSOR_FIFO_STATUS: usize = 0x20;
pub const SENSOR_INT_CTRL: usize = 0x24;
pub const SENSOR_INT_STATUS: usize = 0x28;
pub const SENSOR_OFFSET_X: usize = 0x2C;
pub const SENSOR_OFFSET_Y: usize = 0x30;
pub const SENSOR_OFFSET_Z: usize = 0x34;
pub const SENSOR_SCALE: usize = 0x38;

pub const CTRL_POWER_ON: u32 = 0x01;
pub const CTRL_STANDBY: u32 = 0x02;
pub const CTRL_CONTINUOUS: u32 = 0x04;
pub const CTRL_SINGLE_SHOT: u32 = 0x08;
pub const CTRL_FIFO_EN: u32 = 0x10;
pub const CTRL_INT_EN: u32 = 0x20;
pub const CTRL_RESET: u32 = 0x80;

/// Control register value that powers the sensor on.
pub fn enable(ctrl: u32) -> (v: u32)
    ensures
        v == with_bits(ctrl, CTRL_POWER_ON),
{
    ctrl | CTRL_POWER_ON
}

/// Control register value that powers the sensor off.
pub fn disable(ctrl: u32) -> (v: u32)
    ensures
        v == without_bits(ctrl, CTRL_POWER_ON),
{
    ctrl & !CTRL_POWER_ON
}

/// Control register value for continuous sampling: single-shot mode off, continuous mode on.
pub fn set_continuous(ctrl: u32) -> (v: u32)
    ensures
        v == with_bits(without_bits(ctrl, CTRL_SINGLE_SHOT), CTRL_CONTINUOUS),
        v & CTRL_CONTINUOUS == CTRL_CONTINUOUS,
        v & CTRL_SINGLE_SHOT == 0,
{
    let v = (ctrl & !CTRL_SINGLE_SHOT) | CTRL_CONTINUOUS;
    proof {
        lemma_set_clear_effect(without_bits(ctrl, CTRL_SINGLE_SHOT), CTRL_CONTINUOUS);
        lemma_modes_exclusive(ctrl, CTRL_SINGLE_SHOT, CTRL_CONTINUOUS);
    }
    v
}

/// Control register value for single-shot sampling: continuous mode off, single-shot mode on.
pub fn set_single_shot(ctrl: u32) -> (v: u32)
    ensures
        v == with_bits(without_bits(ctrl, CTRL_CONTINUOUS), CTRL_SINGLE_SHOT),
        v & CTRL_SINGLE_SHOT == CTRL_SINGLE_SHOT,
        v & CTRL_CONTINUOUS == 0,
{
    let v = (ctrl & !CTRL_CONTINUOUS) | CTRL_SINGLE_SHOT;
    proof {
        lemma_set_clear_effect(without_bits(ctrl, CTRL_CONTINUOUS), CTRL_SINGLE_SHOT);
        lemma_modes_exclusive(ctrl, CTRL_CONTINUOUS, CTRL_SINGLE_SHOT);
    }
    v
}

/// Clearing one of two distinct single-bit modes and setting the other leaves the first clear.
proof fn lemma_modes_exclusive(ctrl: u32, off: u32, on: u32)
    requires
        (off == CTRL_SINGLE_SHOT && on == CTRL_CONTINUOUS) || (off == CTRL_CONTINUOUS && on
            == CTRL_SINGLE_SHOT),
    ensures
        ((ctrl & !off) | on) & off == 0,
{
    assert(((ctrl & !8u32) | 4u32) & 8u32 == 0) by (bit_vector);
    assert(((ctrl & !4u32) | 8u32) & 4u32 == 0) by (bit_vector);
}

/// Control register value that enables the FIFO.
pub fn enable_fifo(ctrl: u32) -> (v: u32)
    ensures
        v == with_bits(ctrl, CTRL_FIFO_EN),
{
    ctrl | CTRL_FIFO_EN
}

/// The FIFO fill level held in a FIFO-status register value: its low six bits.
pub fn fifo_level(status: u32) -> (level: u32)
    ensures
        level == status % 64,
{
    status % 64
}

} // verus!
