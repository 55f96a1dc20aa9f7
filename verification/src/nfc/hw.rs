use vstd::prelude::*;
use crate::bits::{any_bit, lemma_clear_undoes_set, with_bits, without_bits};

verus! {

pub const NFC_ID: usize = 0x00;
pub const NFC_STATUS: usize = 0x04;
pub const NFC_CTRL: usize = 0x08;
pub const NFC_INT_CTRL: usize = 0x0C;
pub const NFC_INT_STATUS: usize = 0x10;
pub const NFC_TX_DATA: usize = 0x14;
pub const NFC_RX_DATA: usize = 0x18;
pub const NFC_TX_STATUS: usize = 0x1C;
pub const NFC_RX_STATUS: usize = 0x20;
pub const NFC_RF_CTRL: usize = 0x24;
pub const NFC_BITRATE: usize = 0x28;
pub const NFC_MODULATION: usize = 0x2C;
pub const NFC_FIELD_DETECT: usize = 0x30;
pub const NFC_TARGET_ID: usize = 0x34;

pub const CTRL_ENABLE: u32 = 0x01;
pub const CTRL_RESET: u32 = 0x02;
pub const CTRL_RF_ON: u32 = 0x04;
pub const CTRL_POLL: u32 = 0x08;
pub const CTRL_LISTEN: u32 = 0x10;
pub const CTRL_P2P: u32 = 0x20;

pub const STATUS_POWERED: u32 = 0x01;
pub const STATUS_RF_ACTIVE: u32 = 0x02;
pub const STATUS_TARGET_PRESENT: u32 = 0x04;
pub const STATUS_TX_BUSY: u32 = 0x08;
pub const STATUS_RX_READY: u32 = 0x10;

/// Control register value that powers the controller up.
pub fn enable(ctrl: u32) -> (v: u32)
    ensures
        v == with_bits(ctrl, CTRL_ENABLE),
{
    ctrl | CTRL_ENABLE
}

/// Control register value that powers the controller down.
pub fn disable(ctrl: u32) -> (v: u32)
    ensures
        v == without_bits(ctrl, CTRL_ENABLE),
{
    ctrl & !CTRL_ENABLE
}

/// Control register value that switches the RF field on.
pub fn rf_field_on(ctrl: u32) -> (v: u32)
    ensures
        v == with_bits(ctrl, CTRL_RF_ON),
{
    ctrl | CTRL_RF_ON
}

/// Control register value that switches the RF field off.
pub fn rf_field_off(ctrl: u32) -> (v: u32)
    ensures
        v == without_bits(ctrl, CTRL_RF_ON),
{
    ctrl & !CTRL_RF_ON
}

/// Control register value that starts polling for targets.
pub fn start_poll(ctrl: u32) -> (v: u32)
    ensures
        v == with_bits(ctrl, CTRL_POLL),
{
    ctrl | CTRL_POLL
}

/// Control register value that stops polling.
pub fn stop_poll(ctrl: u32) -> (v: u32)
    ensures
        v == without_bits(ctrl, CTRL_POLL),
{
    ctrl & !CTRL_POLL
}

/// A status register value reports a target in the field.
pub fn target_present(status: u32) -> (b: bool)
    ensures
        b == any_bit(status, STATUS_TARGET_PRESENT),
{
    status & STATUS_TARGET_PRESENT != 0
}

/// A status register value reports the RF field as active.
pub fn rf_active(status: u32) -> (b: bool)
    ensures
        b == any_bit(status, STATUS_RF_ACTIVE),
{
    status & STATUS_RF_ACTIVE != 0
}

/// A status register value reports the transmitter as busy.
pub fn tx_busy(status: u32) -> (b: bool)
    ensures
        b == any_bit(status, STATUS_TX_BUSY),
{
    status & STATUS_TX_BUSY != 0
}

/// A status register value reports a received byte waiting.
pub fn rx_ready(status: u32) -> (b: bool)
    ensures
        b == any_bit(status, STATUS_RX_READY),
{
    status & STATUS_RX_READY != 0
}

/// The transmit-data register value that sends `byte`.
pub fn write_tx(byte: u8) -> (v: u32)
    ensures
        v == byte as u32,
        v < 256,
{
    byte as u32
}

/// The byte held in a receive-data register value: its low eight bits.
pub fn read_rx(raw: u32) -> (b: u8)
    ensures
        b == raw % 256,
{
    (raw % 256) as u8
}

/// A field-detect register value reports an external field (bit 0).
pub fn field_detected(raw: u32) -> (b: bool)
    ensures
        b == any_bit(raw, 0x01),
{
    raw & 0x01 != 0
}

/// Switching the RF field off after switching it on leaves the control register as switching
/// it off alone would: no other bit is disturbed.
pub proof fn law_rf_field_off_undoes_on(ctrl: u32)
    ensures
        without_bits(with_bits(ctrl, CTRL_RF_ON), CTRL_RF_ON) == without_bits(ctrl, CTRL_RF_ON),
{
    lemma_clear_undoes_set(ctrl, CTRL_RF_ON);
}

/// Stopping polling after starting it disturbs no other control bit.
pub proof fn law_stop_poll_undoes_start(ctrl: u32)
    ensures
        without_bits(with_bits(ctrl, CTRL_POLL), CTRL_POLL) == without_bits(ctrl, CTRL_POLL),
{
    lemma_clear_undoes_set(ctrl, CTRL_POLL);
}

/// Disabling after enabling disturbs no other control bit.
pub proof fn law_disable_undoes_enable(ctrl: u32)
    ensures
        without_bits(with_bits(ctrl, CTRL_ENABLE), CTRL_ENABLE) == without_bits(ctrl, CTRL_ENABLE),
{
    lemma_clear_undoes_set(ctrl, CTRL_ENABLE);
}

} // verus!
