use vstd::prelude::*;
use crate::driver_state::{DriverState, STATE_ACTIVE, STATE_PROBED, STATE_STOPPED};
use crate::bits::any_bit;
use crate::nfc::hw::{self, STATUS_RX_READY, STATUS_TX_BUSY};
use crate::nfc::protocol::NfcProtocol;

verus! {

/// A probed NFC controller: its register window, its identification register and the
/// protocol it is driven with.
pub struct NfcDriver {
    pub base: usize,
    pub chip_id: u32,
    pub protocol: NfcProtocol,
}

/// Builds the driver for the controller at `base` whose identification register reads `id`,
/// driven with NFC-A, and records it as probed.
pub fn probe(st: &mut DriverState, base: usize, id: u32) -> (d: NfcDriver)
    ensures
        d.base == base,
        d.chip_id == id,
        d.protocol == NfcProtocol::NfcA,
        final(st).code() == STATE_PROBED,
{
    st.set(STATE_PROBED);
    NfcDriver { base, chip_id: id, protocol: NfcProtocol::NfcA }
}

/// Records that the controller has been reset, enabled and set to its protocol's bit rate and
/// modulation; initialisation always succeeds.
pub fn init(st: &mut DriverState, driver: &NfcDriver) -> (ok: bool)
    ensures
        ok,
        final(st).code() == STATE_ACTIVE,
{
    st.set(STATE_ACTIVE);
    true
}

/// Records that the controller has been switched off.
pub fn shutdown(st: &mut DriverState, driver: &NfcDriver)
    ensures
        final(st).code() == STATE_STOPPED,
{
    st.set(STATE_STOPPED);
}

/// The driver's life-cycle code.
pub fn state(st: &DriverState) -> (code: u8)
    ensures
        code == st.code(),
{
    st.get()
}

/// One step of sending `data` when `*sent` bytes have gone out and the status register has just
/// read `status`: once every byte is sent, or while the transmitter is busy, the transfer stops
/// (`None`); otherwise the next byte's TX data word is to be written (`Some`) and counted.
pub fn send_step(data: &[u8], sent: &mut usize, status: u32) -> (word: Option<u32>)
    ensures
        *old(sent) < data.len() && !any_bit(status, STATUS_TX_BUSY) ==> {
            &&& word == Some(data[*old(sent) as int] as u32)
            &&& *final(sent) == *old(sent) + 1
        },
        !(*old(sent) < data.len() && !any_bit(status, STATUS_TX_BUSY)) ==> {
            &&& word is None
            &&& *final(sent) == *old(sent)
        },
{
    if *sent >= data.len() || hw::tx_busy(status) {
        return None;
    }
    let w = hw::write_tx(data[*sent]);
    *sent = *sent + 1;
    Some(w)
}

/// Whether receiving into a buffer of `len` bytes, `received` of them stored so far, goes on to
/// read the RX data register, given the status word just read: only while there is room and the
/// receiver reports a byte ready.
pub fn recv_step(received: usize, len: usize, status: u32) -> (go: bool)
    ensures
        go == (received < len && any_bit(status, STATUS_RX_READY)),
{
    received < len && hw::rx_ready(status)
}

/// Stores the byte of the RX data word `raw` at `buf[*received]` and counts it.
pub fn recv_store(buf: &mut [u8], received: &mut usize, raw: u32)
    requires
        *old(received) < old(buf).len(),
    ensures
        final(buf)@ == old(buf)@.update(*old(received) as int, (raw % 256) as u8),
        *final(received) == *old(received) + 1,
{
    let b = hw::read_rx(raw);
    let i = *received;
    buf[i] = b;
    *received = i + 1;
}

} // verus!
