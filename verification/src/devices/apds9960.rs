//! APDS-9960 ambient light / proximity front-end (I²C 0x39), proximity engine only: the
//! register protocol and the identity / sample-ready decisions.
use vstd::prelude::*;

verus! {

/// I²C address.
pub const ADDR: u8 = 0x39;
/// Device-ID register.
pub const ID: u8 = 0x92;
/// ENABLE register.
pub const ENABLE: u8 = 0x80;
/// Proximity pulse register.
pub const PPULSE: u8 = 0x8E;
/// STATUS register.
pub const STATUS: u8 = 0x93;
/// Proximity data register.
pub const PDATA: u8 = 0x9C;
/// ENABLE: power on.
pub const PON: u8 = 0x01;
/// ENABLE: proximity engine.
pub const PEN: u8 = 0x04;
/// STATUS: a proximity sample is ready.
pub const PVALID: u8 = 0x02;
/// 16 µs pulses × 8.
pub const PPULSE_CFG: u8 = 0x87;
/// Bounded poll for the first valid sample.
pub const POLL_TRIES: u16 = 256;

/// Marker for the APDS-9960.
pub struct Apds9960;

impl Apds9960 {
    /// The writes that power the sensor on with the proximity engine enabled.
    pub fn enable_writes() -> (w: [[u8; 2]; 2])
        ensures
            w@[0]@ == seq![PPULSE, PPULSE_CFG],
            w@[1]@ == seq![ENABLE, 0x05u8],
    {
        let on = PON | PEN;
        assert(on == 0x05u8) by (bit_vector)
            requires on == 0x01u8 | 0x04u8;
        [[PPULSE, PPULSE_CFG], [ENABLE, on]]
    }

    /// Accepted device IDs: 0xAB (datasheet) and 0xA8 (some revisions).
    pub fn id_ok(id: u8) -> (b: bool)
        ensures
            b == (id == 0xAB || id == 0xA8),
    {
        id == 0xAB || id == 0xA8
    }

    /// A proximity sample is latched (STATUS.PVALID).
    pub fn sample_ready(status: u8) -> (b: bool)
        ensures
            b == (status & PVALID != 0),
    {
        status & PVALID != 0
    }
}

} // verus!
