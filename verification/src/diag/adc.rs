//! Measured board stats from the ADC's internal channels: the supply rail by the ratio method
//! (the known 1.5 V reference sampled against DVCC) and the die temperature interpolated through
//! the factory two-point calibration.
use vstd::prelude::*;

verus! {

/// 12-bit full scale.
pub const FULL_SCALE: u32 = 4095;
/// Internal reference in mV.
pub const VREF_MV: u32 = 1500;

/// DVCC in mV from the 12-bit reading of the 1.5 V reference: `4095 * 1500 / raw`, truncated to
/// 16 bits; 0 for a nonsensical zero reading.
pub fn dvcc_mv(raw: u16) -> (mv: u16)
    requires
        raw <= 0x0FFF,
    ensures
        mv == (if raw == 0 { 0 } else { ((6142500int / raw as int) % 65536) as u16 }),
{
    let r = raw as u32;
    if r == 0 {
        return 0;
    }
    let v = FULL_SCALE * VREF_MV / r;
    let mv = v as u16;
    assert(mv == v % 65536) by (bit_vector)
        requires mv == v as u16;
    mv
}

/// Integer division truncating toward zero (Rust's `/`).
pub open spec fn trunc_div(a: int, b: int) -> int {
    let q = (if a < 0 { -a } else { a }) / (if b < 0 { -b } else { b });
    if (a < 0) != (b < 0) { -q } else { q }
}

/// Die temperature in whole °C from the raw sensor reading and the two TLV calibration words:
/// linear through the 30 °C and 105 °C calibration readings (truncating division in 32 bits, then
/// cut to 16 bits); 0 when the calibration is blank (equal points).
pub fn die_temp_c(raw: u16, c30: u16, c105: u16) -> (t: i16)
    requires
        raw <= 0x0FFF,
    ensures
        t == (if c105 == c30 {
            0i16
        } else {
            #[verifier::truncate]
            ((trunc_div((raw as int - c30 as int) * 75, c105 as int - c30 as int) + 30) as i16)
        }),
{
    let raw = raw as i32;
    let c30 = c30 as i32;
    let c105 = c105 as i32;
    if c105 == c30 {
        return 0;
    }
    let num = (raw - c30) * (105 - 30);
    let den = c105 - c30;
    // Truncating division, computed on magnitudes.
    let an = if num < 0 { -num } else { num };
    let ad = if den < 0 { -den } else { den };
    let qa = an / ad;
    let q = if (num < 0) != (den < 0) { -qa } else { qa };
    #[verifier::truncate]
    ((q + 30) as i16)
}

} // verus!
