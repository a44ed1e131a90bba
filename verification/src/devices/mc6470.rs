//! MC6470 eCompass: the accelerometer (0x4C; ±8 g over 14 bits, ~1024 LSB/g) with its at-rest
//! gravity sanity check, and the magnetometer (0x0C; 0.15 µT/LSB) with its field magnitude.
use vstd::prelude::*;
use crate::devices::isqrt::{is_isqrt, isqrt, root, root_is_the_isqrt};

verus! {

/// Accelerometer I²C address.
pub const ADDR: u8 = 0x4C;
/// Magnetometer I²C address.
pub const MAG_ADDR: u8 = 0x0C;
/// OPCON register (0x01 = wake).
pub const REG_MODE: u8 = 0x07;
/// Range/resolution register.
pub const REG_RANGE: u8 = 0x20;
/// First of the six X/Y/Z output bytes.
pub const REG_XOUT: u8 = 0x0D;
/// OPCON wake value.
pub const MODE_WAKE: u8 = 0x01;
/// ±8 g, 14-bit.
pub const RANGE_8G_14BIT: u8 = 0x25;
/// Counts per g at ±8 g / 14 bit.
pub const LSB_PER_G: i32 = 1024;
/// Lower gravity bound on the squared magnitude: (0.7 g)².
pub const G_LO2: i32 = 716 * 716;
/// Upper gravity bound on the squared magnitude: (1.3 g)².
pub const G_HI2: i32 = 1331 * 1331;
/// Bounded wake poll.
pub const WAKE_TRIES: u16 = 64;

/// Magnetometer WHO_AM_I register.
pub const MREG_WHO_AM_I: u8 = 0x0F;
/// Magnetometer WHO_AM_I value.
pub const MAG_WHO_AM_I: u8 = 0x49;
/// First of the six magnetometer output bytes.
pub const MREG_OUTX_L: u8 = 0x10;
/// Magnetometer status register.
pub const MREG_STATUS: u8 = 0x18;
/// Status: data ready.
pub const MSTATUS_DRDY: u8 = 0x40;
/// Control 1.
pub const MREG_CTRL1: u8 = 0x1B;
/// Control 1: active, force state, default data rate.
pub const MCTRL1_ACTIVE_FORCE: u8 = 0x8A;
/// Control 3.
pub const MREG_CTRL3: u8 = 0x1D;
/// Control 3: trigger a forced measurement.
pub const MCTRL3_FORCE: u8 = 0x40;
/// Bounded data-ready poll.
pub const MAG_DRDY_TRIES: u16 = 64;
/// Field per count in centi-µT.
pub const MAG_CENTI_UT_PER_LSB: i32 = 15;

/// Signed 16-bit value of a little-endian byte pair.
pub open spec fn le_i16(lo: u8, hi: u8) -> int {
    let u = hi as int * 256 + lo as int;
    if u >= 32768 { u - 65536 } else { u }
}

/// A little-endian byte pair decodes to the two's-complement value of the word `hi * 256 + lo`:
/// the one value in -32768..=32767 congruent to it modulo 65536.
pub proof fn little_endian_is_twos_complement(lo: u8, hi: u8)
    ensures
        -32768 <= le_i16(lo, hi) <= 32767,
        (le_i16(lo, hi) == hi as int * 256 + lo as int) || (le_i16(lo, hi) == hi as int * 256 + lo as int - 65536),
        hi < 128 ==> le_i16(lo, hi) == hi as int * 256 + lo as int,
{
}

/// Decode a little-endian signed 16-bit value.
pub fn i16_from_le(lo: u8, hi: u8) -> (v: i16)
    ensures
        v as int == le_i16(lo, hi),
{
    let u = hi as i32 * 256 + lo as i32;
    let v = if u >= 32768 { u - 65536 } else { u };
    v as i16
}

/// Squared magnitude of a vector.
pub open spec fn sum_sq(x: i16, y: i16, z: i16) -> int {
    x as int * x as int + y as int * y as int + z as int * z as int
}

/// Whether the squared magnitude of `(x, y, z)` fits the 32-bit arithmetic of the magnitude and
/// gravity checks.
pub fn sum_sq_fits(x: i16, y: i16, z: i16) -> (b: bool)
    ensures
        b == (sum_sq(x, y, z) <= i32::MAX),
{
    let (a, b, c) = (x as i64, y as i64, z as i64);
    assert(a * a <= 0x4000_0000 && b * b <= 0x4000_0000 && c * c <= 0x4000_0000) by (nonlinear_arith)
        requires -0x8000 <= a <= 0x7FFF, -0x8000 <= b <= 0x7FFF, -0x8000 <= c <= 0x7FFF;
    assert(a * a >= 0 && b * b >= 0 && c * c >= 0) by (nonlinear_arith);
    let s = a * a + b * b + c * c;
    s <= i32::MAX as i64
}

proof fn lemma_sum_sq_nonneg(x: i16, y: i16, z: i16)
    ensures
        0 <= sum_sq(x, y, z) <= 3 * 32768 * 32768,
        0 <= (x as i32) * (x as i32) <= 0x4000_0000,
        0 <= (y as i32) * (y as i32) <= 0x4000_0000,
        0 <= (z as i32) * (z as i32) <= 0x4000_0000,
{
    assert(0 <= (x as i32) * (x as i32) <= 0x4000_0000) by (nonlinear_arith);
    assert(0 <= (y as i32) * (y as i32) <= 0x4000_0000) by (nonlinear_arith);
    assert(0 <= (z as i32) * (z as i32) <= 0x4000_0000) by (nonlinear_arith);
    assert(0 <= x as int * x as int <= 32768 * 32768) by (nonlinear_arith);
    assert(0 <= y as int * y as int <= 32768 * 32768) by (nonlinear_arith);
    assert(0 <= z as int * z as int <= 32768 * 32768) by (nonlinear_arith);
}

/// A raw acceleration sample in signed counts.
#[derive(Debug, Clone, Copy, PartialEq, Eq, Structural)]
pub struct Accel {
    pub x: i16,
    pub y: i16,
    pub z: i16,
}

impl Accel {
    /// Decode the six X/Y/Z output bytes (little-endian pairs).
    pub fn from_bytes(d: [u8; 6]) -> (a: Accel)
        ensures
            a.x as int == le_i16(d@[0], d@[1]),
            a.y as int == le_i16(d@[2], d@[3]),
            a.z as int == le_i16(d@[4], d@[5]),
    {
        Accel { x: i16_from_le(d[0], d[1]), y: i16_from_le(d[2], d[3]), z: i16_from_le(d[4], d[5]) }
    }

    /// Squared magnitude in LSB².
    pub fn sumsq(&self) -> (s: i32)
        requires
            sum_sq(self.x, self.y, self.z) <= i32::MAX,
        ensures
            s as int == sum_sq(self.x, self.y, self.z),
    {
        proof { lemma_sum_sq_nonneg(self.x, self.y, self.z); }
        let xx = (self.x as i32) * (self.x as i32);
        let yy = (self.y as i32) * (self.y as i32);
        let zz = (self.z as i32) * (self.z as i32);
        xx + yy + zz
    }

    /// Vector magnitude |a| in milli-g: `isqrt(sumsq) * 1000 / 1024`.
    pub fn magnitude_mg(&self) -> (mg: i32)
        requires
            sum_sq(self.x, self.y, self.z) <= i32::MAX,
        ensures
            mg as int == root(sum_sq(self.x, self.y, self.z)) * 1000 / 1024,
            mg >= 0,
    {
        let s = self.sumsq();
        proof { lemma_sum_sq_nonneg(self.x, self.y, self.z); }
        let r = isqrt(s as u32);
        proof {
            root_is_the_isqrt(s as int, r as int);
            assert(r as int * r as int <= s);
            assert(r <= 46341) by (nonlinear_arith)
                requires r as int * r as int <= s, s <= i32::MAX;
        }
        r as i32 * 1000 / LSB_PER_G
    }

    /// At-rest gravity sanity: |a| strictly between 0.7 g and 1.3 g, decided on the squared
    /// magnitude.
    pub fn is_gravity(&self) -> (b: bool)
        requires
            sum_sq(self.x, self.y, self.z) <= i32::MAX,
        ensures
            b == (G_LO2 < sum_sq(self.x, self.y, self.z) < G_HI2),
    {
        let s = self.sumsq();
        s > G_LO2 && s < G_HI2
    }

    /// Number of non-zero axes; a fully woken part at rest has at least two.
    pub fn awake_axes(&self) -> (n: u8)
        ensures
            n == (if self.x != 0 { 1u8 } else { 0u8 }) + (if self.y != 0 { 1u8 } else { 0u8 })
                + (if self.z != 0 { 1u8 } else { 0u8 }),
    {
        (if self.x != 0 { 1u8 } else { 0u8 }) + (if self.y != 0 { 1u8 } else { 0u8 }) + (if self.z != 0 { 1u8 } else { 0u8 })
    }
}

/// A magnetic-field sample in signed counts (0.15 µT/LSB).
#[derive(Debug, Clone, Copy, PartialEq, Eq, Structural)]
pub struct MagField {
    pub x: i16,
    pub y: i16,
    pub z: i16,
}

impl MagField {
    /// Decode the six output bytes (little-endian pairs).
    pub fn from_bytes(d: [u8; 6]) -> (m: MagField)
        ensures
            m.x as int == le_i16(d@[0], d@[1]),
            m.y as int == le_i16(d@[2], d@[3]),
            m.z as int == le_i16(d@[4], d@[5]),
    {
        MagField { x: i16_from_le(d[0], d[1]), y: i16_from_le(d[2], d[3]), z: i16_from_le(d[4], d[5]) }
    }

    /// Squared magnitude.
    fn sumsq(&self) -> (s: u32)
        requires
            sum_sq(self.x, self.y, self.z) <= i32::MAX,
        ensures
            s as int == sum_sq(self.x, self.y, self.z),
    {
        proof { lemma_sum_sq_nonneg(self.x, self.y, self.z); }
        let xx = self.x as i32 * self.x as i32;
        let yy = self.y as i32 * self.y as i32;
        let zz = self.z as i32 * self.z as i32;
        (xx + yy + zz) as u32
    }

    /// Field magnitude |B| in centi-µT: `isqrt(sumsq) * 15`.
    pub fn magnitude_centi_ut(&self) -> (c: i32)
        requires
            sum_sq(self.x, self.y, self.z) <= i32::MAX,
        ensures
            c as int == root(sum_sq(self.x, self.y, self.z)) * 15,
            c >= 0,
    {
        let s = self.sumsq();
        let r = isqrt(s);
        proof {
            root_is_the_isqrt(s as int, r as int);
            assert(r <= 46341) by (nonlinear_arith)
                requires r as int * r as int <= s, s <= i32::MAX;
        }
        r as i32 * MAG_CENTI_UT_PER_LSB
    }
}

/// Accelerometer marker.
pub struct Mc6470;

/// Magnetometer marker.
pub struct Mc6470Mag;

/// What the accelerometer driver does with one sample while it waits for the part to wake.
#[derive(Debug, Clone, Copy, PartialEq, Eq, Structural)]
pub enum WakeRead {
    /// At least two axes read non-zero: the sample is the measurement.
    Accept,
    /// Not yet awake, reads left: sample again.
    Again,
    /// Not awake after [`WAKE_TRIES`] samples: not ready.
    GiveUp,
}

impl Mc6470 {
    /// Decide after sample number `reads` (counting from 1): a part that shows at least two
    /// non-zero axes is awake.
    pub fn wake_read(reads: u16, a: &Accel) -> (w: WakeRead)
        requires
            1 <= reads <= WAKE_TRIES,
        ensures
            w == (if (if a.x != 0 { 1int } else { 0int }) + (if a.y != 0 { 1int } else { 0int })
                + (if a.z != 0 { 1int } else { 0int }) >= 2 {
                WakeRead::Accept
            } else if reads < WAKE_TRIES {
                WakeRead::Again
            } else {
                WakeRead::GiveUp
            }),
    {
        if a.awake_axes() >= 2 {
            WakeRead::Accept
        } else if reads < WAKE_TRIES {
            WakeRead::Again
        } else {
            WakeRead::GiveUp
        }
    }

    /// The writes that power the accelerometer on: ±8 g / 14-bit, then wake.
    pub fn enable_writes() -> (w: [[u8; 2]; 2])
        ensures
            w@[0]@ == seq![REG_RANGE, RANGE_8G_14BIT],
            w@[1]@ == seq![REG_MODE, MODE_WAKE],
    {
        [[REG_RANGE, RANGE_8G_14BIT], [REG_MODE, MODE_WAKE]]
    }
}

impl Mc6470Mag {
    /// WHO_AM_I check: the magnetometer answers 0x49.
    pub fn identity_ok(id: u8) -> (b: bool)
        ensures
            b == (id == MAG_WHO_AM_I),
    {
        id == MAG_WHO_AM_I
    }

    /// A forced conversion has completed (STATUS.DRDY).
    pub fn data_ready(status: u8) -> (b: bool)
        ensures
            b == (status & MSTATUS_DRDY != 0),
    {
        status & MSTATUS_DRDY != 0
    }
}

} // verus!
