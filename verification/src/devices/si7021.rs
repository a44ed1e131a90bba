//! Si7021 / HTU21D / SHT21 temperature + relative-humidity sensor (I²C 0x40): the CRC-8 that
//! guards each measurement word and the integer conversion to hundredths of a °C and of a %RH.
use vstd::prelude::*;

verus! {

/// I²C address shared by the family.
pub const ADDR: u8 = 0x40;
/// Measure RH, no-hold (NACKs reads until done).
pub const CMD_MEASURE_RH_NOHOLD: u8 = 0xF5;
/// Measure T, no-hold.
pub const CMD_MEASURE_TEMP_NOHOLD: u8 = 0xF3;
/// Firmware revision command.
pub const CMD_READ_FW_REV: [u8; 2] = [0x84, 0xB8];
/// Electronic ID, second access (first byte returned is the part number).
pub const CMD_READ_ID2: [u8; 2] = [0xFC, 0xC9];
/// Part-number byte of a genuine Si7021.
pub const PART_SI7021: u8 = 0x15;
/// Bounded no-hold poll.
pub const POLL_TRIES: u16 = 256;

/// One MSB-first CRC step of polynomial x⁸+x⁵+x⁴+1.
pub open spec fn crc_bit(c: u8) -> u8 {
    if c & 0x80 != 0 { ((c << 1u8) ^ 0x31u8) as u8 } else { (c << 1u8) as u8 }
}

/// `n` CRC steps.
pub open spec fn crc_bits(c: u8, n: nat) -> u8
    decreases n,
{
    if n == 0 { c } else { crc_bits(crc_bit(c), (n - 1) as nat) }
}

/// CRC-8 (poly 0x131, init 0, MSB first) of `data`.
pub open spec fn crc8_spec(data: Seq<u8>) -> u8
    decreases data.len(),
{
    if data.len() == 0 {
        0
    } else {
        crc_bits(crc8_spec(data.drop_last()) ^ data.last(), 8)
    }
}

/// A word followed by its own checksum checks to zero: appending `crc8_spec(data)` to `data`
/// gives CRC 0, which is how a receiver can validate a word and its CRC in one pass.
pub proof fn crc_of_word_and_checksum_is_zero(data: Seq<u8>)
    ensures
        crc8_spec(data.push(crc8_spec(data))) == 0,
{
    let c = crc8_spec(data);
    assert(data.push(c).drop_last() =~= data);
    assert(c ^ c == 0u8) by (bit_vector);
    lemma_crc_bits_of_zero(8);
}

/// The converse: a word followed by a byte checks to zero only when that byte is the word's
/// checksum, so a zero remainder over the three bytes holds exactly when the checksum matches.
pub proof fn zero_remainder_means_the_checksum_matches(data: Seq<u8>, c: u8)
    ensures
        crc8_spec(data.push(c)) == 0 <==> c == crc8_spec(data),
{
    let d = crc8_spec(data);
    assert(data.push(c).drop_last() =~= data);
    crc_of_word_and_checksum_is_zero(data);
    if crc8_spec(data.push(c)) == 0 {
        lemma_crc_bits_zero_only_from_zero(d ^ c, 8);
        assert((d ^ c) == 0u8 ==> c == d) by (bit_vector);
    }
}

proof fn lemma_crc_bits_zero_only_from_zero(x: u8, n: nat)
    requires
        crc_bits(x, n) == 0u8,
    ensures
        x == 0u8,
    decreases n,
{
    if n > 0 {
        lemma_crc_bits_zero_only_from_zero(crc_bit(x), (n - 1) as nat);
        assert(crc_bit(x) == 0u8 ==> x == 0u8) by (bit_vector);
    }
}

proof fn lemma_crc_bits_of_zero(n: nat)
    ensures
        crc_bits(0u8, n) == 0u8,
    decreases n,
{
    assert(crc_bit(0u8) == 0u8) by (bit_vector);
    if n > 0 {
        lemma_crc_bits_of_zero((n - 1) as nat);
    }
}

/// CRC-8 of the measurement data bytes.
pub fn crc8(data: &[u8]) -> (crc: u8)
    ensures
        crc == crc8_spec(data@),
{
    let mut crc: u8 = 0;
    let mut i: usize = 0;
    while i < data.len()
        invariant
            i <= data@.len(),
            crc == crc8_spec(data@.take(i as int)),
        decreases data@.len() - i,
    {
        assert(data@.take(i + 1).drop_last() =~= data@.take(i as int));
        crc = crc ^ data[i];
        let ghost start = crc;
        let mut k: u8 = 0;
        while k < 8
            invariant
                k <= 8,
                crc_bits(start, 8) == crc_bits(crc, (8 - k) as nat),
            decreases 8 - k,
        {
            crc = if crc & 0x80 != 0 { (crc << 1) ^ 0x31 } else { crc << 1 };
            k = k + 1;
        }
        i = i + 1;
    }
    assert(data@.take(i as int) =~= data@);
    crc
}

/// The 14-bit measurement code of a data word: the two status bits masked off.
pub open spec fn code_of(b0: u8, b1: u8) -> int {
    b0 as int * 256 + b1 as int - b1 as int % 4
}

/// The measurement code of a data word is the word `b0 * 256 + b1` with its two low status bits
/// cleared: a multiple of four, at most three below the word.
pub proof fn code_clears_the_status_bits(b0: u8, b1: u8)
    ensures
        code_of(b0, b1) % 4 == 0,
        b0 as int * 256 + b1 as int - 3 <= code_of(b0, b1) <= b0 as int * 256 + b1 as int,
        b1 % 4 == 0 ==> code_of(b0, b1) == b0 as int * 256 + b1 as int,
{
}

/// Relative humidity in centi-%RH, clamped to 0..=10000.
pub open spec fn rh_centi_of(code: int) -> int {
    let v = 12500 * code / 65536 - 600;
    if v < 0 { 0 } else if v > 10000 { 10000 } else { v }
}

/// Temperature in centi-°C.
pub open spec fn temp_centi_of(code: int) -> int {
    17572 * code / 65536 - 4685
}

/// The temperature conversion is the datasheet's line `T = 175.72 * code / 65536 - 46.85` (°C)
/// rounded down to hundredths, with no clamping, over every measurement code: the result `t`
/// is the one integer with `65536 * (t + 4685) <= 17572 * code < 65536 * (t + 4686)`. So the
/// temperature never decreases as the code grows, it is negative exactly for codes below 17474,
/// and code 0 gives -46.85 °C.
pub proof fn temperature_follows_the_datasheet_line(code: int)
    requires
        0 <= code <= 65535,
    ensures
        65536 * (temp_centi_of(code) + 4685) <= 17572 * code,
        17572 * code < 65536 * (temp_centi_of(code) + 4686),
        temp_centi_of(code) < 0 <==> code < 17474,
        temp_centi_of(0) == -4685,
        code < 65535 ==> temp_centi_of(code) <= temp_centi_of(code + 1) <= temp_centi_of(code) + 1,
{
    let t = 17572 * code / 65536;
    assert(65536 * t <= 17572 * code < 65536 * t + 65536) by (nonlinear_arith)
        requires t == 17572 * code / 65536, code >= 0;
    if code < 65535 {
        let t1 = 17572 * (code + 1) / 65536;
        assert(65536 * t1 <= 17572 * (code + 1) < 65536 * t1 + 65536) by (nonlinear_arith)
            requires t1 == 17572 * (code + 1) / 65536, code >= 0;
        assert(t <= t1 <= t + 1) by (nonlinear_arith)
            requires
                65536 * t <= 17572 * code < 65536 * t + 65536,
                65536 * t1 <= 17572 * (code + 1) < 65536 * t1 + 65536;
    }
    if t < 4685 {
        assert(17572 * code < 307036160);
        assert(code < 17474) by (nonlinear_arith)
            requires 17572 * code < 307036160;
    }
    if code < 17474 {
        assert(17572 * code <= 307035556) by (nonlinear_arith)
            requires code <= 17473;
        assert(t < 4685);
    }
}

/// The humidity conversion is the datasheet's line `RH = 125 * code / 65536 - 6` (%) rounded down
/// to hundredths and clamped to 0..=100 %: inside the range the result `h` is the one integer
/// with `65536 * (h + 600) <= 12500 * code < 65536 * (h + 601)`, 0 stands for every code whose
/// line lies below 0.01 %, and 100 % for every code whose line reaches 100 %.
pub proof fn humidity_follows_the_datasheet_line(code: int)
    requires
        0 <= code <= 65535,
    ensures
        0 <= rh_centi_of(code) <= 10000,
        0 < rh_centi_of(code) < 10000 ==> 65536 * (rh_centi_of(code) + 600) <= 12500 * code
            && 12500 * code < 65536 * (rh_centi_of(code) + 601),
        rh_centi_of(code) == 0 <==> 12500 * code < 65536 * 601,
        rh_centi_of(code) == 10000 <==> 12500 * code >= 65536 * 10600,
{
    let v = 12500 * code / 65536;
    assert(65536 * v <= 12500 * code < 65536 * v + 65536) by (nonlinear_arith)
        requires v == 12500 * code / 65536, code >= 0;
}

/// A full sample: hundredths, plus whether both data words passed their CRC.
#[derive(Debug, Clone, Copy)]
pub struct Reading {
    /// Hundredths of a °C.
    pub temp_c_centi: i32,
    /// Hundredths of a %RH, clamped 0..=10000.
    pub rh_centi: i32,
    /// Both CRC-8 checks passed.
    pub crc_ok: bool,
}

fn word_code(b0: u8, b1: u8) -> (c: u32)
    ensures
        c as int == code_of(b0, b1),
        c <= 65532,
{
    let w = (((b0 as u16) << 8) | b1 as u16) & 0xFFFC;
    assert(w == b0 as int * 256 + b1 as int - b1 as int % 4) by (bit_vector)
        requires w == (((b0 as u16) << 8u16) | b1 as u16) & 0xFFFCu16;
    w as u32
}

impl Reading {
    /// Convert the two measurement transfers (RH word + CRC, then T word + CRC).
    pub fn from_raw(rh: [u8; 3], t: [u8; 3]) -> (r: Reading)
        ensures
            r.rh_centi as int == rh_centi_of(code_of(rh@[0], rh@[1])),
            r.temp_c_centi as int == temp_centi_of(code_of(t@[0], t@[1])),
            r.crc_ok == (crc8_spec(rh@.take(2)) == rh@[2] && crc8_spec(t@.take(2)) == t@[2]),
    {
        let rh_pair = [rh[0], rh[1]];
        let rh_crc_ok = crc8(&rh_pair) == rh[2];
        assert(rh_pair@ =~= rh@.take(2));
        let rh_code = word_code(rh[0], rh[1]);
        let v = (12500 * rh_code / 65536) as i32 - 600;
        let rh_centi = if v < 0 { 0 } else if v > 10000 { 10000 } else { v };

        let t_pair = [t[0], t[1]];
        let t_crc_ok = crc8(&t_pair) == t[2];
        assert(t_pair@ =~= t@.take(2));
        let t_code = word_code(t[0], t[1]);
        let temp_c_centi = (17572 * t_code / 65536) as i32 - 4685;
        Reading { temp_c_centi, rh_centi, crc_ok: rh_crc_ok && t_crc_ok }
    }
}

/// Marker for the Si7021 family.
pub struct Si7021;

} // verus!
