//! Backchannel console formatting: what the UART transmits for a string, a hex byte or an
//! integer, plus the receive-flag decoding the on-demand commands poll. Integer-only (no float).
use vstd::prelude::*;
use vstd::string::StringSliceAdditionalSpecFns;

verus! {

/// UCA0IFG receive flag.
pub const UCRXIFG: u16 = 0x0001;
/// UCA0IFG transmit flag.
pub const UCTXIFG: u16 = 0x0002;

/// The bytes sent for `s`: every line feed goes out as CR LF.
pub open spec fn crlf(s: Seq<u8>) -> Seq<u8>
    decreases s.len(),
{
    if s.len() == 0 {
        Seq::empty()
    } else {
        crlf(s.drop_last()) + (if s.last() == 10 { seq![13u8, 10u8] } else { seq![s.last()] })
    }
}

/// Upper-case hex digit of a nibble.
pub open spec fn hex_digit(n: int) -> u8 {
    if n < 10 { (48 + n) as u8 } else { (55 + n) as u8 }
}

/// Decimal digits of a positive number, most significant first (empty for 0).
pub open spec fn digits_pos(n: nat) -> Seq<u8>
    decreases n,
{
    if n == 0 {
        Seq::empty()
    } else {
        digits_pos(n / 10).push((48 + n % 10) as u8)
    }
}

/// Decimal representation without leading zeros ("0" for zero).
pub open spec fn decimal(n: nat) -> Seq<u8> {
    if n == 0 { seq![48u8] } else { digits_pos(n) }
}

/// Transmit `s`, sending each line feed as CR LF.
pub fn puts(s: &[u8]) -> (out: Vec<u8>)
    ensures
        out@ == crlf(s@),
{
    let mut out: Vec<u8> = Vec::new();
    let mut i: usize = 0;
    while i < s.len()
        invariant
            i <= s@.len(),
            out@ == crlf(s@.take(i as int)),
        decreases s@.len() - i,
    {
        assert(s@.take(i + 1).drop_last() =~= s@.take(i as int));
        if s[i] == 10 {
            out.push(13);
        }
        out.push(s[i]);
        i = i + 1;
    }
    assert(s@.take(i as int) =~= s@);
    out
}

/// Two upper-case hex digits of `v`.
pub fn hex8(v: u8) -> (out: Vec<u8>)
    ensures
        out@ == seq![hex_digit(v as int / 16), hex_digit(v as int % 16)],
{
    let hi = v >> 4;
    let lo = v & 0xF;
    assert(hi == v / 16 && lo == v % 16) by (bit_vector)
        requires hi == v >> 4, lo == v & 0xF;
    let mut out: Vec<u8> = Vec::new();
    out.push(if hi < 10 { 48 + hi } else { 55 + hi });
    out.push(if lo < 10 { 48 + lo } else { 55 + lo });
    out
}

/// Four upper-case hex digits of `v`, most significant first.
pub open spec fn hex16_text(v: u16) -> Seq<u8> {
    seq![
        hex_digit(v as int / 4096), hex_digit(v as int / 256 % 16),
        hex_digit(v as int / 16 % 16), hex_digit(v as int % 16)]
}

/// Four upper-case hex digits of `v`.
pub fn hex16(v: u16) -> (out: Vec<u8>)
    ensures
        out@ == hex16_text(v),
{
    let hi = (v >> 8) as u8;
    let lo = (v & 0xFF) as u8;
    assert(hi / 16 == v / 4096 && hi % 16 == v / 256 % 16 && lo / 16 == v / 16 % 16
        && lo % 16 == v % 16) by (bit_vector)
        requires hi == (v >> 8) as u8, lo == (v & 0xFF) as u8;
    let mut out = hex8(hi);
    let tail = hex8(lo);
    out.push(tail[0]);
    out.push(tail[1]);
    out
}

/// Decimal digits of `v` (no leading zeros; "0" for zero).
pub fn dec32(v: u32) -> (out: Vec<u8>)
    ensures
        out@ == decimal(v as nat),
{
    if v == 0 {
        let mut out: Vec<u8> = Vec::new();
        out.push(48);
        return out;
    }
    let mut rev: Vec<u8> = Vec::new();
    let mut n: u32 = v;
    while n > 0
        invariant
            digits_pos(v as nat) == digits_pos(n as nat) + rev@.reverse(),
        decreases n,
    {
        let d = (n % 10) as u8;
        proof {
            assert(digits_pos(n as nat) == digits_pos((n / 10) as nat).push((48 + n % 10) as u8));
            assert(rev@.push((48 + d) as u8).reverse() =~= seq![(48 + d) as u8] + rev@.reverse());
            assert(digits_pos((n / 10) as nat).push((48 + n % 10) as u8) + rev@.reverse()
                =~= digits_pos((n / 10) as nat) + (seq![(48 + d) as u8] + rev@.reverse()));
        }
        rev.push(48 + d);
        n = n / 10;
    }
    let mut out: Vec<u8> = Vec::new();
    let mut i: usize = rev.len();
    while i > 0
        invariant
            i <= rev@.len(),
            out@ == rev@.reverse().take(rev@.len() - i),
        decreases i,
    {
        i = i - 1;
        proof {
            assert(rev@.reverse().take(rev@.len() - i) =~= rev@.reverse().take(rev@.len() - i - 1).push(rev@[i as int]));
        }
        out.push(rev[i]);
    }
    assert(rev@.reverse().take(rev@.len() as int) =~= rev@.reverse());
    assert(digits_pos(0) =~= Seq::<u8>::empty());
    assert(out@ =~= digits_pos(v as nat));
    out
}

/// Decimal digits of a 16-bit value.
pub fn dec(v: u16) -> (out: Vec<u8>)
    ensures
        out@ == decimal(v as nat),
{
    dec32(v as u32)
}

/// Signed decimal: a minus sign, then the magnitude.
pub fn dec_i16(v: i16) -> (out: Vec<u8>)
    ensures
        out@ == (if v < 0 { seq![45u8] + decimal((-v) as nat) } else { decimal(v as nat) }),
{
    if v < 0 {
        let mut out: Vec<u8> = Vec::new();
        out.push(45);
        let m = -(v as i32);
        let mut d = dec(m as u16);
        out.append(&mut d);
        out
    } else {
        dec(v as u16)
    }
}

/// Signed hundredths as a fixed-point decimal, e.g. -1234 gives "-12.34". The integer part is
/// sent as a 16-bit value (truncated beyond 65535).
pub open spec fn fixed2_text(centi: i32) -> Seq<u8> {
    let m = if centi < 0 { -centi } else { centi as int };
    let sign = if centi < 0 { seq![45u8] } else { Seq::<u8>::empty() };
    let frac = m % 100;
    sign + decimal(((m / 100) % 65536) as nat) + seq![46u8, (48 + frac / 10) as u8, (48 + frac % 10) as u8]
}

/// Render [`fixed2_text`].
pub fn fixed2(centi: i32) -> (out: Vec<u8>)
    requires
        centi > i32::MIN,
    ensures
        out@ == fixed2_text(centi),
{
    let mut out: Vec<u8> = Vec::new();
    let mut v = centi;
    if v < 0 {
        out.push(45);
        v = -v;
    }
    let q = (v / 100) as u32;
    let whole = q as u16;
    assert(whole == q % 65536) by (bit_vector)
        requires whole == q as u16;
    let mut d = dec(whole);
    out.append(&mut d);
    out.push(46);
    let f = (v % 100) as u16;
    out.push(48 + (f / 10) as u8);
    out.push(48 + (f % 10) as u8);
    out
}

/// Append the bytes of `s`.
pub fn push_str(v: &mut Vec<u8>, s: &str)
    ensures
        final(v)@ == old(v)@ + s.spec_bytes(),
{
    let b = s.as_bytes();
    let mut i: usize = 0;
    while i < b.len()
        invariant
            i <= b@.len(),
            b@ == s.spec_bytes(),
            v@ == old(v)@ + b@.take(i as int),
        decreases b@.len() - i,
    {
        v.push(b[i]);
        i = i + 1;
        assert(v@ =~= old(v)@ + b@.take(i as int));
    }
    assert(b@.take(i as int) =~= b@);
}

/// Append the decimal digits of `n`.
pub fn push_dec(v: &mut Vec<u8>, n: u32)
    ensures
        final(v)@ == old(v)@ + decimal(n as nat),
{
    let mut d = dec32(n);
    v.append(&mut d);
}

/// A received byte is waiting (UCA0IFG receive flag).
pub fn rx_ready(ifg: u16) -> (b: bool)
    ensures
        b == (ifg & UCRXIFG != 0),
{
    ifg & UCRXIFG != 0
}

/// The received byte held in the receive-buffer word.
pub fn getc(rxbuf: u16) -> (c: u8)
    ensures
        c == rxbuf % 256,
{
    let c = rxbuf as u8;
    assert(c == rxbuf % 256) by (bit_vector)
        requires c == rxbuf as u8;
    c
}

} // verus!
