//! Decoding of the boot register dump: the reset-cause vector, the chip named by its TLV Device
//! ID, the function select of a pin and the clock system's FLL lock.
use vstd::prelude::*;
use vstd::string::StringSliceAdditionalSpecFns;
use crate::uart::{decimal, dec, hex8, hex16, hex16_text, hex_digit, push_str};

verus! {

/// CSCTL7 FLL-unlock bits.
pub const FLLUNLOCK: u16 = 0x0300;

/// The text of a SYSRSTIV reset-cause value.
pub open spec fn reset_cause_text(v: u16) -> Seq<char> {
    if v == 0x00 { "none"@ }
    else if v == 0x02 { "SVS low-power entry"@ }
    else if v == 0x04 { "FRAM uncorrectable bit error"@ }
    else if v == 0x0A { "security violation"@ }
    else if v == 0x0E { "SVSH brown-out"@ }
    else if v == 0x14 { "software POR"@ }
    else if v == 0x16 { "WDT timeout"@ }
    else if v == 0x18 { "WDT password violation"@ }
    else if v == 0x20 { "PMM password violation"@ }
    else if v == 0x24 { "FLL unlock"@ }
    else { "reserved/other"@ }
}

/// Decode SYSRSTIV (reset-cause vector) to text.
pub fn reset_cause(v: u16) -> (s: &'static str)
    ensures
        s@ == reset_cause_text(v),
{
    if v == 0x00 { "none" }
    else if v == 0x02 { "SVS low-power entry" }
    else if v == 0x04 { "FRAM uncorrectable bit error" }
    else if v == 0x0A { "security violation" }
    else if v == 0x0E { "SVSH brown-out" }
    else if v == 0x14 { "software POR" }
    else if v == 0x16 { "WDT timeout" }
    else if v == 0x18 { "WDT password violation" }
    else if v == 0x20 { "PMM password violation" }
    else if v == 0x24 { "FLL unlock" }
    else { "reserved/other" }
}

/// Map a TLV Device ID to a chip name, or `None` if unrecognised.
pub fn chip_name(id: u16) -> (n: Option<&'static str>)
    ensures
        id == 0x832A ==> n is Some && n->0@ == "MSP430FR2476"@ && n == Some("MSP430FR2476"),
        id == 0x832B ==> n is Some && n->0@ == "MSP430FR2475"@ && n == Some("MSP430FR2475"),
        id != 0x832A && id != 0x832B ==> n is None,
{
    if id == 0x832A {
        Some("MSP430FR2476")
    } else if id == 0x832B {
        Some("MSP430FR2475")
    } else {
        None
    }
}

/// The 2-bit function select (PxSEL1:PxSEL0) of the pin with mask `bit`: 1 = primary module.
pub fn pin_code(sel1: u16, sel0: u16, bit: u16) -> (code: u8)
    ensures
        code == (if sel1 & bit != 0 { 2u8 } else { 0u8 }) + (if sel0 & bit != 0 { 1u8 } else { 0u8 }),
{
    (if sel1 & bit != 0 { 2u8 } else { 0u8 }) + (if sel0 & bit != 0 { 1u8 } else { 0u8 })
}

/// The FLL is locked: no unlock bit set in CSCTL7.
pub fn fll_locked(csctl7: u16) -> (b: bool)
    ensures
        b == (csctl7 & FLLUNLOCK == 0),
{
    csctl7 & FLLUNLOCK == 0
}

/// The live supply and die-temperature readout: `Vcc=` volts with two decimals (the hundredths
/// zero-padded), then `temp=` whole degrees with a sign when negative.
pub open spec fn vcc_temp_text(mv: u16, t: i16) -> Seq<u8> {
    let cv = (mv % 1000) / 10;
    "Vcc=".spec_bytes() + decimal((mv / 1000) as nat) + seq![46u8]
        + (if cv < 10 { seq![48u8] } else { Seq::empty() }) + decimal(cv as nat)
        + "V  temp=".spec_bytes()
        + (if t < 0 { seq![45u8] + decimal((-t) as nat) } else { decimal(t as nat) })
        + "C".spec_bytes()
}

/// Render the supply rail `mv` (millivolts) and die temperature `t` (°C).
pub fn vcc_temp(mv: u16, t: i16) -> (out: Vec<u8>)
    ensures
        out@ == vcc_temp_text(mv, t),
{
    let mut out: Vec<u8> = Vec::new();
    push_str(&mut out, "Vcc=");
    let mut d = dec(mv / 1000);
    out.append(&mut d);
    out.push(46);
    let cv = (mv % 1000) / 10;
    if cv < 10 {
        out.push(48);
    }
    let mut d = dec(cv);
    out.append(&mut d);
    push_str(&mut out, "V  temp=");
    if t < 0 {
        out.push(45);
        let m = -(t as i32);
        let mut d = dec(m as u16);
        out.append(&mut d);
    } else {
        let mut d = dec(t as u16);
        out.append(&mut d);
    }
    push_str(&mut out, "C");
    out
}

/// A raw register line: `NAME=XXXX`.
pub open spec fn row_text(name: Seq<u8>, val: u16) -> Seq<u8> {
    name + seq![61u8] + hex16_text(val) + seq![10u8]
}

/// Render one raw 16-bit register.
pub fn row(name: &str, val: u16) -> (out: Vec<u8>)
    ensures
        out@ == row_text(name.spec_bytes(), val),
{
    let mut out: Vec<u8> = Vec::new();
    push_str(&mut out, name);
    out.push(61);
    let mut h = hex16(val);
    out.append(&mut h);
    out.push(10);
    out
}

/// One decoded pin line: the function-select pair as two digits, whether that is the primary
/// module function, the direction, and the expected setting.
pub open spec fn pin_text(name: Seq<u8>, sel1: u16, sel0: u16, dir: u16, bit: u16, want: Seq<u8>) -> Seq<u8> {
    let code = (if sel1 & bit != 0 { 2int } else { 0int }) + (if sel0 & bit != 0 { 1int } else { 0int });
    "  ".spec_bytes() + name + " sel=".spec_bytes() + seq![(48 + code / 2) as u8, (48 + code % 2) as u8]
        + (if code == 1 { " module".spec_bytes() } else { " GPIO/alt".spec_bytes() })
        + " dir=".spec_bytes() + seq![if dir & bit != 0 { 79u8 } else { 73u8 }]
        + "  want=".spec_bytes() + want + seq![10u8]
}

/// Render the decoded line of pin `name` (mask `bit`) from its port's select and direction
/// registers.
pub fn pin(name: &str, sel1: u16, sel0: u16, dir: u16, bit: u16, want: &str) -> (out: Vec<u8>)
    ensures
        out@ == pin_text(name.spec_bytes(), sel1, sel0, dir, bit, want.spec_bytes()),
{
    let code = pin_code(sel1, sel0, bit);
    let mut out: Vec<u8> = Vec::new();
    push_str(&mut out, "  ");
    push_str(&mut out, name);
    push_str(&mut out, " sel=");
    out.push(48 + code / 2);
    out.push(48 + code % 2);
    if code == 1 {
        push_str(&mut out, " module");
    } else {
        push_str(&mut out, " GPIO/alt");
    }
    push_str(&mut out, " dir=");
    out.push(if dir & bit != 0 { 79 } else { 73 });
    push_str(&mut out, "  want=");
    push_str(&mut out, want);
    out.push(10);
    out
}

/// The boot `[board]` block: chip name (or "unrecognized") and Device ID, hardware and firmware
/// revisions, the die serial (lot word, high half first), then the live supply/temperature line.
pub open spec fn stats_text(id: u16, hw_rev: u8, fw_rev: u8, lot: u32, mv: u16, t: i16) -> Seq<u8> {
    "\n[board]\n chip: ".spec_bytes()
        + (if id == 0x832A { "MSP430FR2476".spec_bytes() } else if id == 0x832B {
            "MSP430FR2475".spec_bytes() } else { "MSP430 (unrecognized)".spec_bytes() })
        + " id=".spec_bytes() + hex16_text(id)
        + "\n hw rev=".spec_bytes() + seq![hex_digit(hw_rev as int / 16), hex_digit(hw_rev as int % 16)]
        + " fw rev=".spec_bytes() + seq![hex_digit(fw_rev as int / 16), hex_digit(fw_rev as int % 16)]
        + "\n die id=".spec_bytes() + hex16_text((lot / 0x1_0000) as u16) + hex16_text((lot % 0x1_0000) as u16)
        + "\n ".spec_bytes() + vcc_temp_text(mv, t) + seq![10u8]
}

/// Render the `[board]` block from the TLV words and the live ADC readings.
pub fn stats(id: u16, hw_rev: u8, fw_rev: u8, lot: u32, mv: u16, t: i16) -> (out: Vec<u8>)
    ensures
        out@ == stats_text(id, hw_rev, fw_rev, lot, mv, t),
{
    let mut out: Vec<u8> = Vec::new();
    push_str(&mut out, "\n[board]\n chip: ");
    match chip_name(id) {
        Some(n) => push_str(&mut out, n),
        None => push_str(&mut out, "MSP430 (unrecognized)"),
    }
    push_str(&mut out, " id=");
    let mut h = hex16(id);
    out.append(&mut h);
    push_str(&mut out, "\n hw rev=");
    let mut h = hex8(hw_rev);
    out.append(&mut h);
    push_str(&mut out, " fw rev=");
    let mut h = hex8(fw_rev);
    out.append(&mut h);
    push_str(&mut out, "\n die id=");
    let hi = (lot >> 16) as u16;
    let lo = lot as u16;
    assert(hi == (lot / 0x1_0000) as u16 && lo == (lot % 0x1_0000) as u16) by (bit_vector)
        requires hi == (lot >> 16) as u16, lo == lot as u16;
    let mut h = hex16(hi);
    out.append(&mut h);
    let mut h = hex16(lo);
    out.append(&mut h);
    push_str(&mut out, "\n ");
    let mut v = vcc_temp(mv, t);
    out.append(&mut v);
    out.push(10);
    out
}

} // verus!
