//! The sensors' read-out lines: what each known driver that answered reported,
//! one console line per device.
use vstd::prelude::*;
use crate::devices::isqrt::root;
use crate::devices::mc6470::{sum_sq, Accel, MagField, G_HI2, G_LO2};
use crate::devices::si7021::Reading;
use crate::devices::vl53l0x::{Attention, Ids};
use crate::uart::{dec, dec_i16, decimal, fixed2, fixed2_text, hex8, hex_digit, push_str};
use vstd::string::StringSliceAdditionalSpecFns;

verus! {

/// What a driver's measurement gave.
#[derive(Debug, Clone, Copy, PartialEq, Eq, Structural)]
pub enum Readout<T> {
    /// A value.
    Value(T),
    /// No sample within the driver's bounded poll.
    NotReady,
    /// The device answered with the wrong identity.
    WrongId,
    /// The bus failed.
    Failed,
}

/// The identity verdict.
pub open spec fn id_text(ok: bool) -> Seq<u8> {
    if ok { "id ok".spec_bytes() } else { "id FAIL".spec_bytes() }
}

/// A signed decimal.
pub open spec fn signed_text(v: i16) -> Seq<u8> {
    if v < 0 { seq![45u8] + decimal((-v) as nat) } else { decimal(v as nat) }
}

/// Two upper-case hex digits.
pub open spec fn hex8_text(v: u8) -> Seq<u8> {
    seq![hex_digit(v as int / 16), hex_digit(v as int % 16)]
}

/// The three axes of a sample, as `x=.. y=.. z=..`.
pub open spec fn axes_text(x: i16, y: i16, z: i16) -> Seq<u8> {
    "x=".spec_bytes() + signed_text(x) + " y=".spec_bytes() + signed_text(y) + " z=".spec_bytes()
        + signed_text(z)
}

/// The proximity sensor's line.
pub open spec fn apds_text(id_ok: bool, prox: Readout<u8>) -> Seq<u8> {
    "APDS-9960: ".spec_bytes() + id_text(id_ok) + match prox {
        Readout::Value(v) => "  prox=".spec_bytes() + decimal(v as nat),
        Readout::NotReady => "  prox=not-ready".spec_bytes(),
        _ => "  prox=err".spec_bytes(),
    } + "\n".spec_bytes()
}

/// The temperature/humidity sensor's line.
pub open spec fn si_text(id_ok: bool, r: Readout<Reading>) -> Seq<u8> {
    "Si7021: ".spec_bytes() + id_text(id_ok) + match r {
        Readout::Value(v) => "  T=".spec_bytes() + fixed2_text(v.temp_c_centi) + "C RH=".spec_bytes()
            + fixed2_text(v.rh_centi) + "% crc ".spec_bytes()
            + (if v.crc_ok { "OK".spec_bytes() } else { "BAD".spec_bytes() }),
        Readout::NotReady => "  read not-ready".spec_bytes(),
        _ => "  read err".spec_bytes(),
    } + "\n".spec_bytes()
}

/// An acceleration sample: its axes, |a| in milli-g (sent as a 16-bit value) and the gravity
/// verdict.
pub open spec fn accel_text(a: Accel) -> Seq<u8> {
    let s = sum_sq(a.x, a.y, a.z);
    axes_text(a.x, a.y, a.z) + " |a|=".spec_bytes() + decimal((root(s) * 1000 / 1024) as u16 as nat)
        + "mg ".spec_bytes() + (if G_LO2 < s < G_HI2 { "OK".spec_bytes() } else { "OUT-OF-RANGE".spec_bytes() })
}

/// The accelerometer's line.
pub open spec fn accel_line_text(r: Readout<Accel>) -> Seq<u8> {
    "MC6470: ".spec_bytes() + match r {
        Readout::Value(a) => accel_text(a),
        Readout::NotReady => "not ready (wake latency)".spec_bytes(),
        _ => "read err".spec_bytes(),
    } + "\n".spec_bytes()
}

/// The magnetometer's line.
pub open spec fn mag_text(id_ok: bool, r: Readout<MagField>) -> Seq<u8> {
    "MC6470 mag: ".spec_bytes() + id_text(id_ok) + match r {
        Readout::Value(m) => "  ".spec_bytes() + axes_text(m.x, m.y, m.z) + " |B|=".spec_bytes()
            + fixed2_text((root(sum_sq(m.x, m.y, m.z)) * 15) as i32) + "uT".spec_bytes(),
        Readout::NotReady => "  not ready".spec_bytes(),
        _ => "  read err".spec_bytes(),
    } + "\n".spec_bytes()
}

/// The ranging sensor's identity line.
pub open spec fn tof_text(r: Readout<Ids>) -> Seq<u8> {
    "VL53L0X: ".spec_bytes() + match r {
        Readout::Value(ids) => "id ok  model=".spec_bytes() + hex8_text(ids.model) + " rev=".spec_bytes()
            + hex8_text(ids.revision),
        Readout::WrongId => "id FAIL (wrong model)".spec_bytes(),
        _ => "read err".spec_bytes(),
    } + "\n".spec_bytes()
}

/// The word for a range trend.
pub open spec fn trend_text(t: Attention) -> Seq<u8> {
    match t {
        Attention::NoTarget => "-".spec_bytes(),
        Attention::Approaching => "APPROACHING".spec_bytes(),
        Attention::Receding => "receding".spec_bytes(),
        Attention::Stationary => "stationary".spec_bytes(),
    }
}

/// One line of the range burst: the range and its trend (`NEAR` inside the near threshold), or
/// the read failure.
pub open spec fn range_text(r: Option<(u16, Attention, bool)>) -> Seq<u8> {
    match r {
        Some((mm, t, near)) => "  ".spec_bytes() + decimal(mm as nat) + "mm ".spec_bytes() + trend_text(t)
            + (if near { " NEAR".spec_bytes() } else { Seq::empty() }) + "\n".spec_bytes(),
        None => "  read err\n".spec_bytes(),
    }
}

fn push_id(out: &mut Vec<u8>, ok: bool)
    ensures
        final(out)@ == old(out)@ + id_text(ok),
{
    if ok {
        push_str(out, "id ok");
    } else {
        push_str(out, "id FAIL");
    }
}

fn push_axes(out: &mut Vec<u8>, x: i16, y: i16, z: i16)
    ensures
        final(out)@ == old(out)@ + axes_text(x, y, z),
{
    let ghost start = out@;
    push_str(out, "x=");
    let mut d = dec_i16(x);
    out.append(&mut d);
    push_str(out, " y=");
    let mut d = dec_i16(y);
    out.append(&mut d);
    push_str(out, " z=");
    let mut d = dec_i16(z);
    out.append(&mut d);
    assert(out@ =~= start + axes_text(x, y, z));
}

/// Render [`apds_text`].
pub fn apds_line(id_ok: bool, prox: Readout<u8>) -> (out: Vec<u8>)
    ensures
        out@ == apds_text(id_ok, prox),
{
    let mut out: Vec<u8> = Vec::new();
    push_str(&mut out, "APDS-9960: ");
    push_id(&mut out, id_ok);
    let ghost head = out@;
    match prox {
        Readout::Value(v) => {
            push_str(&mut out, "  prox=");
            let mut d = dec(v as u16);
            out.append(&mut d);
        },
        Readout::NotReady => push_str(&mut out, "  prox=not-ready"),
        _ => push_str(&mut out, "  prox=err"),
    }
    push_str(&mut out, "\n");
    assert(out@ =~= apds_text(id_ok, prox));
    out
}

/// Render [`si_text`].
pub fn si_line(id_ok: bool, r: Readout<Reading>) -> (out: Vec<u8>)
    requires
        r matches Readout::Value(v) ==> v.temp_c_centi > i32::MIN && v.rh_centi > i32::MIN,
    ensures
        out@ == si_text(id_ok, r),
{
    let mut out: Vec<u8> = Vec::new();
    push_str(&mut out, "Si7021: ");
    push_id(&mut out, id_ok);
    match r {
        Readout::Value(v) => {
            push_str(&mut out, "  T=");
            let mut d = fixed2(v.temp_c_centi);
            out.append(&mut d);
            push_str(&mut out, "C RH=");
            let mut d = fixed2(v.rh_centi);
            out.append(&mut d);
            push_str(&mut out, "% crc ");
            if v.crc_ok {
                push_str(&mut out, "OK");
            } else {
                push_str(&mut out, "BAD");
            }
        },
        Readout::NotReady => push_str(&mut out, "  read not-ready"),
        _ => push_str(&mut out, "  read err"),
    }
    push_str(&mut out, "\n");
    assert(out@ =~= si_text(id_ok, r));
    out
}

/// Render [`accel_text`].
pub fn accel_reading(a: &Accel) -> (out: Vec<u8>)
    requires
        sum_sq(a.x, a.y, a.z) <= i32::MAX,
    ensures
        out@ == accel_text(*a),
{
    let mut out: Vec<u8> = Vec::new();
    push_axes(&mut out, a.x, a.y, a.z);
    push_str(&mut out, " |a|=");
    let mg = a.magnitude_mg();
    let mut d = dec(mg as u16);
    out.append(&mut d);
    push_str(&mut out, "mg ");
    if a.is_gravity() {
        push_str(&mut out, "OK");
    } else {
        push_str(&mut out, "OUT-OF-RANGE");
    }
    assert(out@ =~= accel_text(*a));
    out
}

/// Render [`accel_line_text`].
pub fn accel_line(r: Readout<Accel>) -> (out: Vec<u8>)
    requires
        r matches Readout::Value(a) ==> sum_sq(a.x, a.y, a.z) <= i32::MAX,
    ensures
        out@ == accel_line_text(r),
{
    let mut out: Vec<u8> = Vec::new();
    push_str(&mut out, "MC6470: ");
    match r {
        Readout::Value(a) => {
            let mut d = accel_reading(&a);
            out.append(&mut d);
        },
        Readout::NotReady => push_str(&mut out, "not ready (wake latency)"),
        _ => push_str(&mut out, "read err"),
    }
    push_str(&mut out, "\n");
    assert(out@ =~= accel_line_text(r));
    out
}

/// Render [`mag_text`].
pub fn mag_line(id_ok: bool, r: Readout<MagField>) -> (out: Vec<u8>)
    requires
        r matches Readout::Value(m) ==> sum_sq(m.x, m.y, m.z) <= i32::MAX,
    ensures
        out@ == mag_text(id_ok, r),
{
    let mut out: Vec<u8> = Vec::new();
    push_str(&mut out, "MC6470 mag: ");
    push_id(&mut out, id_ok);
    match r {
        Readout::Value(m) => {
            push_str(&mut out, "  ");
            push_axes(&mut out, m.x, m.y, m.z);
            push_str(&mut out, " |B|=");
            let c = m.magnitude_centi_ut();
            let mut d = fixed2(c);
            out.append(&mut d);
            push_str(&mut out, "uT");
        },
        Readout::NotReady => push_str(&mut out, "  not ready"),
        _ => push_str(&mut out, "  read err"),
    }
    push_str(&mut out, "\n");
    assert(out@ =~= mag_text(id_ok, r));
    out
}

/// Render [`tof_text`].
pub fn tof_line(r: Readout<Ids>) -> (out: Vec<u8>)
    ensures
        out@ == tof_text(r),
{
    let mut out: Vec<u8> = Vec::new();
    push_str(&mut out, "VL53L0X: ");
    match r {
        Readout::Value(ids) => {
            push_str(&mut out, "id ok  model=");
            let mut d = hex8(ids.model);
            out.append(&mut d);
            push_str(&mut out, " rev=");
            let mut d = hex8(ids.revision);
            out.append(&mut d);
        },
        Readout::WrongId => push_str(&mut out, "id FAIL (wrong model)"),
        _ => push_str(&mut out, "read err"),
    }
    push_str(&mut out, "\n");
    assert(out@ =~= tof_text(r));
    out
}

/// Render [`range_text`].
pub fn range_line(r: Option<(u16, Attention, bool)>) -> (out: Vec<u8>)
    ensures
        out@ == range_text(r),
{
    let mut out: Vec<u8> = Vec::new();
    match r {
        Some((mm, t, near)) => {
            push_str(&mut out, "  ");
            let mut d = dec(mm);
            out.append(&mut d);
            push_str(&mut out, "mm ");
            match t {
                Attention::NoTarget => push_str(&mut out, "-"),
                Attention::Approaching => push_str(&mut out, "APPROACHING"),
                Attention::Receding => push_str(&mut out, "receding"),
                Attention::Stationary => push_str(&mut out, "stationary"),
            }
            if near {
                push_str(&mut out, " NEAR");
            }
            push_str(&mut out, "\n");
        },
        None => push_str(&mut out, "  read err\n"),
    }
    assert(out@ =~= range_text(r));
    out
}

/// Each range line names its trend with its own word: `APPROACHING` for an approach,
/// `receding` for a recession, `stationary` for a target holding still and `-` without a target,
/// after the range in mm and before ` NEAR` when the target is near; a failed read is reported
/// as such.
pub proof fn range_lines_name_the_trend(mm: u16, near: bool)
    ensures
        range_text(Some((mm, Attention::Approaching, near))) == "  ".spec_bytes() + decimal(mm as nat)
            + "mm ".spec_bytes() + "APPROACHING".spec_bytes()
            + (if near { " NEAR".spec_bytes() } else { Seq::empty() }) + "\n".spec_bytes(),
        range_text(Some((mm, Attention::Receding, near))) == "  ".spec_bytes() + decimal(mm as nat)
            + "mm ".spec_bytes() + "receding".spec_bytes()
            + (if near { " NEAR".spec_bytes() } else { Seq::empty() }) + "\n".spec_bytes(),
        range_text(Some((mm, Attention::Stationary, near))) == "  ".spec_bytes() + decimal(mm as nat)
            + "mm ".spec_bytes() + "stationary".spec_bytes()
            + (if near { " NEAR".spec_bytes() } else { Seq::empty() }) + "\n".spec_bytes(),
        range_text(Some((mm, Attention::NoTarget, near))) == "  ".spec_bytes() + decimal(mm as nat)
            + "mm ".spec_bytes() + "-".spec_bytes()
            + (if near { " NEAR".spec_bytes() } else { Seq::empty() }) + "\n".spec_bytes(),
        range_text(None) == "  read err\n".spec_bytes(),
{
}

} // verus!
