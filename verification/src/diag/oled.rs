//! The POST verdict on the status display: what the two lines say, and how far a render got.
use vstd::prelude::*;
use vstd::string::StringSliceAdditionalSpecFns;
use crate::uart::push_str;

verus! {

/// How far a render got: `init` and `flush` are the two bus touch-points (drawing goes to a RAM
/// buffer and cannot fail).
#[derive(Debug, Clone, Copy, PartialEq, Eq, Structural)]
pub enum Status {
    Rendered,
    InitFail,
    FlushFail,
}

/// One decimal digit of a count, clamped at 9 (counts are single-digit on any real board).
pub open spec fn clamped_digit(n: u16) -> u8 {
    (48 + (if n < 9 { n as int } else { 9 })) as u8
}

/// First line: `found N/M`.
pub open spec fn found_text(present: u16, total: u16) -> Seq<u8> {
    "found ".spec_bytes() + seq![clamped_digit(present), 47u8, clamped_digit(total)]
}

/// The first line of the verdict screen.
pub fn found_line(present: u16, total: u16) -> (out: Vec<u8>)
    ensures
        out@ == found_text(present, total),
{
    let p: u8 = if present < 9 { present as u8 } else { 9 };
    let t: u8 = if total < 9 { total as u8 } else { 9 };
    let mut out: Vec<u8> = Vec::new();
    push_str(&mut out, "found ");
    out.push(48 + p);
    out.push(47);
    out.push(48 + t);
    out
}

/// Second line: the verdict.
pub fn verdict_line(ok: bool) -> (s: &'static str)
    ensures
        s@ == (if ok { "OK"@ } else { "FAULT"@ }),
{
    if ok { "OK" } else { "FAULT" }
}

} // verus!
