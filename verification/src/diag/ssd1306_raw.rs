//! The diagnostic build's raw 128×32 SSD1306 text layer: its glyph set (the shared font plus a
//! few menu symbols), text and number layout clipped at the right edge, and the frames that fill
//! or blank the panel.
use vstd::prelude::*;
use crate::devices::font::{digit_cols, digit_glyph, letter_cols, letter_glyph};
use crate::devices::ssd1306::{cells_fitting, fit_cells, DATA};
use crate::uart::{dec32, decimal};

verus! {

/// I²C address of the panel.
pub const ADDR: u8 = 0x3C;
/// The last column where a glyph cell may start.
pub const LAST_CELL: u8 = 121;

/// The diagnostic glyph set: digits, letters (lowercase folded), `% ( ) - . / : > =`, blank
/// otherwise.
pub open spec fn raw_glyph_cols(c: u8) -> Seq<u8> {
    if 48 <= c <= 57 { digit_cols(c - 48) }
    else if 65 <= c <= 90 { letter_cols(c - 65) }
    else if 97 <= c <= 122 { letter_cols(c - 97) }
    else if c == 37 { seq![0x23u8, 0x13u8, 0x08u8, 0x64u8, 0x62u8] }
    else if c == 40 { seq![0x00u8, 0x1Cu8, 0x22u8, 0x41u8, 0x00u8] }
    else if c == 41 { seq![0x00u8, 0x41u8, 0x22u8, 0x1Cu8, 0x00u8] }
    else if c == 45 { seq![0x08u8, 0x08u8, 0x08u8, 0x08u8, 0x08u8] }
    else if c == 46 { seq![0x00u8, 0x60u8, 0x60u8, 0x00u8, 0x00u8] }
    else if c == 47 { seq![0x20u8, 0x10u8, 0x08u8, 0x04u8, 0x02u8] }
    else if c == 58 { seq![0x00u8, 0x36u8, 0x36u8, 0x00u8, 0x00u8] }
    else if c == 62 { seq![0x00u8, 0x41u8, 0x22u8, 0x14u8, 0x08u8] }
    else if c == 61 { seq![0x14u8, 0x14u8, 0x14u8, 0x14u8, 0x14u8] }
    else { seq![0u8, 0u8, 0u8, 0u8, 0u8] }
}

/// The 5-column glyph of `c`.
pub fn glyph(c: u8) -> (g: [u8; 5])
    ensures
        g@ == raw_glyph_cols(c),
{
    if 48u8 <= c && c <= 57u8 {
        digit_glyph(c - 48)
    } else if 65u8 <= c && c <= 90u8 {
        letter_glyph(c - 65)
    } else if 97u8 <= c && c <= 122u8 {
        letter_glyph(c - 97)
    } else {
        let g: [u8; 5] = if c == 37u8 {
            [0x23, 0x13, 0x08, 0x64, 0x62]
        } else if c == 40u8 {
            [0x00, 0x1C, 0x22, 0x41, 0x00]
        } else if c == 41u8 {
            [0x00, 0x41, 0x22, 0x1C, 0x00]
        } else if c == 45u8 {
            [0x08, 0x08, 0x08, 0x08, 0x08]
        } else if c == 46u8 {
            [0x00, 0x60, 0x60, 0x00, 0x00]
        } else if c == 47u8 {
            [0x20, 0x10, 0x08, 0x04, 0x02]
        } else if c == 58u8 {
            [0x00, 0x36, 0x36, 0x00, 0x00]
        } else if c == 62u8 {
            [0x00, 0x41, 0x22, 0x14, 0x08]
        } else if c == 61u8 {
            [0x14, 0x14, 0x14, 0x14, 0x14]
        } else {
            [0x00, 0x00, 0x00, 0x00, 0x00]
        };
        assert(g@ =~= raw_glyph_cols(c));
        g
    }
}

/// Where `n` characters of text starting at `col` go: how many fit before the right edge and
/// the next free column.
pub fn text(col: u8, n: usize) -> (r: (usize, u8))
    ensures
        r.0 == cells_fitting(col as int, LAST_CELL as int, n as nat),
        r.1 as int == col as int + 6 * r.0,
{
    fit_cells(col, LAST_CELL, n)
}

/// The decimal digits of `v` (no leading zeros) to draw from `col`, with how many fit and the
/// next free column.
pub fn num(col: u8, v: u32) -> (r: (Vec<u8>, usize, u8))
    ensures
        r.0@ == decimal(v as nat),
        r.1 == cells_fitting(col as int, LAST_CELL as int, r.0@.len()),
        r.2 as int == col as int + 6 * r.1,
{
    let digits = dec32(v);
    let (k, c) = fit_cells(col, LAST_CELL, digits.len());
    (digits, k, c)
}

/// The data frame of one full page row, every column set to `byte`.
pub fn fill_row(byte: u8) -> (f: Vec<u8>)
    ensures
        f@.len() == 129,
        f@[0] == DATA,
        forall|i: int| 1 <= i < 129 ==> f@[i] == byte,
{
    let mut f: Vec<u8> = Vec::new();
    f.push(DATA);
    let mut i: usize = 0;
    while i < 128
        invariant
            i <= 128,
            f@.len() == 1 + i,
            f@[0] == DATA,
            forall|j: int| 1 <= j < f@.len() ==> f@[j] == byte,
        decreases 128 - i,
    {
        f.push(byte);
        i = i + 1;
    }
    f
}

/// Blanking from `col` to the end of a page: `None` past the last column, else the data frame
/// (control byte plus one blank byte per remaining column).
pub fn clear_eol(col: u8) -> (f: Option<Vec<u8>>)
    ensures
        col > 127 ==> f is None,
        col <= 127 ==> (f matches Some(v) && v@.len() == 1 + (128 - col) && v@[0] == DATA
            && forall|i: int| 1 <= i < v@.len() ==> v@[i] == 0),
{
    if col > 127 {
        return None;
    }
    let mut f: Vec<u8> = Vec::new();
    f.push(DATA);
    let n: u8 = 128 - col;
    let mut i: u8 = 0;
    while i < n
        invariant
            i <= n,
            f@.len() == 1 + i,
            f@[0] == DATA,
            forall|j: int| 1 <= j < f@.len() ==> f@[j] == 0,
        decreases n - i,
    {
        f.push(0);
        i = i + 1;
    }
    Some(f)
}

} // verus!
