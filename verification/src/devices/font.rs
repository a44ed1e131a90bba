//! The 5×7 display font (column-major, bit 0 = top row; standard glcdfont values).
use vstd::prelude::*;

verus! {

/// Columns of digit `d` (0..10).
pub open spec fn digit_cols(d: int) -> Seq<u8> {
    if d == 0 { seq![0x3Eu8, 0x51u8, 0x49u8, 0x45u8, 0x3Eu8] }
    else if d == 1 { seq![0x00u8, 0x42u8, 0x7Fu8, 0x40u8, 0x00u8] }
    else if d == 2 { seq![0x42u8, 0x61u8, 0x51u8, 0x49u8, 0x46u8] }
    else if d == 3 { seq![0x21u8, 0x41u8, 0x45u8, 0x4Bu8, 0x31u8] }
    else if d == 4 { seq![0x18u8, 0x14u8, 0x12u8, 0x7Fu8, 0x10u8] }
    else if d == 5 { seq![0x27u8, 0x45u8, 0x45u8, 0x45u8, 0x39u8] }
    else if d == 6 { seq![0x3Cu8, 0x4Au8, 0x49u8, 0x49u8, 0x30u8] }
    else if d == 7 { seq![0x01u8, 0x71u8, 0x09u8, 0x05u8, 0x03u8] }
    else if d == 8 { seq![0x36u8, 0x49u8, 0x49u8, 0x49u8, 0x36u8] }
    else if d == 9 { seq![0x06u8, 0x49u8, 0x49u8, 0x29u8, 0x1Eu8] }
    else { seq![0x06u8, 0x49u8, 0x49u8, 0x29u8, 0x1Eu8] }
}

/// Columns of letter `i` (0 = A .. 25 = Z).
pub open spec fn letter_cols(i: int) -> Seq<u8> {
    if i == 0 { seq![0x7Eu8, 0x11u8, 0x11u8, 0x11u8, 0x7Eu8] }
    else if i == 1 { seq![0x7Fu8, 0x49u8, 0x49u8, 0x49u8, 0x36u8] }
    else if i == 2 { seq![0x3Eu8, 0x41u8, 0x41u8, 0x41u8, 0x22u8] }
    else if i == 3 { seq![0x7Fu8, 0x41u8, 0x41u8, 0x22u8, 0x1Cu8] }
    else if i == 4 { seq![0x7Fu8, 0x49u8, 0x49u8, 0x49u8, 0x41u8] }
    else if i == 5 { seq![0x7Fu8, 0x09u8, 0x09u8, 0x09u8, 0x01u8] }
    else if i == 6 { seq![0x3Eu8, 0x41u8, 0x49u8, 0x49u8, 0x7Au8] }
    else if i == 7 { seq![0x7Fu8, 0x08u8, 0x08u8, 0x08u8, 0x7Fu8] }
    else if i == 8 { seq![0x00u8, 0x41u8, 0x7Fu8, 0x41u8, 0x00u8] }
    else if i == 9 { seq![0x20u8, 0x40u8, 0x41u8, 0x3Fu8, 0x01u8] }
    else if i == 10 { seq![0x7Fu8, 0x08u8, 0x14u8, 0x22u8, 0x41u8] }
    else if i == 11 { seq![0x7Fu8, 0x40u8, 0x40u8, 0x40u8, 0x40u8] }
    else if i == 12 { seq![0x7Fu8, 0x02u8, 0x0Cu8, 0x02u8, 0x7Fu8] }
    else if i == 13 { seq![0x7Fu8, 0x04u8, 0x08u8, 0x10u8, 0x7Fu8] }
    else if i == 14 { seq![0x3Eu8, 0x41u8, 0x41u8, 0x41u8, 0x3Eu8] }
    else if i == 15 { seq![0x7Fu8, 0x09u8, 0x09u8, 0x09u8, 0x06u8] }
    else if i == 16 { seq![0x3Eu8, 0x41u8, 0x51u8, 0x21u8, 0x5Eu8] }
    else if i == 17 { seq![0x7Fu8, 0x09u8, 0x19u8, 0x29u8, 0x46u8] }
    else if i == 18 { seq![0x46u8, 0x49u8, 0x49u8, 0x49u8, 0x31u8] }
    else if i == 19 { seq![0x01u8, 0x01u8, 0x7Fu8, 0x01u8, 0x01u8] }
    else if i == 20 { seq![0x3Fu8, 0x40u8, 0x40u8, 0x40u8, 0x3Fu8] }
    else if i == 21 { seq![0x1Fu8, 0x20u8, 0x40u8, 0x20u8, 0x1Fu8] }
    else if i == 22 { seq![0x7Fu8, 0x20u8, 0x18u8, 0x20u8, 0x7Fu8] }
    else if i == 23 { seq![0x63u8, 0x14u8, 0x08u8, 0x14u8, 0x63u8] }
    else if i == 24 { seq![0x07u8, 0x08u8, 0x70u8, 0x08u8, 0x07u8] }
    else if i == 25 { seq![0x61u8, 0x51u8, 0x49u8, 0x45u8, 0x43u8] }
    else { seq![0x61u8, 0x51u8, 0x49u8, 0x45u8, 0x43u8] }
}

/// The glyph of digit `d`.
pub fn digit_glyph(d: u8) -> (g: [u8; 5])
    requires
        d < 10,
    ensures
        g@ == digit_cols(d as int),
{
    let g: [u8; 5] = if d == 0 { [0x3E, 0x51, 0x49, 0x45, 0x3E] }
    else if d == 1 { [0x00, 0x42, 0x7F, 0x40, 0x00] }
    else if d == 2 { [0x42, 0x61, 0x51, 0x49, 0x46] }
    else if d == 3 { [0x21, 0x41, 0x45, 0x4B, 0x31] }
    else if d == 4 { [0x18, 0x14, 0x12, 0x7F, 0x10] }
    else if d == 5 { [0x27, 0x45, 0x45, 0x45, 0x39] }
    else if d == 6 { [0x3C, 0x4A, 0x49, 0x49, 0x30] }
    else if d == 7 { [0x01, 0x71, 0x09, 0x05, 0x03] }
    else if d == 8 { [0x36, 0x49, 0x49, 0x49, 0x36] }
    else if d == 9 { [0x06, 0x49, 0x49, 0x29, 0x1E] }
    else { [0x06, 0x49, 0x49, 0x29, 0x1E] };
    assert(g@ =~= digit_cols(d as int));
    g
}

/// The glyph of letter `i` (0 = A).
pub fn letter_glyph(i: u8) -> (g: [u8; 5])
    requires
        i < 26,
    ensures
        g@ == letter_cols(i as int),
{
    let g: [u8; 5] = if i == 0 { [0x7E, 0x11, 0x11, 0x11, 0x7E] }
    else if i == 1 { [0x7F, 0x49, 0x49, 0x49, 0x36] }
    else if i == 2 { [0x3E, 0x41, 0x41, 0x41, 0x22] }
    else if i == 3 { [0x7F, 0x41, 0x41, 0x22, 0x1C] }
    else if i == 4 { [0x7F, 0x49, 0x49, 0x49, 0x41] }
    else if i == 5 { [0x7F, 0x09, 0x09, 0x09, 0x01] }
    else if i == 6 { [0x3E, 0x41, 0x49, 0x49, 0x7A] }
    else if i == 7 { [0x7F, 0x08, 0x08, 0x08, 0x7F] }
    else if i == 8 { [0x00, 0x41, 0x7F, 0x41, 0x00] }
    else if i == 9 { [0x20, 0x40, 0x41, 0x3F, 0x01] }
    else if i == 10 { [0x7F, 0x08, 0x14, 0x22, 0x41] }
    else if i == 11 { [0x7F, 0x40, 0x40, 0x40, 0x40] }
    else if i == 12 { [0x7F, 0x02, 0x0C, 0x02, 0x7F] }
    else if i == 13 { [0x7F, 0x04, 0x08, 0x10, 0x7F] }
    else if i == 14 { [0x3E, 0x41, 0x41, 0x41, 0x3E] }
    else if i == 15 { [0x7F, 0x09, 0x09, 0x09, 0x06] }
    else if i == 16 { [0x3E, 0x41, 0x51, 0x21, 0x5E] }
    else if i == 17 { [0x7F, 0x09, 0x19, 0x29, 0x46] }
    else if i == 18 { [0x46, 0x49, 0x49, 0x49, 0x31] }
    else if i == 19 { [0x01, 0x01, 0x7F, 0x01, 0x01] }
    else if i == 20 { [0x3F, 0x40, 0x40, 0x40, 0x3F] }
    else if i == 21 { [0x1F, 0x20, 0x40, 0x20, 0x1F] }
    else if i == 22 { [0x7F, 0x20, 0x18, 0x20, 0x7F] }
    else if i == 23 { [0x63, 0x14, 0x08, 0x14, 0x63] }
    else if i == 24 { [0x07, 0x08, 0x70, 0x08, 0x07] }
    else if i == 25 { [0x61, 0x51, 0x49, 0x45, 0x43] }
    else { [0x61, 0x51, 0x49, 0x45, 0x43] };
    assert(g@ =~= letter_cols(i as int));
    g
}

} // verus!
