//! SSD1306 OLED text driver logic: the panel descriptor, the command/data frames for init,
//! windowing and glyph cells, the 5×7 glyph set and the clipped text layout (6 px per cell).
use vstd::prelude::*;
use crate::devices::font::{digit_cols, digit_glyph, letter_cols, letter_glyph};

verus! {

/// Control byte: the following bytes are commands.
pub const CMD: u8 = 0x00;
/// Control byte: the following bytes are display data.
pub const DATA: u8 = 0x40;

/// A panel descriptor: everything that varies between SSD1306 sizes.
#[derive(Clone, Copy, Debug)]
pub struct Panel {
    /// 7-bit I²C address.
    pub addr: u8,
    /// Columns.
    pub width: u8,
    /// Rows / 8.
    pub pages: u8,
    mux: u8,
    com: u8,
}

impl Panel {
    /// Multiplex ratio argument (rows - 1).
    pub closed spec fn mux_spec(&self) -> u8 {
        self.mux
    }

    /// COM-pins configuration argument.
    pub closed spec fn com_spec(&self) -> u8 {
        self.com
    }

    /// I²C address.
    pub closed spec fn addr_spec(&self) -> u8 {
        self.addr
    }

    /// Columns.
    pub closed spec fn width_spec(&self) -> u8 {
        self.width
    }

    /// Pages (rows / 8).
    pub closed spec fn pages_spec(&self) -> u8 {
        self.pages
    }

    /// A usable panel: 1..=128 columns.
    pub open spec fn wf(&self) -> bool {
        1 <= self.width_spec() <= 128
    }
}

/// 128×32: 4 pages, mux 31, COM config 0x02.
pub fn panel_128x32() -> (p: Panel)
    ensures
        p.addr_spec() == 0x3C && p.width_spec() == 128 && p.pages_spec() == 4,
        p.mux_spec() == 0x1F && p.com_spec() == 0x02,
{
    Panel { addr: 0x3C, width: 128, pages: 4, mux: 0x1F, com: 0x02 }
}

/// 128×64: 8 pages, mux 63, COM config 0x12.
pub fn panel_128x64() -> (p: Panel)
    ensures
        p.addr_spec() == 0x3C && p.width_spec() == 128 && p.pages_spec() == 8,
        p.mux_spec() == 0x3F && p.com_spec() == 0x12,
{
    Panel { addr: 0x3C, width: 128, pages: 8, mux: 0x3F, com: 0x12 }
}

/// The init command stream for a panel with multiplex `mux` and COM configuration `com`:
/// display off, clock, multiplex, offset 0, start line 0, charge pump on, horizontal addressing,
/// segment remap, COM scan remap, COM pins, contrast, pre-charge, VCOMH, resume, normal,
/// scroll off, display on.
pub open spec fn init_stream(mux: u8, com: u8) -> Seq<u8> {
    seq![CMD, 0xAEu8, 0xD5u8, 0x80u8, 0xA8u8, mux, 0xD3u8, 0x00u8, 0x40u8, 0x8Du8, 0x14u8,
        0x20u8, 0x00u8, 0xA1u8, 0xC8u8, 0xDAu8, com, 0x81u8, 0x8Fu8, 0xD9u8, 0xF1u8, 0xDBu8,
        0x40u8, 0xA4u8, 0xA6u8, 0x2Eu8, 0xAFu8]
}

/// The glyph cells of a panel's font for character `c`: digits and letters (lowercase folded onto
/// uppercase), `.` `-` `:` `/` `%`, and blank for anything else.
pub open spec fn glyph_cols(c: u8) -> Seq<u8> {
    if 48 <= c <= 57 { digit_cols(c - 48) }
    else if 65 <= c <= 90 { letter_cols(c - 65) }
    else if 97 <= c <= 122 { letter_cols(c - 97) }
    else if c == 46 { seq![0x00u8, 0x60u8, 0x60u8, 0x00u8, 0x00u8] }
    else if c == 45 { seq![0x08u8, 0x08u8, 0x08u8, 0x08u8, 0x08u8] }
    else if c == 58 { seq![0x00u8, 0x36u8, 0x36u8, 0x00u8, 0x00u8] }
    else if c == 47 { seq![0x20u8, 0x10u8, 0x08u8, 0x04u8, 0x02u8] }
    else if c == 37 { seq![0x23u8, 0x13u8, 0x08u8, 0x64u8, 0x62u8] }
    else { seq![0u8, 0u8, 0u8, 0u8, 0u8] }
}

/// The 5-column glyph of `c`.
pub fn glyph(c: u8) -> (g: [u8; 5])
    ensures
        g@ == glyph_cols(c),
{
    if 48u8 <= c && c <= 57u8 {
        digit_glyph(c - 48u8)
    } else if 65u8 <= c && c <= 90u8 {
        letter_glyph(c - 65u8)
    } else if 97u8 <= c && c <= 122u8 {
        letter_glyph(c - 97u8)
    } else {
        let g: [u8; 5] = if c == 46u8 {
            [0x00, 0x60, 0x60, 0x00, 0x00]
        } else if c == 45u8 {
            [0x08, 0x08, 0x08, 0x08, 0x08]
        } else if c == 58u8 {
            [0x00, 0x36, 0x36, 0x00, 0x00]
        } else if c == 47u8 {
            [0x20, 0x10, 0x08, 0x04, 0x02]
        } else if c == 37u8 {
            [0x23, 0x13, 0x08, 0x64, 0x62]
        } else {
            [0x00, 0x00, 0x00, 0x00, 0x00]
        };
        assert(g@ =~= glyph_cols(c));
        g
    }
}

/// Lowercase letters render as their uppercase glyphs.
pub proof fn lowercase_folds_onto_uppercase(c: u8)
    requires
        97 <= c <= 122,
    ensures
        glyph_cols(c) == glyph_cols((c - 32) as u8),
{
}

/// How many of `n` characters starting at column `col` fit when a cell may start no later than
/// column `last` (cells advance by 6 px).
pub open spec fn cells_fitting(col: int, last: int, n: nat) -> nat
    decreases n,
{
    if n == 0 || col > last { 0 } else { 1 + cells_fitting(col + 6, last, (n - 1) as nat) }
}

/// Lay out `n` characters from column `col` with the last usable cell start at `last`: returns how
/// many are drawn (at `col`, `col + 6`, ...) and the next free column.
pub fn fit_cells(col: u8, last: u8, n: usize) -> (r: (usize, u8))
    requires
        last <= 122,
    ensures
        r.0 == cells_fitting(col as int, last as int, n as nat),
        r.1 as int == col as int + 6 * r.0,
{
    let mut c = col;
    let mut k: usize = 0;
    while k < n
        invariant
            k <= n,
            last <= 122,
            c as int == col as int + 6 * k,
            cells_fitting(col as int, last as int, n as nat)
                == k + cells_fitting(c as int, last as int, (n - k) as nat),
        ensures
            cells_fitting(c as int, last as int, (n - k) as nat) == 0,
        decreases n - k,
    {
        if c > last {
            break;
        }
        c = c + 6;
        k = k + 1;
    }
    (k, c)
}

/// The last column where a 6 px cell still fits on a panel (0 on a panel narrower than a cell).
pub open spec fn last_cell(p: Panel) -> int {
    if p.width_spec() >= 6 { p.width_spec() - 6 } else { 0 }
}

/// A bound display: a panel plus the driver's frame builders.
#[derive(Clone, Copy, Debug)]
pub struct Oled {
    p: Panel,
}

impl Oled {
    /// The bound panel.
    pub closed spec fn panel(&self) -> Panel {
        self.p
    }

    /// Bind a panel.
    pub fn new(panel: Panel) -> (o: Oled)
        ensures
            o.panel() == panel,
    {
        Oled { p: panel }
    }

    /// The panel's I²C address.
    pub fn addr(&self) -> (a: u8)
        ensures
            a == self.panel().addr_spec(),
    {
        self.p.addr
    }

    /// The init command frame (charge pump on, horizontal addressing) for this panel's size.
    pub fn init_frame(&self) -> (f: Vec<u8>)
        ensures
            f@ == init_stream(self.panel().mux_spec(), self.panel().com_spec()),
    {
        let f = vec![CMD, 0xAE, 0xD5, 0x80, 0xA8, self.p.mux, 0xD3, 0x00, 0x40, 0x8D, 0x14,
            0x20, 0x00, 0xA1, 0xC8, 0xDA, self.p.com, 0x81, 0x8F, 0xD9, 0xF1, 0xDB,
            0x40, 0xA4, 0xA6, 0x2E, 0xAF];
        assert(f@ =~= init_stream(self.panel().mux_spec(), self.panel().com_spec()));
        f
    }

    /// The display-off frame.
    pub fn off_frame() -> (f: [u8; 2])
        ensures
            f@ == seq![CMD, 0xAEu8],
    {
        [CMD, 0xAE]
    }

    /// The frame that sets the write window to one page and a column span.
    pub fn window_frame(page: u8, col0: u8, col1: u8) -> (f: [u8; 7])
        ensures
            f@ == seq![CMD, 0x22u8, page, page, 0x21u8, col0, col1],
    {
        [CMD, 0x22, page, page, 0x21, col0, col1]
    }

    /// The data frame of one 6 px cell: the glyph's five columns and a blank gap.
    pub fn cell_frame(g: [u8; 5]) -> (f: [u8; 7])
        ensures
            f@ == seq![DATA, g@[0], g@[1], g@[2], g@[3], g@[4], 0x00u8],
    {
        [DATA, g[0], g[1], g[2], g[3], g[4], 0x00]
    }

    /// Pages (rows / 8) of the bound panel.
    pub fn pages(&self) -> (n: u8)
        ensures
            n == self.panel().pages_spec(),
    {
        self.p.pages
    }

    /// The bound panel is usable (1..=128 columns), which the layout functions need.
    pub fn usable(&self) -> (b: bool)
        ensures
            b == self.panel().wf(),
    {
        1 <= self.p.width && self.p.width <= 128
    }

    /// The data frame that blanks one full page row.
    pub fn blank_row(&self) -> (f: Vec<u8>)
        requires
            self.panel().wf(),
        ensures
            f@.len() == 1 + self.panel().width_spec(),
            f@[0] == DATA,
            forall|i: int| 1 <= i < f@.len() ==> f@[i] == 0,
    {
        let mut f: Vec<u8> = Vec::new();
        f.push(DATA);
        let mut i: u8 = 0;
        while i < self.p.width
            invariant
                i <= self.p.width,
                f@.len() == 1 + i,
                f@[0] == DATA,
                forall|j: int| 1 <= j < f@.len() ==> f@[j] == 0,
            decreases self.p.width - i,
        {
            f.push(0);
            i = i + 1;
        }
        f
    }

    /// Where `n` characters of text starting at `col` go: how many fit before the panel's right
    /// edge (the last 6 px cell) and the next free column.
    pub fn text_fit(&self, col: u8, n: usize) -> (r: (usize, u8))
        requires
            self.panel().wf(),
        ensures
            r.0 == cells_fitting(col as int, last_cell(self.panel()), n as nat),
            r.1 as int == col as int + 6 * r.0,
    {
        let last = self.p.width.saturating_sub(6);
        fit_cells(col, last, n)
    }
}

} // verus!
