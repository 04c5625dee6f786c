//! The frame buffer of the display, and how a row of it is unpacked from the
//! firmware's memory.

use crate::color::Color;
use vstd::prelude::*;
use vstd::string::StringExecFns;

verus! {

/// The display is this many pixels wide and high.
pub const SIZE: usize = 176;

/// A row of the display in the firmware's memory takes this many bytes:
/// three bits for each pixel.
pub const ROW_BYTES: usize = 66;

/// A snapshot of the display: `SIZE` rows of `SIZE` pixels, the top row
/// first.
#[derive(Clone, Debug, PartialEq, Eq)]
pub struct Screen(pub [[Color; 176]; 176]);

/// Bit `n` of a packed row, counting from the lowest bit of the first byte.
pub open spec fn row_bit(row: Seq<u8>, n: int) -> int {
    ((row[n / 8] >> ((n % 8) as u8)) & 1) as int
}

/// The palette index of pixel `x` in a packed row: the three bits from
/// `3 * x` on, the lowest first.
pub open spec fn packed_pixel(row: Seq<u8>, x: int) -> int {
    row_bit(row, 3 * x) + 2 * row_bit(row, 3 * x + 1) + 4 * row_bit(row, 3 * x + 2)
}

/// Three bits from bit `s` of `lo` on, running over into `hi` where `lo` ends.
proof fn lemma_three_bits(lo: u8, hi: u8, s: u8)
    by (bit_vector)
    requires
        s < 8,
    ensures
        s <= 5 ==> (lo >> s) & 7 == ((lo >> s) & 1) + 2 * ((lo >> ((s + 1) as u8)) & 1) + 4 * ((lo
            >> ((s + 2) as u8)) & 1),
        s == 6 ==> ((lo >> s) | (hi << 2)) & 7 == ((lo >> 6) & 1) + 2 * ((lo >> 7) & 1) + 4 * ((hi
            >> 0) & 1),
        s == 7 ==> ((lo >> s) | (hi << 1)) & 7 == ((lo >> 7) & 1) + 2 * ((hi >> 0) & 1) + 4 * ((hi
            >> 1) & 1),
{
}

/// Unpacks pixel `x` of a packed row.
pub fn unpack_pixel(row: &[u8], x: usize) -> (c: Color)
    requires
        x < SIZE,
        row.len() >= ROW_BYTES,
    ensures
        c.index() == packed_pixel(row@, x as int),
{
    let bit: usize = x * 3;
    let byte: usize = bit / 8;
    let s: u8 = (bit % 8) as u8;
    let lo: u8 = row[byte];
    let hi: u8 = if s <= 5 { 0 } else { row[byte + 1] };
    proof {
        lemma_three_bits(lo, hi, s);
    }
    let v: u8 = if s <= 5 {
        (lo >> s) & 7
    } else if s == 6 {
        ((lo >> s) | (hi << 2)) & 7
    } else {
        ((lo >> s) | (hi << 1)) & 7
    };
    assert(v < 8) by (bit_vector)
        requires
            v == (lo >> s) & 7 || v == ((lo >> s) | (hi << 2)) & 7 || v == ((lo >> s) | (hi << 1))
                & 7,
    ;
    Color::new(v)
}

/// The digit that names the palette index `index` in an ANSI colour code.
pub open spec fn digit_text(index: int) -> Seq<char> {
    if index == 0 {
        "0"@
    } else if index == 1 {
        "1"@
    } else if index == 2 {
        "2"@
    } else if index == 3 {
        "3"@
    } else if index == 4 {
        "4"@
    } else if index == 5 {
        "5"@
    } else if index == 6 {
        "6"@
    } else {
        "7"@
    }
}

/// The text that shows two pixels, one above the other, in one terminal
/// cell: a lower half block, with the upper pixel's colour as background and
/// the lower pixel's as foreground.
pub open spec fn cell_text(upper: Color, lower: Color) -> Seq<char> {
    "\x1b[4"@ + digit_text(upper.index()) + ";3"@ + digit_text(lower.index()) + "m\u{2584}"@
}

fn digit(c: Color) -> (text: &'static str)
    ensures
        text@ == digit_text(c.index()),
{
    let code = c.fg();
    if code == 30 {
        "0"
    } else if code == 31 {
        "1"
    } else if code == 32 {
        "2"
    } else if code == 33 {
        "3"
    } else if code == 34 {
        "4"
    } else if code == 35 {
        "5"
    } else if code == 36 {
        "6"
    } else {
        "7"
    }
}

impl Screen {
    /// The text that shows the first `upto` cells of cell row `row`.
    pub open spec fn row_text(&self, row: int, upto: int) -> Seq<char>
        decreases upto,
    {
        if upto <= 0 {
            Seq::empty()
        } else {
            self.row_text(row, upto - 1) + cell_text(
                self.pixel(upto - 1, 2 * row),
                self.pixel(upto - 1, 2 * row + 1),
            )
        }
    }

    /// The text that shows the first `rows` cell rows of the screen on an
    /// ANSI terminal: each row's cells, then a reset of the colours and a
    /// line feed.
    pub open spec fn text(&self, rows: int) -> Seq<char>
        decreases rows,
    {
        if rows <= 0 {
            Seq::empty()
        } else {
            self.text(rows - 1) + self.row_text(rows - 1, SIZE as int) + "\x1b[m\n"@
        }
    }

    /// The screen as text for an ANSI terminal, two rows of pixels to a line.
    pub fn to_ansi(&self) -> (text: String)
        ensures
            text@ == self.text(SIZE as int / 2),
    {
        let mut text = String::from_str("");
        proof {
            reveal_strlit("");
        }
        let mut row: usize = 0;
        while row < SIZE / 2
            invariant
                row <= SIZE / 2,
                text@ == self.text(row as int),
            decreases SIZE / 2 - row,
        {
            let ghost before = text@;
            let mut x: usize = 0;
            while x < SIZE
                invariant
                    x <= SIZE,
                    row < SIZE / 2,
                    text@ == before + self.row_text(row as int, x as int),
                decreases SIZE - x,
            {
                let upper = self.0[2 * row][x];
                let lower = self.0[2 * row + 1][x];
                text.append("\x1b[4");
                text.append(digit(upper));
                text.append(";3");
                text.append(digit(lower));
                text.append("m\u{2584}");
                x += 1;
            }
            text.append("\x1b[m\n");
            row += 1;
        }
        text
    }

    /// The pixel in column `x` of row `y`.
    pub open spec fn pixel(&self, x: int, y: int) -> Color {
        self.0[y][x]
    }

    /// Fills row `y` from its packed form.
    pub fn set_row(&mut self, y: usize, row: &[u8])
        requires
            y < SIZE,
            row.len() >= ROW_BYTES,
        ensures
            forall|x: int|
                0 <= x < SIZE ==> (#[trigger] final(self).pixel(x, y as int)).index()
                    == packed_pixel(row@, x),
            forall|x: int, other: int|
                0 <= x < SIZE && 0 <= other < SIZE && other != y ==> #[trigger] final(self).pixel(
                    x,
                    other,
                ) == old(self).pixel(x, other),
    {
        let mut line: [Color; 176] = self.0[y];
        let mut x: usize = 0;
        while x < SIZE
            invariant
                x <= SIZE,
                row.len() >= ROW_BYTES,
                forall|i: int| 0 <= i < x ==> (#[trigger] line[i]).index() == packed_pixel(row@, i),
            decreases SIZE - x,
        {
            line[x] = unpack_pixel(row, x);
            x += 1;
        }
        self.0[y] = line;
    }
}

impl Default for Screen {
    /// An all-black screen.
    fn default() -> (screen: Self)
        ensures
            forall|x: int, y: int|
                0 <= x < SIZE && 0 <= y < SIZE ==> (#[trigger] screen.pixel(x, y)).index() == 0,
    {
        Screen([[Color::default(); 176]; 176])
    }
}

} // verus!
