//! What the terminal shows: where the display and the console text go, cell
//! by cell.

use crate::color::Color;
use crate::screen::Screen;
use unicode_width::UnicodeWidthStr;
use vstd::prelude::*;

verus! {

/// The display is this many terminal cells wide: one for each pixel.
pub const SCREEN_COLUMNS: u16 = 176;

/// The display is this many terminal cells high: one for each two rows of
/// pixels.
pub const SCREEN_ROWS: u16 = 88;

/// How a line is set within the width that it has.
#[derive(Clone, Copy, Debug, PartialEq, Eq, Structural)]
pub enum Alignment {
    Left,
    Center,
    Right,
}

/// The column at which a line of `line_width` cells begins in an area of
/// `text_area_width` cells: zero where the line is wider than the area.
pub open spec fn line_offset(line_width: int, text_area_width: int, alignment: Alignment) -> int {
    match alignment {
        Alignment::Left => 0,
        Alignment::Center => if text_area_width / 2 >= line_width / 2 {
            text_area_width / 2 - line_width / 2
        } else {
            0
        },
        Alignment::Right => if text_area_width >= line_width {
            text_area_width - line_width
        } else {
            0
        },
    }
}

/// The column at which a line of `line_width` cells begins in an area of
/// `text_area_width` cells.
pub fn get_line_offset(line_width: u16, text_area_width: u16, alignment: Alignment) -> (offset: u16)
    ensures
        offset == line_offset(line_width as int, text_area_width as int, alignment),
{
    match alignment {
        Alignment::Center => {
            let half_area: u16 = text_area_width / 2;
            let half_line: u16 = line_width / 2;
            if half_area >= half_line {
                half_area - half_line
            } else {
                0
            }
        },
        Alignment::Right => if text_area_width >= line_width {
            text_area_width - line_width
        } else {
            0
        },
        Alignment::Left => 0,
    }
}

/// The eight colours of the terminal that stand for those of the display.
#[derive(Clone, Copy, Debug, PartialEq, Eq, Structural)]
pub enum TermColor {
    Black,
    Blue,
    Green,
    Cyan,
    Red,
    Magenta,
    Yellow,
    White,
}

/// The terminal colour for the palette index `index`, in which red counts 1,
/// green 2 and blue 4.
pub open spec fn term_color(index: int) -> TermColor {
    if index == 0 {
        TermColor::Black
    } else if index == 1 {
        TermColor::Red
    } else if index == 2 {
        TermColor::Green
    } else if index == 3 {
        TermColor::Yellow
    } else if index == 4 {
        TermColor::Blue
    } else if index == 5 {
        TermColor::Magenta
    } else if index == 6 {
        TermColor::Cyan
    } else {
        TermColor::White
    }
}

/// The terminal colour that stands for `c`.
pub fn color(c: Color) -> (shown: TermColor)
    ensures
        shown == term_color(c.index()),
{
    match c.rgb() {
        (false, false, false) => TermColor::Black,
        (false, false, true) => TermColor::Blue,
        (false, true, false) => TermColor::Green,
        (false, true, true) => TermColor::Cyan,
        (true, false, false) => TermColor::Red,
        (true, false, true) => TermColor::Magenta,
        (true, true, false) => TermColor::Yellow,
        (true, true, true) => TermColor::White,
    }
}

/// What one terminal cell of the display shows.
#[derive(Clone, Copy, Debug, PartialEq, Eq, Structural)]
pub enum ScreenCell {
    /// A lower half block: the background has the colour of the upper pixel,
    /// the foreground that of the lower.
    Pixels { upper: TermColor, lower: TermColor },
    /// An ellipsis: the area is too small, and the display goes on beyond
    /// this cell.
    Ellipsis,
}

/// The display as a terminal widget: each cell shows two pixels, one above
/// the other.
#[derive(Clone, Copy)]
pub struct TuiScreen<'a> {
    screen: &'a Screen,
}

impl<'a> TuiScreen<'a> {
    /// The screen that the widget shows.
    pub closed spec fn screen(&self) -> &'a Screen {
        self.screen
    }

    /// A widget that shows `screen`.
    pub fn new(screen: &'a Screen) -> (widget: TuiScreen<'a>)
        ensures
            widget.screen() == screen,
    {
        TuiScreen { screen }
    }

    /// The number of columns of the display that an area of `width` cells
    /// shows.
    pub open spec fn spec_columns(width: u16) -> u16 {
        if width < SCREEN_COLUMNS {
            width
        } else {
            SCREEN_COLUMNS
        }
    }

    /// The number of cell rows of the display that an area of `height` cells
    /// shows.
    pub open spec fn spec_rows(height: u16) -> u16 {
        if height < SCREEN_ROWS {
            height
        } else {
            SCREEN_ROWS
        }
    }

    /// The number of columns of the display that an area of `width` cells
    /// shows.
    pub fn columns(width: u16) -> (n: u16)
        ensures
            n == Self::spec_columns(width),
    {
        if width < SCREEN_COLUMNS {
            width
        } else {
            SCREEN_COLUMNS
        }
    }

    /// The number of cell rows of the display that an area of `height` cells
    /// shows.
    pub fn rows(height: u16) -> (n: u16)
        ensures
            n == Self::spec_rows(height),
    {
        if height < SCREEN_ROWS {
            height
        } else {
            SCREEN_ROWS
        }
    }

    /// Where in an area of `width` cells the display begins: centred, at the
    /// top.
    pub fn origin(width: u16) -> (at: (u16, u16))
        ensures
            at.0 == line_offset(SCREEN_COLUMNS as int, width as int, Alignment::Center),
            at.1 == 0,
    {
        (get_line_offset(SCREEN_COLUMNS, width, Alignment::Center), 0)
    }

    /// The two pixels that the cell in column `x` of cell row `row` stands
    /// for.
    pub open spec fn pixels(&self, x: int, row: int) -> ScreenCell {
        ScreenCell::Pixels {
            upper: term_color(self.screen().pixel(x, 2 * row).index()),
            lower: term_color(self.screen().pixel(x, 2 * row + 1).index()),
        }
    }

    /// Whether the cell in column `x` of cell row `row` is the last that an
    /// area of `width` by `height` cells shows of a display that goes on
    /// beyond it.
    pub open spec fn cut_off(width: u16, height: u16, x: u16, row: u16) -> bool {
        (width < SCREEN_COLUMNS && x == width - 1) || (height < SCREEN_ROWS && row == height - 1)
    }

    /// What the cell in column `x` of cell row `row` shows where the area is
    /// large enough for all of the display.
    pub fn half_block(&self, x: u16, row: u16) -> (shown: ScreenCell)
        requires
            x < SCREEN_COLUMNS,
            row < SCREEN_ROWS,
        ensures
            shown == self.pixels(x as int, row as int),
    {
        let y: usize = 2 * (row as usize);
        let line = &self.screen.0[y];
        let below = &self.screen.0[y + 1];
        ScreenCell::Pixels { upper: color(line[x as usize]), lower: color(below[x as usize]) }
    }

    /// What the cell in column `x` of cell row `row` shows, in an area of
    /// `width` by `height` cells.
    pub fn cell(&self, width: u16, height: u16, x: u16, row: u16) -> (shown: ScreenCell)
        requires
            x < Self::spec_columns(width),
            row < Self::spec_rows(height),
        ensures
            shown == if Self::cut_off(width, height, x, row) {
                ScreenCell::Ellipsis
            } else {
                self.pixels(x as int, row as int)
            },
    {
        if (width < SCREEN_COLUMNS && x == width - 1) || (height < SCREEN_ROWS && row == height
            - 1) {
            ScreenCell::Ellipsis
        } else {
            self.half_block(x, row)
        }
    }
}

/// The number of terminal columns that `text` takes.
pub uninterp spec fn display_width(text: Seq<char>) -> nat;

/// Calls `unicode_width::UnicodeWidthStr::width` on `symbol`. Trusted: that
/// what it returns is a function of the text alone.
#[verifier::external_body]
fn str_width(symbol: &str) -> (width: usize)
    ensures
        width == display_width(symbol@),
{
    UnicodeWidthStr::width(symbol)
}

/// The columns that a symbol of `width` columns advances the cursor by: the
/// width as the cursor counts, in sixteen bits.
pub open spec fn advance(width: nat) -> nat {
    width % 0x10000
}

/// The columns at which symbols of the widths `widths` are drawn, from
/// column `x` on, in an area of `width` cells. The first symbol is drawn at
/// `x`, each further one where the one before it ends, and the line ends with
/// the symbol that reaches the end of the area or goes beyond it.
pub open spec fn columns_from(widths: Seq<nat>, x: nat, width: nat) -> Seq<nat>
    decreases widths.len(),
{
    if widths.len() == 0 {
        Seq::empty()
    } else {
        let after = x + advance(widths[0]);
        seq![x] + if after >= width {
            Seq::empty()
        } else {
            columns_from(widths.skip(1), after, width)
        }
    }
}

/// The widths of `symbols` on the terminal.
pub open spec fn display_widths(symbols: Seq<String>) -> Seq<nat> {
    Seq::new(symbols.len(), |i: int| display_width(symbols[i]@))
}

/// The columns at which symbols of the widths `widths` are drawn on one line
/// of the console, in an area of `width` cells: as many columns as symbols
/// are drawn.
pub fn place_symbols(widths: &Vec<usize>, width: u16) -> (columns: Vec<u16>)
    ensures
        columns@.len() <= widths@.len(),
        columns@.map_values(|c: u16| c as nat) == columns_from(
            widths@.map_values(|w: usize| w as nat),
            0,
            width as nat,
        ),
{
    let mut columns: Vec<u16> = Vec::new();
    let mut x: u16 = 0;
    let mut i: usize = 0;
    let ghost all = widths@.map_values(|w: usize| w as nat);
    assert(all.skip(0) =~= all);
    while i < widths.len()
        invariant
            i <= widths@.len(),
            columns@.len() == i,
            all == widths@.map_values(|w: usize| w as nat),
            columns@.map_values(|c: u16| c as nat) + columns_from(
                all.skip(i as int),
                x as nat,
                width as nat,
            ) == columns_from(all, 0, width as nat),
        decreases widths@.len() - i,
    {
        let step: u32 = (widths[i] % 0x10000) as u32;
        let after: u32 = x as u32 + step;
        assert(all.skip(i as int).skip(1) =~= all.skip(i + 1));
        columns.push(x);
        if after >= width as u32 {
            return columns;
        }
        x = after as u16;
        i += 1;
    }
    columns
}

/// The columns at which the symbols of one line of the console are drawn, in
/// an area of `width` cells: as many columns as symbols are drawn.
pub fn symbol_columns(symbols: &Vec<String>, width: u16) -> (columns: Vec<u16>)
    ensures
        columns@.len() <= symbols@.len(),
        columns@.map_values(|c: u16| c as nat) == columns_from(
            display_widths(symbols@),
            0,
            width as nat,
        ),
{
    let mut widths: Vec<usize> = Vec::new();
    let mut i: usize = 0;
    while i < symbols.len()
        invariant
            i <= symbols@.len(),
            widths@.map_values(|w: usize| w as nat) == display_widths(symbols@.take(i as int)),
        decreases symbols@.len() - i,
    {
        let w = str_width(symbols[i].as_str());
        let ghost before = widths@.map_values(|w: usize| w as nat);
        widths.push(w);
        assert(widths@.map_values(|w: usize| w as nat) =~= before.push(w as nat));
        i += 1;
    }
    assert(symbols@.take(i as int) =~= symbols@);
    place_symbols(&widths, width)
}

/// The cell row on which the console shows the line that is `from_end` lines
/// before its last, in an area of `height` cells: the last line on the
/// bottom row, each earlier line one row above, and none where the area has
/// no row left.
pub fn line_row(height: u16, from_end: usize) -> (row: Option<u16>)
    ensures
        row == if from_end < height {
            Some((height - 1 - from_end) as u16)
        } else {
            None::<u16>
        },
{
    if from_end < height as usize {
        Some(height - 1 - from_end as u16)
    } else {
        None
    }
}

/// The widths of the two columns into which a terminal of `width` cells is
/// split, the display on the left and the console on the right.
pub open spec fn split(width: int) -> (int, int) {
    if width >= 258 {
        (178, width - 178)
    } else {
        (width * 178 / 258, width * 80 / 258)
    }
}

/// The widths of the two columns into which a terminal of `width` cells is
/// split: the display, with its frame, gets its full 178 cells where 80 or
/// more are left for the console, and else its share of 178 in 258.
pub fn split_columns(width: u16) -> (widths: (u16, u16))
    ensures
        widths.0 == split(width as int).0,
        widths.1 == split(width as int).1,
{
    if width >= 258 {
        (178, width - 178)
    } else {
        let w: u32 = width as u32;
        ((w * 178 / 258) as u16, (w * 80 / 258) as u16)
    }
}

} // verus!
