//! The eight-colour palette of the display.

use vstd::prelude::*;

verus! {

/// One pixel of the display: three bits, red in bit 0, green in bit 1 and blue
/// in bit 2.
#[derive(Clone, Copy, Debug, PartialEq, Eq, Structural)]
pub struct Color(u8);

impl Color {
    /// Every colour is one of the eight palette entries.
    #[verifier::type_invariant]
    spec fn in_palette(self) -> bool {
        self.0 < 8
    }

    /// The palette index, `0..8`.
    pub closed spec fn index(self) -> int {
        self.0 as int
    }

    /// The colour whose index is the low three bits of `val`.
    pub fn new(val: u8) -> (c: Self)
        ensures
            c.index() == val % 8,
    {
        assert(val & 7 == val % 8) by (bit_vector);
        Self(val & 7)
    }

    /// The ANSI SGR code that selects this colour as foreground.
    pub fn fg(&self) -> (code: u8)
        ensures
            code == 30 + self.index(),
            30 <= code <= 37,
    {
        proof {
            use_type_invariant(self);
        }
        30 + self.0
    }

    /// The ANSI SGR code that selects this colour as background.
    pub fn bg(&self) -> (code: u8)
        ensures
            code == 40 + self.index(),
            40 <= code <= 47,
    {
        proof {
            use_type_invariant(self);
        }
        40 + self.0
    }

    /// The red, green and blue components, in that order.
    pub fn rgb(&self) -> (parts: (bool, bool, bool))
        ensures
            0 <= self.index() < 8,
            parts.0 == (self.index() % 2 == 1),
            parts.1 == ((self.index() / 2) % 2 == 1),
            parts.2 == ((self.index() / 4) % 2 == 1),
    {
        proof {
            use_type_invariant(self);
        }
        let v: u8 = self.0;
        assert((v & 1 != 0) == (v % 2 == 1)) by (bit_vector);
        assert((v & 2 != 0) == ((v / 2) % 2 == 1)) by (bit_vector);
        assert((v & 4 != 0) == ((v / 4) % 2 == 1)) by (bit_vector);
        (self.0 & 1 != 0, self.0 & 2 != 0, self.0 & 4 != 0)
    }
}

impl Default for Color {
    /// Black.
    fn default() -> (c: Self)
        ensures
            c.index() == 0,
    {
        Color(0)
    }
}

} // verus!
