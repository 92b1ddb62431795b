//! Selection of the clock's display color: an index into a fixed palette of
//! 16 named terminal colors. "Next" wraps past the last color back to the
//! first; "previous" clamps at the first and never wraps. That asymmetry is
//! part of the observed contract and is kept deliberately.

use vstd::prelude::*;

verus! {

/// How many colors the palette holds.
pub const PALETTE_LEN: u8 = 16;

/// The 16 named terminal colors the clock can be drawn in.
#[derive(Clone, Copy, Debug, PartialEq, Eq, Structural)]
pub enum PaletteColor {
    Black,
    Red,
    Green,
    Yellow,
    Blue,
    Magenta,
    Cyan,
    Gray,
    DarkGray,
    LightRed,
    LightGreen,
    LightYellow,
    LightBlue,
    LightMagenta,
    LightCyan,
    White,
}

/// The palette order: which color a given index selects.
pub open spec fn palette_spec(index: u8) -> PaletteColor {
    if index == 0 {
        PaletteColor::Black
    } else if index == 1 {
        PaletteColor::Red
    } else if index == 2 {
        PaletteColor::Green
    } else if index == 3 {
        PaletteColor::Yellow
    } else if index == 4 {
        PaletteColor::Blue
    } else if index == 5 {
        PaletteColor::Magenta
    } else if index == 6 {
        PaletteColor::Cyan
    } else if index == 7 {
        PaletteColor::Gray
    } else if index == 8 {
        PaletteColor::DarkGray
    } else if index == 9 {
        PaletteColor::LightRed
    } else if index == 10 {
        PaletteColor::LightGreen
    } else if index == 11 {
        PaletteColor::LightYellow
    } else if index == 12 {
        PaletteColor::LightBlue
    } else if index == 13 {
        PaletteColor::LightMagenta
    } else if index == 14 {
        PaletteColor::LightCyan
    } else {
        PaletteColor::White
    }
}

/// The currently selected palette index, mutated only by explicit next /
/// previous actions.
pub struct ClockColorSelection {
    index: u8,
}

impl ClockColorSelection {
    /// The selected index.
    pub closed spec fn index_spec(&self) -> int {
        self.index as int
    }

    /// The selection invariant: the index stays inside the palette.
    pub open spec fn wf(&self) -> bool {
        0 <= self.index_spec() < PALETTE_LEN
    }

    /// A fresh selection, starting at the first palette entry.
    pub fn new() -> (c: ClockColorSelection)
        ensures
            c.wf(),
            c.index_spec() == 0,
    {
        ClockColorSelection { index: 0 }
    }

    /// The selected index, for display.
    pub fn index(&self) -> (i: u8)
        ensures
            i == self.index_spec(),
    {
        self.index
    }

    /// Advances to the next color; past the last palette entry the selection
    /// wraps around to index 0.
    pub fn next(&mut self)
        requires
            old(self).wf(),
        ensures
            final(self).wf(),
            final(self).index_spec() == if old(self).index_spec() == PALETTE_LEN - 1 {
                0
            } else {
                old(self).index_spec() + 1
            },
    {
        if self.index == PALETTE_LEN - 1 {
            self.index = 0;
        } else {
            self.index = self.index + 1;
        }
    }

    /// Steps back to the previous color; at index 0 the selection stays at 0
    /// (clamped, it does not wrap to the last entry).
    pub fn prev(&mut self)
        requires
            old(self).wf(),
        ensures
            final(self).wf(),
            final(self).index_spec() == if old(self).index_spec() == 0 {
                0
            } else {
                old(self).index_spec() - 1
            },
    {
        if self.index > 0 {
            self.index = self.index - 1;
        }
    }

    /// The color the current index selects.
    pub fn color(&self) -> (c: PaletteColor)
        requires
            self.wf(),
        ensures
            c == palette_spec(self.index_spec() as u8),
    {
        let i = self.index;
        if i == 0 {
            PaletteColor::Black
        } else if i == 1 {
            PaletteColor::Red
        } else if i == 2 {
            PaletteColor::Green
        } else if i == 3 {
            PaletteColor::Yellow
        } else if i == 4 {
            PaletteColor::Blue
        } else if i == 5 {
            PaletteColor::Magenta
        } else if i == 6 {
            PaletteColor::Cyan
        } else if i == 7 {
            PaletteColor::Gray
        } else if i == 8 {
            PaletteColor::DarkGray
        } else if i == 9 {
            PaletteColor::LightRed
        } else if i == 10 {
            PaletteColor::LightGreen
        } else if i == 11 {
            PaletteColor::LightYellow
        } else if i == 12 {
            PaletteColor::LightBlue
        } else if i == 13 {
            PaletteColor::LightMagenta
        } else if i == 14 {
            PaletteColor::LightCyan
        } else {
            PaletteColor::White
        }
    }
}

} // verus!
