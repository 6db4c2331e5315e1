//! One entry of the object attribute memory.

use vstd::prelude::*;

verus! {

/// A sprite as the attribute memory describes it. `x` and `y` are the bytes
/// of the entry: the sprite's left edge is 8 pixels left of `x` and its top
/// edge 16 lines above `y`.
#[derive(Clone, Copy, Debug, PartialEq, Eq, Structural)]
pub struct Sprite {
    pub x: u8,
    pub y: u8,
    pub tile: u8,
    /// The sprite shows only where the background has colour 0.
    pub bg_priority: bool,
    pub y_flip: bool,
    pub x_flip: bool,
    /// 0 for the first object palette, 1 for the second.
    pub palette: u8,
}

impl Sprite {
    /// The sprite that the four bytes of an entry describe.
    pub open spec fn of(x: u8, y: u8, tile: u8, flags: u8) -> Sprite {
        Sprite {
            y,
            x,
            tile,
            bg_priority: (flags >> 7) & 1 == 1,
            y_flip: (flags >> 6) & 1 == 1,
            x_flip: (flags >> 5) & 1 == 1,
            palette: (flags >> 4) & 1,
        }
    }

    /// Whether the sprite covers the pixel column `x`: the eight columns from
    /// its left edge on.
    pub open spec fn covers(self, x: u8) -> bool {
        self.x <= x + 8 && x < self.x
    }

    /// Whether the sprite covers the line `ly`, for sprites `height` lines
    /// tall.
    pub open spec fn on_line(self, ly: u8, height: int) -> bool {
        self.y <= ly + 16 && ly + 16 < self.y + height
    }

    /// The sprite that the bytes of an entry describe: its two coordinates, its
    /// tile and its attributes.
    pub fn new(x: i32, y: i32, tile: u8, flags: u8) -> (s: Self)
        requires
            0 <= x <= 255,
            0 <= y <= 255,
        ensures
            s == Sprite::of(x as u8, y as u8, tile, flags),
    {
        Self {
            y: y as u8,
            x: x as u8,
            tile,
            bg_priority: (flags >> 7) & 1 == 1,
            y_flip: (flags >> 6) & 1 == 1,
            x_flip: (flags >> 5) & 1 == 1,
            palette: (flags >> 4) & 1,
        }
    }
}

} // verus!
