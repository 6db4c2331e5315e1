//! The palettes: from a colour index to a colour of the screen.

use vstd::prelude::*;

verus! {

/// The screen colour of one of the four shades of grey.
pub open spec fn colour(shade: u8) -> u32 {
    if shade == 0 {
        0x9BBC0F
    } else if shade == 1 {
        0x8BAC0F
    } else if shade == 2 {
        0x306230
    } else {
        0x0F380F
    }
}

/// The screen colour that a palette register gives to a colour index: the
/// register holds the shade of index 0 in its bits 1 and 0, of index 1 in bits
/// 3 and 2, and so on.
pub open spec fn shade_of(palette: u8, index: u8) -> u32 {
    if index == 0 {
        colour(palette & 0x03)
    } else if index == 1 {
        colour((palette >> 2) & 0x03)
    } else if index == 2 {
        colour((palette >> 4) & 0x03)
    } else {
        colour((palette >> 6) & 0x03)
    }
}

/// A palette register with its four colours worked out.
#[derive(Clone, Copy, Debug)]
pub struct Palette {
    value: u8,
    render: [u32; 4],
}

impl View for Palette {
    type V = u8;

    closed spec fn view(&self) -> u8 {
        self.value
    }
}

impl Palette {
    /// The four colours are those that the register gives.
    pub closed spec fn inv(&self) -> bool {
        &&& self.render@[0] == shade_of(self.value, 0)
        &&& self.render@[1] == shade_of(self.value, 1)
        &&& self.render@[2] == shade_of(self.value, 2)
        &&& self.render@[3] == shade_of(self.value, 3)
    }

    /// The palette that a byte written to the register makes.
    pub fn from(value: u8) -> (p: Self)
        ensures
            p.inv(),
            p@ == value,
    {
        let render: [u32; 4] = [
            Palette::shade(value & 0x03),
            Palette::shade((value >> 2) & 0x03),
            Palette::shade((value >> 4) & 0x03),
            Palette::shade((value >> 6) & 0x03),
        ];

        Self { value, render }
    }

    /// The register's value.
    pub fn into(self) -> (v: u8)
        ensures
            v == self@,
    {
        self.value
    }

    fn shade(shade: u8) -> (c: u32)
        ensures
            c == colour(shade),
    {
        match shade {
            0 => 0x9BBC0F,
            1 => 0x8BAC0F,
            2 => 0x306230,
            _ => 0x0F380F,
        }
    }

    /// The screen colour of a colour index.
    pub fn to_rgb(&self, color_index: u8) -> (c: u32)
        requires
            self.inv(),
            color_index < 4,
        ensures
            c == shade_of(self@, color_index),
    {
        self.render[color_index as usize]
    }
}

} // verus!
