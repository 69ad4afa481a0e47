use vstd::prelude::*;

use crate::point::SCALE;

verus! {

/// A colour with each channel in `[0, SCALE]`.
#[derive(Clone, Copy, Debug, PartialEq, Eq, Structural)]
pub struct Color {
    pub r: u32,
    pub g: u32,
    pub b: u32,
}

/// Number of colours in the palette.
pub const PALETTE_SIZE: usize = 16;

pub open spec fn rgb(r: u32, g: u32, b: u32) -> Color {
    Color { r, g, b }
}

/// The fixed palette: red, green, blue, yellow, orange, purple, cyan,
/// magenta, gray, gold, violet, spring green, pink, lime green, white and
/// black.
pub open spec fn palette(i: int) -> Color {
    if i == 0 { rgb(9400, 3100, 3100) }
    else if i == 1 { rgb(3100, 9400, 3100) }
    else if i == 2 { rgb(3100, 3100, 9400) }
    else if i == 3 { rgb(9400, 9400, 3100) }
    else if i == 4 { rgb(9400, 6300, 3100) }
    else if i == 5 { rgb(6300, 3100, 9400) }
    else if i == 6 { rgb(3100, 9400, 9400) }
    else if i == 7 { rgb(9400, 3100, 9400) }
    else if i == 8 { rgb(6300, 6300, 6300) }
    else if i == 9 { rgb(9400, 7500, 3100) }
    else if i == 10 { rgb(7500, 3100, 9400) }
    else if i == 11 { rgb(3100, 9400, 6300) }
    else if i == 12 { rgb(9400, 3100, 6300) }
    else if i == 13 { rgb(6300, 9400, 3100) }
    else if i == 14 { rgb(9400, 9400, 9400) }
    else { rgb(3100, 3100, 3100) }
}

/// Entry `i` of the palette.
pub fn palette_color(i: usize) -> (c: Color)
    requires
        i < PALETTE_SIZE,
    ensures
        c == palette(i as int),
        c.r <= SCALE && c.g <= SCALE && c.b <= SCALE,
{
    match i {
        0 => Color { r: 9400, g: 3100, b: 3100 },
        1 => Color { r: 3100, g: 9400, b: 3100 },
        2 => Color { r: 3100, g: 3100, b: 9400 },
        3 => Color { r: 9400, g: 9400, b: 3100 },
        4 => Color { r: 9400, g: 6300, b: 3100 },
        5 => Color { r: 6300, g: 3100, b: 9400 },
        6 => Color { r: 3100, g: 9400, b: 9400 },
        7 => Color { r: 9400, g: 3100, b: 9400 },
        8 => Color { r: 6300, g: 6300, b: 6300 },
        9 => Color { r: 9400, g: 7500, b: 3100 },
        10 => Color { r: 7500, g: 3100, b: 9400 },
        11 => Color { r: 3100, g: 9400, b: 6300 },
        12 => Color { r: 9400, g: 3100, b: 6300 },
        13 => Color { r: 6300, g: 9400, b: 3100 },
        14 => Color { r: 9400, g: 9400, b: 9400 },
        _ => Color { r: 3100, g: 3100, b: 3100 },
    }
}

} // verus!
