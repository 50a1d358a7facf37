use vstd::prelude::*;

verus! {

/// One of the four shades of the monochrome Game Boy.
#[derive(Clone, Copy, Debug, PartialEq, Eq, Structural)]
pub enum LogicalColor {
    White,
    LightGray,
    DarkGray,
    Black,
}

/// A pixel as produced by the PPU.
#[derive(Clone, Copy, Debug, PartialEq, Eq, Structural)]
pub enum Color {
    Logical(LogicalColor),
    RGB(u16),
}

/// The shade that a two-bit color number stands for (0 is white, 3 is black).
pub open spec fn shade_of(bits: u8) -> LogicalColor {
    if bits == 0 {
        LogicalColor::White
    } else if bits == 1 {
        LogicalColor::LightGray
    } else if bits == 2 {
        LogicalColor::DarkGray
    } else {
        LogicalColor::Black
    }
}

/// Returns the shade for a two-bit color number.
pub fn shade(bits: u8) -> (c: LogicalColor)
    requires
        bits <= 3,
    ensures
        c == shade_of(bits),
{
    if bits == 0 {
        LogicalColor::White
    } else if bits == 1 {
        LogicalColor::LightGray
    } else if bits == 2 {
        LogicalColor::DarkGray
    } else {
        LogicalColor::Black
    }
}

} // verus!
