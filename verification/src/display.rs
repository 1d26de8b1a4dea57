//! What the renderer needs of a pixel: its colour and where it goes.

use vstd::prelude::*;

verus! {

/// Side of the square that stands for one pixel on the host's window.
pub const SCALE_FACTOR: u32 = 20;

/// A colour as red, green and blue.
#[derive(Clone, Copy, Debug, PartialEq, Eq)]
pub struct Rgb {
    /// Red.
    pub r: u8,
    /// Green.
    pub g: u8,
    /// Blue.
    pub b: u8,
}

/// A rectangle on the host's window.
#[derive(Clone, Copy, Debug, PartialEq, Eq)]
pub struct PixelRect {
    /// Left edge.
    pub x: i32,
    /// Top edge.
    pub y: i32,
    /// Width.
    pub width: u32,
    /// Height.
    pub height: u32,
}

/// The colour of a pixel: black where it is off, white where it is on.
pub fn color(input: u8) -> (rgb: Rgb)
    requires
        input <= 1,
    ensures
        input == 0 ==> rgb == (Rgb { r: 0, g: 0, b: 0 }),
        input == 1 ==> rgb == (Rgb { r: 255, g: 255, b: 255 }),
{
    if input == 0 {
        Rgb { r: 0, g: 0, b: 0 }
    } else {
        Rgb { r: 255, g: 255, b: 255 }
    }
}

/// The square on the host's window that stands for the pixel in column `x` and row `y`.
pub fn pixel_rect(x: usize, y: usize) -> (rect: PixelRect)
    requires
        x < 64,
        y < 32,
    ensures
        rect == (PixelRect { x: (x * 20) as i32, y: (y * 20) as i32, width: 20, height: 20 }),
        0 <= rect.x <= 1260,
        0 <= rect.y <= 620,
{
    let left: u32 = (x as u32) * SCALE_FACTOR;
    let top: u32 = (y as u32) * SCALE_FACTOR;
    PixelRect { x: left as i32, y: top as i32, width: SCALE_FACTOR, height: SCALE_FACTOR }
}

} // verus!
