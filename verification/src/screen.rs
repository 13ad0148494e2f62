//! The LCD as the PPU sees it: a 160x144 grid of pixels, each holding one of
//! the four shades of the DMG palette (0 lightest, 3 darkest). Turning a
//! shade into a colour on a display is left to whoever shows the frame.

use vstd::prelude::*;

verus! {

#[derive(Copy, Clone, Debug, PartialEq, Eq, Structural)]
pub struct Resolution {
    pub width: u32,
    pub height: u32,
}

#[derive(Copy, Clone, Debug, PartialEq, Eq, Structural)]
pub struct Pos {
    pub x: u32,
    pub y: u32,
}

pub const GB_WIDTH: u32 = 160;

pub const GB_HEIGHT: u32 = 144;

pub const NUM_PIXELS: usize = 23040;

/// The size of the Game Boy LCD.
pub fn gb_resolution() -> (r: Resolution)
    ensures
        r.width == GB_WIDTH,
        r.height == GB_HEIGHT,
{
    Resolution { width: GB_WIDTH, height: GB_HEIGHT }
}

/// The index of a pixel in row-major order.
pub open spec fn pixel_index(pos: Pos) -> int {
    pos.y * GB_WIDTH + pos.x
}

/// A frame held in memory, one shade per pixel in row-major order.
pub struct HeadlessScreen {
    pixels: Vec<u8>,
}

impl View for HeadlessScreen {
    type V = Seq<u8>;

    closed spec fn view(&self) -> Seq<u8> {
        self.pixels@
    }
}

impl HeadlessScreen {
    /// A frame with every pixel at shade 0.
    pub fn new() -> (s: HeadlessScreen)
        ensures
            s@ == Seq::new(NUM_PIXELS as nat, |_i: int| 0u8),
    {
        let s = HeadlessScreen { pixels: vec![0u8; NUM_PIXELS] };
        assert(s@ =~= Seq::new(NUM_PIXELS as nat, |_i: int| 0u8));
        s
    }

    /// Sets the pixel at `pos`; a position off the screen changes nothing.
    pub fn set_pixel(&mut self, pos: Pos, shade: u8)
        requires
            old(self)@.len() == NUM_PIXELS,
        ensures
            final(self)@ == (if pos.x < GB_WIDTH && pos.y < GB_HEIGHT {
                old(self)@.update(pixel_index(pos), shade)
            } else {
                old(self)@
            }),
    {
        if pos.x < GB_WIDTH && pos.y < GB_HEIGHT {
            let idx: u32 = pos.y * GB_WIDTH + pos.x;
            self.pixels.set(idx as usize, shade);
        }
    }

    /// The shade of the pixel at `pos`.
    pub fn pixel(&self, pos: Pos) -> (shade: u8)
        requires
            self@.len() == NUM_PIXELS,
            pos.x < GB_WIDTH,
            pos.y < GB_HEIGHT,
        ensures
            shade == self@[pixel_index(pos)],
    {
        let idx: u32 = pos.y * GB_WIDTH + pos.x;
        self.pixels[idx as usize]
    }

    /// All the pixels, in row-major order.
    pub fn pixels(&self) -> (p: &Vec<u8>)
        ensures
            p@ == self@,
    {
        &self.pixels
    }
}

} // verus!
