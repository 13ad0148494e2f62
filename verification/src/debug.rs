//! Debug views of the machine state that are computed rather than printed.

use crate::ppu::{VRAM_SIZE, color_index};
use crate::screen::{HeadlessScreen, NUM_PIXELS};
use vstd::prelude::*;

verus! {

/// Tiles per row of the tile sheet.
pub const TILES_PER_ROW: usize = 16;

/// All the tiles video memory holds: 8192 bytes of 16 bytes each.
pub const TOTAL_TILES: usize = 384;

/// The width of the tile sheet in pixels.
pub const SHEET_WIDTH: usize = 128;

/// The height of the tile sheet in pixels.
pub const SHEET_HEIGHT: usize = 192;

/// The colour number at (`x`, `y`) of the tile sheet: tile
/// `(y / 8) * 16 + x / 8`, row `y % 8`, column `x % 8`.
pub open spec fn sheet_pixel(vram: Seq<u8>, x: int, y: int) -> u8 {
    let tile = (y / 8) * 16 + x / 8;
    let base = tile * 16 + (y % 8) * 2;
    color_index(vram[base], vram[base + 1], (7 - x % 8) as u32)
}

/// Every tile of video memory laid out 16 to a row, as colour numbers in
/// row-major order: a 128x192 image.
pub fn vram_tile_sheet(vram: &Vec<u8>) -> (img: Vec<u8>)
    requires
        vram.len() >= VRAM_SIZE,
    ensures
        img.len() == SHEET_WIDTH * SHEET_HEIGHT,
        forall|i: int|
            0 <= i < img.len() ==> #[trigger] img@[i] == sheet_pixel(
                vram@,
                i % 128,
                i / 128,
            ),
{
    let mut img: Vec<u8> = Vec::new();
    let total: usize = SHEET_WIDTH * SHEET_HEIGHT;
    let mut i: usize = 0;
    while i < total
        invariant
            vram.len() >= VRAM_SIZE,
            total == SHEET_WIDTH * SHEET_HEIGHT,
            i <= total,
            img.len() == i,
            forall|j: int| 0 <= j < i ==> #[trigger] img@[j] == sheet_pixel(vram@, j % 128, j / 128),
        decreases total - i,
    {
        let img_x: usize = i % SHEET_WIDTH;
        let img_y: usize = i / SHEET_WIDTH;
        let tile_idx: usize = (img_y / 8) * TILES_PER_ROW + img_x / 8;
        let py: usize = img_y % 8;
        let px: usize = img_x % 8;
        assert(tile_idx < TOTAL_TILES);
        let tile_base: usize = tile_idx * 16;
        let lo = vram[tile_base + py * 2];
        let hi = vram[tile_base + py * 2 + 1];
        let bit: u32 = (7 - px) as u32;
        let color_idx = ((lo >> bit) & 1) | (((hi >> bit) & 1) << 1u8);
        img.push(color_idx);
        i = i + 1;
    }
    img
}

/// The header of the binary PPM image of the tile sheet:
/// `P6\n128 192\n255\n`.
pub open spec fn ppm_header() -> Seq<u8> {
    seq![80u8, 54, 10, 49, 50, 56, 32, 49, 57, 50, 10, 50, 53, 53, 10]
}

/// The length of that header.
pub const PPM_HEADER_LEN: usize = 15;

/// The grey level a colour number is shown with: 0 white, 1 light grey, 2
/// dark grey, 3 black.
pub open spec fn grey(c: u8) -> u8 {
    if c == 0 {
        255
    } else if c == 1 {
        170
    } else if c == 2 {
        85
    } else {
        0
    }
}

fn grey_level(c: u8) -> (g: u8)
    ensures
        g == grey(c),
{
    if c == 0 {
        255
    } else if c == 1 {
        170
    } else if c == 2 {
        85
    } else {
        0
    }
}

/// The tile sheet as a binary PPM image: the header, then for each pixel in
/// row-major order its grey level three times (red, green, blue).
pub fn vram_ppm(vram: &Vec<u8>) -> (ppm: Vec<u8>)
    requires
        vram.len() >= VRAM_SIZE,
    ensures
        ppm@.len() == PPM_HEADER_LEN + 3 * SHEET_WIDTH * SHEET_HEIGHT,
        ppm@.subrange(0, PPM_HEADER_LEN as int) == ppm_header(),
        forall|j: int|
            0 <= j < 3 * SHEET_WIDTH * SHEET_HEIGHT ==> #[trigger] ppm@[PPM_HEADER_LEN + j]
                == grey(sheet_pixel(vram@, (j / 3) % 128, (j / 3) / 128)),
{
    let mut ppm: Vec<u8> = Vec::new();
    // P6
    ppm.push(80);
    ppm.push(54);
    ppm.push(10);
    // 128 192
    ppm.push(49);
    ppm.push(50);
    ppm.push(56);
    ppm.push(32);
    ppm.push(49);
    ppm.push(57);
    ppm.push(50);
    ppm.push(10);
    // 255
    ppm.push(50);
    ppm.push(53);
    ppm.push(53);
    ppm.push(10);
    assert(ppm@ =~= ppm_header());
    let sheet = vram_tile_sheet(vram);
    let mut i: usize = 0;
    while i < sheet.len()
        invariant
            sheet.len() == SHEET_WIDTH * SHEET_HEIGHT,
            forall|k: int|
                0 <= k < sheet.len() ==> #[trigger] sheet@[k] == sheet_pixel(vram@, k % 128, k / 128),
            i <= sheet.len(),
            ppm@.len() == PPM_HEADER_LEN + 3 * i,
            ppm@.subrange(0, PPM_HEADER_LEN as int) == ppm_header(),
            forall|j: int|
                0 <= j < 3 * i ==> #[trigger] ppm@[PPM_HEADER_LEN + j] == grey(sheet@[j / 3]),
        decreases sheet.len() - i,
    {
        let g = grey_level(sheet[i]);
        let ghost before = ppm@;
        ppm.push(g);
        ppm.push(g);
        ppm.push(g);
        assert forall|j: int| 0 <= j < 3 * (i + 1) implies #[trigger] ppm@[PPM_HEADER_LEN + j]
            == grey(sheet@[j / 3]) by {
            if j < 3 * i {
                assert(ppm@[PPM_HEADER_LEN + j] == before[PPM_HEADER_LEN + j]);
            } else {
                assert(j / 3 == i);
            }
        }
        assert(ppm@.subrange(0, PPM_HEADER_LEN as int) =~= before.subrange(0, PPM_HEADER_LEN as int));
        i = i + 1;
    }
    proof {
        assert forall|j: int| 0 <= j < 3 * SHEET_WIDTH * SHEET_HEIGHT implies #[trigger] ppm@[PPM_HEADER_LEN
            + j] == grey(sheet_pixel(vram@, (j / 3) % 128, (j / 3) / 128)) by {
            assert(0 <= j / 3 < sheet.len());
            assert(sheet@[j / 3] == sheet_pixel(vram@, (j / 3) % 128, (j / 3) / 128));
        }
    }
    ppm
}

/// The header of the binary PPM image of a frame: `P6\n160 144\n255\n`.
pub open spec fn frame_ppm_header() -> Seq<u8> {
    seq![80u8, 54, 10, 49, 54, 48, 32, 49, 52, 52, 10, 50, 53, 53, 10]
}

/// The byte a shade is written with: the grey palette's levels 1.0, 0.7,
/// 0.3 and 0.0 scaled by 255 and cut to a byte. Shade 3 and above are black.
pub open spec fn frame_level(shade: u8) -> u8 {
    if shade == 0 {
        255
    } else if shade == 1 {
        178
    } else if shade == 2 {
        76
    } else {
        0
    }
}

fn frame_level_of(shade: u8) -> (v: u8)
    ensures
        v == frame_level(shade),
{
    if shade == 0 {
        255
    } else if shade == 1 {
        178
    } else if shade == 2 {
        76
    } else {
        0
    }
}

/// A frame as a binary PPM image: the header, then for each pixel in
/// row-major order its level three times (red, green, blue).
pub fn frame_ppm(screen: &HeadlessScreen) -> (ppm: Vec<u8>)
    requires
        screen@.len() == NUM_PIXELS,
    ensures
        ppm@.len() == PPM_HEADER_LEN + 3 * NUM_PIXELS,
        ppm@.subrange(0, PPM_HEADER_LEN as int) == frame_ppm_header(),
        forall|j: int|
            0 <= j < 3 * NUM_PIXELS ==> #[trigger] ppm@[PPM_HEADER_LEN + j] == frame_level(
                screen@[j / 3],
            ),
{
    let mut ppm: Vec<u8> = Vec::new();
    // P6
    ppm.push(80);
    ppm.push(54);
    ppm.push(10);
    // 160 144
    ppm.push(49);
    ppm.push(54);
    ppm.push(48);
    ppm.push(32);
    ppm.push(49);
    ppm.push(52);
    ppm.push(52);
    ppm.push(10);
    // 255
    ppm.push(50);
    ppm.push(53);
    ppm.push(53);
    ppm.push(10);
    assert(ppm@ =~= frame_ppm_header());
    let pixels = screen.pixels();
    let mut i: usize = 0;
    while i < pixels.len()
        invariant
            i <= pixels.len(),
            pixels@ == screen@,
            pixels.len() == NUM_PIXELS,
            ppm@.len() == PPM_HEADER_LEN + 3 * i,
            ppm@.subrange(0, PPM_HEADER_LEN as int) == frame_ppm_header(),
            forall|j: int|
                0 <= j < 3 * i ==> #[trigger] ppm@[PPM_HEADER_LEN + j] == frame_level(pixels@[j / 3]),
        decreases pixels.len() - i,
    {
        let g = frame_level_of(pixels[i]);
        let ghost before = ppm@;
        ppm.push(g);
        ppm.push(g);
        ppm.push(g);
        assert forall|j: int| 0 <= j < 3 * (i + 1) implies #[trigger] ppm@[PPM_HEADER_LEN + j]
            == frame_level(pixels@[j / 3]) by {
            if j < 3 * i {
                assert(ppm@[PPM_HEADER_LEN + j] == before[PPM_HEADER_LEN + j]);
            } else {
                assert(j / 3 == i);
            }
        }
        assert(ppm@.subrange(0, PPM_HEADER_LEN as int) =~= before.subrange(0, PPM_HEADER_LEN as int));
        i = i + 1;
    }
    ppm
}

} // verus!
