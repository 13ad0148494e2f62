//! The pixel processing unit: video memory, the LCD registers, and the dot
//! by dot drawing of the background, the window and the objects.

pub mod regs;
pub mod objs;

use crate::bus::{OAM_END, OAM_START, PPU_END, PPU_START};
use crate::err::{GbError, GbErrorType, GbResult, outcome};
use crate::interrupt::{Interrupt, Interrupts};
use crate::ppu::objs::{
    MAX_OBJS_PER_LINE,
    OAM_SIZE,
    covers_column,
    in_draw_order,
    lemma_in_draw_order_all,
    lemma_objs_at_column_all,
    lemma_oam_scan_bounded,
    lemma_oam_scan_palettes,
    oam_scan,
    objs_at_column,
    slot_attr,
    sort_obj_attributes_by_rev_render_order,
};
use crate::ppu::regs::{LcdControl, ObjAttrFlags, ObjectAttribute, PpuMode, Status};
use crate::screen::{HeadlessScreen, NUM_PIXELS, Pos, pixel_index};
use vstd::prelude::*;
use vstd::std_specs::convert::FromSpec;

verus! {

pub const LCDC_ADDR: u16 = 0xff40;

pub const STAT_ADDR: u16 = 0xff41;

pub const SCY_ADDR: u16 = 0xff42;

pub const SCX_ADDR: u16 = 0xff43;

pub const LY_ADDR: u16 = 0xff44;

pub const LYC_ADDR: u16 = 0xff45;

pub const BGP_ADDR: u16 = 0xff47;

pub const OBP0_ADDR: u16 = 0xff48;

pub const OBP1_ADDR: u16 = 0xff49;

pub const WY_ADDR: u16 = 0xff4a;

pub const WX_ADDR: u16 = 0xff4b;

pub const VRAM_SIZE: usize = 8192;

const TILE_MAP_START_LO: u16 = 0x9800 - PPU_START;

const TILE_MAP_START_HI: u16 = 0x9C00 - PPU_START;

const TILE_DATA_START_LO: u16 = 0x8000 - PPU_START;

const TILE_DATA_START_HI: u16 = 0x9000 - PPU_START;

const TILE_DATA_SIZE: u8 = 16;

/// Dots in a line.
pub const HBLANK_END: u32 = 456;

/// The first line of the vertical blank.
pub const VBLANK_START: u32 = 144;

/// Lines in a frame.
pub const VBLANK_END: u32 = 154;

/// What a PPU holds. Pixels are shades 0-3, as picked by the palettes.
pub struct PpuModel {
    pub vram: Seq<u8>,
    pub oam: Seq<u8>,
    pub lcdc: LcdControl,
    pub ly: u8,
    pub lyc: u8,
    pub stat: Status,
    pub bgp: u8,
    pub scx: u8,
    pub scy: u8,
    pub oam_cache: Seq<ObjectAttribute>,
    pub obp0: u8,
    pub obp1: u8,
    pub wy: u8,
    pub wx: u8,
    pub wstart: bool,
    pub win_line_counter: u32,
    pub win_drawn_this_line: bool,
    pub screen: Option<Seq<u8>>,
    pub pos: Pos,
}

/// The mode of the dot at `pos`: lines 144-153 are the vertical blank; a
/// line spends 80 dots in the OAM scan, 160 drawing, and the rest in HBlank.
pub open spec fn mode_for(pos: Pos) -> PpuMode {
    if pos.y >= VBLANK_START {
        PpuMode::VBlank
    } else if pos.x < 80 {
        PpuMode::OamScan
    } else if pos.x < 240 {
        PpuMode::Rendering
    } else {
        PpuMode::HBlank
    }
}

/// The 2-bit colour number of column `bit_x` (7 leftmost) of a tile row
/// stored as the bytes `lo` and `hi`.
pub open spec fn color_index(lo: u8, hi: u8, bit_x: u32) -> u8 {
    ((lo >> bit_x) & 1u8) | (((hi >> bit_x) & 1u8) << 1u8)
}

/// The shade a palette register gives colour number `ci`.
pub open spec fn shade_of(palette: u8, ci: u8) -> u8 {
    (palette >> ((ci * 2) as u8)) & 3u8
}

/// A tile number read as signed, for the $8800 addressing mode.
pub open spec fn signed_tile(index: u8) -> int {
    if index < 128 {
        index as int
    } else {
        index - 256
    }
}

/// Whether a stat interrupt source is selected for a mode.
pub open spec fn stat_trigger(stat: Status, mode: PpuMode) -> bool {
    match mode {
        PpuMode::HBlank => stat.mode0_int_select,
        PpuMode::VBlank => stat.mode1_int_select,
        PpuMode::OamScan => stat.mode2_int_select,
        PpuMode::Rendering => false,
    }
}

impl PpuModel {
    pub open spec fn wf(self) -> bool {
        &&& self.wf_core()
        &&& self.lcdc.ppu_enabled ==> self.stat.ppu_mode == mode_for(self.pos)
    }

    /// What holds between dots, but for the mode, which follows the
    /// position once a dot is done.
    pub open spec fn wf_core(self) -> bool {
        &&& self.vram.len() == VRAM_SIZE
        &&& self.oam.len() == OAM_SIZE
        &&& self.oam_cache.len() <= MAX_OBJS_PER_LINE
        &&& forall|j: int|
            0 <= j < self.oam_cache.len() ==> #[trigger] self.oam_cache[j].flags.palette_idx < 2
        &&& self.pos.x < HBLANK_END
        &&& self.pos.y < VBLANK_END
        &&& self.ly == self.pos.y
        &&& self.screen matches Some(s) ==> s.len() == NUM_PIXELS
        &&& self.lcdc.ppu_enabled ==> self.win_line_counter <= self.pos.y
    }

    /// The background position of a screen column, with the scroll applied.
    pub open spec fn scrolled_pos(self, screen_x: u32) -> Pos {
        Pos { x: ((screen_x + self.scx) % 256) as u32, y: ((self.pos.y + self.scy) % 256) as u32 }
    }

    /// Whether the window covers a screen column on this line.
    pub open spec fn draws_window(self, screen_x: u32) -> bool {
        self.lcdc.win_enabled && self.wstart && screen_x + 7 >= self.wx
    }

    /// The window position of a screen column the window covers.
    pub open spec fn window_pos(self, screen_x: u32) -> Pos {
        Pos { x: (screen_x + 7 - self.wx) as u32, y: self.win_line_counter }
    }

    /// The tile number at `p` in the low ($9800) or high ($9C00) tile map.
    pub open spec fn tile_map_entry(self, p: Pos, hi: bool) -> u8 {
        self.vram[(if hi {
            0x1c00int
        } else {
            0x1800int
        }) + (p.y / 8) * 32 + p.x / 8]
    }

    /// The offset in video memory of the row of tile `index` that `p` is on.
    pub open spec fn tile_data_location(self, index: u8, p: Pos) -> int {
        (if self.lcdc.win_and_bg_data_map_lo {
            index * 16
        } else {
            0x1000 + signed_tile(index) * 16
        }) + 2 * (p.y % 8)
    }

    /// The shade and colour number of the column of `p` in the tile row at
    /// `loc`.
    pub open spec fn tile_pixel(self, loc: int, p: Pos) -> (u8, u8) {
        let ci = color_index(self.vram[loc], self.vram[loc + 1], (7 - p.x % 8) as u32);
        (shade_of(self.bgp, ci), ci)
    }

    /// The background (or window) shade and colour number of a column.
    pub open spec fn bg_pixel(self, screen_x: u32) -> (u8, u8) {
        let win = self.draws_window(screen_x);
        let p = if win {
            self.window_pos(screen_x)
        } else {
            self.scrolled_pos(screen_x)
        };
        let index = self.tile_map_entry(
            p,
            if win {
                self.lcdc.win_tile_map_hi
            } else {
                self.lcdc.bg_tile_map_hi
            },
        );
        let loc = self.tile_data_location(index, p);
        if self.lcdc.bg_win_enable {
            self.tile_pixel(loc, p)
        } else {
            (self.bgp & 3u8, 0u8)
        }
    }

    pub open spec fn obj_height(self) -> u8 {
        if self.lcdc.obj_size_large {
            16
        } else {
            8
        }
    }

    /// The row of object `a` on the current line, before any flip.
    pub open spec fn obj_row(self, a: ObjectAttribute) -> int {
        self.pos.y + 16 - a.y_pos
    }

    /// Whether the current line falls on the rows of `a` that can be read:
    /// a flipped object can only be read within its height.
    pub open spec fn obj_drawable(self, a: ObjectAttribute) -> bool {
        &&& self.obj_row(a) >= 0
        &&& a.flags.flip_y ==> self.obj_row(a) <= self.obj_height() - 1
    }

    /// The shade of object `a` at a screen column, or `None` where the
    /// object is transparent (colour number 0).
    pub open spec fn obj_pixel(self, a: ObjectAttribute, screen_x: u32) -> Option<u8> {
        let x_rel = screen_x + 8 - a.x_pos;
        let bit_x = if a.flags.flip_x {
            x_rel % 8
        } else {
            7 - x_rel % 8
        };
        let tile = if self.lcdc.obj_size_large {
            a.tile_idx & 0xfeu8
        } else {
            a.tile_idx
        };
        let row = if a.flags.flip_y {
            self.obj_height() - 1 - self.obj_row(a)
        } else {
            self.obj_row(a)
        };
        let loc = tile * 16 + 2 * row;
        let ci = color_index(self.vram[loc], self.vram[loc + 1], bit_x as u32);
        if ci == 0 {
            None
        } else {
            Some(
                shade_of(
                    if a.flags.palette_idx == 0 {
                        self.obp0
                    } else {
                        self.obp1
                    },
                    ci,
                ),
            )
        }
    }

    /// The shade after drawing the first `n` of `objs`, in turn, over a
    /// pixel of shade `shade` and background colour number `bg_ci`. An
    /// object marked low priority only shows over background colour 0.
    pub open spec fn layer_objs(
        self,
        objs: Seq<ObjectAttribute>,
        screen_x: u32,
        bg_ci: u8,
        shade: u8,
        n: nat,
    ) -> u8
        decreases n,
    {
        if n == 0 {
            shade
        } else {
            let below = self.layer_objs(objs, screen_x, bg_ci, shade, (n - 1) as nat);
            let a = objs[n - 1];
            match self.obj_pixel(a, screen_x) {
                Some(c) => if !a.flags.low_priority || bg_ci == 0 {
                    c
                } else {
                    below
                },
                None => below,
            }
        }
    }

    /// The objects of this line at a column, in drawing order.
    pub open spec fn column_objs(self, screen_x: u32) -> Seq<ObjectAttribute> {
        in_draw_order(objs_at_column(self.oam_cache, screen_x, self.oam_cache.len()))
    }

    /// The column test adds 8 to each X byte of the line's objects, so none
    /// may be 248 or more; and each object at the column must be readable.
    pub open spec fn objs_ok(self, screen_x: u32) -> bool {
        &&& forall|j: int| 0 <= j < self.oam_cache.len() ==> #[trigger] self.oam_cache[j].x_pos < 248
        &&& forall|j: int|
            0 <= j < self.column_objs(screen_x).len() ==> self.obj_drawable(
                #[trigger] self.column_objs(screen_x)[j],
            )
    }

    /// The shade of the pixel at a screen column of the current line.
    pub open spec fn pixel(self, screen_x: u32) -> u8 {
        let (bg_shade, bg_ci) = self.bg_pixel(screen_x);
        if self.lcdc.obj_enabled {
            let objs = self.column_objs(screen_x);
            self.layer_objs(objs, screen_x, bg_ci, bg_shade, objs.len())
        } else {
            bg_shade
        }
    }

    /// Whether the current dot draws a pixel.
    pub open spec fn draws_pixel(self) -> bool {
        &&& self.lcdc.ppu_enabled
        &&& self.stat.ppu_mode == PpuMode::Rendering
        &&& self.pos.y < VBLANK_START
        &&& 80 <= self.pos.x < 240
    }

    /// The PPU after drawing the pixel of the current dot.
    pub open spec fn render_spec(self) -> PpuModel {
        let screen_x = (self.pos.x - 80) as u32;
        let shade = self.pixel(screen_x);
        PpuModel {
            win_drawn_this_line: self.win_drawn_this_line || self.draws_window(screen_x),
            screen: match self.screen {
                Some(s) => Some(s.update(pixel_index(Pos { x: screen_x, y: self.pos.y }), shade)),
                None => None,
            },
            ..self
        }
    }

    /// The end of a line: the window line counts on if the window showed,
    /// LY moves down (wrapping after line 153, which ends the frame), the
    /// LY = LYC flag is updated, and the objects of the new line are found.
    /// Returns the PPU, the interrupts raised and whether a frame ended.
    pub open spec fn end_line_spec(self) -> (PpuModel, u8, bool) {
        let wlc1 = if self.win_drawn_this_line {
            self.win_line_counter + 1
        } else {
            self.win_line_counter as int
        };
        let y1 = self.pos.y + 1;
        let frame = y1 == VBLANK_END;
        let y2 = if frame {
            0
        } else {
            y1
        };
        let ly = y2 as u8;
        let eq = ly == self.lyc;
        let raised = (if eq && self.stat.lyc_int_select {
            2u8
        } else {
            0u8
        }) | (if ly == 144 {
            1u8
        } else {
            0u8
        });
        let cache = if ly < 144 {
            oam_scan(self.oam, ly, self.obj_height(), 40)
        } else {
            self.oam_cache
        };
        (
            PpuModel {
                pos: Pos { x: 0, y: y2 as u32 },
                win_line_counter: if frame {
                    0
                } else {
                    wlc1 as u32
                },
                win_drawn_this_line: false,
                wstart: if frame {
                    false
                } else {
                    self.wstart
                },
                ly,
                stat: Status { lyc_eq_ly: eq, ..self.stat },
                oam_cache: cache,
                ..self
            },
            raised,
            frame,
        )
    }

    /// The move to the next dot.
    pub open spec fn advance_spec(self) -> (PpuModel, u8, bool) {
        if self.pos.x + 1 == HBLANK_END {
            self.end_line_spec()
        } else {
            (PpuModel { pos: Pos { x: (self.pos.x + 1) as u32, ..self.pos }, ..self }, 0u8, false)
        }
    }

    /// The move to the next dot, with the mode and window start updated.
    pub open spec fn update_pos_spec(self) -> (PpuModel, u8, bool) {
        let (m1, r1, frame) = self.advance_spec();
        let (m2, r2) = m1.mode_update_spec();
        (m2, r1 | r2, frame)
    }

    /// The mode set from the position (raising the LCD interrupt when the
    /// mode changes to one whose source is selected), and the window
    /// started once LY reaches WY.
    pub open spec fn mode_update_spec(self) -> (PpuModel, u8) {
        let mode = mode_for(self.pos);
        let (m2, r2) = if mode != self.stat.ppu_mode {
            (
                PpuModel { stat: Status { ppu_mode: mode, ..self.stat }, ..self },
                if stat_trigger(self.stat, mode) {
                    2u8
                } else {
                    0u8
                },
            )
        } else {
            (self, 0u8)
        };
        let m3 = if m2.wy == m2.ly {
            PpuModel { wstart: true, ..m2 }
        } else {
            m2
        };
        (m3, r2)
    }

    /// Whether the current dot can be run: a dot that draws a pixel with
    /// the objects on needs `objs_ok`.
    pub open spec fn dot_ok(self) -> bool {
        self.draws_pixel() && self.lcdc.obj_enabled ==> self.objs_ok((self.pos.x - 80) as u32)
    }

    /// One dot. A PPU that is off does nothing; so does one that is in the
    /// drawing mode outside the drawing area.
    pub open spec fn dot_spec(self) -> (PpuModel, u8, bool) {
        if !self.lcdc.ppu_enabled {
            (self, 0u8, false)
        } else if self.stat.ppu_mode == PpuMode::Rendering && !self.draws_pixel() {
            (self, 0u8, false)
        } else if self.draws_pixel() {
            self.render_spec().update_pos_spec()
        } else {
            self.update_pos_spec()
        }
    }

    /// `n` dots: the PPU, the interrupts raised, whether a frame ended.
    pub open spec fn steps_spec(self, n: nat) -> (PpuModel, u8, bool)
        decreases n,
    {
        if n == 0 {
            (self, 0u8, false)
        } else {
            let (m1, r1, f1) = self.steps_spec((n - 1) as nat);
            let (m2, r2, f2) = m1.dot_spec();
            (m2, r1 | r2, f1 || f2)
        }
    }

    /// Whether each of `n` dots can be run.
    pub open spec fn steps_ok(self, n: nat) -> bool
        decreases n,
    {
        n == 0 || (self.steps_ok((n - 1) as nat) && self.steps_spec((n - 1) as nat).0.dot_ok())
    }

    pub open spec fn read_spec(self, addr: u16) -> Result<u8, GbErrorType> {
        if PPU_START <= addr <= PPU_END {
            Ok(self.vram[addr - PPU_START])
        } else if OAM_START <= addr <= OAM_END {
            Ok(self.oam[addr - OAM_START])
        } else {
            Err(GbErrorType::BadValue)
        }
    }

    pub open spec fn write_spec(self, addr: u16, data: u8) -> (PpuModel, Result<(), GbErrorType>) {
        if PPU_START <= addr <= PPU_END {
            (PpuModel { vram: self.vram.update(addr - PPU_START, data), ..self }, Ok(()))
        } else if OAM_START <= addr <= OAM_END {
            (PpuModel { oam: self.oam.update(addr - OAM_START, data), ..self }, Ok(()))
        } else {
            (self, Err(GbErrorType::BadValue))
        }
    }

    /// The LCD registers; unsupported ones read 0.
    pub open spec fn io_read_spec(self, addr: u16) -> u8 {
        if addr == LCDC_ADDR {
            self.lcdc.spec_to_u8()
        } else if addr == STAT_ADDR {
            self.stat.spec_to_u8()
        } else if addr == LY_ADDR {
            self.ly
        } else if addr == LYC_ADDR {
            self.lyc
        } else if addr == BGP_ADDR {
            self.bgp
        } else if addr == SCY_ADDR {
            self.scy
        } else if addr == SCX_ADDR {
            self.scx
        } else if addr == OBP0_ADDR {
            self.obp0
        } else if addr == OBP1_ADDR {
            self.obp1
        } else if addr == WY_ADDR {
            self.wy
        } else if addr == WX_ADDR {
            self.wx
        } else {
            0
        }
    }

    /// A write to LCDC; turning the LCD off or on restarts the frame.
    pub open spec fn lcdc_write_spec(self, data: u8) -> PpuModel {
        let lcdc = <LcdControl as FromSpec<u8>>::from_spec(data);
        let m = PpuModel { lcdc, ..self };
        if self.lcdc.ppu_enabled && !lcdc.ppu_enabled {
            PpuModel {
                ly: 0,
                pos: Pos { x: 0, y: 0 },
                stat: Status { ppu_mode: PpuMode::HBlank, ..m.stat },
                ..m
            }
        } else if !self.lcdc.ppu_enabled && lcdc.ppu_enabled {
            PpuModel {
                ly: 0,
                pos: Pos { x: 0, y: 0 },
                stat: Status { ppu_mode: PpuMode::OamScan, ..m.stat },
                win_line_counter: 0,
                win_drawn_this_line: false,
                ..m
            }
        } else {
            m
        }
    }

    /// The LCD registers; LY and unsupported registers ignore writes, and
    /// STAT keeps its read-only bits.
    pub open spec fn io_write_spec(self, addr: u16, data: u8) -> PpuModel {
        if addr == LCDC_ADDR {
            self.lcdc_write_spec(data)
        } else if addr == STAT_ADDR {
            let w = <Status as FromSpec<u8>>::from_spec(data);
            PpuModel {
                stat: Status {
                    mode0_int_select: w.mode0_int_select,
                    mode1_int_select: w.mode1_int_select,
                    mode2_int_select: w.mode2_int_select,
                    lyc_int_select: w.lyc_int_select,
                    ..self.stat
                },
                ..self
            }
        } else if addr == LYC_ADDR {
            PpuModel { lyc: data, ..self }
        } else if addr == BGP_ADDR {
            PpuModel { bgp: data, ..self }
        } else if addr == SCY_ADDR {
            PpuModel { scy: data, ..self }
        } else if addr == SCX_ADDR {
            PpuModel { scx: data, ..self }
        } else if addr == OBP0_ADDR {
            PpuModel { obp0: data, ..self }
        } else if addr == OBP1_ADDR {
            PpuModel { obp1: data, ..self }
        } else if addr == WY_ADDR {
            PpuModel { wy: data, ..self }
        } else if addr == WX_ADDR {
            PpuModel { wx: data, ..self }
        } else {
            self
        }
    }
}

pub struct Ppu {
    vram: Vec<u8>,
    oam: Vec<u8>,
    /// LCD control register
    lcdc: LcdControl,
    /// LCD y coordinate, 0-153 (read-only)
    ly: u8,
    /// the value LY is compared against
    lyc: u8,
    /// LCD status register
    stat: Status,
    /// background palette
    bgp: u8,
    scx: u8,
    scy: u8,
    /// the objects of the current line (at most 10)
    oam_cache: Vec<ObjectAttribute>,
    /// object palettes
    obp0: u8,
    obp1: u8,
    /// window position
    wy: u8,
    wx: u8,
    wstart: bool,
    win_line_counter: u32,
    win_drawn_this_line: bool,
    /// the frame drawn to, if one is connected
    screen: Option<HeadlessScreen>,
    /// the dot being drawn
    pos: Pos,
}

impl View for Ppu {
    type V = PpuModel;

    closed spec fn view(&self) -> PpuModel {
        PpuModel {
            vram: self.vram@,
            oam: self.oam@,
            lcdc: self.lcdc,
            ly: self.ly,
            lyc: self.lyc,
            stat: self.stat,
            bgp: self.bgp,
            scx: self.scx,
            scy: self.scy,
            oam_cache: self.oam_cache@,
            obp0: self.obp0,
            obp1: self.obp1,
            wy: self.wy,
            wx: self.wx,
            wstart: self.wstart,
            win_line_counter: self.win_line_counter,
            win_drawn_this_line: self.win_drawn_this_line,
            screen: match &self.screen {
                Some(s) => Some(s@),
                None => None,
            },
            pos: self.pos,
        }
    }
}

impl Ppu {
    /// A PPU that is off, with zeroed memory and registers.
    pub fn new() -> (p: Ppu)
        ensures
            p@.wf(),
            p@.vram == Seq::new(VRAM_SIZE as nat, |_i: int| 0u8),
            p@.oam == Seq::new(OAM_SIZE as nat, |_i: int| 0u8),
            p@.lcdc == <LcdControl as FromSpec<u8>>::from_spec(0),
            p@.stat == (Status { ppu_mode: PpuMode::HBlank, ..<Status as FromSpec<u8>>::from_spec(0) }),
            p@.ly == 0 && p@.lyc == 0 && p@.bgp == 0 && p@.scx == 0 && p@.scy == 0,
            p@.obp0 == 0 && p@.obp1 == 0 && p@.wy == 0 && p@.wx == 0,
            p@.oam_cache.len() == 0,
            !p@.wstart && p@.win_line_counter == 0 && !p@.win_drawn_this_line,
            p@.screen is None,
            p@.pos == (Pos { x: 0, y: 0 }),
    {
        // start in HBlank mode (the PPU is off)
        assert(!crate::bits::bit(0u8, 7)) by (bit_vector);
        let mut stat = Status::from(0u8);
        stat.ppu_mode = PpuMode::HBlank;
        let p = Ppu {
            vram: vec![0u8; VRAM_SIZE],
            oam: vec![0u8; OAM_SIZE],
            oam_cache: Vec::new(),
            lcdc: LcdControl::from(0u8),
            stat,
            ly: 0,
            lyc: 0,
            bgp: 0,
            obp0: 0,
            obp1: 0,
            scx: 0,
            scy: 0,
            wy: 0,
            wx: 0,
            wstart: false,
            win_line_counter: 0,
            win_drawn_this_line: false,
            screen: None,
            pos: Pos { x: 0, y: 0 },
        };
        assert(p@.vram =~= Seq::new(VRAM_SIZE as nat, |_i: int| 0u8));
        assert(p@.oam =~= Seq::new(OAM_SIZE as nat, |_i: int| 0u8));
        p
    }

    /// Connects the frame the PPU draws to; there is room for one.
    pub fn connect_screen(&mut self, screen: HeadlessScreen) -> (r: GbResult<()>)
        requires
            old(self)@.wf(),
            screen@.len() == NUM_PIXELS,
        ensures
            final(self)@.wf(),
            old(self)@.screen is None ==> final(self)@ == (PpuModel {
                screen: Some(screen@),
                ..old(self)@
            }) && r.is_ok(),
            old(self)@.screen is Some ==> final(self)@ == old(self)@ && outcome(r) == Err::<
                (),
                GbErrorType,
            >(GbErrorType::AlreadyInitialized),
    {
        if self.screen.is_some() {
            return Err(GbError::new(GbErrorType::AlreadyInitialized, "src/ppu.rs", 737));
        }
        self.screen = Some(screen);
        Ok(())
    }

    /// Whether the state is one that every PPU operation keeps: memory and
    /// caches of the right sizes, the position on the screen, and the mode
    /// that follows it.
    pub fn is_wf(&self) -> (b: bool)
        ensures
            b == self@.wf(),
    {
        let mut palettes_ok = true;
        let mut j: usize = 0;
        while j < self.oam_cache.len()
            invariant
                j <= self.oam_cache.len(),
                palettes_ok == forall|k: int|
                    0 <= k < j ==> #[trigger] self.oam_cache@[k].flags.palette_idx < 2,
            decreases self.oam_cache.len() - j,
        {
            if self.oam_cache[j].flags.palette_idx >= 2 {
                palettes_ok = false;
            }
            j = j + 1;
        }
        let screen_ok = match &self.screen {
            Some(s) => s.pixels().len() == NUM_PIXELS,
            None => true,
        };
        let mode = if self.pos.y >= VBLANK_START {
            PpuMode::VBlank
        } else if self.pos.x < 80 {
            PpuMode::OamScan
        } else if self.pos.x < 240 {
            PpuMode::Rendering
        } else {
            PpuMode::HBlank
        };
        palettes_ok && screen_ok && self.vram.len() == VRAM_SIZE && self.oam.len() == OAM_SIZE
            && self.oam_cache.len() <= MAX_OBJS_PER_LINE && self.pos.x < HBLANK_END
            && self.pos.y < VBLANK_END && self.ly as u32 == self.pos.y && (!self.lcdc.ppu_enabled
            || self.win_line_counter <= self.pos.y) && (!self.lcdc.ppu_enabled
            || self.stat.ppu_mode == mode)
    }

    /// Whether the next dot can be run: a dot that draws a pixel with the
    /// objects on needs their X bytes below 248 and each object at its
    /// column readable on the current line.
    pub fn can_dot(&self) -> (b: bool)
        requires
            self@.wf(),
        ensures
            b == self@.dot_ok(),
    {
        let draws = self.lcdc.ppu_enabled && self.stat.ppu_mode == PpuMode::Rendering && self.pos.y
            < VBLANK_START && 80 <= self.pos.x && self.pos.x < 240;
        if !(draws && self.lcdc.obj_enabled) {
            return true;
        }
        let mut j: usize = 0;
        while j < self.oam_cache.len()
            invariant
                j <= self.oam_cache.len(),
                self@.wf(),
                self@.draws_pixel() && self@.lcdc.obj_enabled,
                forall|k: int| 0 <= k < j ==> #[trigger] self@.oam_cache[k].x_pos < 248,
            decreases self.oam_cache.len() - j,
        {
            if self.oam_cache[j].x_pos >= 248 {
                proof {
                    assert(self@.draws_pixel());
                    assert(self@.oam_cache[j as int].x_pos >= 248);
                }
                return false;
            }
            j = j + 1;
        }
        let screen_x = self.pos.x - 80;
        let objs = self.get_available_cached_objs(screen_x);
        let height: u32 = if self.lcdc.obj_size_large {
            16
        } else {
            8
        };
        let top = self.pos.y + 16;
        let mut k: usize = 0;
        assert(self@.draws_pixel());
        while k < objs.len()
            invariant
                k <= objs.len(),
                objs@ == self@.column_objs(screen_x),
                self@.draws_pixel() && self@.lcdc.obj_enabled,
                screen_x == (self@.pos.x - 80) as u32,
                forall|q: int| 0 <= q < self@.oam_cache.len() ==> #[trigger] self@.oam_cache[q].x_pos < 248,
                top == self@.pos.y + 16,
                height == self@.obj_height(),
                forall|q: int| 0 <= q < k ==> self@.obj_drawable(#[trigger] objs@[q]),
            decreases objs.len() - k,
        {
            let a = objs[k];
            if top < a.y_pos as u32 || (a.flags.flip_y && top - a.y_pos as u32 > height - 1) {
                proof {
                    assert(self@.draws_pixel());
                    assert(!self@.obj_drawable(self@.column_objs(screen_x)[k as int]));
                }
                return false;
            }
            k = k + 1;
        }
        true
    }

    /// The connected frame, if any.
    pub fn screen(&self) -> (s: Option<&HeadlessScreen>)
        ensures
            match s {
                Some(f) => self@.screen == Some(f@),
                None => self@.screen is None,
            },
    {
        match &self.screen {
            Some(f) => Some(f),
            None => None,
        }
    }

    pub fn read(&self, addr: u16) -> (r: GbResult<u8>)
        requires
            self@.wf(),
        ensures
            outcome(r) == self@.read_spec(addr),
    {
        if PPU_START <= addr && addr <= PPU_END {
            Ok(self.vram[(addr - PPU_START) as usize])
        } else if OAM_START <= addr && addr <= OAM_END {
            Ok(self.oam[(addr - OAM_START) as usize])
        } else {
            Err(GbError::new(GbErrorType::BadValue, "src/ppu.rs", 876))
        }
    }

    pub fn write(&mut self, addr: u16, data: u8) -> (r: GbResult<()>)
        requires
            old(self)@.wf(),
        ensures
            (final(self)@, outcome(r)) == old(self)@.write_spec(addr, data),
            final(self)@.wf(),
    {
        if PPU_START <= addr && addr <= PPU_END {
            self.vram.set((addr - PPU_START) as usize, data);
        } else if OAM_START <= addr && addr <= OAM_END {
            self.oam.set((addr - OAM_START) as usize, data);
        } else {
            return Err(GbError::new(GbErrorType::BadValue, "src/ppu.rs", 892));
        }
        Ok(())
    }

    pub fn io_read(&self, addr: u16) -> (r: GbResult<u8>)
        ensures
            outcome(r) == Ok::<u8, GbErrorType>(self@.io_read_spec(addr)),
    {
        if addr == LCDC_ADDR {
            Ok(u8::from(self.lcdc))
        } else if addr == STAT_ADDR {
            Ok(u8::from(self.stat))
        } else if addr == LY_ADDR {
            Ok(self.ly)
        } else if addr == LYC_ADDR {
            Ok(self.lyc)
        } else if addr == BGP_ADDR {
            Ok(self.bgp)
        } else if addr == SCY_ADDR {
            Ok(self.scy)
        } else if addr == SCX_ADDR {
            Ok(self.scx)
        } else if addr == OBP0_ADDR {
            Ok(self.obp0)
        } else if addr == OBP1_ADDR {
            Ok(self.obp1)
        } else if addr == WY_ADDR {
            Ok(self.wy)
        } else if addr == WX_ADDR {
            Ok(self.wx)
        } else {
            Ok(0)
        }
    }

    pub fn io_write(&mut self, addr: u16, data: u8) -> (r: GbResult<()>)
        requires
            old(self)@.wf(),
        ensures
            final(self)@ == old(self)@.io_write_spec(addr, data),
            final(self)@.wf(),
            r.is_ok(),
    {
        if addr == LCDC_ADDR {
            let old_ppu_enabled = self.lcdc.ppu_enabled;
            self.lcdc = LcdControl::from(data);
            if old_ppu_enabled && !self.lcdc.ppu_enabled {
                self.ly = 0;
                self.pos.x = 0;
                self.pos.y = 0;
                self.stat.ppu_mode = PpuMode::HBlank;
            } else if !old_ppu_enabled && self.lcdc.ppu_enabled {
                self.ly = 0;
                self.pos.x = 0;
                self.pos.y = 0;
                self.stat.ppu_mode = PpuMode::OamScan;
                self.win_line_counter = 0;
                self.win_drawn_this_line = false;
            }
        } else if addr == STAT_ADDR {
            self.stat.write(data);
        } else if addr == LYC_ADDR {
            self.lyc = data;
        } else if addr == BGP_ADDR {
            self.bgp = data;
        } else if addr == SCY_ADDR {
            self.scy = data;
        } else if addr == SCX_ADDR {
            self.scx = data;
        } else if addr == OBP0_ADDR {
            self.obp0 = data;
        } else if addr == OBP1_ADDR {
            self.obp1 = data;
        } else if addr == WY_ADDR {
            self.wy = data;
        } else if addr == WX_ADDR {
            self.wx = data;
        }
        Ok(())
    }

    /// The background position of a screen column, with the scroll applied.
    fn pos_with_scroll(&self, screen_x: u32) -> (p: Pos)
        requires
            screen_x < 160,
            self@.pos.y < VBLANK_END,
        ensures
            p == self@.scrolled_pos(screen_x),
            p.x < 256 && p.y < 256,
    {
        Pos { x: (screen_x + self.scx as u32) % 256, y: (self.pos.y + self.scy as u32) % 256 }
    }

    /// The background tile number at `pos`.
    fn get_bg_tile_map_entry(&self, pos: Pos) -> (e: u8)
        requires
            self@.wf(),
            pos.x < 256,
            pos.y < 256,
        ensures
            e == self@.tile_map_entry(pos, self@.lcdc.bg_tile_map_hi),
    {
        // a tile map is 32x32 one-byte tile numbers
        let y_byte = (pos.y / 8) as u16;
        let x_byte = (pos.x / 8) as u16;
        let map_index = y_byte * 32 + x_byte;
        let map_start = if self.lcdc.bg_tile_map_hi {
            TILE_MAP_START_HI
        } else {
            TILE_MAP_START_LO
        };
        self.vram[(map_start + map_index) as usize]
    }

    /// The window tile number at `pos`.
    fn get_win_tile_map_entry(&self, pos: Pos) -> (e: u8)
        requires
            self@.wf(),
            pos.x < 256,
            pos.y < 256,
        ensures
            e == self@.tile_map_entry(pos, self@.lcdc.win_tile_map_hi),
    {
        let y_byte = (pos.y / 8) as u16;
        let x_byte = (pos.x / 8) as u16;
        let map_index = y_byte * 32 + x_byte;
        let map_start = if self.lcdc.win_tile_map_hi {
            TILE_MAP_START_HI
        } else {
            TILE_MAP_START_LO
        };
        self.vram[(map_start + map_index) as usize]
    }

    /// The offset in video memory of the row of tile `index` that
    /// `scrolled_pos` is on.
    fn get_tile_data_location(&self, index: u8, scrolled_pos: Pos) -> (loc: u16)
        requires
            scrolled_pos.y < 256,
        ensures
            loc == self@.tile_data_location(index, scrolled_pos),
            loc + 1 < VRAM_SIZE,
    {
        let location_start: u16 = if self.lcdc.win_and_bg_data_map_lo {
            assert(index as u16 * TILE_DATA_SIZE as u16 <= 4080) by (nonlinear_arith)
                requires
                    index < 256,
                    TILE_DATA_SIZE == 16,
            ;
            TILE_DATA_START_LO + (index as u16 * TILE_DATA_SIZE as u16)
        } else {
            // this mode indexes with a signed tile number, backwards from $9000
            let signed_index = #[verifier::truncate] (index as i8);
            proof {
                assert(signed_index as int == signed_tile(index)) by (bit_vector)
                    requires
                        signed_index == #[verifier::truncate] (index as i8),
                ;
            }
            assert(-2048 <= signed_index as i32 * TILE_DATA_SIZE as i32 <= 2032) by (nonlinear_arith)
                requires
                    -128 <= signed_index <= 127,
                    TILE_DATA_SIZE == 16,
            ;
            let signed_start: i32 = TILE_DATA_START_HI as i32 + (signed_index as i32
                * TILE_DATA_SIZE as i32);
            assert(2048 <= signed_start <= 6128);
            signed_start as u16
        };
        assert(location_start <= 6128);
        // a tile row is 2 bytes
        let fine_y = scrolled_pos.y as u16 % 8;
        location_start + (2 * fine_y)
    }

    /// The shade and colour number of the column of `scrolled_pos` in the
    /// background tile row at `tile_data_location`.
    fn get_color_from_tile_data(&self, tile_data_location: u16, scrolled_pos: Pos) -> (r: (u8, u8))
        requires
            self@.wf(),
            tile_data_location + 1 < VRAM_SIZE,
        ensures
            r == self@.tile_pixel(tile_data_location as int, scrolled_pos),
            r.1 < 4,
    {
        let bit_x = 7 - scrolled_pos.x % 8;
        let lo_byte = self.vram[tile_data_location as usize];
        let hi_byte = self.vram[tile_data_location as usize + 1];
        let col_index = ((lo_byte >> bit_x) & 0x1) | (((hi_byte >> bit_x) & 0x1) << 1u8);
        proof {
            lemma_color_index_small(lo_byte, hi_byte, bit_x);
        }
        let palette_index = (self.bgp >> (col_index * 2)) & 0x3;
        (palette_index, col_index)
    }

    /// The shade of an object at a screen column, or `None` where it is
    /// transparent.
    fn get_color_from_attribute(&self, attribute: &ObjectAttribute, screen_x: u32) -> (r: Option<u8>)
        requires
            self@.wf(),
            screen_x < 160,
            self@.pos.y < VBLANK_START,
            covers_column(*attribute, screen_x),
            attribute.flags.palette_idx < 2,
            self@.obj_drawable(*attribute),
        ensures
            r == self@.obj_pixel(*attribute, screen_x),
    {
        let x_rel = (screen_x + 8) - attribute.x_pos as u32;
        let bit_x = if attribute.flags.flip_x {
            x_rel % 8
        } else {
            7 - (x_rel % 8)
        };
        let tile_idx = if self.lcdc.obj_size_large {
            attribute.tile_idx & 0xFE
        } else {
            attribute.tile_idx
        };
        assert(tile_idx as usize * TILE_DATA_SIZE as usize <= 4080) by (nonlinear_arith)
            requires
                tile_idx < 256,
                TILE_DATA_SIZE == 16,
        ;
        let mut tile_data_location = tile_idx as usize * TILE_DATA_SIZE as usize;
        let mut fine_y = ((self.pos.y + 16) as u8 - attribute.y_pos) as usize;
        if attribute.flags.flip_y {
            let max_y: usize = if self.lcdc.obj_size_large {
                15
            } else {
                7
            };
            fine_y = max_y - fine_y;
        }
        tile_data_location = tile_data_location + 2 * fine_y;
        let lo_byte = self.vram[tile_data_location];
        let hi_byte = self.vram[tile_data_location + 1];
        let col_index = ((lo_byte >> bit_x) & 0x1) | (((hi_byte >> bit_x) & 0x1) << 1u8);
        proof {
            lemma_color_index_small(lo_byte, hi_byte, bit_x);
        }
        let palette = if attribute.flags.palette_idx == 0 {
            self.obp0
        } else {
            self.obp1
        };
        let palette_index = (palette >> (col_index * 2)) & 0x3;
        // colour number 0 is transparent
        if col_index == 0 {
            None
        } else {
            Some(palette_index)
        }
    }

    /// The objects of this line that cover a screen column, in drawing
    /// order.
    fn get_available_cached_objs(&self, screen_x: u32) -> (objs: Vec<ObjectAttribute>)
        requires
            self@.wf(),
            screen_x < 160,
            forall|j: int|
                0 <= j < self@.oam_cache.len() ==> #[trigger] self@.oam_cache[j].x_pos < 248,
        ensures
            objs@ == self@.column_objs(screen_x),
    {
        let mut objs: Vec<ObjectAttribute> = Vec::new();
        let mut i: usize = 0;
        while i < self.oam_cache.len()
            invariant
                self@.wf(),
                screen_x < 160,
                forall|j: int|
                    0 <= j < self@.oam_cache.len() ==> #[trigger] self@.oam_cache[j].x_pos < 248,
                i <= self.oam_cache.len(),
                objs@ == objs_at_column(self@.oam_cache, screen_x, i as nat),
                objs.len() <= i,
            decreases self.oam_cache.len() - i,
        {
            let attribute = self.oam_cache[i];
            let col: u8 = screen_x as u8 + 8;
            if attribute.x_pos <= col && col < attribute.x_pos + 8 {
                objs.push(attribute);
            }
            i = i + 1;
        }
        sort_obj_attributes_by_rev_render_order(&mut objs);
        objs
    }

    /// Finds the objects of line LY, in OAM order, at most ten.
    fn fill_oam_cache(&mut self)
        requires
            old(self)@.wf_core(),
            old(self)@.ly < VBLANK_START,
        ensures
            final(self)@ == (PpuModel {
                oam_cache: oam_scan(old(self)@.oam, old(self)@.ly, old(self)@.obj_height(), 40),
                ..old(self)@
            }),
    {
        self.oam_cache.clear();
        let mut obj_idx: usize = 0;
        let obj_height: u8 = if self.lcdc.obj_size_large {
            16
        } else {
            8
        };
        let ghost oam = self@.oam;
        let ghost ly = self@.ly;
        while obj_idx < OAM_SIZE && self.oam_cache.len() < MAX_OBJS_PER_LINE
            invariant
                self@ == (PpuModel { oam_cache: self@.oam_cache, ..old(self)@ }),
                oam == self@.oam,
                ly == self@.ly,
                ly < VBLANK_START,
                self@.wf_core(),
                obj_height == self@.obj_height(),
                obj_idx % 4 == 0,
                obj_idx <= OAM_SIZE,
                self@.oam_cache == oam_scan(oam, ly, obj_height, (obj_idx / 4) as nat),
            decreases OAM_SIZE - obj_idx,
        {
            proof {
                lemma_oam_scan_bounded(oam, ly, obj_height, (obj_idx / 4) as nat, 0);
            }
            // the Y byte comes first
            let obj_y = self.oam[obj_idx];
            // a hidden object is not kept
            if obj_y < 160 {
                // Y is 16 above the first line the object covers
                if obj_y <= self.ly + 16 && self.ly + 16 < obj_y + obj_height {
                    let obj_bytes: [u8; 4] = [
                        self.oam[obj_idx],
                        self.oam[obj_idx + 1],
                        self.oam[obj_idx + 2],
                        self.oam[obj_idx + 3],
                    ];
                    let mut attr = ObjectAttribute::from(obj_bytes);
                    attr.oam_idx = obj_idx;
                    proof {
                        assert(attr == slot_attr(oam, obj_idx as int));
                    }
                    self.oam_cache.push(attr);
                }
            }
            // an object takes 4 bytes
            obj_idx = obj_idx + 4;
            proof {
                assert((obj_idx / 4) as nat == ((obj_idx - 4) / 4) as nat + 1);
            }
        }
        proof {
            let k = (obj_idx / 4) as nat;
            lemma_oam_scan_bounded(oam, ly, obj_height, k, (40 - k) as nat);
            lemma_oam_scan_palettes(oam, ly, obj_height, 40);
        }
    }

    /// Sets the LY = LYC flag, and raises the LCD interrupt when it is set
    /// and selected.
    fn update_lyc(&mut self, ic: &mut Interrupts)
        ensures
            final(self)@ == (PpuModel {
                stat: Status { lyc_eq_ly: old(self)@.ly == old(self)@.lyc, ..old(self)@.stat },
                ..old(self)@
            }),
            final(ic)@.ie == old(ic)@.ie,
            final(ic)@.iflag == old(ic)@.iflag | (if old(self)@.ly == old(self)@.lyc
                && old(self)@.stat.lyc_int_select {
                2u8
            } else {
                0u8
            }),
    {
        self.stat.lyc_eq_ly = self.ly == self.lyc;
        if self.stat.lyc_eq_ly && self.stat.lyc_int_select {
            ic.raise(Interrupt::Lcd);
        } else {
            proof {
                lemma_or_zero(old(ic)@.iflag);
            }
        }
    }

    /// Raises the LCD interrupt if the source of the current mode is
    /// selected.
    fn check_stat_interrupt(&self, ic: &mut Interrupts)
        ensures
            final(ic)@.ie == old(ic)@.ie,
            final(ic)@.iflag == old(ic)@.iflag | (if stat_trigger(self@.stat, self@.stat.ppu_mode) {
                2u8
            } else {
                0u8
            }),
    {
        let trigger = match self.stat.ppu_mode {
            PpuMode::HBlank => self.stat.mode0_int_select,
            PpuMode::VBlank => self.stat.mode1_int_select,
            PpuMode::OamScan => self.stat.mode2_int_select,
            PpuMode::Rendering => false,
        };
        if trigger {
            ic.raise(Interrupt::Lcd);
        } else {
            proof {
                lemma_or_zero(old(ic)@.iflag);
            }
        }
    }

    /// The end of a line: moves to the start of the next line, or after the
    /// last line of the vertical blank back to line 0.
    fn end_line(&mut self, ic: &mut Interrupts) -> (is_new_frame: bool)
        requires
            old(self)@.wf(),
            old(self)@.lcdc.ppu_enabled,
        ensures
            final(self)@ == old(self)@.end_line_spec().0,
            final(ic)@.iflag == old(ic)@.iflag | old(self)@.end_line_spec().1,
            final(ic)@.ie == old(ic)@.ie,
            is_new_frame == old(self)@.end_line_spec().2,
            final(self)@.wf_core(),
    {
        let ghost m0 = self@;
        let ghost if0 = ic@.iflag;
        let mut is_new_frame = false;
        self.pos.x = 0;
        if self.win_drawn_this_line {
            self.win_line_counter = self.win_line_counter + 1;
            self.win_drawn_this_line = false;
        }
        self.pos.y = self.pos.y + 1;
        if self.pos.y == VBLANK_END {
            // a new frame
            is_new_frame = true;
            self.wstart = false;
            self.win_line_counter = 0;
            self.pos.y = 0;
        }
        self.ly = self.pos.y as u8;
        self.update_lyc(ic);
        let ghost if2 = ic@.iflag;
        if self.ly == VBLANK_START as u8 {
            ic.raise(Interrupt::Vblank);
        } else {
            proof {
                lemma_or_zero(if2);
            }
        }
        if self.ly < VBLANK_START as u8 {
            self.fill_oam_cache();
        }
        proof {
            let m1 = m0.end_line_spec().0;
            lemma_or_assoc(if0, if (m1.ly == m0.lyc && m0.stat.lyc_int_select) {
                2u8
            } else {
                0u8
            }, if m1.ly == 144 {
                1u8
            } else {
                0u8
            });
            if m1.ly < 144 {
                lemma_oam_scan_bounded(m0.oam, m1.ly, m0.obj_height(), 40, 0);
                lemma_oam_scan_palettes(m0.oam, m1.ly, m0.obj_height(), 40);
            }
        }
        is_new_frame
    }

    /// Moves to the next dot, then updates the mode (raising the LCD
    /// interrupt if the new mode's source is selected) and the window start.
    fn update_pos(&mut self, ic: &mut Interrupts) -> (is_new_frame: bool)
        requires
            old(self)@.wf(),
            old(self)@.lcdc.ppu_enabled,
        ensures
            final(self)@ == old(self)@.update_pos_spec().0,
            final(ic)@.iflag == old(ic)@.iflag | old(self)@.update_pos_spec().1,
            final(ic)@.ie == old(ic)@.ie,
            is_new_frame == old(self)@.update_pos_spec().2,
            final(self)@.wf(),
    {
        let ghost m0 = self@;
        let ghost if0 = ic@.iflag;
        let mut is_new_frame = false;
        // x always advances; past the last dot the line ends
        if self.pos.x + 1 == HBLANK_END {
            is_new_frame = self.end_line(ic);
        } else {
            self.pos.x = self.pos.x + 1;
            proof {
                lemma_or_zero(if0);
            }
        }
        let ghost m1 = self@;
        assert(m1 == m0.advance_spec().0);
        assert(ic@.iflag == if0 | m0.advance_spec().1);
        self.update_mode(ic);
        proof {
            lemma_or_assoc(if0, m0.advance_spec().1, m1.mode_update_spec().1);
        }
        is_new_frame
    }

    /// Sets the mode from the position and starts the window on line WY.
    fn update_mode(&mut self, ic: &mut Interrupts)
        requires
            old(self)@.wf_core(),
        ensures
            final(self)@ == old(self)@.mode_update_spec().0,
            final(ic)@.iflag == old(ic)@.iflag | old(self)@.mode_update_spec().1,
            final(ic)@.ie == old(ic)@.ie,
            final(self)@.wf(),
    {
        let ghost if3 = ic@.iflag;
        let new_mode = if self.pos.y >= VBLANK_START {
            PpuMode::VBlank
        } else if self.pos.x < 80 {
            PpuMode::OamScan
        } else if self.pos.x < 240 {
            PpuMode::Rendering
        } else {
            PpuMode::HBlank
        };
        if new_mode != self.stat.ppu_mode {
            self.stat.ppu_mode = new_mode;
            self.check_stat_interrupt(ic);
        } else {
            proof {
                lemma_or_zero(if3);
            }
        }
        if self.wy == self.ly {
            self.wstart = true;
        }
    }

    /// Draws the pixel of the current dot, if it is one that is drawn.
    fn render(&mut self)
        requires
            old(self)@.wf(),
            old(self)@.draws_pixel(),
            old(self)@.lcdc.obj_enabled ==> old(self)@.objs_ok((old(self)@.pos.x - 80) as u32),
        ensures
            final(self)@ == old(self)@.render_spec(),
            final(self)@.wf(),
    {
        let ghost m0 = self@;
        let screen_x = self.pos.x - 80;
        // the pixel position, adjusted for scrolling
        let scrolled_pos = self.pos_with_scroll(screen_x);
        // the window, where it shows, is drawn in place of the background
        let draw_win = self.lcdc.win_enabled && self.wstart && screen_x as u8 + 7 >= self.wx;
        let pos = if draw_win {
            self.win_drawn_this_line = true;
            let y = self.win_line_counter;
            let x = (screen_x + 7) - self.wx as u32;
            Pos { x, y }
        } else {
            scrolled_pos
        };
        // the tile map gives the tile, the tile data its row of pixels
        let tile_data_index = if draw_win {
            self.get_win_tile_map_entry(pos)
        } else {
            self.get_bg_tile_map_entry(pos)
        };
        let tile_data = self.get_tile_data_location(tile_data_index, pos);
        let (mut pixel_color, bg_color_idx) = if self.lcdc.bg_win_enable {
            self.get_color_from_tile_data(tile_data, pos)
        } else {
            // with LCDC bit 0 off the background shows colour 0
            (self.bgp & 0x3, 0)
        };
        assert((pixel_color, bg_color_idx) == m0.bg_pixel(screen_x));
        if self.lcdc.obj_enabled {
            let objs = self.get_available_cached_objs(screen_x);
            proof {
                let pal = |a: ObjectAttribute| a.flags.palette_idx < 2;
                lemma_objs_at_column_all(m0.oam_cache, screen_x, m0.oam_cache.len(), pal);
                let taken = objs_at_column(m0.oam_cache, screen_x, m0.oam_cache.len());
                let both = |a: ObjectAttribute| a.flags.palette_idx < 2 && covers_column(a, screen_x);
                assert forall|k: int| 0 <= k < taken.len() implies #[trigger] both(taken[k]) by {
                    assert(pal(taken[k]));
                }
                lemma_in_draw_order_all(taken, both);
            }
            let mut i: usize = 0;
            while i < objs.len()
                invariant
                    self@ == (PpuModel { win_drawn_this_line: self@.win_drawn_this_line, ..m0 }),
                    m0.wf(),
                    m0.draws_pixel(),
                    screen_x == m0.pos.x - 80,
                    m0.objs_ok(screen_x),
                    objs@ == m0.column_objs(screen_x),
                    forall|j: int|
                        0 <= j < objs@.len() ==> #[trigger] objs@[j].flags.palette_idx < 2
                            && covers_column(objs@[j], screen_x),
                    i <= objs.len(),
                    bg_color_idx == m0.bg_pixel(screen_x).1,
                    pixel_color == m0.layer_objs(
                        objs@,
                        screen_x,
                        bg_color_idx,
                        m0.bg_pixel(screen_x).0,
                        i as nat,
                    ),
                decreases objs.len() - i,
            {
                let attr = objs[i];
                assert(objs@[i as int].flags.palette_idx < 2);
                assert(m0.obj_drawable(attr));
                if let Some(obj_color) = self.get_color_from_attribute(&attr, screen_x) {
                    // a low priority object only shows over background colour 0
                    if !attr.flags.low_priority || bg_color_idx == 0 {
                        pixel_color = obj_color;
                    }
                }
                i = i + 1;
            }
        }
        // the pixel is drawn if a screen is connected
        let draw_pos = Pos { x: screen_x, y: self.pos.y };
        if let Some(screen) = &mut self.screen {
            screen.set_pixel(draw_pos, pixel_color);
        }
    }

    /// Runs one dot. Returns whether it ended a frame.
    fn step_one(&mut self, ic: &mut Interrupts) -> (is_new_frame: bool)
        requires
            old(self)@.wf(),
            old(self)@.dot_ok(),
        ensures
            final(self)@ == old(self)@.dot_spec().0,
            final(ic)@.iflag == old(ic)@.iflag | old(self)@.dot_spec().1,
            final(ic)@.ie == old(ic)@.ie,
            is_new_frame == old(self)@.dot_spec().2,
            final(self)@.wf(),
    {
        if !self.lcdc.ppu_enabled {
            proof {
                lemma_or_zero(old(ic)@.iflag);
            }
            return false;
        }
        // only the drawing mode draws
        if self.stat.ppu_mode == PpuMode::Rendering {
            if self.pos.y >= VBLANK_START || self.pos.x < 80 || self.pos.x >= 240 {
                proof {
                    lemma_or_zero(old(ic)@.iflag);
                }
                return false;
            }
            self.render();
        }
        self.update_pos(ic)
    }

    /// Runs `cycle_budget` dots. Returns whether one of them ended a frame.
    pub fn step(&mut self, cycle_budget: u32, ic: &mut Interrupts) -> (r: GbResult<bool>)
        requires
            old(self)@.wf(),
            old(self)@.steps_ok(cycle_budget as nat),
        ensures
            final(self)@ == old(self)@.steps_spec(cycle_budget as nat).0,
            final(ic)@.iflag == old(ic)@.iflag | old(self)@.steps_spec(cycle_budget as nat).1,
            final(ic)@.ie == old(ic)@.ie,
            outcome(r) == Ok::<bool, GbErrorType>(old(self)@.steps_spec(cycle_budget as nat).2),
            final(self)@.wf(),
    {
        let ghost m0 = self@;
        let ghost if0 = ic@.iflag;
        let mut should_render = false;
        let mut i: u32 = 0;
        proof {
            lemma_or_zero(if0);
        }
        while i < cycle_budget
            invariant
                i <= cycle_budget,
                m0.steps_ok(cycle_budget as nat),
                self@ == m0.steps_spec(i as nat).0,
                self@.wf(),
                ic@.iflag == if0 | m0.steps_spec(i as nat).1,
                ic@.ie == old(ic)@.ie,
                should_render == m0.steps_spec(i as nat).2,
            decreases cycle_budget - i,
        {
            proof {
                lemma_steps_ok_prefix(m0, cycle_budget as nat, (i + 1) as nat);
                lemma_or_assoc(if0, m0.steps_spec(i as nat).1, self@.dot_spec().1);
            }
            if self.step_one(ic) {
                should_render = true;
            }
            i = i + 1;
        }
        Ok(should_render)
    }
}

/// A run of dots that can be run has each of its first dots runnable.
proof fn lemma_steps_ok_prefix(m: PpuModel, n: nat, k: nat)
    requires
        m.steps_ok(n),
        k <= n,
    ensures
        m.steps_ok(k),
    decreases n - k,
{
    if k < n {
        lemma_steps_ok_prefix(m, (n - 1) as nat, k);
    }
}

/// Or-ing in nothing changes nothing.
proof fn lemma_or_zero(x: u8)
    ensures
        x | 0u8 == x,
{
    assert(x | 0u8 == x) by (bit_vector);
}

proof fn lemma_or_assoc(x: u8, a: u8, b: u8)
    ensures
        (x | a) | b == x | (a | b),
{
    assert((x | a) | b == x | (a | b)) by (bit_vector);
}

/// A colour number is 0-3.
proof fn lemma_color_index_small(lo: u8, hi: u8, bit_x: u32)
    ensures
        color_index(lo, hi, bit_x) < 4,
{
    assert(((lo >> bit_x) & 1u8) | (((hi >> bit_x) & 1u8) << 1u8) < 4) by (bit_vector);
}

/// The index of a dot in the frame: 456 dots per line, 154 lines.
pub open spec fn dot_index(p: Pos) -> int {
    p.y * HBLANK_END + p.x
}

/// Dots in a frame.
pub open spec fn frame_dots() -> int {
    HBLANK_END * VBLANK_END
}

proof fn lemma_render_keeps(m: PpuModel)
    requires
        m.wf(),
        m.draws_pixel(),
    ensures
        m.render_spec().wf(),
        m.render_spec().pos == m.pos,
        m.render_spec().ly == m.ly,
        m.render_spec().lcdc == m.lcdc,
        m.render_spec().stat == m.stat,
{
}

proof fn lemma_update_pos_keeps(m: PpuModel)
    requires
        m.wf_core(),
        m.lcdc.ppu_enabled,
    ensures
        m.update_pos_spec().0.wf(),
        m.update_pos_spec().0.lcdc == m.lcdc,
        m.update_pos_spec().0.pos == (if m.pos.x + 1 < HBLANK_END {
            Pos { x: (m.pos.x + 1) as u32, y: m.pos.y }
        } else if m.pos.y + 1 < VBLANK_END {
            Pos { x: 0, y: (m.pos.y + 1) as u32 }
        } else {
            Pos { x: 0, y: 0 }
        }),
        m.update_pos_spec().2 == (m.pos.x + 1 == HBLANK_END && m.pos.y + 1 == VBLANK_END),
{
    if m.pos.x + 1 == HBLANK_END {
        let ly = m.end_line_spec().0.ly;
        if ly < 144 {
            lemma_oam_scan_bounded(m.oam, ly, m.obj_height(), 40, 0);
            lemma_oam_scan_palettes(m.oam, ly, m.obj_height(), 40);
        }
    }
}

/// Each dot of an LCD that is on moves the PPU one dot on: along the line,
/// then to the start of the next line, and after the last dot of line 153
/// back to the first dot of line 0, which ends the frame. LY is the line.
pub proof fn lemma_dot_advances(m: PpuModel)
    requires
        m.wf(),
        m.lcdc.ppu_enabled,
    ensures
        m.dot_spec().0.wf(),
        m.dot_spec().0.lcdc == m.lcdc,
        m.dot_spec().0.ly == m.dot_spec().0.pos.y,
        dot_index(m.dot_spec().0.pos) == (dot_index(m.pos) + 1) % frame_dots(),
        m.dot_spec().2 == (dot_index(m.pos) + 1 == frame_dots()),
{
    if m.draws_pixel() {
        lemma_render_keeps(m);
        lemma_update_pos_keeps(m.render_spec());
    } else {
        lemma_update_pos_keeps(m);
    }
    let i = dot_index(m.pos);
    if i + 1 < frame_dots() {
        vstd::arithmetic::div_mod::lemma_small_mod((i + 1) as nat, frame_dots() as nat);
    } else {
        vstd::arithmetic::div_mod::lemma_mod_self_0(frame_dots());
    }
}

/// A frame of an LCD that is on lasts 70224 dots: `n` dots from any dot
/// reach the dot `n` further on in the frame, and end a frame exactly when
/// they pass the last dot of line 153.
pub proof fn lemma_steps_advance(m: PpuModel, n: nat)
    requires
        m.wf(),
        m.lcdc.ppu_enabled,
    ensures
        m.steps_spec(n).0.wf(),
        m.steps_spec(n).0.lcdc == m.lcdc,
        n > 0 ==> m.steps_spec(n).0.ly == m.steps_spec(n).0.pos.y,
        dot_index(m.steps_spec(n).0.pos) == (dot_index(m.pos) + n) % frame_dots(),
        n <= frame_dots() ==> (m.steps_spec(n).2 <==> dot_index(m.pos) + n >= frame_dots()),
    decreases n,
{
    let i = dot_index(m.pos);
    if n == 0 {
        vstd::arithmetic::div_mod::lemma_small_mod(i as nat, frame_dots() as nat);
    } else {
        lemma_steps_advance(m, (n - 1) as nat);
        let m1 = m.steps_spec((n - 1) as nat).0;
        lemma_dot_advances(m1);
        let f = frame_dots();
        // ((i + n - 1) % f + 1) % f == (i + n) % f
        vstd::arithmetic::div_mod::lemma_small_mod(1, f as nat);
        vstd::arithmetic::div_mod::lemma_add_mod_noop(i + n - 1, 1, f);
        assert(dot_index(m.steps_spec(n).0.pos) == (i + n) % f);
        if n <= f {
            if i + n - 1 < f {
                vstd::arithmetic::div_mod::lemma_small_mod((i + n - 1) as nat, f as nat);
            } else {
                vstd::arithmetic::div_mod::lemma_mod_sub_multiples_vanish(i + n - 1, f);
                vstd::arithmetic::div_mod::lemma_small_mod((i + n - 1 - f) as nat, f as nat);
            }
        }
    }
}

/// `a` with its X flip set to `v`.
pub open spec fn with_flip_x(a: ObjectAttribute, v: bool) -> ObjectAttribute {
    ObjectAttribute { flags: ObjAttrFlags { flip_x: v, ..a.flags }, ..a }
}

/// `a` with its Y flip set to `v`.
pub open spec fn with_flip_y(a: ObjectAttribute, v: bool) -> ObjectAttribute {
    ObjectAttribute { flags: ObjAttrFlags { flip_y: v, ..a.flags }, ..a }
}

/// `a` drawn through palette `v`.
pub open spec fn with_palette(a: ObjectAttribute, v: u8) -> ObjectAttribute {
    ObjectAttribute { flags: ObjAttrFlags { palette_idx: v, ..a.flags }, ..a }
}

/// The PPU drawing line `y`.
pub open spec fn on_line(p: PpuModel, y: u32) -> PpuModel {
    PpuModel { pos: Pos { y, ..p.pos }, ..p }
}

/// The PPU with OBP0 set to `v`.
pub open spec fn with_obp0(p: PpuModel, v: u8) -> PpuModel {
    PpuModel { obp0: v, ..p }
}

/// An object flipped in X shows at each of its columns what the same
/// object unflipped shows at the mirror column: column `c` (0 leftmost) of
/// the one is column `7 - c` of the other, on any line.
pub proof fn lemma_obj_flip_x_mirrors(p: PpuModel, a: ObjectAttribute, c: int)
    requires
        0 <= c < 8,
        a.x_pos - 8 + c >= 0,
        a.x_pos - 1 - c >= 0,
    ensures
        p.obj_pixel(with_flip_x(a, true), (a.x_pos - 8 + c) as u32) == p.obj_pixel(
            with_flip_x(a, false),
            (a.x_pos - 1 - c) as u32,
        ),
{
}

/// An unflipped 8x8 object shows at its column `c` (0 leftmost) bit `7 - c`
/// of its tile row: the row of the tile numbered by the object at the
/// line's offset from the object's top. The pixel is transparent exactly
/// where both bytes of the row have that bit clear.
pub proof fn lemma_obj_column_bit(p: PpuModel, a: ObjectAttribute, c: int)
    requires
        0 <= c < 8,
        a.x_pos - 8 + c >= 0,
        !a.flags.flip_x,
        !a.flags.flip_y,
        !p.lcdc.obj_size_large,
    ensures
        ({
            let row = p.pos.y + 16 - a.y_pos;
            let lo = p.vram[a.tile_idx * 16 + 2 * row];
            let hi = p.vram[a.tile_idx * 16 + 2 * row + 1];
            let bit = (7 - c) as u8;
            p.obj_pixel(a, (a.x_pos - 8 + c) as u32) is None <==> ((lo >> bit) & 1 == 0 && (hi
                >> bit) & 1 == 0)
        }),
{
    let row = p.pos.y + 16 - a.y_pos;
    let lo = p.vram[a.tile_idx * 16 + 2 * row];
    let hi = p.vram[a.tile_idx * 16 + 2 * row + 1];
    let bit = (7 - c) as u8;
    assert(((a.x_pos - 8 + c) as u32 + 8 - a.x_pos) % 8 == c);
    lemma_color_index_zero(lo, hi, bit);
}

/// An object flipped in Y shows on each of its lines what the same object
/// unflipped shows on the mirror line: its row `r` from the top on the one
/// is row `height - 1 - r` on the other.
pub proof fn lemma_obj_flip_y_mirrors(p: PpuModel, a: ObjectAttribute, x: u32, r: int)
    requires
        0 <= r < p.obj_height(),
        a.y_pos - 16 + r >= 0,
        a.y_pos - 16 + p.obj_height() - 1 - r >= 0,
    ensures
        on_line(p, (a.y_pos - 16 + r) as u32).obj_pixel(with_flip_y(a, true), x) == on_line(
            p,
            (a.y_pos - 16 + p.obj_height() - 1 - r) as u32,
        ).obj_pixel(with_flip_y(a, false), x),
{
}

/// An object of palette 1 is drawn through OBP1 as an object of palette 0
/// is through OBP0.
pub proof fn lemma_obj_palettes(p: PpuModel, a: ObjectAttribute, x: u32)
    ensures
        p.obj_pixel(with_palette(a, 1), x) == with_obp0(p, p.obp1).obj_pixel(
            with_palette(a, 0),
            x,
        ),
{
}

/// `a` showing tile `t`.
pub open spec fn with_tile(a: ObjectAttribute, t: u8) -> ObjectAttribute {
    ObjectAttribute { tile_idx: t, ..a }
}

/// The PPU with 8x16 objects on or off.
pub open spec fn with_large_objs(p: PpuModel, v: bool) -> PpuModel {
    PpuModel { lcdc: LcdControl { obj_size_large: v, ..p.lcdc }, ..p }
}

/// An 8x16 object is drawn from a pair of tiles: bit 0 of its tile number
/// is ignored, its upper half is the even tile and its lower half the odd
/// tile after it, each drawn as an 8x8 object would be.
pub proof fn lemma_large_obj_tiles(p: PpuModel, a: ObjectAttribute, x: u32)
    requires
        p.lcdc.obj_size_large,
        !a.flags.flip_y,
    ensures
        p.obj_pixel(a, x) == p.obj_pixel(with_tile(a, a.tile_idx & 0xfe), x),
        p.obj_row(a) < 8 ==> p.obj_pixel(a, x) == with_large_objs(p, false).obj_pixel(
            with_tile(a, a.tile_idx & 0xfe),
            x,
        ),
        8 <= p.obj_row(a) < 16 && p.pos.y >= 8 ==> p.obj_pixel(a, x) == with_large_objs(
            on_line(p, (p.pos.y - 8) as u32),
            false,
        ).obj_pixel(with_tile(a, ((a.tile_idx & 0xfe) + 1) as u8), x),
{
    let t = a.tile_idx;
    assert((t & 0xfeu8) & 0xfeu8 == t & 0xfeu8 && t & 0xfeu8 < 255) by (bit_vector);
}

proof fn lemma_color_index_zero(lo: u8, hi: u8, bit: u8)
    requires
        bit < 8,
    ensures
        (color_index(lo, hi, bit as u32) == 0) <==> ((lo >> bit) & 1 == 0 && (hi >> bit) & 1 == 0),
{
    let b = bit as u32;
    assert((((lo >> b) & 1u8) | (((hi >> b) & 1u8) << 1u8) == 0) <==> ((lo >> bit) & 1 == 0 && (hi
        >> bit) & 1 == 0)) by (bit_vector)
        requires
            bit < 8,
            b == bit,
    ;
}

} // verus!
