//! The PPU registers that pack several fields in a byte.

use crate::bits::{bit, get_bit, get_bits, set_bit, set_bits};
use vstd::prelude::*;
use vstd::std_specs::convert::FromSpec;
use vstd::std_specs::convert::FromSpecImpl;

verus! {

/// The mode the PPU is in, as reported in bits 0-1 of STAT.
#[derive(PartialEq, Eq, Structural, Copy, Clone, Debug)]
pub enum PpuMode {
    HBlank,
    VBlank,
    OamScan,
    Rendering,
}

impl PpuMode {
    pub open spec fn spec_bits(self) -> u8 {
        match self {
            PpuMode::HBlank => 0,
            PpuMode::VBlank => 1,
            PpuMode::OamScan => 2,
            PpuMode::Rendering => 3,
        }
    }

    pub open spec fn spec_from_bits(v: u8) -> PpuMode {
        if v == 0 {
            PpuMode::HBlank
        } else if v == 1 {
            PpuMode::VBlank
        } else if v == 2 {
            PpuMode::OamScan
        } else {
            PpuMode::Rendering
        }
    }

    /// The mode number: 0 HBlank, 1 VBlank, 2 OAM scan, 3 rendering.
    pub fn bits(self) -> (v: u8)
        ensures
            v == self.spec_bits(),
            v < 4,
    {
        match self {
            PpuMode::HBlank => 0,
            PpuMode::VBlank => 1,
            PpuMode::OamScan => 2,
            PpuMode::Rendering => 3,
        }
    }

    /// The mode with the given number; the numbers stop at 3.
    pub fn from_bits(v: u8) -> (m: PpuMode)
        requires
            v < 4,
        ensures
            m == Self::spec_from_bits(v),
            m.spec_bits() == v,
    {
        if v == 0 {
            PpuMode::HBlank
        } else if v == 1 {
            PpuMode::VBlank
        } else if v == 2 {
            PpuMode::OamScan
        } else {
            PpuMode::Rendering
        }
    }
}

/// LCDC, the LCD control register.
#[derive(Copy, Clone, Debug)]
pub struct LcdControl {
    /// bit 0: 0 = Off; 1 = On
    pub bg_win_enable: bool,
    /// bit 1: 0 = Off; 1 = On
    pub obj_enabled: bool,
    /// bit 2: 0 = 8x8; 1 = 8x16
    pub obj_size_large: bool,
    /// bit 3: 0 = 9800-9BFF; 1 = 9C00-9FFF
    pub bg_tile_map_hi: bool,
    /// bit 4: 0 = 8800-97FF; 1 = 8000-8FFF
    pub win_and_bg_data_map_lo: bool,
    /// bit 5: 0 = Off; 1 = On
    pub win_enabled: bool,
    /// bit 6: 0 = 9800-9BFF; 1 = 9C00-9FFF
    pub win_tile_map_hi: bool,
    /// bit 7: 0 = Off; 1 = On
    pub ppu_enabled: bool,
}

pub open spec fn b2u(b: bool) -> u8 {
    if b { 1 } else { 0 }
}

impl LcdControl {
    /// The byte with bit i set exactly when field i is.
    pub open spec fn spec_to_u8(self) -> u8 {
        (b2u(self.bg_win_enable) + 2 * b2u(self.obj_enabled) + 4 * b2u(self.obj_size_large) + 8
            * b2u(self.bg_tile_map_hi) + 16 * b2u(self.win_and_bg_data_map_lo) + 32 * b2u(
            self.win_enabled,
        ) + 64 * b2u(self.win_tile_map_hi) + 128 * b2u(self.ppu_enabled)) as u8
    }
}

impl FromSpecImpl<u8> for LcdControl {
    open spec fn obeys_from_spec() -> bool {
        true
    }

    open spec fn from_spec(value: u8) -> LcdControl {
        LcdControl {
            bg_win_enable: bit(value, 0),
            obj_enabled: bit(value, 1),
            obj_size_large: bit(value, 2),
            bg_tile_map_hi: bit(value, 3),
            win_and_bg_data_map_lo: bit(value, 4),
            win_enabled: bit(value, 5),
            win_tile_map_hi: bit(value, 6),
            ppu_enabled: bit(value, 7),
        }
    }
}

impl From<u8> for LcdControl {
    fn from(value: u8) -> (r: LcdControl) {
        LcdControl {
            bg_win_enable: get_bit(value, 0),
            obj_enabled: get_bit(value, 1),
            obj_size_large: get_bit(value, 2),
            bg_tile_map_hi: get_bit(value, 3),
            win_and_bg_data_map_lo: get_bit(value, 4),
            win_enabled: get_bit(value, 5),
            win_tile_map_hi: get_bit(value, 6),
            ppu_enabled: get_bit(value, 7),
        }
    }
}

/// Setting bit `i` of a byte whose bits from `i` up are clear adds `2^i`
/// when the bit is set, and nothing otherwise.
proof fn lemma_set_bit_adds(v: u8, i: usize, b: bool)
    requires
        i < 8,
        v < (1u8 << i),
    ensures
        (if b { v | (1u8 << i) } else { v & !(1u8 << i) }) == v + (if b {
            1u8 << i
        } else {
            0u8
        }),
        (v + (if b { 1u8 << i } else { 0u8 })) < 256,
{
    assert((if b { v | (1u8 << i) } else { v & !(1u8 << i) }) == v + (if b {
        1u8 << i
    } else {
        0u8
    })) by (bit_vector)
        requires
            i < 8,
            v < (1u8 << i),
    ;
    assert((v + (if b { 1u8 << i } else { 0u8 })) < 256) by (bit_vector)
        requires
            i < 8,
            v < (1u8 << i),
    ;
}

proof fn lemma_pow2_shifts()
    by (bit_vector)
    ensures
        1u8 << 0usize == 1u8,
        1u8 << 1usize == 2u8,
        1u8 << 2usize == 4u8,
        1u8 << 3usize == 8u8,
        1u8 << 4usize == 16u8,
        1u8 << 5usize == 32u8,
        1u8 << 6usize == 64u8,
        1u8 << 7usize == 128u8,
{
}

/// Puts `b` into bit `i` of `v`, where `v` has no bit set from `i` up.
fn push_bit(v: u8, i: usize, b: bool) -> (r: u8)
    requires
        i < 8,
        v < (1u8 << i),
    ensures
        r == v + (if b { 1u8 << i } else { 0u8 }),
{
    proof {
        lemma_set_bit_adds(v, i, b);
    }
    set_bit(v, i, b)
}

impl FromSpecImpl<LcdControl> for u8 {
    open spec fn obeys_from_spec() -> bool {
        true
    }

    open spec fn from_spec(value: LcdControl) -> u8 {
        value.spec_to_u8()
    }
}

impl From<LcdControl> for u8 {
    fn from(value: LcdControl) -> (r: u8) {
        proof {
            lemma_pow2_shifts();
        }
        let mut val_u8: u8 = 0;
        val_u8 = push_bit(val_u8, 0, value.bg_win_enable);
        val_u8 = push_bit(val_u8, 1, value.obj_enabled);
        val_u8 = push_bit(val_u8, 2, value.obj_size_large);
        val_u8 = push_bit(val_u8, 3, value.bg_tile_map_hi);
        val_u8 = push_bit(val_u8, 4, value.win_and_bg_data_map_lo);
        val_u8 = push_bit(val_u8, 5, value.win_enabled);
        val_u8 = push_bit(val_u8, 6, value.win_tile_map_hi);
        val_u8 = push_bit(val_u8, 7, value.ppu_enabled);
        val_u8
    }
}

/// Decoding LCDC and encoding it again gives the same byte.
pub proof fn lemma_lcdc_round_trip(v: u8)
    ensures
        <LcdControl as FromSpec<u8>>::from_spec(v).spec_to_u8() == v,
{
    assert((b2u(v & (1u8 << 0usize) != 0) + 2 * b2u(v & (1u8 << 1usize) != 0) + 4 * b2u(
        v & (1u8 << 2usize) != 0,
    ) + 8 * b2u(v & (1u8 << 3usize) != 0) + 16 * b2u(v & (1u8 << 4usize) != 0) + 32 * b2u(
        v & (1u8 << 5usize) != 0,
    ) + 64 * b2u(v & (1u8 << 6usize) != 0) + 128 * b2u(v & (1u8 << 7usize) != 0)) as u8 == v)
        by (bit_vector);
}

/// STAT, the LCD status register.
#[derive(Copy, Clone)]
pub struct Status {
    /// Bits 0-1: the PPU mode (read-only).
    pub ppu_mode: PpuMode,
    /// Bit 2: set while LY equals LYC (read-only).
    pub lyc_eq_ly: bool,
    /// Bit 3: select the mode 0 interrupt condition.
    pub mode0_int_select: bool,
    /// Bit 4: select the mode 1 interrupt condition.
    pub mode1_int_select: bool,
    /// Bit 5: select the mode 2 interrupt condition.
    pub mode2_int_select: bool,
    /// Bit 6: select the LYC == LY interrupt condition.
    pub lyc_int_select: bool,
}

impl Status {
    pub open spec fn spec_to_u8(self) -> u8 {
        (self.ppu_mode.spec_bits() + 4 * b2u(self.lyc_eq_ly) + 8 * b2u(self.mode0_int_select)
            + 16 * b2u(self.mode1_int_select) + 32 * b2u(self.mode2_int_select) + 64 * b2u(
            self.lyc_int_select,
        )) as u8
    }

    /// Updates the writable bits (3-6) from a cpu write; the mode and the
    /// LYC comparison keep their values.
    #[inline]
    pub fn write(&mut self, data: u8)
        ensures
            final(self).mode0_int_select == bit(data, 3),
            final(self).mode1_int_select == bit(data, 4),
            final(self).mode2_int_select == bit(data, 5),
            final(self).lyc_int_select == bit(data, 6),
            final(self).ppu_mode == old(self).ppu_mode,
            final(self).lyc_eq_ly == old(self).lyc_eq_ly,
    {
        self.mode0_int_select = get_bit(data, 3);
        self.mode1_int_select = get_bit(data, 4);
        self.mode2_int_select = get_bit(data, 5);
        self.lyc_int_select = get_bit(data, 6);
    }
}

impl FromSpecImpl<u8> for Status {
    open spec fn obeys_from_spec() -> bool {
        true
    }

    open spec fn from_spec(value: u8) -> Status {
        Status {
            ppu_mode: PpuMode::spec_from_bits(value % 4),
            lyc_eq_ly: bit(value, 2),
            mode0_int_select: bit(value, 3),
            mode1_int_select: bit(value, 4),
            mode2_int_select: bit(value, 5),
            lyc_int_select: bit(value, 6),
        }
    }
}

impl From<u8> for Status {
    fn from(value: u8) -> (r: Status) {
        let mode = get_bits(value, 0, 2);
        assert(((value << 6usize) >> 6usize) >> 0usize == value % 4) by (bit_vector);
        Status {
            ppu_mode: PpuMode::from_bits(mode),
            lyc_eq_ly: get_bit(value, 2),
            mode0_int_select: get_bit(value, 3),
            mode1_int_select: get_bit(value, 4),
            mode2_int_select: get_bit(value, 5),
            lyc_int_select: get_bit(value, 6),
        }
    }
}

impl FromSpecImpl<Status> for u8 {
    open spec fn obeys_from_spec() -> bool {
        true
    }

    open spec fn from_spec(value: Status) -> u8 {
        value.spec_to_u8()
    }
}

impl From<Status> for u8 {
    fn from(value: Status) -> (r: u8) {
        proof {
            lemma_pow2_shifts();
        }
        let mode = value.ppu_mode.bits();
        let v0: u8 = 0;
        assert(((mode << 6usize) >> 6usize) == mode) by (bit_vector)
            requires
                mode < 4,
        ;
        let mut val_u8 = set_bits(v0, 0, 2, mode);
        assert((((v0 & !((((0xffu8 << 6usize) >> 6usize) >> 0usize) << 0usize)) | (mode
            << 0usize))) == mode) by (bit_vector)
            requires
                v0 == 0,
                mode < 4,
        ;
        val_u8 = push_bit(val_u8, 2, value.lyc_eq_ly);
        val_u8 = push_bit(val_u8, 3, value.mode0_int_select);
        val_u8 = push_bit(val_u8, 4, value.mode1_int_select);
        val_u8 = push_bit(val_u8, 5, value.mode2_int_select);
        val_u8 = push_bit(val_u8, 6, value.lyc_int_select);
        val_u8
    }
}

/// Decoding STAT and encoding it again gives the byte back, bit 7 aside
/// (no field holds it).
pub proof fn lemma_stat_round_trip(v: u8)
    ensures
        <Status as FromSpec<u8>>::from_spec(v).spec_to_u8() == v % 128,
{
    let m = v % 4;
    assert(PpuMode::spec_from_bits(m).spec_bits() == m);
    assert((m + 4 * b2u(v & (1u8 << 2usize) != 0) + 8 * b2u(v & (1u8 << 3usize) != 0) + 16
        * b2u(v & (1u8 << 4usize) != 0) + 32 * b2u(v & (1u8 << 5usize) != 0) + 64 * b2u(
        v & (1u8 << 6usize) != 0,
    )) as u8 == v % 128) by (bit_vector)
        requires
            m == v % 4,
    ;
}

/// The attribute flags of an object (sprite).
#[derive(Copy, Clone)]
pub struct ObjAttrFlags {
    pub low_priority: bool,
    pub flip_y: bool,
    pub flip_x: bool,
    pub palette_idx: u8,
}

impl FromSpecImpl<u8> for ObjAttrFlags {
    open spec fn obeys_from_spec() -> bool {
        true
    }

    open spec fn from_spec(value: u8) -> ObjAttrFlags {
        ObjAttrFlags {
            low_priority: bit(value, 7),
            flip_y: bit(value, 6),
            flip_x: bit(value, 5),
            palette_idx: b2u(bit(value, 4)),
        }
    }
}

impl From<u8> for ObjAttrFlags {
    fn from(value: u8) -> (r: ObjAttrFlags) {
        ObjAttrFlags {
            low_priority: get_bit(value, 7),
            flip_y: get_bit(value, 6),
            flip_x: get_bit(value, 5),
            palette_idx: if get_bit(value, 4) {
                1
            } else {
                0
            },
        }
    }
}

/// One entry of the object attribute memory.
#[derive(Copy, Clone)]
pub struct ObjectAttribute {
    pub y_pos: u8,
    pub x_pos: u8,
    pub tile_idx: u8,
    pub flags: ObjAttrFlags,
    pub oam_idx: usize,
}

impl FromSpecImpl<[u8; 4]> for ObjectAttribute {
    open spec fn obeys_from_spec() -> bool {
        true
    }

    open spec fn from_spec(value: [u8; 4]) -> ObjectAttribute {
        ObjectAttribute {
            y_pos: value@[0],
            x_pos: value@[1],
            tile_idx: value@[2],
            flags: <ObjAttrFlags as FromSpec<u8>>::from_spec(value@[3]),
            oam_idx: 0,
        }
    }
}

impl From<[u8; 4]> for ObjectAttribute {
    fn from(value: [u8; 4]) -> (r: ObjectAttribute) {
        ObjectAttribute {
            y_pos: value[0],
            x_pos: value[1],
            tile_idx: value[2],
            flags: ObjAttrFlags::from(value[3]),
            oam_idx: 0,
        }
    }
}

} // verus!
