//! The cartridge: boot rom overlay, header and memory bank controller.

pub mod header;
pub mod mapper;
pub mod mbc1;
pub mod mbc3;
pub mod no_mbc;

use crate::err::{GbError, GbErrorType, GbResult, outcome};
use header::{header_parseable, header_spec, Header, HeaderModel};
use mapper::{Mapper, MapperType};
use mbc1::{Mbc1, Mbc1Model};
use mbc3::{Mbc3, Mbc3Model};
use no_mbc::{NoMbc, NoMbcModel};
use vstd::prelude::*;

verus! {

/// 8 KiB ram banks
pub const RAM_BANK_SIZE: usize = 8 * 1024;

/// 16 KiB rom banks
pub const ROM_BANK_SIZE: usize = 16 * 1024;

/// External ram start
pub const ERAM_START: u16 = 0xa000;

pub const ERAM_END: u16 = 0xbfff;

// Rom bank addresses
pub const ROM0_START: u16 = 0x0000;

pub const ROM0_END: u16 = 0x3fff;

pub const ROM1_START: u16 = 0x4000;

pub const ROM1_END: u16 = 0x7fff;

pub const BOOT_ROM_START: u16 = 0x0000;

pub const BOOT_ROM_END: u16 = 0x00ff;

/// The boot rom register: writing a non-zero value unmaps the boot rom.
pub const BOOT_ROM_REG: u16 = 0xff50;

/// Whether `banks` banks of `size` bytes fit in `len` bytes.
pub(crate) fn banks_fit(len: usize, banks: usize, size: usize) -> (b: bool)
    requires
        size > 0,
    ensures
        b == (len >= banks * size),
{
    proof {
        assert(banks <= len / size <==> banks * size <= len) by (nonlinear_arith)
            requires
                size > 0,
                len >= 0,
                banks >= 0,
        ;
    }
    banks <= len / size
}

/// Whether `len` bytes are exactly `banks` banks of `size` bytes.
pub(crate) fn banks_exact(len: usize, banks: usize, size: usize) -> (b: bool)
    requires
        size > 0,
    ensures
        b == (len == banks * size),
{
    proof {
        assert((len % size == 0 && len / size == banks) <==> len == banks * size)
            by (nonlinear_arith)
            requires
                size > 0,
                len >= 0,
                banks >= 0,
        ;
    }
    len % size == 0 && len / size == banks
}

/// The DMG boot rom. It is mapped at $0000-$00FF until the rom writes to
/// $FF50.
pub open spec fn boot_rom() -> Seq<u8> {
    seq![
        0x31, 0xfe, 0xff, 0xaf, 0x21, 0xff, 0x9f, 0x32, 0xcb, 0x7c, 0x20, 0xfb, 0x21, 0x26, 0xff, 0x0e,
        0x11, 0x3e, 0x80, 0x32, 0xe2, 0x0c, 0x3e, 0xf3, 0xe2, 0x32, 0x3e, 0x77, 0x77, 0x3e, 0xfc, 0xe0,
        0x47, 0x11, 0x04, 0x01, 0x21, 0x10, 0x80, 0x1a, 0xcd, 0x95, 0x00, 0xcd, 0x96, 0x00, 0x13, 0x7b,
        0xfe, 0x34, 0x20, 0xf3, 0x11, 0xd8, 0x00, 0x06, 0x08, 0x1a, 0x13, 0x22, 0x23, 0x05, 0x20, 0xf9,
        0x3e, 0x19, 0xea, 0x10, 0x99, 0x21, 0x2f, 0x99, 0x0e, 0x0c, 0x3d, 0x28, 0x08, 0x32, 0x0d, 0x20,
        0xf9, 0x2e, 0x0f, 0x18, 0xf3, 0x67, 0x3e, 0x64, 0x57, 0xe0, 0x42, 0x3e, 0x91, 0xe0, 0x40, 0x04,
        0x1e, 0x02, 0x0e, 0x0c, 0xf0, 0x44, 0xfe, 0x90, 0x20, 0xfa, 0x0d, 0x20, 0xf7, 0x1d, 0x20, 0xf2,
        0x0e, 0x13, 0x24, 0x7c, 0x1e, 0x83, 0xfe, 0x62, 0x28, 0x06, 0x1e, 0xc1, 0xfe, 0x64, 0x20, 0x06,
        0x7b, 0xe2, 0x0c, 0x3e, 0x87, 0xe2, 0xf0, 0x42, 0x90, 0xe0, 0x42, 0x15, 0x20, 0xd2, 0x05, 0x20,
        0x4f, 0x16, 0x20, 0x18, 0xcb, 0x4f, 0x06, 0x04, 0xc5, 0xcb, 0x11, 0x17, 0xc1, 0xcb, 0x11, 0x17,
        0x05, 0x20, 0xf5, 0x22, 0x23, 0x22, 0x23, 0xc9, 0xce, 0xed, 0x66, 0x66, 0xcc, 0x0d, 0x00, 0x0b,
        0x03, 0x73, 0x00, 0x83, 0x00, 0x0c, 0x00, 0x0d, 0x00, 0x08, 0x11, 0x1f, 0x88, 0x89, 0x00, 0x0e,
        0xdc, 0xcc, 0x6e, 0xe6, 0xdd, 0xdd, 0xd9, 0x99, 0xbb, 0xbb, 0x67, 0x63, 0x6e, 0x0e, 0xec, 0xcc,
        0xdd, 0xdc, 0x99, 0x9f, 0xbb, 0xb9, 0x33, 0x3e, 0x3c, 0x42, 0xb9, 0xa5, 0xb9, 0xa5, 0x42, 0x3c,
        0x21, 0x04, 0x01, 0x11, 0xa8, 0x00, 0x1a, 0x13, 0xbe, 0x20, 0xfe, 0x23, 0x7d, 0xfe, 0x34, 0x20,
        0xf5, 0x06, 0x19, 0x78, 0x86, 0x23, 0x05, 0x20, 0xfb, 0x86, 0x20, 0xfe, 0x3e, 0x01, 0xe0, 0x50,
    ]
}

/// The byte of the boot rom at `i`.
pub fn boot_rom_byte(i: u8) -> (b: u8)
    ensures
        b == boot_rom()[i as int],
{
    let rom: [u8; 256] = [
        0x31, 0xfe, 0xff, 0xaf, 0x21, 0xff, 0x9f, 0x32, 0xcb, 0x7c, 0x20, 0xfb, 0x21, 0x26, 0xff, 0x0e,
        0x11, 0x3e, 0x80, 0x32, 0xe2, 0x0c, 0x3e, 0xf3, 0xe2, 0x32, 0x3e, 0x77, 0x77, 0x3e, 0xfc, 0xe0,
        0x47, 0x11, 0x04, 0x01, 0x21, 0x10, 0x80, 0x1a, 0xcd, 0x95, 0x00, 0xcd, 0x96, 0x00, 0x13, 0x7b,
        0xfe, 0x34, 0x20, 0xf3, 0x11, 0xd8, 0x00, 0x06, 0x08, 0x1a, 0x13, 0x22, 0x23, 0x05, 0x20, 0xf9,
        0x3e, 0x19, 0xea, 0x10, 0x99, 0x21, 0x2f, 0x99, 0x0e, 0x0c, 0x3d, 0x28, 0x08, 0x32, 0x0d, 0x20,
        0xf9, 0x2e, 0x0f, 0x18, 0xf3, 0x67, 0x3e, 0x64, 0x57, 0xe0, 0x42, 0x3e, 0x91, 0xe0, 0x40, 0x04,
        0x1e, 0x02, 0x0e, 0x0c, 0xf0, 0x44, 0xfe, 0x90, 0x20, 0xfa, 0x0d, 0x20, 0xf7, 0x1d, 0x20, 0xf2,
        0x0e, 0x13, 0x24, 0x7c, 0x1e, 0x83, 0xfe, 0x62, 0x28, 0x06, 0x1e, 0xc1, 0xfe, 0x64, 0x20, 0x06,
        0x7b, 0xe2, 0x0c, 0x3e, 0x87, 0xe2, 0xf0, 0x42, 0x90, 0xe0, 0x42, 0x15, 0x20, 0xd2, 0x05, 0x20,
        0x4f, 0x16, 0x20, 0x18, 0xcb, 0x4f, 0x06, 0x04, 0xc5, 0xcb, 0x11, 0x17, 0xc1, 0xcb, 0x11, 0x17,
        0x05, 0x20, 0xf5, 0x22, 0x23, 0x22, 0x23, 0xc9, 0xce, 0xed, 0x66, 0x66, 0xcc, 0x0d, 0x00, 0x0b,
        0x03, 0x73, 0x00, 0x83, 0x00, 0x0c, 0x00, 0x0d, 0x00, 0x08, 0x11, 0x1f, 0x88, 0x89, 0x00, 0x0e,
        0xdc, 0xcc, 0x6e, 0xe6, 0xdd, 0xdd, 0xd9, 0x99, 0xbb, 0xbb, 0x67, 0x63, 0x6e, 0x0e, 0xec, 0xcc,
        0xdd, 0xdc, 0x99, 0x9f, 0xbb, 0xb9, 0x33, 0x3e, 0x3c, 0x42, 0xb9, 0xa5, 0xb9, 0xa5, 0x42, 0x3c,
        0x21, 0x04, 0x01, 0x11, 0xa8, 0x00, 0x1a, 0x13, 0xbe, 0x20, 0xfe, 0x23, 0x7d, 0xfe, 0x34, 0x20,
        0xf5, 0x06, 0x19, 0x78, 0x86, 0x23, 0x05, 0x20, 0xfb, 0x86, 0x20, 0xfe, 0x3e, 0x01, 0xe0, 0x50,
    ];
    proof {
        assert(rom@ =~= boot_rom());
    }
    rom[i as usize]
}

/// The memory bank controllers this emulator supports.
pub enum Mbc {
    NoMbc(NoMbc),
    Mbc1(Mbc1),
    Mbc3(Mbc3),
}

pub enum MbcModel {
    NoMbc(NoMbcModel),
    Mbc1(Mbc1Model),
    Mbc3(Mbc3Model),
}

impl View for Mbc {
    type V = MbcModel;

    open spec fn view(&self) -> MbcModel {
        match self {
            Mbc::NoMbc(m) => MbcModel::NoMbc(m@),
            Mbc::Mbc1(m) => MbcModel::Mbc1(m@),
            Mbc::Mbc3(m) => MbcModel::Mbc3(m@),
        }
    }
}

impl Mapper for Mbc {
    fn writable(&self, addr: u16, val: u8) -> (b: bool) {
        match self {
            Mbc::NoMbc(m) => m.writable(addr, val),
            Mbc::Mbc1(m) => m.writable(addr, val),
            Mbc::Mbc3(m) => m.writable(addr, val),
        }
    }

    fn readable(&self, addr: u16) -> (b: bool) {
        match self {
            Mbc::NoMbc(m) => m.readable(addr),
            Mbc::Mbc1(m) => m.readable(addr),
            Mbc::Mbc3(m) => m.readable(addr),
        }
    }

    open spec fn read_spec(m: MbcModel, addr: u16) -> Option<Result<u8, GbErrorType>> {
        match m {
            MbcModel::NoMbc(x) => <NoMbc as Mapper>::read_spec(x, addr),
            MbcModel::Mbc1(x) => <Mbc1 as Mapper>::read_spec(x, addr),
            MbcModel::Mbc3(x) => <Mbc3 as Mapper>::read_spec(x, addr),
        }
    }

    open spec fn write_spec(m: MbcModel, addr: u16, val: u8) -> Option<
        (MbcModel, Result<(), GbErrorType>),
    > {
        match m {
            MbcModel::NoMbc(x) => match <NoMbc as Mapper>::write_spec(x, addr, val) {
                Some((x2, r)) => Some((MbcModel::NoMbc(x2), r)),
                None => None,
            },
            MbcModel::Mbc1(x) => match <Mbc1 as Mapper>::write_spec(x, addr, val) {
                Some((x2, r)) => Some((MbcModel::Mbc1(x2), r)),
                None => None,
            },
            MbcModel::Mbc3(x) => match <Mbc3 as Mapper>::write_spec(x, addr, val) {
                Some((x2, r)) => Some((MbcModel::Mbc3(x2), r)),
                None => None,
            },
        }
    }

    fn read(&self, addr: u16) -> (r: GbResult<u8>) {
        match self {
            Mbc::NoMbc(m) => m.read(addr),
            Mbc::Mbc1(m) => m.read(addr),
            Mbc::Mbc3(m) => m.read(addr),
        }
    }

    fn write(&mut self, addr: u16, val: u8) -> (r: GbResult<()>) {
        match self {
            Mbc::NoMbc(m) => m.write(addr, val),
            Mbc::Mbc1(m) => m.write(addr, val),
            Mbc::Mbc3(m) => m.write(addr, val),
        }
    }
}

pub open spec fn mbc_read(m: Option<MbcModel>, addr: u16) -> Option<Result<u8, GbErrorType>> {
    match m {
        Some(x) => <Mbc as Mapper>::read_spec(x, addr),
        None => None,
    }
}

pub struct CartridgeModel {
    pub path: Seq<char>,
    pub mbc: Option<MbcModel>,
    pub header: HeaderModel,
    pub loaded: bool,
    pub boot_mode: bool,
}

pub struct Cartridge {
    pub path: String,
    pub mbc: Option<Mbc>,
    pub header: Header,
    pub loaded: bool,
    pub boot_mode: bool,
}

impl View for Cartridge {
    type V = CartridgeModel;

    open spec fn view(&self) -> CartridgeModel {
        CartridgeModel {
            path: self.path@,
            mbc: match self.mbc {
                Some(m) => Some(m@),
                None => None,
            },
            header: self.header@,
            loaded: self.loaded,
            boot_mode: self.boot_mode,
        }
    }
}

impl CartridgeModel {
    /// A read from $0000-$7FFF or $A000-$BFFF: the boot rom while it is
    /// mapped, else the controller; $FF when no cartridge is loaded. A read
    /// that needs a controller when there is none is not defined.
    pub open spec fn read_spec(self, addr: u16) -> Option<Result<u8, GbErrorType>> {
        if addr <= BOOT_ROM_END {
            if self.boot_mode {
                Some(Ok(boot_rom()[addr as int]))
            } else {
                mbc_read(self.mbc, addr)
            }
        } else if self.loaded {
            mbc_read(self.mbc, addr)
        } else {
            Some(Ok(0xff))
        }
    }

    /// A write goes to the controller. Writing to the boot rom while it is
    /// mapped, or with no cartridge loaded, is not defined.
    pub open spec fn write_spec(self, addr: u16, val: u8) -> Option<
        (CartridgeModel, Result<(), GbErrorType>),
    > {
        if (addr <= BOOT_ROM_END && self.boot_mode) || (addr > BOOT_ROM_END && !self.loaded) {
            None
        } else {
            match self.mbc {
                Some(x) => match <Mbc as Mapper>::write_spec(x, addr, val) {
                    Some((x2, r)) => Some((CartridgeModel { mbc: Some(x2), ..self }, r)),
                    None => None,
                },
                None => None,
            }
        }
    }
}

/// Rom images `load` accepts: a header it can parse, and for the banked
/// controllers all the banks the header names.
pub open spec fn rom_loadable(rom: Seq<u8>) -> bool {
    &&& rom.len() >= 0x100
    &&& header_parseable(rom.subrange(0x100, rom.len() as int))
    &&& {
        let h = header_spec(rom.subrange(0x100, rom.len() as int));
        (h.mapper == MapperType::Mbc1 || h.mapper == MapperType::Mbc3) ==> h.rom_banks
            * ROM_BANK_SIZE <= rom.len()
    }
}

impl Cartridge {
    /// An empty slot: nothing loaded, boot rom mapped.
    pub fn new() -> (c: Cartridge)
        ensures
            c@.mbc is None,
            c@.path == Seq::<char>::empty(),
            !c@.loaded,
            c@.boot_mode,
    {
        Cartridge {
            mbc: None,
            path: String::new(),
            header: Header::new(),
            loaded: false,
            boot_mode: true,
        }
    }

    /// Whether `load` accepts this rom image.
    pub fn rom_supported(rom: &Vec<u8>) -> (ok: bool)
        ensures
            ok == rom_loadable(rom@),
    {
        if rom.len() < 0x100 {
            return false;
        }
        let bytes = header::sub_vec(rom, 0x100, rom.len());
        if !header::header_supported(&bytes) {
            return false;
        }
        let mut h = Header::new();
        let _ = h.read_header(&bytes);
        if h.mapper == MapperType::Mbc1 || h.mapper == MapperType::Mbc3 {
            (h.rom_banks as u64) * (ROM_BANK_SIZE as u64) <= rom.len() as u64
        } else {
            true
        }
    }

    /// Loads a rom image read from `path` (`None` when it could not be
    /// read): parses the header and sets up the controller it names.
    pub fn load(&mut self, path: String, rom: Option<Vec<u8>>) -> (r: GbResult<()>)
        requires
            rom matches Some(bytes) ==> rom_loadable(bytes@),
        ensures
            final(self)@.loaded,
            final(self)@.boot_mode == old(self)@.boot_mode,
            match rom {
                None => {
                    &&& outcome(r) == Err::<(), GbErrorType>(GbErrorType::FileError)
                    &&& final(self)@ == (CartridgeModel { loaded: true, ..old(self)@ })
                },
                Some(bytes) => {
                    let h = header_spec(bytes@.subrange(0x100, bytes@.len() as int));
                    &&& final(self)@.path == path@
                    &&& final(self)@.header == h
                    &&& if h.mapper == MapperType::NoMbc {
                        &&& r.is_ok()
                        &&& final(self)@.mbc matches Some(MbcModel::NoMbc(m)) && m.rom
                            == bytes@ && m.ram == Seq::new(
                            (h.ram_banks * RAM_BANK_SIZE) as nat,
                            |_i: int| 0u8,
                        )
                    } else if h.mapper == MapperType::Mbc1 {
                        &&& r.is_ok()
                        &&& final(self)@.mbc matches Some(MbcModel::Mbc1(m)) && m.rom == bytes@
                            && m.num_rom_banks == h.rom_banks && m.num_ram_banks
                            == h.ram_banks && m.rom_bank == 1 && m.secondary_bank == 0
                            && !m.ram_enabled && !m.simple_bank_mode && m.ram == Seq::new(
                            (h.ram_banks * RAM_BANK_SIZE) as nat,
                            |_i: int| 0u8,
                        )
                    } else if h.mapper == MapperType::Mbc3 {
                        &&& r.is_ok()
                        &&& final(self)@.mbc matches Some(MbcModel::Mbc3(m)) && m.rom == bytes@
                            && m.num_rom_banks == h.rom_banks && m.num_ram_banks
                            == h.ram_banks && m.rom_bank == 1 && !m.ram_and_timer_enabled
                            && m.ram_rtc_select == mbc3::RamRtcSelect::RamBank(0)
                            && m.rtc == mbc3::Rtc::zero() && m.latched_rtc == mbc3::Rtc::zero()
                            && m.last_latch_val == 0xff && m.ram == Seq::new(
                            (h.ram_banks * RAM_BANK_SIZE) as nat,
                            |_i: int| 0u8,
                        )
                    } else {
                        &&& outcome(r) == Err::<(), GbErrorType>(GbErrorType::Unsupported)
                        &&& final(self)@.mbc == old(self)@.mbc
                    }
                },
            },
    {
        self.loaded = true;
        let rom = match rom {
            Some(data) => data,
            None => {
                return Err(GbError::new(GbErrorType::FileError, "src/cart.rs", 404));
            },
        };
        self.path = path;
        let bytes = header::sub_vec(&rom, 0x100, rom.len());
        let _ = self.header.read_header(&bytes);
        let ram_banks = self.header.ram_banks;
        let rom_banks = self.header.rom_banks;
        match self.header.mapper {
            MapperType::NoMbc => self.mbc = Some(Mbc::NoMbc(NoMbc::new(rom, ram_banks))),
            MapperType::Mbc1 => {
                self.mbc = Some(Mbc::Mbc1(Mbc1::new(rom, rom_banks as usize, ram_banks as usize)))
            },
            MapperType::Mbc3 => {
                self.mbc = Some(Mbc::Mbc3(Mbc3::new(rom, rom_banks as usize, ram_banks as usize)))
            },
            _ => {
                return Err(GbError::new(GbErrorType::Unsupported, "src/cart.rs", 421));
            },
        }
        Ok(())
    }

    /// The path of the loaded rom.
    pub fn cart_path(&self) -> (p: Option<String>)
        ensures
            p matches Some(s) ==> s@ == self@.path,
            p is Some <==> self@.loaded,
    {
        if self.loaded {
            Some(self.path.clone())
        } else {
            None
        }
    }

    /// Whether `read` is defined at `addr`.
    pub fn readable(&self, addr: u16) -> (b: bool)
        ensures
            b == self@.read_spec(addr) is Some,
    {
        if addr <= BOOT_ROM_END && self.boot_mode {
            true
        } else if addr <= BOOT_ROM_END || self.loaded {
            match &self.mbc {
                Some(m) => m.readable(addr),
                None => false,
            }
        } else {
            true
        }
    }

    /// Whether `write` is defined at `addr` with `val`.
    pub fn writable(&self, addr: u16, val: u8) -> (b: bool)
        ensures
            b == self@.write_spec(addr, val) is Some,
    {
        if (addr <= BOOT_ROM_END && self.boot_mode) || (addr > BOOT_ROM_END && !self.loaded) {
            false
        } else {
            match &self.mbc {
                Some(m) => m.writable(addr, val),
                None => false,
            }
        }
    }

    pub fn read(&self, addr: u16) -> (r: GbResult<u8>)
        requires
            self@.read_spec(addr) is Some,
        ensures
            self@.read_spec(addr) == Some(outcome(r)),
    {
        if addr <= BOOT_ROM_END {
            if self.boot_mode {
                Ok(boot_rom_byte(addr as u8))
            } else {
                match &self.mbc {
                    Some(m) => m.read(addr),
                    None => {
                        proof {
                            assert(false);
                        }
                        Ok(0xff)
                    },
                }
            }
        } else {
            if self.loaded {
                match &self.mbc {
                    Some(m) => m.read(addr),
                    None => {
                        proof {
                            assert(false);
                        }
                        Ok(0xff)
                    },
                }
            } else {
                // with no cartridge loaded, reads give $FF
                Ok(0xff)
            }
        }
    }

    pub fn write(&mut self, addr: u16, val: u8) -> (r: GbResult<()>)
        requires
            old(self)@.write_spec(addr, val) is Some,
        ensures
            old(self)@.write_spec(addr, val) == Some((final(self)@, outcome(r))),
    {
        match &mut self.mbc {
            Some(m) => m.write(addr, val),
            None => {
                proof {
                    assert(false);
                }
                Ok(())
            },
        }
    }

    /// Reads $FF50: 1 while the boot rom is mapped.
    pub fn io_read(&self, addr: u16) -> (r: GbResult<u8>)
        ensures
            outcome(r) == (if addr == BOOT_ROM_REG {
                Ok::<u8, GbErrorType>(if self@.boot_mode { 1u8 } else { 0u8 })
            } else {
                Err(GbErrorType::OutOfBounds)
            }),
    {
        if addr == BOOT_ROM_REG {
            Ok(if self.boot_mode {
                1
            } else {
                0
            })
        } else {
            Err(GbError::new(GbErrorType::OutOfBounds, "src/cart.rs", 543))
        }
    }

    /// Writes $FF50: zero maps the boot rom, anything else unmaps it.
    pub fn io_write(&mut self, addr: u16, data: u8) -> (r: GbResult<()>)
        ensures
            if addr == BOOT_ROM_REG {
                &&& final(self)@ == (CartridgeModel { boot_mode: data == 0, ..old(self)@ })
                &&& r.is_ok()
            } else {
                &&& final(self)@ == old(self)@
                &&& outcome(r) == Err::<(), GbErrorType>(GbErrorType::OutOfBounds)
            },
    {
        if addr == BOOT_ROM_REG {
            self.boot_mode = data == 0;
        } else {
            return Err(GbError::new(GbErrorType::OutOfBounds, "src/cart.rs", 561));
        }
        Ok(())
    }
}

/// A defined write to a cartridge address succeeds, and leaves whether a
/// write at the next address is defined as it was.
pub(crate) proof fn lemma_write_keeps_next_writable(
    c: CartridgeModel,
    addr: u16,
    lo: u8,
    hi: u8,
)
    requires
        addr <= ROM1_END || (ERAM_START <= addr <= ERAM_END),
        addr < 0xffff,
        c.write_spec(addr, lo) is Some,
    ensures
        c.write_spec(addr, lo) matches Some((c2, r)) && r is Ok && (c2.write_spec(
            (addr + 1) as u16,
            hi,
        ) is Some) == (c.write_spec((addr + 1) as u16, hi) is Some),
{
    match c.mbc {
        Some(MbcModel::Mbc1(x)) => {
            mbc1::lemma_mbc1_write_keeps_wf(x, addr, lo);
        },
        Some(MbcModel::Mbc3(x)) => {
            mbc3::lemma_mbc3_write_keeps_wf(x, addr, lo);
        },
        _ => {},
    }
}

/// While the boot rom is mapped, $0000-$00FF read the boot rom whatever the
/// cartridge holds.
pub proof fn lemma_boot_rom_overlay(c: CartridgeModel, addr: u16)
    requires
        c.boot_mode,
        addr <= BOOT_ROM_END,
    ensures
        c.read_spec(addr) == Some(Ok::<u8, GbErrorType>(boot_rom()[addr as int])),
{
}

/// With no cartridge loaded, reads outside the boot rom give $FF.
pub proof fn lemma_unloaded_reads_ff(c: CartridgeModel, addr: u16)
    requires
        !c.loaded,
        addr > BOOT_ROM_END,
    ensures
        c.read_spec(addr) == Some(Ok::<u8, GbErrorType>(0xff)),
{
}

} // verus!
