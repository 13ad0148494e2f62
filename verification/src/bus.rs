//! The memory bus: sends each read and write to the part of the system
//! that answers the address.

use crate::cart::{lemma_write_keeps_next_writable, BOOT_ROM_REG, Cartridge, CartridgeModel};
use crate::err::{GbError, GbErrorType, GbResult, outcome};
use crate::interrupt::{pending_spec, Interrupt, Interrupts, InterruptsModel};
use crate::mem::Memory;
use crate::ppu::{Ppu, PpuModel};
use crate::ram::Ram;
use crate::timer::{Timer, TimerModel};
use vstd::prelude::*;

verus! {

pub const CART_ROM_START: u16 = 0x0000;

pub const CART_ROM_END: u16 = 0x7fff;

pub const CART_RAM_START: u16 = 0xa000;

pub const CART_RAM_END: u16 = 0xbfff;

pub const CART_IO_START: u16 = 0xff50;

pub const CART_IO_END: u16 = 0xff50;

pub const PPU_START: u16 = 0x8000;

pub const PPU_END: u16 = 0x9fff;

pub const PPU_IO_START: u16 = 0xff40;

pub const PPU_IO_END: u16 = 0xff4b;

pub const PPU_IO_DMA: u16 = 0xff46;

pub const OAM_START: u16 = 0xfe00;

pub const OAM_END: u16 = 0xfe9f;

pub const WRAM_START: u16 = 0xc000;

pub const WRAM_END: u16 = 0xdfff;

pub const TIMER_START: u16 = 0xff04;

pub const TIMER_END: u16 = 0xff07;

pub const JOYPAD_EXACT: u16 = 0xff00;

pub const SERIAL_START: u16 = 0xff01;

pub const SERIAL_END: u16 = 0xff02;

pub const AUDIO_START: u16 = 0xff10;

pub const AUDIO_END: u16 = 0xff3f;

pub const HRAM_START: u16 = 0xff80;

pub const HRAM_END: u16 = 0xfffe;

pub const IE_ADDR: u16 = 0xffff;

pub const IF_ADDR: u16 = 0xff0f;

/// The part of the memory map an address falls in.
#[derive(Copy, Clone, PartialEq, Eq, Structural, Debug)]
pub enum Region {
    CartRom,
    CartRam,
    CartIo,
    Vram,
    PpuIo,
    Wram,
    Hram,
    Timer,
    Interrupts,
    Unsupported,
}

pub open spec fn region_spec(addr: u16) -> Region {
    if CART_ROM_START <= addr <= CART_ROM_END {
        Region::CartRom
    } else if CART_RAM_START <= addr <= CART_RAM_END {
        Region::CartRam
    } else if CART_IO_START <= addr <= CART_IO_END {
        Region::CartIo
    } else if (PPU_START <= addr <= PPU_END) || (OAM_START <= addr <= OAM_END) {
        Region::Vram
    } else if PPU_IO_START <= addr <= PPU_IO_END {
        Region::PpuIo
    } else if WRAM_START <= addr <= WRAM_END {
        Region::Wram
    } else if HRAM_START <= addr <= HRAM_END {
        Region::Hram
    } else if TIMER_START <= addr <= TIMER_END {
        Region::Timer
    } else if addr == IE_ADDR || addr == IF_ADDR {
        Region::Interrupts
    } else {
        Region::Unsupported
    }
}

/// The part of the memory map `addr` falls in.
pub fn region_of(addr: u16) -> (r: Region)
    ensures
        r == region_spec(addr),
{
    if addr <= CART_ROM_END {
        Region::CartRom
    } else if CART_RAM_START <= addr && addr <= CART_RAM_END {
        Region::CartRam
    } else if CART_IO_START <= addr && addr <= CART_IO_END {
        Region::CartIo
    } else if (PPU_START <= addr && addr <= PPU_END) || (OAM_START <= addr && addr <= OAM_END) {
        Region::Vram
    } else if PPU_IO_START <= addr && addr <= PPU_IO_END {
        Region::PpuIo
    } else if WRAM_START <= addr && addr <= WRAM_END {
        Region::Wram
    } else if HRAM_START <= addr && addr <= HRAM_END {
        Region::Hram
    } else if TIMER_START <= addr && addr <= TIMER_END {
        Region::Timer
    } else if addr == IE_ADDR || addr == IF_ADDR {
        Region::Interrupts
    } else {
        Region::Unsupported
    }
}

/// What the bus is connected to.
pub struct BusModel {
    pub wram: Option<Seq<u8>>,
    pub hram: Option<Seq<u8>>,
    pub cart: Option<CartridgeModel>,
    pub ppu: Option<PpuModel>,
    pub ic: Option<InterruptsModel>,
    pub timer: Option<TimerModel>,
}

/// A read of `ram` at `offset`: past its end is not defined.
pub open spec fn ram_read(ram: Option<Seq<u8>>, offset: int) -> Option<Result<u8, GbErrorType>> {
    match ram {
        Some(r) => if 0 <= offset < r.len() {
            Some(Ok(r[offset]))
        } else {
            None
        },
        None => None,
    }
}

/// Two bytes read in turn as a little-endian word; the second is only read
/// if the first was.
pub open spec fn le_pair(
    lo: Option<Result<u8, GbErrorType>>,
    hi: Option<Result<u8, GbErrorType>>,
) -> Option<Result<u16, GbErrorType>> {
    match lo {
        None => None,
        Some(Err(e)) => Some(Err(e)),
        Some(Ok(l)) => match hi {
            None => None,
            Some(Err(e)) => Some(Err(e)),
            Some(Ok(h)) => Some(Ok((l + 256 * h) as u16)),
        },
    }
}

/// Two writes in turn; the second is only made if the first succeeded.
pub open spec fn then_write(
    first: Option<(BusModel, Result<(), GbErrorType>)>,
    second: spec_fn(BusModel) -> Option<(BusModel, Result<(), GbErrorType>)>,
) -> Option<(BusModel, Result<(), GbErrorType>)> {
    match first {
        None => None,
        Some((m, Err(e))) => Some((m, Err(e))),
        Some((m, Ok(()))) => second(m),
    }
}

impl BusModel {
    pub open spec fn wf(self) -> bool {
        self.ppu matches Some(p) ==> p.wf()
    }

    /// A read at `a` by the part of region `r`. An address past $FFFF (the
    /// second byte of a word at $FFFF) is not defined, nor is a read of a
    /// part that is not connected.
    pub open spec fn read_in(self, r: Region, a: int) -> Option<Result<u8, GbErrorType>> {
        if a > 0xffff {
            None
        } else {
            let addr = a as u16;
            match r {
                Region::CartRom | Region::CartRam => match self.cart {
                    Some(c) => c.read_spec(addr),
                    None => None,
                },
                Region::CartIo => match self.cart {
                    Some(c) => Some(
                        if addr == BOOT_ROM_REG {
                            Ok(
                                if c.boot_mode {
                                    1u8
                                } else {
                                    0u8
                                },
                            )
                        } else {
                            Err(GbErrorType::OutOfBounds)
                        },
                    ),
                    None => None,
                },
                Region::Vram => match self.ppu {
                    Some(p) => Some(p.read_spec(addr)),
                    None => None,
                },
                Region::PpuIo => match self.ppu {
                    Some(p) => Some(Ok(p.io_read_spec(addr))),
                    None => None,
                },
                Region::Wram => ram_read(self.wram, a - WRAM_START),
                Region::Hram => ram_read(self.hram, a - HRAM_START),
                Region::Timer => match self.timer {
                    Some(t) => Some(t.read_spec(addr)),
                    None => None,
                },
                Region::Interrupts => match self.ic {
                    Some(i) => Some(i.read_spec(addr)),
                    None => None,
                },
                Region::Unsupported => Some(Ok(0xff)),
            }
        }
    }

    /// A write of `val` at `a` by the part of region `r`, with what
    /// `read_in` leaves undefined left undefined here too.
    pub open spec fn write_in(self, r: Region, a: int, val: u8) -> Option<
        (BusModel, Result<(), GbErrorType>),
    > {
        if a > 0xffff {
            None
        } else {
            let addr = a as u16;
            match r {
                Region::CartRom | Region::CartRam => match self.cart {
                    Some(c) => match c.write_spec(addr, val) {
                        Some((c2, res)) => Some((BusModel { cart: Some(c2), ..self }, res)),
                        None => None,
                    },
                    None => None,
                },
                Region::CartIo => match self.cart {
                    Some(c) => if addr == BOOT_ROM_REG {
                        Some(
                            (
                                BusModel {
                                    cart: Some(CartridgeModel { boot_mode: val == 0, ..c }),
                                    ..self
                                },
                                Ok(()),
                            ),
                        )
                    } else {
                        Some((self, Err(GbErrorType::OutOfBounds)))
                    },
                    None => None,
                },
                Region::Vram => match self.ppu {
                    Some(p) => {
                        let (p2, res) = p.write_spec(addr, val);
                        Some((BusModel { ppu: Some(p2), ..self }, res))
                    },
                    None => None,
                },
                Region::PpuIo => match self.ppu {
                    Some(p) => Some(
                        (BusModel { ppu: Some(p.io_write_spec(addr, val)), ..self }, Ok(())),
                    ),
                    None => None,
                },
                Region::Wram => match self.wram {
                    Some(w) => if 0 <= a - WRAM_START < w.len() {
                        Some(
                            (BusModel { wram: Some(w.update(a - WRAM_START, val)), ..self }, Ok(())),
                        )
                    } else {
                        None
                    },
                    None => None,
                },
                Region::Hram => match self.hram {
                    Some(h) => if 0 <= a - HRAM_START < h.len() {
                        Some(
                            (BusModel { hram: Some(h.update(a - HRAM_START, val)), ..self }, Ok(())),
                        )
                    } else {
                        None
                    },
                    None => None,
                },
                Region::Timer => match self.timer {
                    Some(t) => {
                        let (t2, res) = t.write_spec(addr, val);
                        Some((BusModel { timer: Some(t2), ..self }, res))
                    },
                    None => None,
                },
                Region::Interrupts => match self.ic {
                    Some(i) => {
                        let (i2, res) = i.write_spec(addr, val);
                        Some((BusModel { ic: Some(i2), ..self }, res))
                    },
                    None => None,
                },
                Region::Unsupported => Some((self, Ok(()))),
            }
        }
    }

    /// One PPU dot, its interrupts raised in IF, and whether it ended a
    /// frame. It needs the PPU and the interrupt controller, and a dot the
    /// PPU can run.
    pub open spec fn dot_spec(self) -> Option<(BusModel, bool)> {
        match (self.ppu, self.ic) {
            (Some(p), Some(i)) => if p.wf() && p.dot_ok() {
                let (p2, raised, frame) = p.dot_spec();
                Some(
                    (
                        BusModel {
                            ppu: Some(p2),
                            ic: Some(InterruptsModel { iflag: i.iflag | raised, ..i }),
                            ..self
                        },
                        frame,
                    ),
                )
            } else {
                None
            },
            _ => None,
        }
    }

    /// The interrupt the controller hands to the cpu, if any. IF bits 5 and
    /// 6 name no interrupt; with one of them set, or no controller, there is
    /// no answer.
    pub open spec fn interrupt_spec(self) -> Option<Option<Interrupt>> {
        match self.ic {
            Some(i) => if i.iflag & 0x60 == 0 {
                Some(pending_spec(i.iflag, i.ie))
            } else {
                None
            },
            None => None,
        }
    }

    /// The timer after one cpu tick; it needs a timer whose tick counters
    /// can count on.
    pub open spec fn timer_tick_spec(self) -> Option<BusModel> {
        match self.timer {
            Some(t) => if t.tima_cpu_ticks < u32::MAX && t.div_cpu_ticks < u32::MAX {
                Some(BusModel { timer: Some(t.step_spec()), ..self })
            } else {
                None
            },
            None => None,
        }
    }

    /// A byte read. Unsupported addresses read $FF.
    pub open spec fn read8_spec(self, addr: u16) -> Option<Result<u8, GbErrorType>> {
        if !self.wf() {
            None
        } else {
            self.read_in(region_spec(addr), addr as int)
        }
    }

    /// A little-endian word read from the part that answers `addr`, at
    /// `addr` and `addr + 1`. Unsupported addresses read $00FF.
    pub open spec fn read16_spec(self, addr: u16) -> Option<Result<u16, GbErrorType>> {
        if !self.wf() {
            None
        } else {
            let r = region_spec(addr);
            if r == Region::Unsupported {
                Some(Ok(0xff))
            } else {
                le_pair(self.read_in(r, addr as int), self.read_in(r, addr + 1))
            }
        }
    }

    /// The first `n` bytes of an OAM DMA from page `page`: byte i is read
    /// from `page * 256 + i` through the bus and written to OAM byte i. The
    /// first error ends the transfer.
    pub open spec fn dma_spec(self, page: u8, n: nat) -> Option<(BusModel, Result<(), GbErrorType>)>
        decreases n,
    {
        if n == 0 {
            Some((self, Ok(())))
        } else {
            match self.dma_spec(page, (n - 1) as nat) {
                None => None,
                Some((m, Err(e))) => Some((m, Err(e))),
                Some((m, Ok(()))) => match m.read8_spec((page * 256 + (n - 1)) as u16) {
                    None => None,
                    Some(Err(e)) => Some((m, Err(e))),
                    Some(Ok(b)) => m.write_in(Region::Vram, OAM_START + (n - 1), b),
                },
            }
        }
    }

    /// A byte write. A write to $FF46 starts an OAM DMA of 160 bytes;
    /// writes to unsupported addresses are ignored.
    pub open spec fn write8_spec(self, addr: u16, val: u8) -> Option<
        (BusModel, Result<(), GbErrorType>),
    > {
        if !self.wf() {
            None
        } else {
            let r = region_spec(addr);
            if r == Region::PpuIo && addr == PPU_IO_DMA {
                self.dma_spec(val, 160)
            } else {
                self.write_in(r, addr as int, val)
            }
        }
    }

    /// A little-endian word write to the part that answers `addr`, at
    /// `addr` and then `addr + 1`.
    pub open spec fn write16_spec(self, addr: u16, val: u16) -> Option<
        (BusModel, Result<(), GbErrorType>),
    > {
        if !self.wf() {
            None
        } else {
            let r = region_spec(addr);
            then_write(
                self.write_in(r, addr as int, (val % 256) as u8),
                |m: BusModel| m.write_in(r, addr + 1, (val / 256) as u8),
            )
        }
    }
}

pub struct Bus {
    wram: Option<Ram>,
    hram: Option<Ram>,
    cart: Option<Cartridge>,
    ppu: Option<Ppu>,
    ic: Option<Interrupts>,
    timer: Option<Timer>,
}

impl View for Bus {
    type V = BusModel;

    closed spec fn view(&self) -> BusModel {
        BusModel {
            wram: match &self.wram {
                Some(r) => Some(r@),
                None => None,
            },
            hram: match &self.hram {
                Some(r) => Some(r@),
                None => None,
            },
            cart: match &self.cart {
                Some(c) => Some(c@),
                None => None,
            },
            ppu: match &self.ppu {
                Some(p) => Some(p@),
                None => None,
            },
            ic: match &self.ic {
                Some(i) => Some(i@),
                None => None,
            },
            timer: match &self.timer {
                Some(t) => Some(t@),
                None => None,
            },
        }
    }
}

impl Bus {
    /// A bus with nothing connected.
    pub fn new() -> (b: Bus)
        ensures
            b@ == (BusModel { wram: None, hram: None, cart: None, ppu: None, ic: None, timer: None }),
            b@.wf(),
    {
        Bus { wram: None, hram: None, cart: None, ppu: None, ic: None, timer: None }
    }

    /// Connects the working ram; there is room for one.
    pub fn connect_wram(&mut self, wram: Ram) -> (r: GbResult<()>)
        requires
            old(self)@.wf(),
        ensures
            final(self)@.wf(),
            old(self)@.wram is None ==> r.is_ok() && final(self)@ == (BusModel {
                wram: Some(wram@),
                ..old(self)@
            }),
            old(self)@.wram is Some ==> final(self)@ == old(self)@ && outcome(r) == Err::<
                (),
                GbErrorType,
            >(GbErrorType::AlreadyInitialized),
    {
        if self.wram.is_some() {
            return Err(GbError::new(GbErrorType::AlreadyInitialized, "src/bus.rs", 525));
        }
        self.wram = Some(wram);
        Ok(())
    }

    /// Connects the high ram; there is room for one.
    pub fn connect_hram(&mut self, hram: Ram) -> (r: GbResult<()>)
        requires
            old(self)@.wf(),
        ensures
            final(self)@.wf(),
            old(self)@.hram is None ==> r.is_ok() && final(self)@ == (BusModel {
                hram: Some(hram@),
                ..old(self)@
            }),
            old(self)@.hram is Some ==> final(self)@ == old(self)@ && outcome(r) == Err::<
                (),
                GbErrorType,
            >(GbErrorType::AlreadyInitialized),
    {
        if self.hram.is_some() {
            return Err(GbError::new(GbErrorType::AlreadyInitialized, "src/bus.rs", 547));
        }
        self.hram = Some(hram);
        Ok(())
    }

    /// Connects the cartridge; there is room for one.
    pub fn connect_cartridge(&mut self, cart: Cartridge) -> (r: GbResult<()>)
        requires
            old(self)@.wf(),
        ensures
            final(self)@.wf(),
            old(self)@.cart is None ==> r.is_ok() && final(self)@ == (BusModel {
                cart: Some(cart@),
                ..old(self)@
            }),
            old(self)@.cart is Some ==> final(self)@ == old(self)@ && outcome(r) == Err::<
                (),
                GbErrorType,
            >(GbErrorType::AlreadyInitialized),
    {
        if self.cart.is_some() {
            return Err(GbError::new(GbErrorType::AlreadyInitialized, "src/bus.rs", 569));
        }
        self.cart = Some(cart);
        Ok(())
    }

    /// Connects the PPU; there is room for one.
    pub fn connect_ppu(&mut self, ppu: Ppu) -> (r: GbResult<()>)
        requires
            old(self)@.wf(),
            ppu@.wf(),
        ensures
            final(self)@.wf(),
            old(self)@.ppu is None ==> r.is_ok() && final(self)@ == (BusModel {
                ppu: Some(ppu@),
                ..old(self)@
            }),
            old(self)@.ppu is Some ==> final(self)@ == old(self)@ && outcome(r) == Err::<
                (),
                GbErrorType,
            >(GbErrorType::AlreadyInitialized),
    {
        if self.ppu.is_some() {
            return Err(GbError::new(GbErrorType::AlreadyInitialized, "src/bus.rs", 592));
        }
        self.ppu = Some(ppu);
        Ok(())
    }

    /// Connects the interrupt controller; there is room for one.
    pub fn connect_ic(&mut self, ic: Interrupts) -> (r: GbResult<()>)
        requires
            old(self)@.wf(),
        ensures
            final(self)@.wf(),
            old(self)@.ic is None ==> r.is_ok() && final(self)@ == (BusModel {
                ic: Some(ic@),
                ..old(self)@
            }),
            old(self)@.ic is Some ==> final(self)@ == old(self)@ && outcome(r) == Err::<
                (),
                GbErrorType,
            >(GbErrorType::AlreadyInitialized),
    {
        if self.ic.is_some() {
            return Err(GbError::new(GbErrorType::AlreadyInitialized, "src/bus.rs", 614));
        }
        self.ic = Some(ic);
        Ok(())
    }

    /// Connects the timer; there is room for one.
    pub fn connect_timer(&mut self, timer: Timer) -> (r: GbResult<()>)
        requires
            old(self)@.wf(),
        ensures
            final(self)@.wf(),
            old(self)@.timer is None ==> r.is_ok() && final(self)@ == (BusModel {
                timer: Some(timer@),
                ..old(self)@
            }),
            old(self)@.timer is Some ==> final(self)@ == old(self)@ && outcome(r) == Err::<
                (),
                GbErrorType,
            >(GbErrorType::AlreadyInitialized),
    {
        if self.timer.is_some() {
            return Err(GbError::new(GbErrorType::AlreadyInitialized, "src/bus.rs", 636));
        }
        self.timer = Some(timer);
        Ok(())
    }

    /// A read at `addr` by the part of region `r`.
    fn read_at(&self, r: Region, addr: u16) -> (res: GbResult<u8>)
        requires
            self@.wf(),
            self@.read_in(r, addr as int) is Some,
        ensures
            self@.read_in(r, addr as int) == Some(outcome(res)),
    {
        match r {
            Region::CartRom | Region::CartRam => match &self.cart {
                Some(c) => c.read(addr),
                None => {
                    proof {
                        assert(false);
                    }
                    Ok(0xff)
                },
            },
            Region::CartIo => match &self.cart {
                Some(c) => c.io_read(addr),
                None => {
                    proof {
                        assert(false);
                    }
                    Ok(0xff)
                },
            },
            Region::Vram => match &self.ppu {
                Some(p) => p.read(addr),
                None => {
                    proof {
                        assert(false);
                    }
                    Ok(0xff)
                },
            },
            Region::PpuIo => match &self.ppu {
                Some(p) => p.io_read(addr),
                None => {
                    proof {
                        assert(false);
                    }
                    Ok(0xff)
                },
            },
            Region::Wram => match &self.wram {
                Some(w) => w.read(addr - WRAM_START),
                None => {
                    proof {
                        assert(false);
                    }
                    Ok(0xff)
                },
            },
            Region::Hram => match &self.hram {
                Some(h) => h.read(addr - HRAM_START),
                None => {
                    proof {
                        assert(false);
                    }
                    Ok(0xff)
                },
            },
            Region::Timer => match &self.timer {
                Some(t) => t.read(addr),
                None => {
                    proof {
                        assert(false);
                    }
                    Ok(0xff)
                },
            },
            Region::Interrupts => match &self.ic {
                Some(i) => i.read(addr),
                None => {
                    proof {
                        assert(false);
                    }
                    Ok(0xff)
                },
            },
            Region::Unsupported => Ok(0xff),
        }
    }

    /// A write of `val` at `addr` by the part of region `r`.
    fn write_at(&mut self, r: Region, addr: u16, val: u8) -> (res: GbResult<()>)
        requires
            old(self)@.wf(),
            old(self)@.write_in(r, addr as int, val) is Some,
        ensures
            old(self)@.write_in(r, addr as int, val) == Some((final(self)@, outcome(res))),
            final(self)@.wf(),
    {
        match r {
            Region::CartRom | Region::CartRam => match &mut self.cart {
                Some(c) => c.write(addr, val),
                None => {
                    proof {
                        assert(false);
                    }
                    Ok(())
                },
            },
            Region::CartIo => match &mut self.cart {
                Some(c) => c.io_write(addr, val),
                None => {
                    proof {
                        assert(false);
                    }
                    Ok(())
                },
            },
            Region::Vram => match &mut self.ppu {
                Some(p) => p.write(addr, val),
                None => {
                    proof {
                        assert(false);
                    }
                    Ok(())
                },
            },
            Region::PpuIo => match &mut self.ppu {
                Some(p) => p.io_write(addr, val),
                None => {
                    proof {
                        assert(false);
                    }
                    Ok(())
                },
            },
            Region::Wram => match &mut self.wram {
                Some(w) => w.write(addr - WRAM_START, val),
                None => {
                    proof {
                        assert(false);
                    }
                    Ok(())
                },
            },
            Region::Hram => match &mut self.hram {
                Some(h) => h.write(addr - HRAM_START, val),
                None => {
                    proof {
                        assert(false);
                    }
                    Ok(())
                },
            },
            Region::Timer => match &mut self.timer {
                Some(t) => t.write(addr, val),
                None => {
                    proof {
                        assert(false);
                    }
                    Ok(())
                },
            },
            Region::Interrupts => match &mut self.ic {
                Some(i) => i.write(addr, val),
                None => {
                    proof {
                        assert(false);
                    }
                    Ok(())
                },
            },
            Region::Unsupported => Ok(()),
        }
    }

    /// Whether the parts connected are in a state every bus operation keeps.
    pub fn is_wf(&self) -> (b: bool)
        ensures
            b == self@.wf(),
    {
        match &self.ppu {
            Some(p) => p.is_wf(),
            None => true,
        }
    }

    /// Whether the part of region `r` defines a read at `addr`.
    fn read_at_defined(&self, r: Region, addr: u16) -> (b: bool)
        ensures
            b == self@.read_in(r, addr as int) is Some,
    {
        match r {
            Region::CartRom | Region::CartRam => match &self.cart {
                Some(c) => c.readable(addr),
                None => false,
            },
            Region::CartIo => self.cart.is_some(),
            Region::Vram | Region::PpuIo => self.ppu.is_some(),
            Region::Wram => match &self.wram {
                Some(w) => addr >= WRAM_START && ((addr - WRAM_START) as usize) < w.size(),
                None => false,
            },
            Region::Hram => match &self.hram {
                Some(h) => addr >= HRAM_START && ((addr - HRAM_START) as usize) < h.size(),
                None => false,
            },
            Region::Timer => self.timer.is_some(),
            Region::Interrupts => self.ic.is_some(),
            Region::Unsupported => true,
        }
    }

    /// Whether the part of region `r` defines a write of `val` at `addr`.
    fn write_at_defined(&self, r: Region, addr: u16, val: u8) -> (b: bool)
        ensures
            b == self@.write_in(r, addr as int, val) is Some,
    {
        match r {
            Region::CartRom | Region::CartRam => match &self.cart {
                Some(c) => c.writable(addr, val),
                None => false,
            },
            Region::CartIo => self.cart.is_some(),
            Region::Vram | Region::PpuIo => self.ppu.is_some(),
            Region::Wram => match &self.wram {
                Some(w) => addr >= WRAM_START && ((addr - WRAM_START) as usize) < w.size(),
                None => false,
            },
            Region::Hram => match &self.hram {
                Some(h) => addr >= HRAM_START && ((addr - HRAM_START) as usize) < h.size(),
                None => false,
            },
            Region::Timer => self.timer.is_some(),
            Region::Interrupts => self.ic.is_some(),
            Region::Unsupported => true,
        }
    }

    /// Runs one PPU dot, raising its interrupts in IF: whether it ended a
    /// frame, or `None`, with nothing changed, where there is no dot to run.
    pub fn dot(&mut self) -> (r: Option<bool>)
        ensures
            match old(self)@.dot_spec() {
                None => r is None && final(self)@ == old(self)@,
                Some((m, f)) => r == Some(f) && final(self)@ == m,
            },
    {
        let ok = match &self.ppu {
            Some(p) => p.is_wf() && p.can_dot(),
            None => false,
        };
        if !ok || self.ic.is_none() {
            return None;
        }
        let mut ppu = match self.ppu.take() {
            Some(p) => p,
            None => {
                return None;
            },
        };
        let mut ic = match self.ic.take() {
            Some(i) => i,
            None => {
                self.ppu = Some(ppu);
                return None;
            },
        };
        let ghost p0 = ppu@;
        proof {
            assert(p0.steps_spec(0) == (p0, 0u8, false));
            assert(p0.dot_ok());
            assert(p0.steps_ok(0));
            assert(p0.steps_ok(1));
            let r2 = p0.dot_spec().1;
            assert(0u8 | r2 == r2) by (bit_vector);
            assert(p0.steps_spec(1) == (p0.dot_spec().0, r2, p0.dot_spec().2));
        }
        let res = ppu.step(1, &mut ic);
        self.ppu = Some(ppu);
        self.ic = Some(ic);
        match res {
            Ok(f) => Some(f),
            Err(_) => None,
        }
    }

    /// Whether the boot rom is mapped over the start of the cartridge.
    pub fn boot_rom_mapped(&self) -> (b: bool)
        ensures
            b == (self@.cart matches Some(c) && c.boot_mode),
    {
        match &self.cart {
            Some(c) => c.boot_mode,
            None => false,
        }
    }

    /// The interrupt the controller hands to the cpu, if there is an
    /// answer.
    pub fn interrupt_to_serve(&self) -> (r: Option<Option<Interrupt>>)
        ensures
            r == self@.interrupt_spec(),
    {
        match &self.ic {
            Some(i) => {
                let iflag = match i.read(IF_ADDR) {
                    Ok(v) => v,
                    Err(_) => {
                        return None;
                    },
                };
                if iflag & 0x60 == 0 {
                    Some(i.step())
                } else {
                    None
                }
            },
            None => None,
        }
    }

    /// Steps the timer by one cpu tick: false, with nothing changed, where
    /// there is no timer or it cannot count on.
    pub fn timer_tick(&mut self) -> (r: bool)
        ensures
            match old(self)@.timer_tick_spec() {
                None => !r && final(self)@ == old(self)@,
                Some(m) => r && final(self)@ == m,
            },
    {
        match &mut self.timer {
            Some(t) => {
                if t.can_step() {
                    t.step();
                    true
                } else {
                    false
                }
            },
            None => false,
        }
    }

    /// Whether a byte read at `addr` is defined: what `read8` asks of its
    /// caller.
    pub fn readable(&self, addr: u16) -> (b: bool)
        ensures
            b == self@.read8_spec(addr) is Some,
    {
        self.is_wf() && self.read_at_defined(region_of(addr), addr)
    }

    /// Whether a word read at `addr` is defined: what `read16` asks of its
    /// caller.
    pub fn readable16(&self, addr: u16) -> (b: bool)
        ensures
            b == self@.read16_spec(addr) is Some,
    {
        if !self.is_wf() {
            return false;
        }
        let r = region_of(addr);
        if r == Region::Unsupported {
            return true;
        }
        if !self.read_at_defined(r, addr) {
            return false;
        }
        match self.read_at(r, addr) {
            Err(_) => true,
            Ok(_) => addr != 0xffff && self.read_at_defined(r, addr + 1),
        }
    }

    /// Whether the first `n` bytes of an OAM DMA from page `page` are
    /// defined. The copies only change OAM, and reads of OAM always succeed,
    /// so each read is defined in the bus as it is now.
    fn dma_defined(&self, page: u8) -> (b: bool)
        requires
            self@.wf(),
        ensures
            b == self@.dma_spec(page, 160) is Some,
    {
        let ghost m0 = self@;
        let mut offset: u16 = 0;
        while offset < 0xa0
            invariant
                offset <= 0xa0,
                m0 == self@,
                m0.wf(),
                match m0.dma_spec(page, offset as nat) {
                    Some((m, Ok(()))) => same_but_oam(m, m0),
                    _ => false,
                },
            decreases 0xa0 - offset,
        {
            let ghost m = match m0.dma_spec(page, offset as nat) {
                Some((m, _)) => m,
                None => m0,
            };
            let addr = ((page as u16) << 8u16) | offset;
            proof {
                assert(((page as u16) << 8u16) | offset == page * 256 + offset) by (bit_vector)
                    requires
                        offset < 256,
                ;
                lemma_same_but_oam_reads(m, m0, addr);
            }
            if !self.readable(addr) {
                proof {
                    if m0.dma_spec(page, 160) is Some {
                        lemma_dma_prefix(m0, page, 160, (offset + 1) as nat);
                    }
                }
                return false;
            }
            match self.read8(addr) {
                Err(_) => {
                    proof {
                        lemma_dma_err_stays(m0, page, (offset + 1) as nat, 160);
                    }
                    return true;
                },
                Ok(_) => {},
            }
            if self.ppu.is_none() {
                proof {
                    if m0.dma_spec(page, 160) is Some {
                        lemma_dma_prefix(m0, page, 160, (offset + 1) as nat);
                    }
                }
                return false;
            }
            offset = offset + 1;
        }
        true
    }

    /// Whether a byte write of `val` at `addr` is defined: what `write8`
    /// asks of its caller.
    pub fn writable(&self, addr: u16, val: u8) -> (b: bool)
        ensures
            b == self@.write8_spec(addr, val) is Some,
    {
        if !self.is_wf() {
            return false;
        }
        let r = region_of(addr);
        if r == Region::PpuIo && addr == PPU_IO_DMA {
            self.dma_defined(val)
        } else {
            self.write_at_defined(r, addr, val)
        }
    }

    /// Whether a word write of `val` at `addr` is defined: what `write16`
    /// asks of its caller.
    pub fn writable16(&self, addr: u16, val: u16) -> (b: bool)
        ensures
            b == self@.write16_spec(addr, val) is Some,
    {
        if !self.is_wf() {
            return false;
        }
        let r = region_of(addr);
        let lo: u8 = (val % 256) as u8;
        let hi: u8 = (val / 256) as u8;
        if !self.write_at_defined(r, addr, lo) {
            return false;
        }
        if addr == 0xffff {
            return false;
        }
        proof {
            lemma_write_keeps_next_defined(self@, addr, lo, hi);
        }
        self.write_at_defined(r, addr + 1, hi)
    }

    pub fn read8(&self, addr: u16) -> (r: GbResult<u8>)
        requires
            self@.read8_spec(addr) is Some,
        ensures
            self@.read8_spec(addr) == Some(outcome(r)),
    {
        let region = region_of(addr);
        self.read_at(region, addr)
    }

    pub fn read16(&self, addr: u16) -> (r: GbResult<u16>)
        requires
            self@.read16_spec(addr) is Some,
        ensures
            self@.read16_spec(addr) == Some(outcome(r)),
    {
        let region = region_of(addr);
        if region == Region::Unsupported {
            return Ok(0xff);
        }
        let lo = match self.read_at(region, addr) {
            Ok(b) => b,
            Err(e) => {
                return Err(e);
            },
        };
        if addr == 0xffff {
            proof {
                assert(false);
            }
            return Ok(0xff);
        }
        let hi = match self.read_at(region, addr + 1) {
            Ok(b) => b,
            Err(e) => {
                return Err(e);
            },
        };
        // little endian: the first byte is the low one
        proof {
            assert((lo as u16) | ((hi as u16) << 8u16) == lo + 256 * hi) by (bit_vector);
        }
        Ok((lo as u16) | ((hi as u16) << 8u16))
    }

    /// Copies 160 bytes from page `page` into OAM, as the DMA register
    /// does.
    fn dma(&mut self, page: u8) -> (r: GbResult<()>)
        requires
            old(self)@.wf(),
            old(self)@.dma_spec(page, 160) is Some,
        ensures
            old(self)@.dma_spec(page, 160) == Some((final(self)@, outcome(r))),
            final(self)@.wf(),
    {
        let ghost m0 = self@;
        let mut offset: u16 = 0;
        while offset <= 0x9f
            invariant
                offset <= 0xa0,
                m0.dma_spec(page, 160) is Some,
                m0.dma_spec(page, offset as nat) == Some((self@, Ok::<(), GbErrorType>(()))),
                self@.wf(),
            decreases 0xa0 - offset,
        {
            proof {
                lemma_dma_prefix(m0, page, 160, (offset + 1) as nat);
                assert(((page as u16) << 8u16) | offset == page * 256 + offset) by (bit_vector)
                    requires
                        offset < 256,
                ;
            }
            let src_byte = match self.read8(((page as u16) << 8u16) | offset) {
                Ok(b) => b,
                Err(e) => {
                    proof {
                        lemma_dma_err_stays(m0, page, (offset + 1) as nat, 160);
                    }
                    return Err(e);
                },
            };
            match self.write_at(Region::Vram, OAM_START + offset, src_byte) {
                Ok(()) => {},
                Err(e) => {
                    proof {
                        lemma_dma_err_stays(m0, page, (offset + 1) as nat, 160);
                    }
                    return Err(e);
                },
            }
            offset = offset + 1;
        }
        Ok(())
    }

    pub fn write8(&mut self, addr: u16, val: u8) -> (r: GbResult<()>)
        requires
            old(self)@.write8_spec(addr, val) is Some,
        ensures
            old(self)@.write8_spec(addr, val) == Some((final(self)@, outcome(r))),
            final(self)@.wf(),
    {
        let region = region_of(addr);
        if region == Region::PpuIo && addr == PPU_IO_DMA {
            // the transfer is done all at once
            self.dma(val)
        } else {
            self.write_at(region, addr, val)
        }
    }

    pub fn write16(&mut self, addr: u16, val: u16) -> (r: GbResult<()>)
        requires
            old(self)@.write16_spec(addr, val) is Some,
        ensures
            old(self)@.write16_spec(addr, val) == Some((final(self)@, outcome(r))),
            final(self)@.wf(),
    {
        let ghost m0 = self@;
        let region = region_of(addr);
        // little endian: the low byte goes first
        let lo: u8 = (val % 256) as u8;
        let hi: u8 = (val / 256) as u8;
        match self.write_at(region, addr, lo) {
            Ok(()) => {},
            Err(e) => {
                return Err(e);
            },
        }
        if addr == 0xffff {
            proof {
                assert(m0.write_in(region, addr + 1, hi) is None);
                assert(false);
            }
            return Ok(());
        }
        self.write_at(region, addr + 1, hi)
    }
}

/// A transfer that can be run has each of its first bytes runnable.
proof fn lemma_dma_prefix(m: BusModel, page: u8, n: nat, k: nat)
    requires
        m.dma_spec(page, n) is Some,
        k <= n,
    ensures
        m.dma_spec(page, k) is Some,
    decreases n - k,
{
    if k < n {
        lemma_dma_prefix(m, page, (n - 1) as nat, k);
    }
}

/// `m` is `m0` with at most the OAM bytes of its PPU changed.
pub open spec fn same_but_oam(m: BusModel, m0: BusModel) -> bool {
    &&& m.wram == m0.wram
    &&& m.hram == m0.hram
    &&& m.cart == m0.cart
    &&& m.ic == m0.ic
    &&& m.timer == m0.timer
    &&& match (m.ppu, m0.ppu) {
        (Some(p), Some(p0)) => p == (PpuModel { oam: p.oam, ..p0 }) && p.oam.len() == p0.oam.len(),
        (None, None) => true,
        _ => false,
    }
}

/// Reads of a bus whose OAM alone changed are defined where they were, and
/// fail where they failed.
proof fn lemma_same_but_oam_reads(m: BusModel, m0: BusModel, a: u16)
    requires
        same_but_oam(m, m0),
        m0.wf(),
    ensures
        m.wf(),
        (m.read8_spec(a) is Some) == (m0.read8_spec(a) is Some),
        (m.read8_spec(a) matches Some(Ok(_))) == (m0.read8_spec(a) matches Some(Ok(_))),
        m0.read8_spec(a) matches Some(Err(_)) ==> m.read8_spec(a) == m0.read8_spec(a),
{
}

/// A defined write at `addr` succeeds, and leaves whether a write at the
/// next address, in the same part, is defined as it was.
proof fn lemma_write_keeps_next_defined(m: BusModel, addr: u16, lo: u8, hi: u8)
    requires
        m.wf(),
        addr < 0xffff,
        m.write_in(region_spec(addr), addr as int, lo) is Some,
    ensures
        m.write_in(region_spec(addr), addr as int, lo) matches Some((m2, r)) && r is Ok && (
        m2.write_in(region_spec(addr), addr + 1, hi) is Some) == (m.write_in(
            region_spec(addr),
            addr + 1,
            hi,
        ) is Some),
{
    let r = region_spec(addr);
    if r == Region::CartRom || r == Region::CartRam {
        lemma_write_keeps_next_writable(m.cart->0, addr, lo, hi);
    }
}

/// Once a transfer has failed it stays as it was.
proof fn lemma_dma_err_stays(m: BusModel, page: u8, k: nat, n: nat)
    requires
        k <= n,
        m.dma_spec(page, k) matches Some((_, r)) && r is Err,
    ensures
        m.dma_spec(page, n) == m.dma_spec(page, k),
    decreases n - k,
{
    if k < n {
        lemma_dma_err_stays(m, page, k, (n - 1) as nat);
    }
}

impl Memory for Bus {
    open spec fn read8_spec(m: BusModel, addr: u16) -> Option<Result<u8, GbErrorType>> {
        m.read8_spec(addr)
    }

    open spec fn read16_spec(m: BusModel, addr: u16) -> Option<Result<u16, GbErrorType>> {
        m.read16_spec(addr)
    }

    open spec fn write8_spec(m: BusModel, addr: u16, val: u8) -> Option<
        (BusModel, Result<(), GbErrorType>),
    > {
        m.write8_spec(addr, val)
    }

    open spec fn write16_spec(m: BusModel, addr: u16, val: u16) -> Option<
        (BusModel, Result<(), GbErrorType>),
    > {
        m.write16_spec(addr, val)
    }

    fn read8_defined(&self, addr: u16) -> (b: bool) {
        self.readable(addr)
    }

    fn read16_defined(&self, addr: u16) -> (b: bool) {
        self.readable16(addr)
    }

    fn write8_defined(&self, addr: u16, val: u8) -> (b: bool) {
        self.writable(addr, val)
    }

    fn write16_defined(&self, addr: u16, val: u16) -> (b: bool) {
        self.writable16(addr, val)
    }

    fn read8(&self, addr: u16) -> (r: GbResult<u8>) {
        Bus::read8(self, addr)
    }

    fn read16(&self, addr: u16) -> (r: GbResult<u16>) {
        Bus::read16(self, addr)
    }

    fn write8(&mut self, addr: u16, val: u8) -> (r: GbResult<()>) {
        Bus::write8(self, addr, val)
    }

    fn write16(&mut self, addr: u16, val: u16) -> (r: GbResult<()>) {
        Bus::write16(self, addr, val)
    }
}

/// A byte written to working ram is what a read of the same address gives,
/// and the rest of working ram keeps its bytes.
pub proof fn lemma_wram_write_read(m: BusModel, addr: u16, val: u8, other: u16)
    requires
        m.wf(),
        m.wram matches Some(w) && w.len() == 0x2000,
        WRAM_START <= addr <= WRAM_END,
        WRAM_START <= other <= WRAM_END,
    ensures
        m.write8_spec(addr, val) matches Some((m2, r)) && r is Ok && m2.read8_spec(addr) == Some(
            Ok::<u8, GbErrorType>(val),
        ) && (other != addr ==> m2.read8_spec(other) == m.read8_spec(other)),
{
}

/// The same holds of high ram.
pub proof fn lemma_hram_write_read(m: BusModel, addr: u16, val: u8, other: u16)
    requires
        m.wf(),
        m.hram matches Some(h) && h.len() == 127,
        HRAM_START <= addr <= HRAM_END,
        HRAM_START <= other <= HRAM_END,
    ensures
        m.write8_spec(addr, val) matches Some((m2, r)) && r is Ok && m2.read8_spec(addr) == Some(
            Ok::<u8, GbErrorType>(val),
        ) && (other != addr ==> m2.read8_spec(other) == m.read8_spec(other)),
{
}

/// A word written to working ram reads back whole: the two bytes go in
/// little-endian order and come back in the same order.
pub proof fn lemma_wram_word_round_trip(m: BusModel, addr: u16, val: u16)
    requires
        m.wf(),
        m.wram matches Some(w) && w.len() == 0x2000,
        WRAM_START <= addr < WRAM_END,
    ensures
        m.write16_spec(addr, val) matches Some((m2, r)) && r is Ok && m2.read16_spec(addr) == Some(
            Ok::<u16, GbErrorType>(val),
        ),
{
    let (m2, r) = m.write16_spec(addr, val).unwrap();
    assert(((val % 256) as u8 + 256 * (val / 256) as u8) as u16 == val);
}

/// Addresses that nothing answers read $FF and ignore writes.
pub proof fn lemma_unsupported_addresses(m: BusModel, addr: u16, val: u8)
    requires
        m.wf(),
        region_spec(addr) == Region::Unsupported,
    ensures
        m.read8_spec(addr) == Some(Ok::<u8, GbErrorType>(0xff)),
        m.write8_spec(addr, val) == Some((m, Ok::<(), GbErrorType>(()))),
{
}

/// OAM after the first `n` bytes of a DMA from working ram page `page`.
pub open spec fn oam_after_dma(oam: Seq<u8>, wram: Seq<u8>, page: u8, n: nat) -> Seq<u8> {
    Seq::new(
        oam.len(),
        |i: int|
            if i < n {
                wram[(page - 0xc0) * 256 + i]
            } else {
                oam[i]
            },
    )
}

/// A DMA from a page of working ram copies its first 160 bytes into OAM,
/// byte for byte, and changes nothing else.
pub proof fn lemma_dma_from_wram(m: BusModel, page: u8, n: nat)
    requires
        m.wf(),
        m.wram matches Some(w) && w.len() == 0x2000,
        m.ppu is Some,
        0xc0 <= page <= 0xdf,
        n <= 160,
    ensures
        m.dma_spec(page, n) == Some(
            (
                BusModel {
                    ppu: Some(
                        PpuModel {
                            oam: oam_after_dma(m.ppu.unwrap().oam, m.wram.unwrap(), page, n),
                            ..m.ppu.unwrap()
                        },
                    ),
                    ..m
                },
                Ok::<(), GbErrorType>(()),
            ),
        ),
    decreases n,
{
    let p = m.ppu.unwrap();
    let w = m.wram.unwrap();
    if n == 0 {
        assert(oam_after_dma(p.oam, w, page, 0) =~= p.oam);
        assert(PpuModel { oam: p.oam, ..p } == p);
    } else {
        lemma_dma_from_wram(m, page, (n - 1) as nat);
        let p1 = PpuModel { oam: oam_after_dma(p.oam, w, page, (n - 1) as nat), ..p };
        let m1 = BusModel { ppu: Some(p1), ..m };
        let src = (page * 256 + (n - 1)) as u16;
        assert(region_spec(src) == Region::Wram);
        assert(m1.read8_spec(src) == Some(Ok::<u8, GbErrorType>(w[(page - 0xc0) * 256 + (n - 1)])));
        let b = w[(page - 0xc0) * 256 + (n - 1)];
        assert(region_spec((OAM_START + (n - 1)) as u16) == Region::Vram);
        assert(p1.write_spec((OAM_START + (n - 1)) as u16, b).0.oam =~= oam_after_dma(
            p.oam,
            w,
            page,
            n,
        ));
    }
}

} // verus!
