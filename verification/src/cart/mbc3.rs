//! The MBC3 memory bank controller, with its real time clock registers.

use super::mapper::Mapper;
use super::{banks_exact, banks_fit, ERAM_END, ERAM_START, RAM_BANK_SIZE, ROM0_END, ROM1_END, ROM_BANK_SIZE};
use crate::err::{GbError, GbErrorType, GbResult, outcome};
use vstd::prelude::*;
use vstd::std_specs::convert::FromSpecImpl;

verus! {

pub const RAM_TIMER_ENABLE_END: u16 = 0x1fff;

pub const ROM_BANK_NUM_END: u16 = 0x3fff;

pub const RAM_BANK_RTC_SELECT_END: u16 = 0x5fff;

pub const LATCH_CLOCK_END: u16 = 0x7fff;

/// What $A000-$BFFF shows: a ram bank or one of the clock registers.
#[derive(Clone, Copy, PartialEq, Eq, Structural, Debug)]
pub enum RamRtcSelect {
    RamBank(usize),
    RtcS,
    RtcM,
    RtcH,
    RtcDL,
    RtcDH,
    Invalid,
}

impl FromSpecImpl<u8> for RamRtcSelect {
    open spec fn obeys_from_spec() -> bool {
        true
    }

    open spec fn from_spec(val: u8) -> RamRtcSelect {
        if val <= 0x07 {
            RamRtcSelect::RamBank(val as usize)
        } else if val == 0x08 {
            RamRtcSelect::RtcS
        } else if val == 0x09 {
            RamRtcSelect::RtcM
        } else if val == 0x0a {
            RamRtcSelect::RtcH
        } else if val == 0x0b {
            RamRtcSelect::RtcDL
        } else if val == 0x0c {
            RamRtcSelect::RtcDH
        } else {
            RamRtcSelect::Invalid
        }
    }
}

impl From<u8> for RamRtcSelect {
    fn from(val: u8) -> (r: RamRtcSelect) {
        if val <= 0x07 {
            RamRtcSelect::RamBank(val as usize)
        } else if val == 0x08 {
            RamRtcSelect::RtcS
        } else if val == 0x09 {
            RamRtcSelect::RtcM
        } else if val == 0x0a {
            RamRtcSelect::RtcH
        } else if val == 0x0b {
            RamRtcSelect::RtcDL
        } else if val == 0x0c {
            RamRtcSelect::RtcDH
        } else {
            RamRtcSelect::Invalid
        }
    }
}

/// The real time clock registers.
#[derive(Copy, Clone)]
pub struct Rtc {
    /// seconds
    pub s: u8,
    /// minutes
    pub m: u8,
    /// hours
    pub h: u8,
    /// day counter, low byte
    pub dl: u8,
    /// day counter high bit (bit 0), halt (bit 6), day carry (bit 7)
    pub dh: u8,
    pub halt: bool,
    pub day_carry: bool,
}

impl Rtc {
    pub open spec fn zero() -> Rtc {
        Rtc { s: 0, m: 0, h: 0, dl: 0, dh: 0, halt: false, day_carry: false }
    }
}

pub struct Mbc3 {
    rom: Vec<u8>,
    ram: Vec<u8>,
    num_rom_banks: usize,
    num_ram_banks: usize,
    ram_and_timer_enabled: bool,
    rom_bank: usize,
    ram_rtc_select: RamRtcSelect,
    rtc: Rtc,
    latched_rtc: Rtc,
    last_latch_val: u8,
}

/// The state of an MBC3, with flat rom and ram as for the MBC1.
pub struct Mbc3Model {
    pub rom: Seq<u8>,
    pub ram: Seq<u8>,
    pub num_rom_banks: usize,
    pub num_ram_banks: usize,
    pub ram_and_timer_enabled: bool,
    pub rom_bank: usize,
    pub ram_rtc_select: RamRtcSelect,
    pub rtc: Rtc,
    pub latched_rtc: Rtc,
    pub last_latch_val: u8,
}

impl Mbc3Model {
    pub open spec fn wf(self) -> bool {
        &&& self.rom.len() >= self.num_rom_banks * ROM_BANK_SIZE
        &&& self.ram.len() == self.num_ram_banks * RAM_BANK_SIZE
        &&& self.rom_bank < 128
        &&& (self.ram_rtc_select matches RamRtcSelect::RamBank(b) ==> b < 8)
    }

    /// The latched clock register selected, $FF when no clock register is.
    pub open spec fn rtc_read(self) -> u8 {
        match self.ram_rtc_select {
            RamRtcSelect::RtcS => self.latched_rtc.s,
            RamRtcSelect::RtcM => self.latched_rtc.m,
            RamRtcSelect::RtcH => self.latched_rtc.h,
            RamRtcSelect::RtcDL => self.latched_rtc.dl,
            RamRtcSelect::RtcDH => self.latched_rtc.dh,
            _ => 0xff,
        }
    }

    /// The clock after a write to the selected clock register.
    pub open spec fn rtc_write(self, val: u8) -> Rtc {
        let r = self.rtc;
        match self.ram_rtc_select {
            RamRtcSelect::RtcS => Rtc { s: val & 0x3f, ..r },
            RamRtcSelect::RtcM => Rtc { m: val & 0x3f, ..r },
            RamRtcSelect::RtcH => Rtc { h: val & 0x1f, ..r },
            RamRtcSelect::RtcDL => Rtc { dl: val, ..r },
            RamRtcSelect::RtcDH => Rtc {
                dh: val & 0xc1,
                halt: val & 0x40 != 0,
                day_carry: val & 0x80 != 0,
                ..r
            },
            _ => r,
        }
    }

    pub open spec fn ram_index(self, bank: usize, addr: u16) -> int {
        (bank % self.num_ram_banks) * RAM_BANK_SIZE + (addr as int) % (RAM_BANK_SIZE as int)
    }
}

impl View for Mbc3 {
    type V = Mbc3Model;

    closed spec fn view(&self) -> Mbc3Model {
        Mbc3Model {
            rom: self.rom@,
            ram: self.ram@,
            num_rom_banks: self.num_rom_banks,
            num_ram_banks: self.num_ram_banks,
            ram_and_timer_enabled: self.ram_and_timer_enabled,
            rom_bank: self.rom_bank,
            ram_rtc_select: self.ram_rtc_select,
            rtc: self.rtc,
            latched_rtc: self.latched_rtc,
            last_latch_val: self.last_latch_val,
        }
    }
}

proof fn lemma_bank_index(bank: int, n: int, rel: int, size: int)
    requires
        0 <= bank < n,
        0 <= rel < size,
        size > 0,
    ensures
        bank * size + rel < n * size,
{
    assert(bank * size + rel < n * size) by (nonlinear_arith)
        requires
            bank < n,
            0 <= rel < size,
            size > 0,
    ;
}

impl Mbc3 {
    /// Whether the banks named are present and the bank registers in range.
    fn is_wf(&self) -> (b: bool)
        ensures
            b == self@.wf(),
    {
        let select_ok = match self.ram_rtc_select {
            RamRtcSelect::RamBank(bank) => bank < 8,
            _ => true,
        };
        banks_fit(self.rom.len(), self.num_rom_banks, ROM_BANK_SIZE) && banks_exact(
            self.ram.len(),
            self.num_ram_banks,
            RAM_BANK_SIZE,
        ) && self.rom_bank < 128 && select_ok
    }

    /// A controller over the first `num_rom_banks` banks of `rom` with
    /// `num_ram_banks` zero-filled ram banks.
    pub fn new(rom: Vec<u8>, num_rom_banks: usize, num_ram_banks: usize) -> (m: Self)
        requires
            num_rom_banks * ROM_BANK_SIZE <= rom@.len(),
            num_ram_banks * RAM_BANK_SIZE <= usize::MAX,
        ensures
            m@.rom == rom@,
            m@.ram == Seq::new((num_ram_banks * RAM_BANK_SIZE) as nat, |_i: int| 0u8),
            m@.num_rom_banks == num_rom_banks,
            m@.num_ram_banks == num_ram_banks,
            !m@.ram_and_timer_enabled,
            m@.rom_bank == 1,
            m@.ram_rtc_select == RamRtcSelect::RamBank(0),
            m@.rtc == Rtc::zero(),
            m@.latched_rtc == Rtc::zero(),
            m@.last_latch_val == 0xff,
            m@.wf(),
    {
        let zero = Rtc { s: 0, m: 0, h: 0, dl: 0, dh: 0, halt: false, day_carry: false };
        let m = Self {
            rom,
            ram: vec![0u8; num_ram_banks * RAM_BANK_SIZE],
            num_rom_banks,
            num_ram_banks,
            ram_and_timer_enabled: false,
            rom_bank: 1,
            ram_rtc_select: RamRtcSelect::RamBank(0),
            rtc: zero,
            latched_rtc: zero,
            last_latch_val: 0xff,
        };
        assert(m@.ram =~= Seq::new((num_ram_banks * RAM_BANK_SIZE) as nat, |_i: int| 0u8));
        m
    }

    /// Reads the selected clock register, as latched.
    pub fn read_rtc(&self) -> (r: GbResult<u8>)
        ensures
            outcome(r) == Ok::<u8, GbErrorType>(self@.rtc_read()),
    {
        match self.ram_rtc_select {
            RamRtcSelect::RtcS => Ok(self.latched_rtc.s),
            RamRtcSelect::RtcM => Ok(self.latched_rtc.m),
            RamRtcSelect::RtcH => Ok(self.latched_rtc.h),
            RamRtcSelect::RtcDL => Ok(self.latched_rtc.dl),
            RamRtcSelect::RtcDH => Ok(self.latched_rtc.dh),
            _ => Ok(0xff),
        }
    }

    /// Writes the selected clock register; seconds and minutes keep 6 bits,
    /// hours 5, the day high byte bits 0, 6 and 7.
    pub fn write_rtc(&mut self, val: u8) -> (r: GbResult<()>)
        ensures
            final(self)@ == (Mbc3Model { rtc: old(self)@.rtc_write(val), ..old(self)@ }),
            r.is_ok(),
    {
        match self.ram_rtc_select {
            RamRtcSelect::RtcS => self.rtc.s = val & 0x3f,
            RamRtcSelect::RtcM => self.rtc.m = val & 0x3f,
            RamRtcSelect::RtcH => self.rtc.h = val & 0x1f,
            RamRtcSelect::RtcDL => self.rtc.dl = val,
            RamRtcSelect::RtcDH => {
                self.rtc.dh = val & 0xc1;
                self.rtc.halt = (val & 0x40) != 0;
                self.rtc.day_carry = (val & 0x80) != 0;
            },
            _ => {},
        }
        Ok(())
    }
}

impl Mapper for Mbc3 {
    fn writable(&self, addr: u16, val: u8) -> (b: bool) {
        self.is_wf()
    }

    fn readable(&self, addr: u16) -> (b: bool) {
        if !self.is_wf() {
            false
        } else if addr <= ROM1_END {
            self.num_rom_banks > 0
        } else {
            true
        }
    }

    open spec fn read_spec(m: Mbc3Model, addr: u16) -> Option<Result<u8, GbErrorType>> {
        if !m.wf() {
            None
        } else if addr <= ROM0_END {
            if m.num_rom_banks > 0 {
                Some(Ok(m.rom[(addr as int) % (ROM_BANK_SIZE as int)]))
            } else {
                None
            }
        } else if addr <= ROM1_END {
            if m.num_rom_banks > 0 {
                Some(
                    Ok(
                        m.rom[(m.rom_bank % m.num_rom_banks) * ROM_BANK_SIZE + (addr as int) % (
                        ROM_BANK_SIZE as int)],
                    ),
                )
            } else {
                None
            }
        } else if ERAM_START <= addr <= ERAM_END {
            if m.ram_and_timer_enabled {
                match m.ram_rtc_select {
                    RamRtcSelect::RamBank(bank) => if m.num_ram_banks > 0 {
                        Some(Ok(m.ram[m.ram_index(bank, addr)]))
                    } else {
                        Some(Ok(0xff))
                    },
                    _ => Some(Ok(m.rtc_read())),
                }
            } else {
                Some(Ok(0xff))
            }
        } else {
            Some(Err(GbErrorType::OutOfBounds))
        }
    }

    open spec fn write_spec(m: Mbc3Model, addr: u16, val: u8) -> Option<
        (Mbc3Model, Result<(), GbErrorType>),
    > {
        if !m.wf() {
            None
        } else if addr <= RAM_TIMER_ENABLE_END {
            // write $XA to enable ram and timer
            Some((Mbc3Model { ram_and_timer_enabled: val % 16 == 0xa, ..m }, Ok(())))
        } else if addr <= ROM_BANK_NUM_END {
            // selecting bank 0 selects bank 1
            let bank: usize = if val == 0 { 1 } else { (val % 128) as usize };
            Some((Mbc3Model { rom_bank: bank, ..m }, Ok(())))
        } else if addr <= RAM_BANK_RTC_SELECT_END {
            Some(
                (
                    Mbc3Model {
                        ram_rtc_select: <RamRtcSelect as vstd::std_specs::convert::FromSpec<
                            u8,
                        >>::from_spec(val),
                        ..m
                    },
                    Ok(()),
                ),
            )
        } else if addr <= LATCH_CLOCK_END {
            // latch when $00 and then $01 are written
            let latched = if m.last_latch_val == 0 && val == 1 { m.rtc } else { m.latched_rtc };
            Some((Mbc3Model { latched_rtc: latched, last_latch_val: val, ..m }, Ok(())))
        } else if ERAM_START <= addr <= ERAM_END {
            if m.ram_and_timer_enabled {
                match m.ram_rtc_select {
                    RamRtcSelect::RamBank(bank) => if m.num_ram_banks > 0 {
                        Some(
                            (Mbc3Model { ram: m.ram.update(m.ram_index(bank, addr), val), ..m }, Ok(())),
                        )
                    } else {
                        Some((m, Ok(())))
                    },
                    _ => Some((Mbc3Model { rtc: m.rtc_write(val), ..m }, Ok(()))),
                }
            } else {
                Some((m, Ok(())))
            }
        } else {
            Some((m, Err(GbErrorType::OutOfBounds)))
        }
    }

    fn read(&self, addr: u16) -> (r: GbResult<u8>) {
        if addr <= ROM0_END {
            Ok(self.rom[(addr as usize) % ROM_BANK_SIZE])
        } else if addr <= ROM1_END {
            let bank = self.rom_bank % self.num_rom_banks;
            let _len = self.rom.len();
            proof {
                lemma_bank_index(bank as int, self.num_rom_banks as int, (addr as int) % 16384, 16384);
            }
            Ok(self.rom[bank * ROM_BANK_SIZE + (addr as usize) % ROM_BANK_SIZE])
        } else if ERAM_START <= addr && addr <= ERAM_END {
            if self.ram_and_timer_enabled {
                match self.ram_rtc_select {
                    RamRtcSelect::RamBank(bank) => {
                        if self.num_ram_banks > 0 {
                            let bank = bank % self.num_ram_banks;
                            let _len = self.ram.len();
                            proof {
                                lemma_bank_index(bank as int, self.num_ram_banks as int, (addr as int) % 8192, 8192);
                            }
                            Ok(self.ram[bank * RAM_BANK_SIZE + (addr as usize) % RAM_BANK_SIZE])
                        } else {
                            Ok(0xff)
                        }
                    },
                    _ => self.read_rtc(),
                }
            } else {
                Ok(0xff)
            }
        } else {
            Err(GbError::new(GbErrorType::OutOfBounds, "src/cart/mbc3.rs", 426))
        }
    }

    fn write(&mut self, addr: u16, val: u8) -> (r: GbResult<()>) {
        if addr <= RAM_TIMER_ENABLE_END {
            self.ram_and_timer_enabled = val & 0x0f == 0xa;
            assert(val & 0x0f == val % 16) by (bit_vector);
        } else if addr <= ROM_BANK_NUM_END {
            if val == 0 {
                self.rom_bank = 0x01;
            } else {
                self.rom_bank = val as usize & 0x7f;
                assert(val as usize & 0x7f == (val % 128) as usize) by (bit_vector);
            }
        } else if addr <= RAM_BANK_RTC_SELECT_END {
            self.ram_rtc_select = RamRtcSelect::from(val);
        } else if addr <= LATCH_CLOCK_END {
            if self.last_latch_val == 0x00 && val == 0x01 {
                self.latched_rtc = self.rtc;
            }
            self.last_latch_val = val;
        } else if ERAM_START <= addr && addr <= ERAM_END {
            if self.ram_and_timer_enabled {
                match self.ram_rtc_select {
                    RamRtcSelect::RamBank(bank) => {
                        if self.num_ram_banks > 0 {
                            let bank = bank % self.num_ram_banks;
                            let _len = self.ram.len();
                            proof {
                                lemma_bank_index(bank as int, self.num_ram_banks as int, (addr as int) % 8192, 8192);
                            }
                            self.ram.set(bank * RAM_BANK_SIZE + (addr as usize) % RAM_BANK_SIZE, val);
                        }
                    },
                    _ => {
                        let _ = self.write_rtc(val);
                    },
                }
            }
        } else {
            return Err(GbError::new(GbErrorType::OutOfBounds, "src/cart/mbc3.rs", 467));
        }
        Ok(())
    }
}

/// Every defined write keeps the controller well formed.
pub proof fn lemma_mbc3_write_keeps_wf(m: Mbc3Model, addr: u16, val: u8)
    ensures
        <Mbc3 as Mapper>::write_spec(m, addr, val) matches Some((m2, _)) ==> m2.wf(),
{
    if m.wf() && m.num_ram_banks > 0 {
        if let RamRtcSelect::RamBank(b) = m.ram_rtc_select {
            lemma_bank_index((b % m.num_ram_banks) as int, m.num_ram_banks as int, (addr as int) % 8192, 8192);
        }
    }
}

/// The clock is latched exactly when $01 is written right after $00.
pub proof fn lemma_mbc3_latch(m: Mbc3Model, addr: u16, val: u8)
    requires
        m.wf(),
        0x6000 <= addr <= LATCH_CLOCK_END,
    ensures
        <Mbc3 as Mapper>::write_spec(m, addr, val) matches Some((m2, _)) && m2.latched_rtc == (
        if m.last_latch_val == 0 && val == 1 {
            m.rtc
        } else {
            m.latched_rtc
        }) && m2.last_latch_val == val && m2.rtc == m.rtc,
{
}

} // verus!
