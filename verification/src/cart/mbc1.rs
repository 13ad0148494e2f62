//! The MBC1 memory bank controller.

use super::mapper::Mapper;
use super::{banks_exact, banks_fit, ERAM_END, ERAM_START, RAM_BANK_SIZE, ROM0_END, ROM1_END, ROM1_START, ROM_BANK_SIZE};
use crate::err::{GbError, GbErrorType, GbResult, outcome};
use vstd::prelude::*;

verus! {

pub const RAM_ENABLE_END: u16 = 0x1fff;

pub const ROM_BANK_NUM_END: u16 = 0x3fff;

pub const RAM_BANK_NUM_END: u16 = 0x5fff;

pub const BANK_MODE_END: u16 = 0x7fff;

pub struct Mbc1 {
    rom: Vec<u8>,
    ram: Vec<u8>,
    ram_enabled: bool,
    rom_bank: usize,
    // either the ram bank or the upper 2 bits of the rom bank
    secondary_bank: usize,
    simple_bank_mode: bool,
    num_rom_banks: usize,
    num_ram_banks: usize,
}

/// The state of an MBC1. The rom and ram are flat: bank `b` starts at
/// `b * 16 KiB` in `rom` and at `b * 8 KiB` in `ram`.
pub struct Mbc1Model {
    pub rom: Seq<u8>,
    pub ram: Seq<u8>,
    pub ram_enabled: bool,
    pub rom_bank: usize,
    pub secondary_bank: usize,
    pub simple_bank_mode: bool,
    pub num_rom_banks: usize,
    pub num_ram_banks: usize,
}

impl Mbc1Model {
    /// The banks named are present and the bank registers in range; `new`
    /// establishes it and every defined write keeps it.
    pub open spec fn wf(self) -> bool {
        &&& self.rom.len() >= self.num_rom_banks * ROM_BANK_SIZE
        &&& self.ram.len() == self.num_ram_banks * RAM_BANK_SIZE
        &&& self.secondary_bank < 4
        &&& self.rom_bank < 256
    }
    /// The bank behind $0000-$3FFF: 0 in simple banking mode, else the
    /// secondary bank as the upper bits.
    pub open spec fn mapped_rom_bank0(self) -> usize {
        if self.simple_bank_mode {
            0
        } else {
            self.secondary_bank << 5
        }
    }

    /// The bank behind $4000-$7FFF.
    pub open spec fn mapped_rom_bank1(self) -> usize {
        (self.secondary_bank << 5) | self.rom_bank
    }

    pub open spec fn mapped_ram_bank(self) -> usize {
        self.secondary_bank
    }

    pub open spec fn rom_at(self, bank: usize, addr: u16) -> Option<Result<u8, GbErrorType>> {
        if bank < self.num_rom_banks {
            Some(Ok(self.rom[bank * ROM_BANK_SIZE + (addr as int) % (ROM_BANK_SIZE as int)]))
        } else {
            None
        }
    }
}

impl View for Mbc1 {
    type V = Mbc1Model;

    closed spec fn view(&self) -> Mbc1Model {
        Mbc1Model {
            rom: self.rom@,
            ram: self.ram@,
            ram_enabled: self.ram_enabled,
            rom_bank: self.rom_bank,
            secondary_bank: self.secondary_bank,
            simple_bank_mode: self.simple_bank_mode,
            num_rom_banks: self.num_rom_banks,
            num_ram_banks: self.num_ram_banks,
        }
    }
}

proof fn lemma_bank_bounds(sec: usize, rb: usize)
    requires
        sec < 4,
        rb < 256,
    ensures
        (sec << 5) < 128,
        ((sec << 5) | rb) < 256,
{
    assert((sec << 5) < 128) by (bit_vector)
        requires
            sec < 4,
    ;
    assert(((sec << 5) | rb) < 256) by (bit_vector)
        requires
            sec < 4,
            rb < 256,
    ;
}

proof fn lemma_bank_index(bank: usize, n: usize, rel: int, size: int)
    requires
        bank < n,
        0 <= rel < size,
        size > 0,
    ensures
        bank * size + rel < n * size,
{
    assert(bank * size + rel < n * size) by (nonlinear_arith)
        requires
            bank < n,
            0 <= rel < size,
            size > 0,
    ;
}

impl Mbc1 {

    /// A controller over the first `num_rom_banks` banks of `rom` with
    /// `num_ram_banks` zero-filled ram banks; rom bank 1 is selected and ram
    /// is disabled.
    pub fn new(rom: Vec<u8>, num_rom_banks: usize, num_ram_banks: usize) -> (m: Self)
        requires
            num_rom_banks * ROM_BANK_SIZE <= rom@.len(),
            num_ram_banks * RAM_BANK_SIZE <= usize::MAX,
        ensures
            m@.rom == rom@,
            m@.ram == Seq::new((num_ram_banks * RAM_BANK_SIZE) as nat, |_i: int| 0u8),
            !m@.ram_enabled,
            m@.rom_bank == 1,
            m@.secondary_bank == 0,
            !m@.simple_bank_mode,
            m@.num_rom_banks == num_rom_banks,
            m@.num_ram_banks == num_ram_banks,
            m@.wf(),
    {
        let m = Self {
            rom,
            ram: vec![0u8; num_ram_banks * RAM_BANK_SIZE],
            ram_enabled: false,
            rom_bank: 1,
            secondary_bank: 0,
            simple_bank_mode: false,
            num_rom_banks,
            num_ram_banks,
        };
        assert(m@.ram =~= Seq::new((num_ram_banks * RAM_BANK_SIZE) as nat, |_i: int| 0u8));
        m
    }

    /// Whether the banks named are present and the bank registers in range.
    fn is_wf(&self) -> (b: bool)
        ensures
            b == self@.wf(),
    {
        banks_fit(self.rom.len(), self.num_rom_banks, ROM_BANK_SIZE) && banks_exact(
            self.ram.len(),
            self.num_ram_banks,
            RAM_BANK_SIZE,
        ) && self.secondary_bank < 4 && self.rom_bank < 256
    }

    fn get_mapped_rom_bank0(&self) -> (b: usize)
        requires
            self@.wf(),
        ensures
            b == self@.mapped_rom_bank0(),
            b < 256,
    {
        proof {
            lemma_bank_bounds(self.secondary_bank, self.rom_bank);
        }
        if self.simple_bank_mode {
            // simple mode has no mapping for bank 0
            0
        } else {
            self.secondary_bank << 5
        }
    }

    fn get_mapped_rom_bank1(&self) -> (b: usize)
        requires
            self@.wf(),
        ensures
            b == self@.mapped_rom_bank1(),
            b < 256,
    {
        proof {
            lemma_bank_bounds(self.secondary_bank, self.rom_bank);
        }
        (self.secondary_bank << 5) | self.rom_bank
    }

    fn get_mapped_ram_bank(&self) -> (b: usize)
        requires
            self@.wf(),
        ensures
            b == self@.mapped_ram_bank(),
            b < 4,
    {
        self.secondary_bank
    }

    fn rom_byte(&self, bank: usize, addr: u16) -> (r: GbResult<u8>)
        requires
            bank < 256,
            self@.wf(),
            self@.rom_at(bank, addr) is Some,
        ensures
            self@.rom_at(bank, addr) == Some(outcome(r)),
    {
        proof {
            lemma_bank_index(bank, self.num_rom_banks, (addr as int) % 16384, 16384);
        }
        Ok(self.rom[bank * ROM_BANK_SIZE + (addr as usize) % ROM_BANK_SIZE])
    }
}

impl Mapper for Mbc1 {
    fn writable(&self, addr: u16, val: u8) -> (b: bool) {
        if !self.is_wf() {
            false
        } else if addr <= RAM_ENABLE_END {
            true
        } else if addr <= ROM_BANK_NUM_END {
            val == 0 || self.num_rom_banks != 0
        } else if addr <= BANK_MODE_END {
            true
        } else if ERAM_START <= addr && addr <= ERAM_END {
            !self.ram_enabled || self.get_mapped_ram_bank() < self.num_ram_banks
        } else {
            true
        }
    }

    fn readable(&self, addr: u16) -> (b: bool) {
        if !self.is_wf() {
            false
        } else if addr <= ROM0_END {
            self.get_mapped_rom_bank0() < self.num_rom_banks
        } else if addr <= ROM1_END {
            self.get_mapped_rom_bank1() < self.num_rom_banks
        } else if ERAM_START <= addr && addr <= ERAM_END {
            !self.ram_enabled || self.get_mapped_ram_bank() < self.num_ram_banks
        } else {
            true
        }
    }

    open spec fn read_spec(m: Mbc1Model, addr: u16) -> Option<Result<u8, GbErrorType>> {
        if !m.wf() {
            None
        } else if addr <= ROM0_END {
            m.rom_at(m.mapped_rom_bank0(), addr)
        } else if addr <= ROM1_END {
            m.rom_at(m.mapped_rom_bank1(), addr)
        } else if ERAM_START <= addr <= ERAM_END {
            if m.ram_enabled {
                if m.mapped_ram_bank() < m.num_ram_banks {
                    Some(
                        Ok(
                            m.ram[m.mapped_ram_bank() * RAM_BANK_SIZE + (addr as int) % (
                            RAM_BANK_SIZE as int)],
                        ),
                    )
                } else {
                    None
                }
            } else {
                // reading disabled ram gives $FF
                Some(Ok(0xff))
            }
        } else {
            Some(Err(GbErrorType::OutOfBounds))
        }
    }

    open spec fn write_spec(m: Mbc1Model, addr: u16, val: u8) -> Option<
        (Mbc1Model, Result<(), GbErrorType>),
    > {
        if !m.wf() {
            None
        } else if addr <= RAM_ENABLE_END {
            // write $XA to enable ram
            Some((Mbc1Model { ram_enabled: val % 16 == 0xa, ..m }, Ok(())))
        } else if addr <= ROM_BANK_NUM_END {
            // selecting bank 0 selects bank 1
            if val == 0 {
                Some((Mbc1Model { rom_bank: 1, ..m }, Ok(())))
            } else if m.num_rom_banks == 0 {
                None
            } else {
                Some((Mbc1Model { rom_bank: (val as usize) % m.num_rom_banks, ..m }, Ok(())))
            }
        } else if addr <= RAM_BANK_NUM_END {
            Some((Mbc1Model { secondary_bank: (val % 4) as usize, ..m }, Ok(())))
        } else if addr <= BANK_MODE_END {
            Some((Mbc1Model { simple_bank_mode: val % 2 == 1, ..m }, Ok(())))
        } else if ERAM_START <= addr <= ERAM_END {
            if m.ram_enabled {
                if m.mapped_ram_bank() < m.num_ram_banks {
                    Some(
                        (
                            Mbc1Model {
                                ram: m.ram.update(
                                    m.mapped_ram_bank() * RAM_BANK_SIZE + (addr as int) % (
                                    RAM_BANK_SIZE as int),
                                    val,
                                ),
                                ..m
                            },
                            Ok(()),
                        ),
                    )
                } else {
                    None
                }
            } else {
                Some((m, Ok(())))
            }
        } else {
            Some((m, Err(GbErrorType::OutOfBounds)))
        }
    }

    fn read(&self, addr: u16) -> (r: GbResult<u8>) {
        if addr <= ROM0_END {
            let bank = self.get_mapped_rom_bank0();
            self.rom_byte(bank, addr)
        } else if addr <= ROM1_END {
            let bank = self.get_mapped_rom_bank1();
            self.rom_byte(bank, addr)
        } else if ERAM_START <= addr && addr <= ERAM_END {
            if self.ram_enabled {
                let bank = self.get_mapped_ram_bank();
                proof {
                    lemma_bank_index(bank, self.num_ram_banks, (addr as int) % 8192, 8192);
                }
                Ok(self.ram[bank * RAM_BANK_SIZE + (addr as usize) % RAM_BANK_SIZE])
            } else {
                Ok(0xff)
            }
        } else {
            Err(GbError::new(GbErrorType::OutOfBounds, "src/cart/mbc1.rs", 359))
        }
    }

    fn write(&mut self, addr: u16, val: u8) -> (r: GbResult<()>) {
        if addr <= RAM_ENABLE_END {
            self.ram_enabled = val & 0x0f == 0xa;
            assert(val & 0x0f == val % 16) by (bit_vector);
        } else if addr <= ROM_BANK_NUM_END {
            if val == 0 {
                self.rom_bank = 0x01;
            } else {
                self.rom_bank = val as usize % self.num_rom_banks;
            }
        } else if addr <= RAM_BANK_NUM_END {
            self.secondary_bank = val as usize & 0x3;
            assert(val as usize & 0x3 == (val % 4) as usize) by (bit_vector);
        } else if addr <= BANK_MODE_END {
            self.simple_bank_mode = val & 0x1 > 0;
            assert((val & 0x1 > 0) == (val % 2 == 1)) by (bit_vector);
        } else if ERAM_START <= addr && addr <= ERAM_END {
            if self.ram_enabled {
                let bank = self.get_mapped_ram_bank();
                proof {
                    lemma_bank_index(bank, self.num_ram_banks, (addr as int) % 8192, 8192);
                }
                self.ram.set(bank * RAM_BANK_SIZE + (addr as usize) % RAM_BANK_SIZE, val);
            }
        } else {
            return Err(GbError::new(GbErrorType::OutOfBounds, "src/cart/mbc1.rs", 388));
        }
        Ok(())
    }
}

/// Every defined write keeps the controller well formed.
pub proof fn lemma_mbc1_write_keeps_wf(m: Mbc1Model, addr: u16, val: u8)
    ensures
        <Mbc1 as Mapper>::write_spec(m, addr, val) matches Some((m2, _)) ==> m2.wf(),
{
    if m.wf() && m.secondary_bank < m.num_ram_banks {
        lemma_bank_index(m.secondary_bank, m.num_ram_banks, (addr as int) % 8192, 8192);
    }
    if m.num_rom_banks > 0 {
        vstd::arithmetic::div_mod::lemma_mod_bound(val as int, m.num_rom_banks as int);
        if (val as usize) < m.num_rom_banks {
            vstd::arithmetic::div_mod::lemma_small_mod(val as nat, m.num_rom_banks as nat);
        }
    }
}

/// Ram is enabled exactly by a write to $0000-$1FFF whose low nibble is $A.
pub proof fn lemma_mbc1_ram_enable(m: Mbc1Model, addr: u16, val: u8)
    requires
        m.wf(),
        addr <= RAM_ENABLE_END,
    ensures
        <Mbc1 as Mapper>::write_spec(m, addr, val) matches Some((m2, res)) && res is Ok
            && m2.ram_enabled == (val % 16 == 0xa),
{
}

/// Selecting rom bank 0 selects bank 1.
pub proof fn lemma_mbc1_bank_zero_is_one(m: Mbc1Model, addr: u16)
    requires
        m.wf(),
        0x2000 <= addr <= ROM_BANK_NUM_END,
    ensures
        <Mbc1 as Mapper>::write_spec(m, addr, 0) matches Some((m2, _)) && m2.rom_bank == 1,
{
}

} // verus!
