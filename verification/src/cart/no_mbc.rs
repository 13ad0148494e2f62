//! No mapper: the whole rom fits in the 32 KiB of rom space.

use super::mapper::Mapper;
use super::{ERAM_END, ERAM_START, RAM_BANK_SIZE, ROM1_END};
use crate::err::{GbError, GbErrorType, GbResult, outcome};
use vstd::prelude::*;

verus! {

pub struct NoMbc {
    rom: Vec<u8>,
    ram: Vec<u8>,
}

pub struct NoMbcModel {
    pub rom: Seq<u8>,
    pub ram: Seq<u8>,
}

impl View for NoMbc {
    type V = NoMbcModel;

    closed spec fn view(&self) -> NoMbcModel {
        NoMbcModel { rom: self.rom@, ram: self.ram@ }
    }
}

impl NoMbc {
    /// A controller over `rom` with `ram_banks` zero-filled 8 KiB ram banks.
    pub fn new(rom: Vec<u8>, ram_banks: u32) -> (m: Self)
        requires
            ram_banks as int * RAM_BANK_SIZE as int <= usize::MAX,
        ensures
            m@.rom == rom@,
            m@.ram == Seq::new((ram_banks as int * RAM_BANK_SIZE as int) as nat, |_i: int| 0u8),
    {
        let m = Self { rom, ram: vec![0u8; ram_banks as usize * RAM_BANK_SIZE] };
        assert(m@.ram =~= Seq::new(
            (ram_banks as int * RAM_BANK_SIZE as int) as nat,
            |_i: int| 0u8,
        ));
        m
    }
}

impl Mapper for NoMbc {
    fn writable(&self, addr: u16, val: u8) -> (b: bool) {
        if addr <= ROM1_END {
            true
        } else if ERAM_START <= addr && addr <= ERAM_END {
            ((addr - ERAM_START) as usize) < self.ram.len()
        } else {
            true
        }
    }

    fn readable(&self, addr: u16) -> (b: bool) {
        if addr <= ROM1_END {
            (addr as usize) < self.rom.len()
        } else if ERAM_START <= addr && addr <= ERAM_END {
            ((addr - ERAM_START) as usize) < self.ram.len()
        } else {
            true
        }
    }

    /// Rom is read directly, external ram from $A000; the rest is out of
    /// bounds. Reads past the end of the rom or the ram are not defined.
    open spec fn read_spec(m: NoMbcModel, addr: u16) -> Option<Result<u8, GbErrorType>> {
        if addr <= ROM1_END {
            if addr < m.rom.len() {
                Some(Ok(m.rom[addr as int]))
            } else {
                None
            }
        } else if ERAM_START <= addr <= ERAM_END {
            if addr - ERAM_START < m.ram.len() {
                Some(Ok(m.ram[addr - ERAM_START]))
            } else {
                None
            }
        } else {
            Some(Err(GbErrorType::OutOfBounds))
        }
    }

    /// Writes to rom are ignored, writes to external ram stored.
    open spec fn write_spec(m: NoMbcModel, addr: u16, val: u8) -> Option<
        (NoMbcModel, Result<(), GbErrorType>),
    > {
        if addr <= ROM1_END {
            Some((m, Ok(())))
        } else if ERAM_START <= addr <= ERAM_END {
            if addr - ERAM_START < m.ram.len() {
                Some((NoMbcModel { ram: m.ram.update(addr - ERAM_START, val), ..m }, Ok(())))
            } else {
                None
            }
        } else {
            Some((m, Err(GbErrorType::OutOfBounds)))
        }
    }

    fn read(&self, addr: u16) -> (r: GbResult<u8>) {
        if addr <= ROM1_END {
            Ok(self.rom[addr as usize])
        } else if ERAM_START <= addr && addr <= ERAM_END {
            Ok(self.ram[(addr - ERAM_START) as usize])
        } else {
            Err(GbError::new(GbErrorType::OutOfBounds, "src/cart/no_mbc.rs", 110))
        }
    }

    fn write(&mut self, addr: u16, val: u8) -> (r: GbResult<()>) {
        if addr <= ROM1_END {
            // games sometimes write to rom; it is ignored
        } else if ERAM_START <= addr && addr <= ERAM_END {
            self.ram.set((addr - ERAM_START) as usize, val);
        } else {
            return Err(GbError::new(GbErrorType::OutOfBounds, "src/cart/no_mbc.rs", 120));
        }
        Ok(())
    }
}

} // verus!
