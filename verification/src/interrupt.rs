//! The interrupt controller: the IE and IF registers.

use crate::err::{GbError, GbErrorType, GbResult, outcome};
use vstd::prelude::*;

verus! {

pub const IE_ADDR: u16 = 0xffff;

pub const IF_ADDR: u16 = 0xff0f;

#[derive(Copy, Clone, PartialEq, Eq, Structural, Debug)]
pub enum Interrupt {
    Vblank,
    Lcd,
    Timer,
    Serial,
    Joypad,
}

impl Interrupt {
    /// The bit of the interrupt in IE and IF.
    pub open spec fn spec_mask(self) -> u8 {
        match self {
            Interrupt::Vblank => 0x01,
            Interrupt::Lcd => 0x02,
            Interrupt::Timer => 0x04,
            Interrupt::Serial => 0x08,
            Interrupt::Joypad => 0x10,
        }
    }

    pub fn mask(self) -> (m: u8)
        ensures
            m == self.spec_mask(),
    {
        match self {
            Interrupt::Vblank => 0x01,
            Interrupt::Lcd => 0x02,
            Interrupt::Timer => 0x04,
            Interrupt::Serial => 0x08,
            Interrupt::Joypad => 0x10,
        }
    }

    /// The interrupt whose bit `value` is; any other value is a bad value.
    pub fn try_from_mask(value: u8) -> (r: Result<Interrupt, GbErrorType>)
        ensures
            r matches Ok(i) ==> i.spec_mask() == value,
            r is Err <==> !(value == 1 || value == 2 || value == 4 || value == 8 || value
                == 16),
            r matches Err(e) ==> e == GbErrorType::BadValue,
    {
        if value == 0x01 {
            Ok(Interrupt::Vblank)
        } else if value == 0x02 {
            Ok(Interrupt::Lcd)
        } else if value == 0x04 {
            Ok(Interrupt::Timer)
        } else if value == 0x08 {
            Ok(Interrupt::Serial)
        } else if value == 0x10 {
            Ok(Interrupt::Joypad)
        } else {
            Err(GbErrorType::BadValue)
        }
    }
}

pub struct Interrupts {
    /// Interrupt Enable
    ie: u8,
    /// Interrupt Flag
    iflag: u8,
}

pub struct InterruptsModel {
    pub ie: u8,
    pub iflag: u8,
}

impl View for Interrupts {
    type V = InterruptsModel;

    closed spec fn view(&self) -> InterruptsModel {
        InterruptsModel { ie: self.ie, iflag: self.iflag }
    }
}

/// The interrupts in bit order.
pub open spec fn all_interrupts() -> Seq<Interrupt> {
    seq![
        Interrupt::Vblank,
        Interrupt::Lcd,
        Interrupt::Timer,
        Interrupt::Serial,
        Interrupt::Joypad,
    ]
}

/// The interrupts among the first `n` (in bit order) whose bit is set in
/// `iflag`.
pub open spec fn requested_upto(iflag: u8, n: nat) -> Seq<Interrupt>
    decreases n,
{
    if n == 0 {
        Seq::empty()
    } else {
        let prev = requested_upto(iflag, (n - 1) as nat);
        let i = all_interrupts()[n - 1];
        if i.spec_mask() & iflag != 0 {
            prev.push(i)
        } else {
            prev
        }
    }
}

/// The interrupts requested in IF, in bit order.
pub open spec fn requested(iflag: u8) -> Seq<Interrupt> {
    requested_upto(iflag, 5)
}

/// The first interrupt of `s` that is enabled in IE.
pub open spec fn first_enabled(s: Seq<Interrupt>, ie: u8) -> Option<Interrupt>
    decreases s.len(),
{
    if s.len() == 0 {
        None
    } else if s[0].spec_mask() & ie != 0 {
        Some(s[0])
    } else {
        first_enabled(s.drop_first(), ie)
    }
}

/// The interrupt to serve: the first requested one, in bit order, that is
/// also enabled.
pub open spec fn pending_spec(iflag: u8, ie: u8) -> Option<Interrupt> {
    first_enabled(requested(iflag), ie)
}

impl InterruptsModel {
    pub open spec fn read_spec(self, addr: u16) -> Result<u8, GbErrorType> {
        if addr == IE_ADDR {
            Ok(self.ie)
        } else if addr == IF_ADDR {
            Ok(self.iflag)
        } else {
            Err(GbErrorType::OutOfBounds)
        }
    }

    pub open spec fn write_spec(self, addr: u16, data: u8) -> (InterruptsModel, Result<(), GbErrorType>) {
        if addr == IE_ADDR {
            (InterruptsModel { ie: data, ..self }, Ok(()))
        } else if addr == IF_ADDR {
            (InterruptsModel { iflag: data, ..self }, Ok(()))
        } else {
            (self, Err(GbErrorType::OutOfBounds))
        }
    }
}

impl Interrupts {
    pub fn new() -> (i: Interrupts)
        ensures
            i@.ie == 0,
            i@.iflag == 0,
    {
        Interrupts { ie: 0, iflag: 0 }
    }

    /// Requests an interrupt by setting its bit in IF.
    pub fn raise(&mut self, interrupt: Interrupt)
        ensures
            final(self)@.iflag == old(self)@.iflag | interrupt.spec_mask(),
            final(self)@.ie == old(self)@.ie,
    {
        self.iflag = self.iflag | interrupt.mask();
    }

    /// The interrupt to hand to the cpu, if any: the first requested and
    /// enabled one in bit order. IF bits 5 and 6 name no interrupt.
    pub fn step(&self) -> (i: Option<Interrupt>)
        requires
            self@.iflag & 0x60 == 0,
        ensures
            i == pending_spec(self@.iflag, self@.ie),
    {
        let ints = self.collect_interrupts();
        let mut k: usize = 0;
        assert(ints@.skip(0) =~= ints@);
        while k < ints.len()
            invariant
                k <= ints.len(),
                ints@ == requested(self@.iflag),
                first_enabled(ints@.skip(k as int), self@.ie) == pending_spec(
                    self@.iflag,
                    self@.ie,
                ),
            decreases ints.len() - k,
        {
            let interrupt = ints[k];
            assert(ints@.skip(k as int)[0] == interrupt);
            if interrupt.mask() & self.ie != 0 {
                // only one interrupt is served at a time
                return Some(interrupt);
            }
            assert(ints@.skip(k as int).drop_first() =~= ints@.skip(k + 1));
            k = k + 1;
        }
        None
    }

    /// The requested interrupts, in bit order.
    fn collect_interrupts(&self) -> (ints: Vec<Interrupt>)
        requires
            self@.iflag & 0x60 == 0,
        ensures
            ints@ == requested(self@.iflag),
            ints.len() <= 5,
    {
        let mut ints: Vec<Interrupt> = Vec::new();
        let mut bit: u8 = 0;
        proof {
            lemma_shifts();
            lemma_high_bits_clear(self.iflag);
        }
        while bit < 7
            invariant
                bit <= 7,
                self@.iflag & 0x60 == 0,
                0x20u8 & self@.iflag == 0 && 0x40u8 & self@.iflag == 0,
                1u8 << 0u8 == 0x01u8 && 1u8 << 1u8 == 0x02u8 && 1u8 << 2u8 == 0x04u8 && 1u8 << 3u8
                    == 0x08u8 && 1u8 << 4u8 == 0x10u8 && 1u8 << 5u8 == 0x20u8 && 1u8 << 6u8 == 0x40u8,
                ints@ == requested_upto(self@.iflag, if bit < 5 { bit as nat } else { 5 }),
                ints.len() <= (if bit < 5 { bit } else { 5 }),
            decreases 7 - bit,
        {
            let m: u8 = 1u8 << bit;
            if m & self.iflag > 0 {
                let interrupt = match Interrupt::try_from_mask(m) {
                    Ok(i) => i,
                    Err(_) => {
                        // bits 5 and 6 are clear
                        return ints;
                    },
                };
                ints.push(interrupt);
            }
            bit = bit + 1;
        }
        ints
    }

    pub fn read(&self, addr: u16) -> (r: GbResult<u8>)
        ensures
            outcome(r) == self@.read_spec(addr),
    {
        if addr == IE_ADDR {
            Ok(self.ie)
        } else if addr == IF_ADDR {
            Ok(self.iflag)
        } else {
            Err(GbError::new(GbErrorType::OutOfBounds, "src/interrupt.rs", 266))
        }
    }

    pub fn write(&mut self, addr: u16, data: u8) -> (r: GbResult<()>)
        ensures
            (final(self)@, outcome(r)) == old(self)@.write_spec(addr, data),
    {
        if addr == IE_ADDR {
            self.ie = data;
        } else if addr == IF_ADDR {
            self.iflag = data;
        } else {
            return Err(GbError::new(GbErrorType::OutOfBounds, "src/interrupt.rs", 279));
        }
        Ok(())
    }
}

proof fn lemma_shifts()
    by (bit_vector)
    ensures
        1u8 << 0u8 == 0x01u8,
        1u8 << 1u8 == 0x02u8,
        1u8 << 2u8 == 0x04u8,
        1u8 << 3u8 == 0x08u8,
        1u8 << 4u8 == 0x10u8,
        1u8 << 5u8 == 0x20u8,
        1u8 << 6u8 == 0x40u8,
{
}

proof fn lemma_high_bits_clear(iflag: u8)
    by (bit_vector)
    requires
        iflag & 0x60 == 0,
    ensures
        0x20u8 & iflag == 0,
        0x40u8 & iflag == 0,
{
}

/// A raised interrupt stays requested until IF is written, and raising does
/// not touch the other requests.
pub proof fn lemma_raise_sets_bit(iflag: u8, i: Interrupt)
    ensures
        (iflag | i.spec_mask()) & i.spec_mask() == i.spec_mask(),
        (iflag | i.spec_mask()) & !i.spec_mask() == iflag & !i.spec_mask(),
{
    lemma_or_keeps(iflag, i.spec_mask());
}

proof fn lemma_or_keeps(x: u8, m: u8)
    by (bit_vector)
    ensures
        (x | m) & m == m,
        (x | m) & !m == x & !m,
{
}

} // verus!
