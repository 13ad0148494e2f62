//! The Sharp SM83 cpu of the Game Boy: registers, flags, the arithmetic unit
//! and the execution of one instruction against a memory.

pub mod alu;
pub mod decode;
pub mod exec;

use crate::err::{GbResult, outcome};
use crate::mem::Memory;
use crate::bus::{Bus, BusModel, WRAM_END, WRAM_START, lemma_wram_word_round_trip};
use exec::{call_to_spec, pop_spec, push_spec, ret_spec, step_spec, wrap16};
use std::collections::VecDeque;
use vstd::prelude::*;

verus! {

/// Zero flag. Set if the result of an operation is zero.
pub const FLAG_Z: u8 = 0x80;

/// Subtraction flag. Set if the previous instruction was a subtraction.
pub const FLAG_N: u8 = 0x40;

/// Half-carry flag. The carry out of the lower 4 bits of the result.
pub const FLAG_H: u8 = 0x20;

/// Carry flag. Set when an 8-bit addition goes above $FF, a 16-bit addition
/// above $FFFF, a subtraction or comparison below zero, or a rotate or shift
/// moves out a one bit.
pub const FLAG_C: u8 = 0x10;

/// How many program counters the cpu remembers.
pub const HISTORY_CAP: usize = 5;

/// The flag byte with the given flags set and the lower nibble clear.
pub open spec fn flags_byte(z: bool, n: bool, h: bool, c: bool) -> u8 {
    ((if z { 0x80u8 } else { 0u8 }) | (if n { 0x40u8 } else { 0u8 })) | ((if h {
        0x20u8
    } else {
        0u8
    }) | (if c { 0x10u8 } else { 0u8 }))
}

pub open spec fn flag_z(f: u8) -> bool {
    f & 0x80u8 != 0
}

pub open spec fn flag_n(f: u8) -> bool {
    f & 0x40u8 != 0
}

pub open spec fn flag_h(f: u8) -> bool {
    f & 0x20u8 != 0
}

pub open spec fn flag_c(f: u8) -> bool {
    f & 0x10u8 != 0
}

/// Reading a flag back from `flags_byte` gives the flag that was put in, and
/// the lower nibble of a flag byte is clear.
pub proof fn lemma_flags_byte(z: bool, n: bool, h: bool, c: bool)
    by (bit_vector)
    ensures
        flag_z(flags_byte(z, n, h, c)) == z,
        flag_n(flags_byte(z, n, h, c)) == n,
        flag_h(flags_byte(z, n, h, c)) == h,
        flag_c(flags_byte(z, n, h, c)) == c,
        flags_byte(z, n, h, c) & 0x0fu8 == 0,
{
}

/// Builds a flag byte.
pub fn make_flags(z: bool, n: bool, h: bool, c: bool) -> (f: u8)
    ensures
        f == flags_byte(z, n, h, c),
{
    ((if z { 0x80u8 } else { 0u8 }) | (if n { 0x40u8 } else { 0u8 })) | ((if h {
        0x20u8
    } else {
        0u8
    }) | (if c { 0x10u8 } else { 0u8 }))
}

/// Whether a flag byte has the carry flag set.
pub fn carry_set(f: u8) -> (c: bool)
    ensures
        c == flag_c(f),
{
    f & FLAG_C != 0
}

/// Whether a flag byte has the zero flag set.
pub fn zero_set(f: u8) -> (z: bool)
    ensures
        z == flag_z(f),
{
    f & FLAG_Z != 0
}

/// Whether a flag byte has the subtraction flag set.
pub fn sub_set(f: u8) -> (n: bool)
    ensures
        n == flag_n(f),
{
    f & FLAG_N != 0
}

/// Whether a flag byte has the half carry flag set.
pub fn half_set(f: u8) -> (h: bool)
    ensures
        h == flag_h(f),
{
    f & FLAG_H != 0
}

/// The values of all registers, as one plain value.
#[derive(Clone, Copy)]
pub struct CpuRegs {
    pub a: u8,
    pub f: u8,
    pub b: u8,
    pub c: u8,
    pub d: u8,
    pub e: u8,
    pub h: u8,
    pub l: u8,
    pub sp: u16,
    pub pc: u16,
    pub ime: bool,
}

/// The last program counters the cpu fetched from, oldest first.
pub struct InstrHistory {
    cap: usize,
    data: VecDeque<u16>,
}

impl View for InstrHistory {
    type V = Seq<u16>;

    closed spec fn view(&self) -> Seq<u16> {
        self.data@
    }
}

impl InstrHistory {
    pub closed spec fn spec_cap(&self) -> nat {
        self.cap as nat
    }

    /// A history is never longer than its capacity.
    pub closed spec fn wf(&self) -> bool {
        self.data@.len() <= self.cap
    }

    pub fn new(cap: usize) -> (h: InstrHistory)
        ensures
            h@ == Seq::<u16>::empty(),
            h.spec_cap() == cap,
            h.wf(),
    {
        InstrHistory { data: VecDeque::new(), cap }
    }

    pub fn len(&self) -> (n: usize)
        ensures
            n == self@.len(),
    {
        self.data.len()
    }

    pub fn cap(&self) -> (n: usize)
        ensures
            n == self.spec_cap(),
    {
        self.cap
    }

    /// Records `entry`, dropping the oldest entry when the history would
    /// grow past its capacity.
    pub fn push(&mut self, entry: u16)
        requires
            old(self).wf(),
        ensures
            final(self).wf(),
            final(self).spec_cap() == old(self).spec_cap(),
            final(self)@ == (if old(self)@.len() + 1 > old(self).spec_cap() {
                old(self)@.push(entry).drop_first()
            } else {
                old(self)@.push(entry)
            }),
    {
        self.data.push_back(entry);
        if self.data.len() > self.cap {
            self.data.pop_front();
        }
    }

    pub fn entries(&self) -> (d: &VecDeque<u16>)
        ensures
            d@ == self@,
    {
        &self.data
    }
}

/// A 16-bit register pair, addressable as its high and low byte.
#[derive(Clone, Copy)]
pub struct Register {
    pub lo: u8,
    pub hi: u8,
}

impl Register {
    pub open spec fn value(&self) -> u16 {
        (self.hi as int * 256 + self.lo as int) as u16
    }

    pub fn new() -> (r: Register)
        ensures
            r.lo == 0,
            r.hi == 0,
    {
        Register { lo: 0, hi: 0 }
    }

    /// The pair read as one little-endian 16-bit value.
    pub fn hilo(&self) -> (v: u16)
        ensures
            v == self.value(),
            v == self.hi as int * 256 + self.lo as int,
    {
        self.hi as u16 * 256 + self.lo as u16
    }

    pub fn set_u16(&mut self, val: u16)
        ensures
            final(self).lo == val % 256,
            final(self).hi == val / 256,
            final(self).value() == val,
    {
        self.lo = (val % 256) as u8;
        self.hi = (val / 256) as u8;
    }
}

/// What `set_u16` stores is what `hilo` reads back, and splitting a value
/// into its bytes and joining them again gives the value.
pub proof fn lemma_register_round_trip(val: u16)
    ensures
        ((val / 256) as int * 256 + (val % 256) as int) as u16 == val,
        (val / 256) < 256,
{
}

/// The cpu: its registers, the interrupt master enable and the history of
/// fetched program counters.
pub struct Cpu {
    /// A -> Hi, F -> Lo
    pub af: Register,
    /// B -> Hi, C -> Lo
    pub bc: Register,
    /// D -> Hi, E -> Lo
    pub de: Register,
    /// H -> Hi, L -> Lo
    pub hl: Register,
    pub sp: u16,
    pub pc: u16,
    /// interrupt master enable
    pub ime: bool,
    pub history: InstrHistory,
}

impl Cpu {
    pub open spec fn regs(&self) -> CpuRegs {
        CpuRegs {
            a: self.af.hi,
            f: self.af.lo,
            b: self.bc.hi,
            c: self.bc.lo,
            d: self.de.hi,
            e: self.de.lo,
            h: self.hl.hi,
            l: self.hl.lo,
            sp: self.sp,
            pc: self.pc,
            ime: self.ime,
        }
    }

    pub open spec fn wf(&self) -> bool {
        self.history.wf()
    }

    /// The history after one more fetch from `pc`.
    pub open spec fn history_after(h: Seq<u16>, cap: nat, pc: u16) -> Seq<u16> {
        if h.len() + 1 > cap {
            h.push(pc).drop_first()
        } else {
            h.push(pc)
        }
    }

    pub fn new() -> (c: Cpu)
        ensures
            c.regs() == (CpuRegs {
                a: 0,
                f: 0,
                b: 0,
                c: 0,
                d: 0,
                e: 0,
                h: 0,
                l: 0,
                sp: 0,
                pc: 0,
                ime: false,
            }),
            c.history@ == Seq::<u16>::empty(),
            c.history.spec_cap() == HISTORY_CAP,
            c.wf(),
    {
        Cpu {
            af: Register::new(),
            bc: Register::new(),
            de: Register::new(),
            hl: Register::new(),
            sp: 0,
            pc: 0,
            ime: false,
            history: InstrHistory::new(HISTORY_CAP),
        }
    }

    /// All registers as one value.
    pub fn get_regs(&self) -> (r: CpuRegs)
        ensures
            r == self.regs(),
    {
        CpuRegs {
            a: self.af.hi,
            f: self.af.lo,
            b: self.bc.hi,
            c: self.bc.lo,
            d: self.de.hi,
            e: self.de.lo,
            h: self.hl.hi,
            l: self.hl.lo,
            sp: self.sp,
            pc: self.pc,
            ime: self.ime,
        }
    }

    /// Loads all registers from one value; the history is kept.
    pub fn set_regs(&mut self, r: CpuRegs)
        ensures
            final(self).regs() == r,
            final(self).history == old(self).history,
    {
        self.af = Register { hi: r.a, lo: r.f };
        self.bc = Register { hi: r.b, lo: r.c };
        self.de = Register { hi: r.d, lo: r.e };
        self.hl = Register { hi: r.h, lo: r.l };
        self.sp = r.sp;
        self.pc = r.pc;
        self.ime = r.ime;
    }

    /// Whether `step` is defined on `mem`: what it asks of its caller.
    pub fn step_defined<M: Memory>(&self, mem: &M) -> (b: bool)
        ensures
            b == step_spec::<M>(self.regs(), mem@) is Some,
    {
        exec::step_defined(self.get_regs(), mem)
    }

    /// Executes one instruction: records PC in the history, fetches the
    /// opcode, advances PC and carries the instruction out.
    pub fn step<M: Memory>(&mut self, mem: &mut M) -> (r: GbResult<()>)
        requires
            old(self).wf(),
            step_spec::<M>(old(self).regs(), old(mem)@) is Some,
        ensures
            final(self).wf(),
            step_spec::<M>(old(self).regs(), old(mem)@) == Some(
                (final(self).regs(), final(mem)@, outcome(r)),
            ),
            final(self).history@ == Self::history_after(
                old(self).history@,
                old(self).history.spec_cap(),
                old(self).pc,
            ),
            final(self).history.spec_cap() == old(self).history.spec_cap(),
    {
        self.history.push(self.pc);
        let op = match mem.read8(self.pc) {
            Ok(op) => op,
            Err(e) => return Err(e),
        };
        let regs = CpuRegs { pc: self.pc.wrapping_add(1), ..self.get_regs() };
        assert(regs.pc == wrap16(self.pc, 1));
        let ins = decode::decode(op);
        let (out, res) = exec::execute(regs, mem, ins);
        self.set_regs(out);
        res
    }
}

/// With the stack in working ram, a register pair pushed and then popped
/// into BC, DE or HL comes back whole, and the stack pointer returns to
/// where it was.
pub proof fn lemma_push_pop(r: CpuRegs, m: BusModel, p: u8, q: u8)
    requires
        m.wf(),
        m.wram matches Some(w) && w.len() == 0x2000,
        WRAM_START + 2 <= r.sp <= WRAM_END + 1,
        p < 4,
        q < 3,
    ensures
        push_spec::<Bus>(r, m, p) is Some,
        push_spec::<Bus>(r, m, p).unwrap().2 is Ok,
        ({
            let (r1, m1, _) = push_spec::<Bus>(r, m, p).unwrap();
            let o = pop_spec::<Bus>(r1, m1, q);
            &&& o is Some
            &&& o.unwrap().2 is Ok
            &&& o.unwrap().0.sp == r.sp
            &&& o.unwrap().0.get_r16(q) == r.get_stack_r16(p)
        }),
{
    let sp = (r.sp - 2) as u16;
    assert(wrap16(r.sp, -2) == sp);
    let v = r.get_stack_r16(p);
    lemma_wram_word_round_trip(m, sp, v);
    assert(wrap16(sp, 2) == r.sp);
    assert(((v / 256) as u8 * 256 + (v % 256) as u8) as u16 == v);
}

/// With the stack in working ram, a return after a call goes back to the
/// address the call saved, with the stack pointer where it was before the
/// call.
pub proof fn lemma_call_ret(r: CpuRegs, m: BusModel, addr: u16)
    requires
        m.wf(),
        m.wram matches Some(w) && w.len() == 0x2000,
        WRAM_START + 2 <= r.sp <= WRAM_END + 1,
    ensures
        call_to_spec::<Bus>(r, m, addr) is Some,
        call_to_spec::<Bus>(r, m, addr).unwrap().0.pc == addr,
        ({
            let (r1, m1, _) = call_to_spec::<Bus>(r, m, addr).unwrap();
            let o = ret_spec::<Bus>(r1, m1, 0);
            &&& o is Some
            &&& o.unwrap().2 is Ok
            &&& o.unwrap().0.pc == r.pc
            &&& o.unwrap().0.sp == r.sp
        }),
{
    let sp = (r.sp - 2) as u16;
    assert(wrap16(r.sp, -2) == sp);
    lemma_wram_word_round_trip(m, sp, r.pc);
    assert(wrap16(sp, 2) == r.sp);
}

} // verus!
