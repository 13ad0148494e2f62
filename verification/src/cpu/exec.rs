//! The effect of each instruction on the registers and the memory, stated
//! as spec functions, and the code that carries it out.
//!
//! Every effect is an `Outcome`: `None` when the instruction makes an access
//! the memory does not define, else the registers and memory afterwards and
//! whether it succeeded. On a failed access the instruction stops where it
//! is: what it changed before the access stays changed.

use super::alu::{
    add16_spec, add8_spec, add_sp_spec, and_spec, bit_spec, ccf_spec, clear_z, cpl_spec,
    daa_spec, dec8_spec, inc8_spec, or_spec, res_spec, rl_spec, rlc_spec, rr_spec, rrc_spec,
    scf_spec, set_spec, signed8, sla_spec, sra_spec, srl_spec, sub8_spec, swap_spec, xor_spec,
};
use super::decode::{decode_cb_spec, decode_spec, CbInstr, Instr};
use super::{flag_c, flag_z, CpuRegs};
use crate::err::{GbError, GbErrorType, GbResult, outcome};
use crate::mem::Memory;
use vstd::prelude::*;

verus! {

pub type Outcome<V> = Option<(CpuRegs, V, Result<(), GbErrorType>)>;

pub open spec fn hi8(v: u16) -> u8 {
    (v / 256) as u8
}

pub open spec fn lo8(v: u16) -> u8 {
    (v % 256) as u8
}

pub open spec fn join16(hi: u8, lo: u8) -> u16 {
    (hi * 256 + lo) as u16
}

/// `x + d` on 16 bits, wrapping around.
pub open spec fn wrap16(x: u16, d: int) -> u16 {
    (((x + d) % 65536 + 65536) % 65536) as u16
}

impl CpuRegs {
    pub open spec fn bc(self) -> u16 {
        join16(self.b, self.c)
    }

    pub open spec fn de(self) -> u16 {
        join16(self.d, self.e)
    }

    pub open spec fn hl(self) -> u16 {
        join16(self.h, self.l)
    }

    pub open spec fn af(self) -> u16 {
        join16(self.a, self.f)
    }

    /// Register operand `i` (not 6, which names memory at HL).
    pub open spec fn get_r8(self, i: u8) -> u8 {
        if i == 0 {
            self.b
        } else if i == 1 {
            self.c
        } else if i == 2 {
            self.d
        } else if i == 3 {
            self.e
        } else if i == 4 {
            self.h
        } else if i == 5 {
            self.l
        } else {
            self.a
        }
    }

    pub open spec fn set_r8(self, i: u8, v: u8) -> CpuRegs {
        if i == 0 {
            CpuRegs { b: v, ..self }
        } else if i == 1 {
            CpuRegs { c: v, ..self }
        } else if i == 2 {
            CpuRegs { d: v, ..self }
        } else if i == 3 {
            CpuRegs { e: v, ..self }
        } else if i == 4 {
            CpuRegs { h: v, ..self }
        } else if i == 5 {
            CpuRegs { l: v, ..self }
        } else {
            CpuRegs { a: v, ..self }
        }
    }

    /// Register pair `i`: BC, DE, HL, SP.
    pub open spec fn get_r16(self, i: u8) -> u16 {
        if i == 0 {
            self.bc()
        } else if i == 1 {
            self.de()
        } else if i == 2 {
            self.hl()
        } else {
            self.sp
        }
    }

    pub open spec fn set_r16(self, i: u8, v: u16) -> CpuRegs {
        if i == 0 {
            CpuRegs { b: hi8(v), c: lo8(v), ..self }
        } else if i == 1 {
            CpuRegs { d: hi8(v), e: lo8(v), ..self }
        } else if i == 2 {
            CpuRegs { h: hi8(v), l: lo8(v), ..self }
        } else {
            CpuRegs { sp: v, ..self }
        }
    }

    /// Register pair `i` for push and pop: BC, DE, HL, AF.
    pub open spec fn get_stack_r16(self, i: u8) -> u16 {
        if i == 3 {
            self.af()
        } else {
            self.get_r16(i)
        }
    }

    /// The lower nibble of F cannot be set.
    pub open spec fn set_stack_r16(self, i: u8, v: u16) -> CpuRegs {
        if i == 3 {
            CpuRegs { a: hi8(v), f: ((lo8(v) / 16) * 16) as u8, ..self }
        } else {
            self.set_r16(i, v)
        }
    }
}

pub open spec fn cond_holds(c: u8, f: u8) -> bool {
    if c == 0 {
        true
    } else if c == 1 {
        !flag_z(f)
    } else if c == 2 {
        flag_z(f)
    } else if c == 3 {
        !flag_c(f)
    } else {
        flag_c(f)
    }
}

/// The eight arithmetic operations on the accumulator: the new accumulator
/// and flags.
pub open spec fn alu_spec(op: u8, a: u8, v: u8, f: u8) -> (u8, u8) {
    if op == 0 {
        add8_spec(a, v, false)
    } else if op == 1 {
        add8_spec(a, v, flag_c(f))
    } else if op == 2 {
        sub8_spec(a, v, false)
    } else if op == 3 {
        sub8_spec(a, v, flag_c(f))
    } else if op == 4 {
        and_spec(a, v)
    } else if op == 5 {
        xor_spec(a, v)
    } else if op == 6 {
        or_spec(a, v)
    } else {
        (a, sub8_spec(a, v, false).1)
    }
}

/// The eight rotations and shifts behind the CB prefix.
pub open spec fn rot_spec(op: u8, v: u8, f: u8) -> (u8, u8) {
    if op == 0 {
        rlc_spec(v)
    } else if op == 1 {
        rrc_spec(v)
    } else if op == 2 {
        rl_spec(v, flag_c(f))
    } else if op == 3 {
        rr_spec(v, flag_c(f))
    } else if op == 4 {
        sla_spec(v)
    } else if op == 5 {
        sra_spec(v)
    } else if op == 6 {
        swap_spec(v)
    } else {
        srl_spec(v)
    }
}

pub open spec fn read_operand<M: Memory>(r: CpuRegs, m: M::V, i: u8) -> Option<
    Result<u8, GbErrorType>,
> {
    if i == 6 {
        M::read8_spec(m, r.hl())
    } else {
        Some(Ok(r.get_r8(i)))
    }
}

pub open spec fn write_operand<M: Memory>(r: CpuRegs, m: M::V, i: u8, v: u8) -> Outcome<M::V> {
    if i == 6 {
        match M::write8_spec(m, r.hl(), v) {
            Some((m2, res)) => Some((r, m2, res)),
            None => None,
        }
    } else {
        Some((r.set_r8(i, v), m, Ok(())))
    }
}

/// A write whose result ends the instruction.
pub open spec fn then_write8<M: Memory>(r: CpuRegs, m: M::V, addr: u16, v: u8) -> Outcome<M::V> {
    match M::write8_spec(m, addr, v) {
        Some((m2, res)) => Some((r, m2, res)),
        None => None,
    }
}

pub open spec fn ld_r16_imm_spec<M: Memory>(r: CpuRegs, m: M::V, p: u8) -> Outcome<M::V> {
    match M::read16_spec(m, r.pc) {
        None => None,
        Some(Err(e)) => Some((r, m, Err(e))),
        Some(Ok(v)) => Some((CpuRegs { pc: wrap16(r.pc, 2), ..r }.set_r16(p, v), m, Ok(()))),
    }
}

/// The address of the memory operand of the A loads and stores.
pub open spec fn a_addr(r: CpuRegs, p: u8) -> u16 {
    if p == 0 {
        r.bc()
    } else if p == 1 {
        r.de()
    } else {
        r.hl()
    }
}

/// HL after the A load or store: incremented for (HL+), decremented for (HL-).
pub open spec fn a_step_hl(r: CpuRegs, p: u8) -> CpuRegs {
    if p == 2 {
        r.set_r16(2, wrap16(r.hl(), 1))
    } else if p == 3 {
        r.set_r16(2, wrap16(r.hl(), -1))
    } else {
        r
    }
}

pub open spec fn store_a_spec<M: Memory>(r: CpuRegs, m: M::V, p: u8) -> Outcome<M::V> {
    match M::write8_spec(m, a_addr(r, p), r.a) {
        None => None,
        Some((m2, Err(e))) => Some((r, m2, Err(e))),
        Some((m2, Ok(_))) => Some((a_step_hl(r, p), m2, Ok(()))),
    }
}

pub open spec fn load_a_spec<M: Memory>(r: CpuRegs, m: M::V, p: u8) -> Outcome<M::V> {
    match M::read8_spec(m, a_addr(r, p)) {
        None => None,
        Some(Err(e)) => Some((r, m, Err(e))),
        Some(Ok(v)) => Some((a_step_hl(CpuRegs { a: v, ..r }, p), m, Ok(()))),
    }
}

pub open spec fn inc8_op_spec<M: Memory>(r: CpuRegs, m: M::V, i: u8, dec: bool) -> Outcome<M::V> {
    match read_operand::<M>(r, m, i) {
        None => None,
        Some(Err(e)) => Some((r, m, Err(e))),
        Some(Ok(v)) => {
            let (v2, f) = if dec { dec8_spec(v, r.f) } else { inc8_spec(v, r.f) };
            write_operand::<M>(CpuRegs { f, ..r }, m, i, v2)
        },
    }
}

pub open spec fn ld_r8_imm_spec<M: Memory>(r: CpuRegs, m: M::V, i: u8) -> Outcome<M::V> {
    match M::read8_spec(m, r.pc) {
        None => None,
        Some(Err(e)) => Some((r, m, Err(e))),
        Some(Ok(v)) => write_operand::<M>(CpuRegs { pc: wrap16(r.pc, 1), ..r }, m, i, v),
    }
}

pub open spec fn store_sp_spec<M: Memory>(r: CpuRegs, m: M::V) -> Outcome<M::V> {
    match M::read16_spec(m, r.pc) {
        None => None,
        Some(Err(e)) => Some((r, m, Err(e))),
        Some(Ok(a16)) => match M::write16_spec(m, a16, r.sp) {
            None => None,
            Some((m2, res)) => Some((CpuRegs { pc: wrap16(r.pc, 2), ..r }, m2, res)),
        },
    }
}

pub open spec fn jr_spec<M: Memory>(r: CpuRegs, m: M::V, c: u8) -> Outcome<M::V> {
    match M::read8_spec(m, r.pc) {
        None => None,
        Some(Err(e)) => Some((r, m, Err(e))),
        Some(Ok(v)) => {
            let pc1 = wrap16(r.pc, 1);
            let pc2 = if cond_holds(c, r.f) { wrap16(pc1, signed8(v)) } else { pc1 };
            Some((CpuRegs { pc: pc2, ..r }, m, Ok(())))
        },
    }
}

pub open spec fn ld_r8_r8_spec<M: Memory>(r: CpuRegs, m: M::V, d: u8, s: u8) -> Outcome<M::V> {
    if s == 6 {
        match M::read8_spec(m, r.hl()) {
            None => None,
            Some(Err(e)) => Some((r, m, Err(e))),
            Some(Ok(v)) => Some((r.set_r8(d, v), m, Ok(()))),
        }
    } else {
        write_operand::<M>(r, m, d, r.get_r8(s))
    }
}

pub open spec fn alu_r8_spec<M: Memory>(r: CpuRegs, m: M::V, op: u8, i: u8) -> Outcome<M::V> {
    match read_operand::<M>(r, m, i) {
        None => None,
        Some(Err(e)) => Some((r, m, Err(e))),
        Some(Ok(v)) => {
            let (a, f) = alu_spec(op, r.a, v, r.f);
            Some((CpuRegs { a, f, ..r }, m, Ok(())))
        },
    }
}

pub open spec fn alu_imm_spec<M: Memory>(r: CpuRegs, m: M::V, op: u8) -> Outcome<M::V> {
    match M::read8_spec(m, r.pc) {
        None => None,
        Some(Err(e)) => Some((r, m, Err(e))),
        Some(Ok(v)) => {
            let (a, f) = alu_spec(op, r.a, v, r.f);
            Some((CpuRegs { a, f, pc: wrap16(r.pc, 1), ..r }, m, Ok(())))
        },
    }
}

pub open spec fn ret_spec<M: Memory>(r: CpuRegs, m: M::V, c: u8) -> Outcome<M::V> {
    if cond_holds(c, r.f) {
        match M::read16_spec(m, r.sp) {
            None => None,
            Some(Err(e)) => Some((r, m, Err(e))),
            Some(Ok(v)) => Some((CpuRegs { pc: v, sp: wrap16(r.sp, 2), ..r }, m, Ok(()))),
        }
    } else {
        Some((r, m, Ok(())))
    }
}

pub open spec fn pop_spec<M: Memory>(r: CpuRegs, m: M::V, p: u8) -> Outcome<M::V> {
    match M::read16_spec(m, r.sp) {
        None => None,
        Some(Err(e)) => Some((r, m, Err(e))),
        Some(Ok(v)) => Some((CpuRegs { sp: wrap16(r.sp, 2), ..r }.set_stack_r16(p, v), m, Ok(()))),
    }
}

pub open spec fn push_spec<M: Memory>(r: CpuRegs, m: M::V, p: u8) -> Outcome<M::V> {
    let sp = wrap16(r.sp, -2);
    match M::write16_spec(m, sp, r.get_stack_r16(p)) {
        None => None,
        Some((m2, res)) => Some((CpuRegs { sp, ..r }, m2, res)),
    }
}

pub open spec fn jp_spec<M: Memory>(r: CpuRegs, m: M::V, c: u8) -> Outcome<M::V> {
    match M::read16_spec(m, r.pc) {
        None => None,
        Some(Err(e)) => Some((r, m, Err(e))),
        Some(Ok(a16)) => {
            let pc = if cond_holds(c, r.f) { a16 } else { wrap16(r.pc, 2) };
            Some((CpuRegs { pc, ..r }, m, Ok(())))
        },
    }
}

/// Push PC and jump to `addr`.
pub open spec fn call_to_spec<M: Memory>(r: CpuRegs, m: M::V, addr: u16) -> Outcome<M::V> {
    let sp = wrap16(r.sp, -2);
    match M::write16_spec(m, sp, r.pc) {
        None => None,
        Some((m2, Err(e))) => Some((CpuRegs { sp, ..r }, m2, Err(e))),
        Some((m2, Ok(_))) => Some((CpuRegs { sp, pc: addr, ..r }, m2, Ok(()))),
    }
}

pub open spec fn call_spec<M: Memory>(r: CpuRegs, m: M::V, c: u8) -> Outcome<M::V> {
    match M::read16_spec(m, r.pc) {
        None => None,
        Some(Err(e)) => Some((r, m, Err(e))),
        Some(Ok(a16)) => {
            let r1 = CpuRegs { pc: wrap16(r.pc, 2), ..r };
            if cond_holds(c, r.f) {
                call_to_spec::<M>(r1, m, a16)
            } else {
                Some((r1, m, Ok(())))
            }
        },
    }
}

pub open spec fn cb_spec<M: Memory>(r: CpuRegs, m: M::V, ci: CbInstr) -> Outcome<M::V> {
    match ci {
        CbInstr::Rot(op, i) => match read_operand::<M>(r, m, i) {
            None => None,
            Some(Err(e)) => Some((r, m, Err(e))),
            Some(Ok(v)) => {
                let (v2, f) = rot_spec(op, v, r.f);
                write_operand::<M>(CpuRegs { f, ..r }, m, i, v2)
            },
        },
        CbInstr::Bit(n, i) => match read_operand::<M>(r, m, i) {
            None => None,
            Some(Err(e)) => Some((r, m, Err(e))),
            Some(Ok(v)) => Some((CpuRegs { f: bit_spec(n, v, r.f), ..r }, m, Ok(()))),
        },
        CbInstr::ResBit(n, i) => match read_operand::<M>(r, m, i) {
            None => None,
            Some(Err(e)) => Some((r, m, Err(e))),
            Some(Ok(v)) => write_operand::<M>(r, m, i, res_spec(n, v)),
        },
        CbInstr::SetBit(n, i) => match read_operand::<M>(r, m, i) {
            None => None,
            Some(Err(e)) => Some((r, m, Err(e))),
            Some(Ok(v)) => write_operand::<M>(r, m, i, set_spec(n, v)),
        },
    }
}

pub open spec fn prefix_cb_spec<M: Memory>(r: CpuRegs, m: M::V) -> Outcome<M::V> {
    match M::read8_spec(m, r.pc) {
        None => None,
        Some(Err(e)) => Some((r, m, Err(e))),
        Some(Ok(v)) => cb_spec::<M>(CpuRegs { pc: wrap16(r.pc, 1), ..r }, m, decode_cb_spec(v)),
    }
}

pub open spec fn ldh_store_spec<M: Memory>(r: CpuRegs, m: M::V) -> Outcome<M::V> {
    match M::read8_spec(m, r.pc) {
        None => None,
        Some(Err(e)) => Some((r, m, Err(e))),
        Some(Ok(v)) => then_write8::<M>(
            CpuRegs { pc: wrap16(r.pc, 1), ..r },
            m,
            (0xff00 + v) as u16,
            r.a,
        ),
    }
}

pub open spec fn load_from_spec<M: Memory>(r: CpuRegs, m: M::V, addr: u16) -> Outcome<M::V> {
    match M::read8_spec(m, addr) {
        None => None,
        Some(Err(e)) => Some((r, m, Err(e))),
        Some(Ok(v)) => Some((CpuRegs { a: v, ..r }, m, Ok(()))),
    }
}

pub open spec fn ldh_load_spec<M: Memory>(r: CpuRegs, m: M::V) -> Outcome<M::V> {
    match M::read8_spec(m, r.pc) {
        None => None,
        Some(Err(e)) => Some((r, m, Err(e))),
        Some(Ok(v)) => load_from_spec::<M>(CpuRegs { pc: wrap16(r.pc, 1), ..r }, m, (0xff00 + v) as u16),
    }
}

pub open spec fn store_a16_spec<M: Memory>(r: CpuRegs, m: M::V) -> Outcome<M::V> {
    match M::read16_spec(m, r.pc) {
        None => None,
        Some(Err(e)) => Some((r, m, Err(e))),
        Some(Ok(a16)) => then_write8::<M>(CpuRegs { pc: wrap16(r.pc, 2), ..r }, m, a16, r.a),
    }
}

pub open spec fn load_a16_spec<M: Memory>(r: CpuRegs, m: M::V) -> Outcome<M::V> {
    match M::read16_spec(m, r.pc) {
        None => None,
        Some(Err(e)) => Some((r, m, Err(e))),
        Some(Ok(a16)) => load_from_spec::<M>(CpuRegs { pc: wrap16(r.pc, 2), ..r }, m, a16),
    }
}

/// ADD SP r8 (into SP) and LD HL SP+r8 (into HL). The flags are cleared
/// before the offset is fetched.
pub open spec fn sp_offset_spec<M: Memory>(r: CpuRegs, m: M::V, into_hl: bool) -> Outcome<M::V> {
    let r0 = CpuRegs { f: 0, ..r };
    match M::read8_spec(m, r.pc) {
        None => None,
        Some(Err(e)) => Some((r0, m, Err(e))),
        Some(Ok(v)) => {
            let (res, f) = add_sp_spec(r.sp, v);
            let r1 = CpuRegs { f, pc: wrap16(r.pc, 1), ..r };
            if into_hl {
                Some((r1.set_r16(2, res), m, Ok(())))
            } else {
                Some((CpuRegs { sp: res, ..r1 }, m, Ok(())))
            }
        },
    }
}

/// The effect of an instruction whose opcode has been fetched (PC points past
/// the opcode).
#[verifier::opaque]
pub open spec fn instr_spec<M: Memory>(r: CpuRegs, m: M::V, ins: Instr) -> Outcome<M::V> {
    match ins {
        Instr::Nop | Instr::Stop | Instr::Halt => Some((r, m, Ok(()))),
        Instr::Invalid(_) => Some((r, m, Err(GbErrorType::InvalidCpuInstruction))),
        Instr::LdR16Imm(p) => ld_r16_imm_spec::<M>(r, m, p),
        Instr::StoreA(p) => store_a_spec::<M>(r, m, p),
        Instr::LoadA(p) => load_a_spec::<M>(r, m, p),
        Instr::IncR16(p) => Some((r.set_r16(p, wrap16(r.get_r16(p), 1)), m, Ok(()))),
        Instr::DecR16(p) => Some((r.set_r16(p, wrap16(r.get_r16(p), -1)), m, Ok(()))),
        Instr::AddHl(p) => {
            let (v, f) = add16_spec(r.hl(), r.get_r16(p), r.f);
            Some((CpuRegs { f, ..r }.set_r16(2, v), m, Ok(())))
        },
        Instr::IncR8(i) => inc8_op_spec::<M>(r, m, i, false),
        Instr::DecR8(i) => inc8_op_spec::<M>(r, m, i, true),
        Instr::LdR8Imm(i) => ld_r8_imm_spec::<M>(r, m, i),
        Instr::Rlca => {
            let (a, f) = rlc_spec(r.a);
            Some((CpuRegs { a, f: clear_z(f), ..r }, m, Ok(())))
        },
        Instr::Rrca => {
            let (a, f) = rrc_spec(r.a);
            Some((CpuRegs { a, f: clear_z(f), ..r }, m, Ok(())))
        },
        Instr::Rla => {
            let (a, f) = rl_spec(r.a, flag_c(r.f));
            Some((CpuRegs { a, f: clear_z(f), ..r }, m, Ok(())))
        },
        Instr::Rra => {
            let (a, f) = rr_spec(r.a, flag_c(r.f));
            Some((CpuRegs { a, f: clear_z(f), ..r }, m, Ok(())))
        },
        Instr::Daa => {
            let (a, f) = daa_spec(r.a, r.f);
            Some((CpuRegs { a, f, ..r }, m, Ok(())))
        },
        Instr::Cpl => {
            let (a, f) = cpl_spec(r.a);
            Some((CpuRegs { a, f, ..r }, m, Ok(())))
        },
        Instr::Scf => Some((CpuRegs { f: scf_spec(r.f), ..r }, m, Ok(()))),
        Instr::Ccf => Some((CpuRegs { f: ccf_spec(r.f), ..r }, m, Ok(()))),
        Instr::StoreSp => store_sp_spec::<M>(r, m),
        Instr::Jr(c) => jr_spec::<M>(r, m, c),
        Instr::LdR8R8(d, s) => ld_r8_r8_spec::<M>(r, m, d, s),
        Instr::AluR8(op, i) => alu_r8_spec::<M>(r, m, op, i),
        Instr::AluImm(op) => alu_imm_spec::<M>(r, m, op),
        Instr::Ret(c) => ret_spec::<M>(r, m, c),
        Instr::Reti => ret_spec::<M>(CpuRegs { ime: true, ..r }, m, 0),
        Instr::Pop(p) => pop_spec::<M>(r, m, p),
        Instr::Push(p) => push_spec::<M>(r, m, p),
        Instr::Jp(c) => jp_spec::<M>(r, m, c),
        Instr::JpHl => Some((CpuRegs { pc: r.hl(), ..r }, m, Ok(()))),
        Instr::Call(c) => call_spec::<M>(r, m, c),
        Instr::Rst(a) => call_to_spec::<M>(r, m, a as u16),
        Instr::PrefixCb => prefix_cb_spec::<M>(r, m),
        Instr::LdhStore => ldh_store_spec::<M>(r, m),
        Instr::LdhLoad => ldh_load_spec::<M>(r, m),
        Instr::StoreC => then_write8::<M>(r, m, (0xff00 + r.c) as u16, r.a),
        Instr::LoadC => load_from_spec::<M>(r, m, (0xff00 + r.c) as u16),
        Instr::StoreA16 => store_a16_spec::<M>(r, m),
        Instr::LoadA16 => load_a16_spec::<M>(r, m),
        Instr::AddSp => sp_offset_spec::<M>(r, m, false),
        Instr::LdHlSp => sp_offset_spec::<M>(r, m, true),
        Instr::LdSpHl => Some((CpuRegs { sp: r.hl(), ..r }, m, Ok(()))),
        Instr::Di => Some((CpuRegs { ime: false, ..r }, m, Ok(()))),
        Instr::Ei => Some((CpuRegs { ime: true, ..r }, m, Ok(()))),
    }
}

/// One instruction: fetch the opcode at PC, advance PC past it, execute.
pub open spec fn step_spec<M: Memory>(r: CpuRegs, m: M::V) -> Outcome<M::V> {
    match M::read8_spec(m, r.pc) {
        None => None,
        Some(Err(e)) => Some((r, m, Err(e))),
        Some(Ok(op)) => instr_spec::<M>(CpuRegs { pc: wrap16(r.pc, 1), ..r }, m, decode_spec(op)),
    }
}


// ---------------------------------------------------------------------------
// Register access
// ---------------------------------------------------------------------------

pub fn wrap_inc(x: u16) -> (y: u16)
    ensures
        y == wrap16(x, 1),
{
    x.wrapping_add(1)
}

pub fn wrap_dec(x: u16) -> (y: u16)
    ensures
        y == wrap16(x, -1),
{
    x.wrapping_sub(1)
}

pub fn wrap_add2(x: u16) -> (y: u16)
    ensures
        y == wrap16(x, 2),
{
    x.wrapping_add(2)
}

pub fn wrap_sub2(x: u16) -> (y: u16)
    ensures
        y == wrap16(x, -2),
{
    x.wrapping_sub(2)
}

/// `x` plus the signed offset that `v` stands for.
pub fn wrap_add_signed(x: u16, v: u8) -> (y: u16)
    ensures
        y == wrap16(x, signed8(v)),
{
    if v < 128 {
        x.wrapping_add(v as u16)
    } else {
        x.wrapping_sub(256 - v as u16)
    }
}

pub fn join(hi: u8, lo: u8) -> (v: u16)
    ensures
        v == join16(hi, lo),
{
    hi as u16 * 256 + lo as u16
}

impl CpuRegs {
    pub fn r8(&self, i: u8) -> (v: u8)
        ensures
            v == self.get_r8(i),
    {
        if i == 0 {
            self.b
        } else if i == 1 {
            self.c
        } else if i == 2 {
            self.d
        } else if i == 3 {
            self.e
        } else if i == 4 {
            self.h
        } else if i == 5 {
            self.l
        } else {
            self.a
        }
    }

    pub fn with_r8(&self, i: u8, v: u8) -> (r: CpuRegs)
        ensures
            r == self.set_r8(i, v),
    {
        if i == 0 {
            CpuRegs { b: v, ..*self }
        } else if i == 1 {
            CpuRegs { c: v, ..*self }
        } else if i == 2 {
            CpuRegs { d: v, ..*self }
        } else if i == 3 {
            CpuRegs { e: v, ..*self }
        } else if i == 4 {
            CpuRegs { h: v, ..*self }
        } else if i == 5 {
            CpuRegs { l: v, ..*self }
        } else {
            CpuRegs { a: v, ..*self }
        }
    }

    pub fn hl16(&self) -> (v: u16)
        ensures
            v == self.hl(),
    {
        join(self.h, self.l)
    }

    pub fn r16(&self, i: u8) -> (v: u16)
        ensures
            v == self.get_r16(i),
    {
        if i == 0 {
            join(self.b, self.c)
        } else if i == 1 {
            join(self.d, self.e)
        } else if i == 2 {
            join(self.h, self.l)
        } else {
            self.sp
        }
    }

    pub fn with_r16(&self, i: u8, v: u16) -> (r: CpuRegs)
        ensures
            r == self.set_r16(i, v),
    {
        let hi = (v / 256) as u8;
        let lo = (v % 256) as u8;
        if i == 0 {
            CpuRegs { b: hi, c: lo, ..*self }
        } else if i == 1 {
            CpuRegs { d: hi, e: lo, ..*self }
        } else if i == 2 {
            CpuRegs { h: hi, l: lo, ..*self }
        } else {
            CpuRegs { sp: v, ..*self }
        }
    }

    pub fn stack_r16(&self, i: u8) -> (v: u16)
        ensures
            v == self.get_stack_r16(i),
    {
        if i == 3 {
            join(self.a, self.f)
        } else {
            self.r16(i)
        }
    }

    pub fn with_stack_r16(&self, i: u8, v: u16) -> (r: CpuRegs)
        ensures
            r == self.set_stack_r16(i, v),
    {
        if i == 3 {
            let lo = (v % 256) as u8;
            CpuRegs { a: (v / 256) as u8, f: (lo / 16) * 16, ..*self }
        } else {
            self.with_r16(i, v)
        }
    }
}

pub fn cond(c: u8, f: u8) -> (b: bool)
    ensures
        b == cond_holds(c, f),
{
    if c == 0 {
        true
    } else if c == 1 {
        !super::zero_set(f)
    } else if c == 2 {
        super::zero_set(f)
    } else if c == 3 {
        !super::carry_set(f)
    } else {
        super::carry_set(f)
    }
}

pub fn alu(op: u8, a: u8, v: u8, f: u8) -> (o: (u8, u8))
    ensures
        o == alu_spec(op, a, v, f),
{
    if op == 0 {
        super::alu::add8(a, v, false)
    } else if op == 1 {
        super::alu::add8(a, v, super::carry_set(f))
    } else if op == 2 {
        super::alu::sub8(a, v, false)
    } else if op == 3 {
        super::alu::sub8(a, v, super::carry_set(f))
    } else if op == 4 {
        super::alu::and8(a, v)
    } else if op == 5 {
        super::alu::xor8(a, v)
    } else if op == 6 {
        super::alu::or8(a, v)
    } else {
        (a, super::alu::sub8(a, v, false).1)
    }
}

pub fn rot(op: u8, v: u8, f: u8) -> (o: (u8, u8))
    ensures
        o == rot_spec(op, v, f),
{
    if op == 0 {
        super::alu::rlc(v)
    } else if op == 1 {
        super::alu::rrc(v)
    } else if op == 2 {
        super::alu::rl(v, super::carry_set(f))
    } else if op == 3 {
        super::alu::rr(v, super::carry_set(f))
    } else if op == 4 {
        super::alu::sla(v)
    } else if op == 5 {
        super::alu::sra(v)
    } else if op == 6 {
        super::alu::swap(v)
    } else {
        super::alu::srl(v)
    }
}

// ---------------------------------------------------------------------------
// Memory operands
// ---------------------------------------------------------------------------

fn get_operand<M: Memory>(r: CpuRegs, m: &M, i: u8) -> (v: GbResult<u8>)
    requires
        read_operand::<M>(r, m@, i) is Some,
    ensures
        read_operand::<M>(r, m@, i) == Some(outcome(v)),
{
    if i == 6 {
        m.read8(r.hl16())
    } else {
        Ok(r.r8(i))
    }
}

fn put_operand<M: Memory>(r: CpuRegs, m: &mut M, i: u8, v: u8) -> (o: (CpuRegs, GbResult<()>))
    requires
        write_operand::<M>(r, old(m)@, i, v) is Some,
    ensures
        write_operand::<M>(r, old(m)@, i, v) == Some((o.0, final(m)@, outcome(o.1))),
{
    if i == 6 {
        let res = m.write8(r.hl16(), v);
        (r, res)
    } else {
        (r.with_r8(i, v), Ok(()))
    }
}

fn write8_last<M: Memory>(r: CpuRegs, m: &mut M, addr: u16, v: u8) -> (o: (CpuRegs, GbResult<()>))
    requires
        then_write8::<M>(r, old(m)@, addr, v) is Some,
    ensures
        then_write8::<M>(r, old(m)@, addr, v) == Some((o.0, final(m)@, outcome(o.1))),
{
    let res = m.write8(addr, v);
    (r, res)
}

fn load_from<M: Memory>(r: CpuRegs, m: &mut M, addr: u16) -> (o: (CpuRegs, GbResult<()>))
    requires
        load_from_spec::<M>(r, old(m)@, addr) is Some,
    ensures
        load_from_spec::<M>(r, old(m)@, addr) == Some((o.0, final(m)@, outcome(o.1))),
{
    match m.read8(addr) {
        Ok(v) => (CpuRegs { a: v, ..r }, Ok(())),
        Err(e) => (r, Err(e)),
    }
}

// ---------------------------------------------------------------------------
// Instructions
// ---------------------------------------------------------------------------

fn ld_r16_imm<M: Memory>(r: CpuRegs, m: &mut M, p: u8) -> (o: (CpuRegs, GbResult<()>))
    requires
        ld_r16_imm_spec::<M>(r, old(m)@, p) is Some,
    ensures
        ld_r16_imm_spec::<M>(r, old(m)@, p) == Some((o.0, final(m)@, outcome(o.1))),
{
    match m.read16(r.pc) {
        Ok(v) => (CpuRegs { pc: wrap_add2(r.pc), ..r }.with_r16(p, v), Ok(())),
        Err(e) => (r, Err(e)),
    }
}

fn a_address(r: CpuRegs, p: u8) -> (a: u16)
    ensures
        a == a_addr(r, p),
{
    if p == 0 {
        r.r16(0)
    } else if p == 1 {
        r.r16(1)
    } else {
        r.hl16()
    }
}

fn a_step(r: CpuRegs, p: u8) -> (o: CpuRegs)
    ensures
        o == a_step_hl(r, p),
{
    if p == 2 {
        r.with_r16(2, wrap_inc(r.hl16()))
    } else if p == 3 {
        r.with_r16(2, wrap_dec(r.hl16()))
    } else {
        r
    }
}

fn store_a<M: Memory>(r: CpuRegs, m: &mut M, p: u8) -> (o: (CpuRegs, GbResult<()>))
    requires
        store_a_spec::<M>(r, old(m)@, p) is Some,
    ensures
        store_a_spec::<M>(r, old(m)@, p) == Some((o.0, final(m)@, outcome(o.1))),
{
    match m.write8(a_address(r, p), r.a) {
        Ok(_) => (a_step(r, p), Ok(())),
        Err(e) => (r, Err(e)),
    }
}

fn load_a<M: Memory>(r: CpuRegs, m: &mut M, p: u8) -> (o: (CpuRegs, GbResult<()>))
    requires
        load_a_spec::<M>(r, old(m)@, p) is Some,
    ensures
        load_a_spec::<M>(r, old(m)@, p) == Some((o.0, final(m)@, outcome(o.1))),
{
    match m.read8(a_address(r, p)) {
        Ok(v) => (a_step(CpuRegs { a: v, ..r }, p), Ok(())),
        Err(e) => (r, Err(e)),
    }
}

fn inc8_op<M: Memory>(r: CpuRegs, m: &mut M, i: u8, dec: bool) -> (o: (CpuRegs, GbResult<()>))
    requires
        inc8_op_spec::<M>(r, old(m)@, i, dec) is Some,
    ensures
        inc8_op_spec::<M>(r, old(m)@, i, dec) == Some((o.0, final(m)@, outcome(o.1))),
{
    match get_operand(r, m, i) {
        Ok(v) => {
            let (v2, f) = if dec {
                super::alu::dec8(v, r.f)
            } else {
                super::alu::inc8(v, r.f)
            };
            put_operand(CpuRegs { f, ..r }, m, i, v2)
        },
        Err(e) => (r, Err(e)),
    }
}

fn ld_r8_imm<M: Memory>(r: CpuRegs, m: &mut M, i: u8) -> (o: (CpuRegs, GbResult<()>))
    requires
        ld_r8_imm_spec::<M>(r, old(m)@, i) is Some,
    ensures
        ld_r8_imm_spec::<M>(r, old(m)@, i) == Some((o.0, final(m)@, outcome(o.1))),
{
    match m.read8(r.pc) {
        Ok(v) => put_operand(CpuRegs { pc: wrap_inc(r.pc), ..r }, m, i, v),
        Err(e) => (r, Err(e)),
    }
}

fn store_sp<M: Memory>(r: CpuRegs, m: &mut M) -> (o: (CpuRegs, GbResult<()>))
    requires
        store_sp_spec::<M>(r, old(m)@) is Some,
    ensures
        store_sp_spec::<M>(r, old(m)@) == Some((o.0, final(m)@, outcome(o.1))),
{
    match m.read16(r.pc) {
        Ok(a16) => {
            let res = m.write16(a16, r.sp);
            (CpuRegs { pc: wrap_add2(r.pc), ..r }, res)
        },
        Err(e) => (r, Err(e)),
    }
}

fn jr<M: Memory>(r: CpuRegs, m: &mut M, c: u8) -> (o: (CpuRegs, GbResult<()>))
    requires
        jr_spec::<M>(r, old(m)@, c) is Some,
    ensures
        jr_spec::<M>(r, old(m)@, c) == Some((o.0, final(m)@, outcome(o.1))),
{
    match m.read8(r.pc) {
        Ok(v) => {
            let pc1 = wrap_inc(r.pc);
            let pc2 = if cond(c, r.f) {
                wrap_add_signed(pc1, v)
            } else {
                pc1
            };
            (CpuRegs { pc: pc2, ..r }, Ok(()))
        },
        Err(e) => (r, Err(e)),
    }
}

fn ld_r8_r8<M: Memory>(r: CpuRegs, m: &mut M, d: u8, s: u8) -> (o: (CpuRegs, GbResult<()>))
    requires
        ld_r8_r8_spec::<M>(r, old(m)@, d, s) is Some,
    ensures
        ld_r8_r8_spec::<M>(r, old(m)@, d, s) == Some((o.0, final(m)@, outcome(o.1))),
{
    if s == 6 {
        match m.read8(r.hl16()) {
            Ok(v) => (r.with_r8(d, v), Ok(())),
            Err(e) => (r, Err(e)),
        }
    } else {
        put_operand(r, m, d, r.r8(s))
    }
}

fn alu_r8<M: Memory>(r: CpuRegs, m: &mut M, op: u8, i: u8) -> (o: (CpuRegs, GbResult<()>))
    requires
        alu_r8_spec::<M>(r, old(m)@, op, i) is Some,
    ensures
        alu_r8_spec::<M>(r, old(m)@, op, i) == Some((o.0, final(m)@, outcome(o.1))),
{
    match get_operand(r, m, i) {
        Ok(v) => {
            let (a, f) = alu(op, r.a, v, r.f);
            (CpuRegs { a, f, ..r }, Ok(()))
        },
        Err(e) => (r, Err(e)),
    }
}

fn alu_imm<M: Memory>(r: CpuRegs, m: &mut M, op: u8) -> (o: (CpuRegs, GbResult<()>))
    requires
        alu_imm_spec::<M>(r, old(m)@, op) is Some,
    ensures
        alu_imm_spec::<M>(r, old(m)@, op) == Some((o.0, final(m)@, outcome(o.1))),
{
    match m.read8(r.pc) {
        Ok(v) => {
            let (a, f) = alu(op, r.a, v, r.f);
            (CpuRegs { a, f, pc: wrap_inc(r.pc), ..r }, Ok(()))
        },
        Err(e) => (r, Err(e)),
    }
}

fn ret<M: Memory>(r: CpuRegs, m: &mut M, c: u8) -> (o: (CpuRegs, GbResult<()>))
    requires
        ret_spec::<M>(r, old(m)@, c) is Some,
    ensures
        ret_spec::<M>(r, old(m)@, c) == Some((o.0, final(m)@, outcome(o.1))),
{
    if cond(c, r.f) {
        match m.read16(r.sp) {
            Ok(v) => (CpuRegs { pc: v, sp: wrap_add2(r.sp), ..r }, Ok(())),
            Err(e) => (r, Err(e)),
        }
    } else {
        (r, Ok(()))
    }
}

fn pop<M: Memory>(r: CpuRegs, m: &mut M, p: u8) -> (o: (CpuRegs, GbResult<()>))
    requires
        pop_spec::<M>(r, old(m)@, p) is Some,
    ensures
        pop_spec::<M>(r, old(m)@, p) == Some((o.0, final(m)@, outcome(o.1))),
{
    match m.read16(r.sp) {
        Ok(v) => (CpuRegs { sp: wrap_add2(r.sp), ..r }.with_stack_r16(p, v), Ok(())),
        Err(e) => (r, Err(e)),
    }
}

fn push<M: Memory>(r: CpuRegs, m: &mut M, p: u8) -> (o: (CpuRegs, GbResult<()>))
    requires
        push_spec::<M>(r, old(m)@, p) is Some,
    ensures
        push_spec::<M>(r, old(m)@, p) == Some((o.0, final(m)@, outcome(o.1))),
{
    let sp = wrap_sub2(r.sp);
    let res = m.write16(sp, r.stack_r16(p));
    (CpuRegs { sp, ..r }, res)
}

fn jp<M: Memory>(r: CpuRegs, m: &mut M, c: u8) -> (o: (CpuRegs, GbResult<()>))
    requires
        jp_spec::<M>(r, old(m)@, c) is Some,
    ensures
        jp_spec::<M>(r, old(m)@, c) == Some((o.0, final(m)@, outcome(o.1))),
{
    match m.read16(r.pc) {
        Ok(a16) => {
            let pc = if cond(c, r.f) {
                a16
            } else {
                wrap_add2(r.pc)
            };
            (CpuRegs { pc, ..r }, Ok(()))
        },
        Err(e) => (r, Err(e)),
    }
}

fn call_to<M: Memory>(r: CpuRegs, m: &mut M, addr: u16) -> (o: (CpuRegs, GbResult<()>))
    requires
        call_to_spec::<M>(r, old(m)@, addr) is Some,
    ensures
        call_to_spec::<M>(r, old(m)@, addr) == Some((o.0, final(m)@, outcome(o.1))),
{
    let sp = wrap_sub2(r.sp);
    match m.write16(sp, r.pc) {
        Ok(_) => (CpuRegs { sp, pc: addr, ..r }, Ok(())),
        Err(e) => (CpuRegs { sp, ..r }, Err(e)),
    }
}

fn call<M: Memory>(r: CpuRegs, m: &mut M, c: u8) -> (o: (CpuRegs, GbResult<()>))
    requires
        call_spec::<M>(r, old(m)@, c) is Some,
    ensures
        call_spec::<M>(r, old(m)@, c) == Some((o.0, final(m)@, outcome(o.1))),
{
    match m.read16(r.pc) {
        Ok(a16) => {
            let r1 = CpuRegs { pc: wrap_add2(r.pc), ..r };
            if cond(c, r.f) {
                call_to(r1, m, a16)
            } else {
                (r1, Ok(()))
            }
        },
        Err(e) => (r, Err(e)),
    }
}

fn cb<M: Memory>(r: CpuRegs, m: &mut M, ci: CbInstr) -> (o: (CpuRegs, GbResult<()>))
    requires
        cb_spec::<M>(r, old(m)@, ci) is Some,
        super::decode::cb_wf(ci),
    ensures
        cb_spec::<M>(r, old(m)@, ci) == Some((o.0, final(m)@, outcome(o.1))),
{
    match ci {
        CbInstr::Rot(op, i) => match get_operand(r, m, i) {
            Ok(v) => {
                let (v2, f) = rot(op, v, r.f);
                put_operand(CpuRegs { f, ..r }, m, i, v2)
            },
            Err(e) => (r, Err(e)),
        },
        CbInstr::Bit(n, i) => match get_operand(r, m, i) {
            Ok(v) => (CpuRegs { f: super::alu::bit_test(n, v, r.f), ..r }, Ok(())),
            Err(e) => (r, Err(e)),
        },
        CbInstr::ResBit(n, i) => match get_operand(r, m, i) {
            Ok(v) => put_operand(r, m, i, super::alu::bit_res(n, v)),
            Err(e) => (r, Err(e)),
        },
        CbInstr::SetBit(n, i) => match get_operand(r, m, i) {
            Ok(v) => put_operand(r, m, i, super::alu::bit_set(n, v)),
            Err(e) => (r, Err(e)),
        },
    }
}

fn prefix_cb<M: Memory>(r: CpuRegs, m: &mut M) -> (o: (CpuRegs, GbResult<()>))
    requires
        prefix_cb_spec::<M>(r, old(m)@) is Some,
    ensures
        prefix_cb_spec::<M>(r, old(m)@) == Some((o.0, final(m)@, outcome(o.1))),
{
    match m.read8(r.pc) {
        Ok(v) => cb(CpuRegs { pc: wrap_inc(r.pc), ..r }, m, super::decode::decode_cb(v)),
        Err(e) => (r, Err(e)),
    }
}

fn ldh_store<M: Memory>(r: CpuRegs, m: &mut M) -> (o: (CpuRegs, GbResult<()>))
    requires
        ldh_store_spec::<M>(r, old(m)@) is Some,
    ensures
        ldh_store_spec::<M>(r, old(m)@) == Some((o.0, final(m)@, outcome(o.1))),
{
    match m.read8(r.pc) {
        Ok(v) => write8_last(CpuRegs { pc: wrap_inc(r.pc), ..r }, m, 0xff00 + v as u16, r.a),
        Err(e) => (r, Err(e)),
    }
}

fn ldh_load<M: Memory>(r: CpuRegs, m: &mut M) -> (o: (CpuRegs, GbResult<()>))
    requires
        ldh_load_spec::<M>(r, old(m)@) is Some,
    ensures
        ldh_load_spec::<M>(r, old(m)@) == Some((o.0, final(m)@, outcome(o.1))),
{
    match m.read8(r.pc) {
        Ok(v) => load_from(CpuRegs { pc: wrap_inc(r.pc), ..r }, m, 0xff00 + v as u16),
        Err(e) => (r, Err(e)),
    }
}

fn store_a16<M: Memory>(r: CpuRegs, m: &mut M) -> (o: (CpuRegs, GbResult<()>))
    requires
        store_a16_spec::<M>(r, old(m)@) is Some,
    ensures
        store_a16_spec::<M>(r, old(m)@) == Some((o.0, final(m)@, outcome(o.1))),
{
    match m.read16(r.pc) {
        Ok(a16) => write8_last(CpuRegs { pc: wrap_add2(r.pc), ..r }, m, a16, r.a),
        Err(e) => (r, Err(e)),
    }
}

fn load_a16<M: Memory>(r: CpuRegs, m: &mut M) -> (o: (CpuRegs, GbResult<()>))
    requires
        load_a16_spec::<M>(r, old(m)@) is Some,
    ensures
        load_a16_spec::<M>(r, old(m)@) == Some((o.0, final(m)@, outcome(o.1))),
{
    match m.read16(r.pc) {
        Ok(a16) => load_from(CpuRegs { pc: wrap_add2(r.pc), ..r }, m, a16),
        Err(e) => (r, Err(e)),
    }
}

fn sp_offset<M: Memory>(r: CpuRegs, m: &mut M, into_hl: bool) -> (o: (CpuRegs, GbResult<()>))
    requires
        sp_offset_spec::<M>(r, old(m)@, into_hl) is Some,
    ensures
        sp_offset_spec::<M>(r, old(m)@, into_hl) == Some((o.0, final(m)@, outcome(o.1))),
{
    let r0 = CpuRegs { f: 0, ..r };
    match m.read8(r.pc) {
        Ok(v) => {
            let (res, f) = super::alu::add_sp(r.sp, v);
            let r1 = CpuRegs { f, pc: wrap_inc(r.pc), ..r };
            if into_hl {
                (r1.with_r16(2, res), Ok(()))
            } else {
                (CpuRegs { sp: res, ..r1 }, Ok(()))
            }
        },
        Err(e) => (r0, Err(e)),
    }
}

/// Executes a decoded instruction.
pub fn execute<M: Memory>(r: CpuRegs, m: &mut M, ins: Instr) -> (o: (CpuRegs, GbResult<()>))
    requires
        instr_spec::<M>(r, old(m)@, ins) is Some,
        super::decode::instr_wf(ins),
    ensures
        instr_spec::<M>(r, old(m)@, ins) == Some((o.0, final(m)@, outcome(o.1))),
{
    reveal(instr_spec);
    match ins {
        Instr::Nop | Instr::Stop | Instr::Halt => (r, Ok(())),
        Instr::Invalid(_) => (
            r,
            Err(GbError::new(GbErrorType::InvalidCpuInstruction, "src/cpu/exec.rs", 1259)),
        ),
        Instr::LdR16Imm(p) => ld_r16_imm(r, m, p),
        Instr::StoreA(p) => store_a(r, m, p),
        Instr::LoadA(p) => load_a(r, m, p),
        Instr::IncR16(p) => (r.with_r16(p, wrap_inc(r.r16(p))), Ok(())),
        Instr::DecR16(p) => (r.with_r16(p, wrap_dec(r.r16(p))), Ok(())),
        Instr::AddHl(p) => {
            let (v, f) = super::alu::add16(r.hl16(), r.r16(p), r.f);
            (CpuRegs { f, ..r }.with_r16(2, v), Ok(()))
        },
        Instr::IncR8(i) => inc8_op(r, m, i, false),
        Instr::DecR8(i) => inc8_op(r, m, i, true),
        Instr::LdR8Imm(i) => ld_r8_imm(r, m, i),
        Instr::Rlca => {
            let (a, f) = super::alu::rlc(r.a);
            (CpuRegs { a, f: super::alu::clear_zero(f), ..r }, Ok(()))
        },
        Instr::Rrca => {
            let (a, f) = super::alu::rrc(r.a);
            (CpuRegs { a, f: super::alu::clear_zero(f), ..r }, Ok(()))
        },
        Instr::Rla => {
            let (a, f) = super::alu::rl(r.a, super::carry_set(r.f));
            (CpuRegs { a, f: super::alu::clear_zero(f), ..r }, Ok(()))
        },
        Instr::Rra => {
            let (a, f) = super::alu::rr(r.a, super::carry_set(r.f));
            (CpuRegs { a, f: super::alu::clear_zero(f), ..r }, Ok(()))
        },
        Instr::Daa => {
            let (a, f) = super::alu::daa(r.a, r.f);
            (CpuRegs { a, f, ..r }, Ok(()))
        },
        Instr::Cpl => {
            let (a, f) = super::alu::cpl(r.a);
            (CpuRegs { a, f, ..r }, Ok(()))
        },
        Instr::Scf => (CpuRegs { f: super::alu::scf(r.f), ..r }, Ok(())),
        Instr::Ccf => (CpuRegs { f: super::alu::ccf(r.f), ..r }, Ok(())),
        Instr::StoreSp => store_sp(r, m),
        Instr::Jr(c) => jr(r, m, c),
        Instr::LdR8R8(d, s) => ld_r8_r8(r, m, d, s),
        Instr::AluR8(op, i) => alu_r8(r, m, op, i),
        Instr::AluImm(op) => alu_imm(r, m, op),
        Instr::Ret(c) => ret(r, m, c),
        Instr::Reti => ret(CpuRegs { ime: true, ..r }, m, 0),
        Instr::Pop(p) => pop(r, m, p),
        Instr::Push(p) => push(r, m, p),
        Instr::Jp(c) => jp(r, m, c),
        Instr::JpHl => (CpuRegs { pc: r.hl16(), ..r }, Ok(())),
        Instr::Call(c) => call(r, m, c),
        Instr::Rst(a) => call_to(r, m, a as u16),
        Instr::PrefixCb => prefix_cb(r, m),
        Instr::LdhStore => ldh_store(r, m),
        Instr::LdhLoad => ldh_load(r, m),
        Instr::StoreC => write8_last(r, m, 0xff00 + r.c as u16, r.a),
        Instr::LoadC => load_from(r, m, 0xff00 + r.c as u16),
        Instr::StoreA16 => store_a16(r, m),
        Instr::LoadA16 => load_a16(r, m),
        Instr::AddSp => sp_offset(r, m, false),
        Instr::LdHlSp => sp_offset(r, m, true),
        Instr::LdSpHl => (CpuRegs { sp: r.hl16(), ..r }, Ok(())),
        Instr::Di => (CpuRegs { ime: false, ..r }, Ok(())),
        Instr::Ei => (CpuRegs { ime: true, ..r }, Ok(())),
    }
}

// ---------------------------------------------------------------------------
// Whether an instruction is defined, found without carrying it out: every
// access is a read of the memory as it is, but for the last, which may be a
// write.
// ---------------------------------------------------------------------------

/// A byte read, or `None` where it is not defined.
fn probe8<M: Memory>(m: &M, addr: u16) -> (o: Option<GbResult<u8>>)
    ensures
        match o {
            None => M::read8_spec(m@, addr) is None,
            Some(v) => M::read8_spec(m@, addr) == Some(outcome(v)),
        },
{
    if m.read8_defined(addr) {
        Some(m.read8(addr))
    } else {
        None
    }
}

/// A word read, or `None` where it is not defined.
fn probe16<M: Memory>(m: &M, addr: u16) -> (o: Option<GbResult<u16>>)
    ensures
        match o {
            None => M::read16_spec(m@, addr) is None,
            Some(v) => M::read16_spec(m@, addr) == Some(outcome(v)),
        },
{
    if m.read16_defined(addr) {
        Some(m.read16(addr))
    } else {
        None
    }
}

/// An 8-bit operand, or `None` where reading it is not defined.
fn probe_operand<M: Memory>(r: CpuRegs, m: &M, i: u8) -> (o: Option<GbResult<u8>>)
    ensures
        match o {
            None => read_operand::<M>(r, m@, i) is None,
            Some(v) => read_operand::<M>(r, m@, i) == Some(outcome(v)),
        },
{
    if i == 6 {
        probe8(m, r.hl16())
    } else {
        Some(Ok(r.r8(i)))
    }
}

fn write_operand_defined<M: Memory>(r: CpuRegs, m: &M, i: u8, v: u8) -> (b: bool)
    ensures
        b == write_operand::<M>(r, m@, i, v) is Some,
{
    if i == 6 {
        m.write8_defined(r.hl16(), v)
    } else {
        true
    }
}

fn inc8_op_defined<M: Memory>(r: CpuRegs, m: &M, i: u8, dec: bool) -> (b: bool)
    ensures
        b == inc8_op_spec::<M>(r, m@, i, dec) is Some,
{
    match probe_operand(r, m, i) {
        None => false,
        Some(Err(_)) => true,
        Some(Ok(v)) => {
            let (v2, f) = if dec {
                super::alu::dec8(v, r.f)
            } else {
                super::alu::inc8(v, r.f)
            };
            write_operand_defined(CpuRegs { f, ..r }, m, i, v2)
        },
    }
}

fn cb_defined<M: Memory>(r: CpuRegs, m: &M, ci: CbInstr) -> (b: bool)
    requires
        super::decode::cb_wf(ci),
    ensures
        b == cb_spec::<M>(r, m@, ci) is Some,
{
    match ci {
        CbInstr::Rot(op, i) => match probe_operand(r, m, i) {
            None => false,
            Some(Err(_)) => true,
            Some(Ok(v)) => {
                let (v2, f) = rot(op, v, r.f);
                write_operand_defined(CpuRegs { f, ..r }, m, i, v2)
            },
        },
        CbInstr::Bit(_, i) => probe_operand(r, m, i).is_some(),
        CbInstr::ResBit(n, i) => match probe_operand(r, m, i) {
            None => false,
            Some(Err(_)) => true,
            Some(Ok(v)) => write_operand_defined(r, m, i, super::alu::bit_res(n, v)),
        },
        CbInstr::SetBit(n, i) => match probe_operand(r, m, i) {
            None => false,
            Some(Err(_)) => true,
            Some(Ok(v)) => write_operand_defined(r, m, i, super::alu::bit_set(n, v)),
        },
    }
}

fn call_to_defined<M: Memory>(r: CpuRegs, m: &M, addr: u16) -> (b: bool)
    ensures
        b == call_to_spec::<M>(r, m@, addr) is Some,
{
    m.write16_defined(wrap_sub2(r.sp), r.pc)
}

/// Whether the instruction `ins` is defined on the memory, PC pointing past
/// its opcode: what `execute` asks of its caller.
pub fn instr_defined<M: Memory>(r: CpuRegs, m: &M, ins: Instr) -> (b: bool)
    requires
        super::decode::instr_wf(ins),
    ensures
        b == instr_spec::<M>(r, m@, ins) is Some,
{
    reveal(instr_spec);
    match ins {
        Instr::LdR16Imm(_) | Instr::Jp(_) => m.read16_defined(r.pc),
        Instr::StoreA(p) => m.write8_defined(a_address(r, p), r.a),
        Instr::LoadA(p) => m.read8_defined(a_address(r, p)),
        Instr::IncR8(i) => inc8_op_defined(r, m, i, false),
        Instr::DecR8(i) => inc8_op_defined(r, m, i, true),
        Instr::LdR8Imm(i) => match probe8(m, r.pc) {
            None => false,
            Some(Err(_)) => true,
            Some(Ok(v)) => write_operand_defined(CpuRegs { pc: wrap_inc(r.pc), ..r }, m, i, v),
        },
        Instr::StoreSp => match probe16(m, r.pc) {
            None => false,
            Some(Err(_)) => true,
            Some(Ok(a16)) => m.write16_defined(a16, r.sp),
        },
        Instr::Jr(_) | Instr::AluImm(_) | Instr::AddSp | Instr::LdHlSp => m.read8_defined(r.pc),
        Instr::LdR8R8(d, s) => if s == 6 {
            m.read8_defined(r.hl16())
        } else {
            write_operand_defined(r, m, d, r.r8(s))
        },
        Instr::AluR8(_, i) => probe_operand(r, m, i).is_some(),
        Instr::Ret(c) => !cond(c, r.f) || m.read16_defined(r.sp),
        Instr::Reti => !cond(0, r.f) || m.read16_defined(r.sp),
        Instr::Pop(_) => m.read16_defined(r.sp),
        Instr::Push(p) => m.write16_defined(wrap_sub2(r.sp), r.stack_r16(p)),
        Instr::Call(c) => match probe16(m, r.pc) {
            None => false,
            Some(Err(_)) => true,
            Some(Ok(a16)) => !cond(c, r.f) || call_to_defined(
                CpuRegs { pc: wrap_add2(r.pc), ..r },
                m,
                a16,
            ),
        },
        Instr::Rst(a) => call_to_defined(r, m, a as u16),
        Instr::PrefixCb => match probe8(m, r.pc) {
            None => false,
            Some(Err(_)) => true,
            Some(Ok(v)) => cb_defined(
                CpuRegs { pc: wrap_inc(r.pc), ..r },
                m,
                super::decode::decode_cb(v),
            ),
        },
        Instr::LdhStore => match probe8(m, r.pc) {
            None => false,
            Some(Err(_)) => true,
            Some(Ok(v)) => m.write8_defined(0xff00 + v as u16, r.a),
        },
        Instr::LdhLoad => match probe8(m, r.pc) {
            None => false,
            Some(Err(_)) => true,
            Some(Ok(v)) => m.read8_defined(0xff00 + v as u16),
        },
        Instr::StoreC => m.write8_defined(0xff00 + r.c as u16, r.a),
        Instr::LoadC => m.read8_defined(0xff00 + r.c as u16),
        Instr::StoreA16 => match probe16(m, r.pc) {
            None => false,
            Some(Err(_)) => true,
            Some(Ok(a16)) => m.write8_defined(a16, r.a),
        },
        Instr::LoadA16 => match probe16(m, r.pc) {
            None => false,
            Some(Err(_)) => true,
            Some(Ok(a16)) => m.read8_defined(a16),
        },
        _ => true,
    }
}

/// Whether one instruction step from `r` is defined on the memory: what
/// `Cpu::step` asks of its caller.
pub fn step_defined<M: Memory>(r: CpuRegs, m: &M) -> (b: bool)
    ensures
        b == step_spec::<M>(r, m@) is Some,
{
    match probe8(m, r.pc) {
        None => false,
        Some(Err(_)) => true,
        Some(Ok(op)) => instr_defined(
            CpuRegs { pc: wrap_inc(r.pc), ..r },
            m,
            super::decode::decode(op),
        ),
    }
}

// ---------------------------------------------------------------------------
// The conditional jumps, calls and returns
// ---------------------------------------------------------------------------

/// The SM83 condition selected by bits 3-4 of a conditional jump, call or
/// return: 0 NZ (Z, bit 7 of F, clear), 1 Z, 2 NC (C, bit 4 of F, clear),
/// 3 C.
pub open spec fn sm83_cond(k: u8, f: u8) -> bool {
    if k == 0 {
        f & 0x80 == 0
    } else if k == 1 {
        f & 0x80 != 0
    } else if k == 2 {
        f & 0x10 == 0
    } else {
        f & 0x10 != 0
    }
}

/// Whether an instruction's condition holds: `None` for an instruction
/// with no condition.
pub open spec fn instr_cond(i: Instr, f: u8) -> Option<bool> {
    match i {
        Instr::Jr(c) | Instr::Jp(c) | Instr::Call(c) | Instr::Ret(c) => Some(cond_holds(c, f)),
        _ => None,
    }
}

/// The conditional jumps, calls and returns test the condition their
/// opcode selects: JR cc at $20 + 8k, RET cc at $C0 + 8k, JP cc at
/// $C2 + 8k and CALL cc at $C4 + 8k with k = 0 NZ, 1 Z, 2 NC, 3 C; the
/// unconditional JR ($18), RET ($C9), JP ($C3) and CALL ($CD) always go.
pub proof fn lemma_conditions_follow_opcode(k: u8, f: u8)
    requires
        k < 4,
    ensures
        decode_spec((0x20 + 8 * k) as u8) is Jr && instr_cond(decode_spec((0x20 + 8 * k) as u8), f)
            == Some(sm83_cond(k, f)),
        decode_spec((0xc0 + 8 * k) as u8) is Ret && instr_cond(decode_spec((0xc0 + 8 * k) as u8), f)
            == Some(sm83_cond(k, f)),
        decode_spec((0xc2 + 8 * k) as u8) is Jp && instr_cond(decode_spec((0xc2 + 8 * k) as u8), f)
            == Some(sm83_cond(k, f)),
        decode_spec((0xc4 + 8 * k) as u8) is Call && instr_cond(decode_spec((0xc4 + 8 * k) as u8), f)
            == Some(sm83_cond(k, f)),
        decode_spec(0x18) is Jr && instr_cond(decode_spec(0x18), f) == Some(true),
        decode_spec(0xc9) is Ret && instr_cond(decode_spec(0xc9), f) == Some(true),
        decode_spec(0xc3) is Jp && instr_cond(decode_spec(0xc3), f) == Some(true),
        decode_spec(0xcd) is Call && instr_cond(decode_spec(0xcd), f) == Some(true),
{
}

/// JR cc,r8 ($20 + 8k): with the condition k selects holding (NZ, Z, NC,
/// C), PC goes to the address after the two bytes plus the signed offset;
/// otherwise it goes on past them. Nothing else changes.
pub proof fn lemma_jr_cc<M: Memory>(r: CpuRegs, m: M::V, k: u8, d: u8)
    requires
        k < 4,
        M::read8_spec(m, r.pc) == Some(Ok::<u8, GbErrorType>((0x20 + 8 * k) as u8)),
        M::read8_spec(m, ((r.pc + 1) % 65536) as u16) == Some(Ok::<u8, GbErrorType>(d)),
    ensures
        step_spec::<M>(r, m) == Some(
            (
                CpuRegs {
                    pc: (if sm83_cond(k, r.f) {
                        (r.pc + 2 + (if d < 128 {
                            d as int
                        } else {
                            d - 256
                        })) % 65536
                    } else {
                        (r.pc + 2) % 65536
                    }) as u16,
                    ..r
                },
                m,
                Ok::<(), GbErrorType>(()),
            ),
        ),
{
    let op = (0x20 + 8 * k) as u8;
    lemma_conditions_follow_opcode(k, r.f);
    assert(decode_spec(op) == Instr::Jr((k + 1) as u8));
    let r1 = CpuRegs { pc: wrap16(r.pc, 1), ..r };
    assert(instr_spec::<M>(r1, m, Instr::Jr((k + 1) as u8)) == jr_spec::<M>(r1, m, (k + 1) as u8))
        by {
        reveal(instr_spec);
    }
    lemma_wrap16_twice(r.pc, 1);
    lemma_wrap16_twice(r.pc, 1 + signed8(d));
    lemma_wrap16_twice(wrap16(r.pc, 1), signed8(d));
    assert(wrap16(r.pc, 1) == ((r.pc + 1) % 65536) as u16);
}

/// Two steps of PC arithmetic add up.
proof fn lemma_wrap16_twice(x: u16, e: int)
    requires
        -256 <= e <= 256,
    ensures
        wrap16(wrap16(x, 1), e) == ((x + 1 + e) % 65536) as u16,
        wrap16(x, 1) == ((x + 1) % 65536) as u16,
{
    if x == 65535 {
        assert(wrap16(x, 1) == 0);
    } else {
        assert(wrap16(x, 1) == x + 1);
    }
}

} // verus!
