//! Decoding of opcodes into instructions.
//!
//! Register operands are numbered as in the opcode encoding:
//! 0 B, 1 C, 2 D, 3 E, 4 H, 5 L, 6 (HL), 7 A.
//! Register pairs: 0 BC, 1 DE, 2 HL, 3 SP (AF for push and pop).
//! Conditions: 0 always, 1 NZ, 2 Z, 3 NC, 4 C.
//! Arithmetic operations: 0 ADD, 1 ADC, 2 SUB, 3 SBC, 4 AND, 5 XOR, 6 OR, 7 CP.

use vstd::prelude::*;

verus! {

#[derive(Clone, Copy, PartialEq, Eq, Structural, Debug)]
pub enum Instr {
    Nop,
    Stop,
    Halt,
    Invalid(u8),
    /// LD rr d16
    LdR16Imm(u8),
    /// LD (BC)/(DE)/(HL+)/(HL-) A
    StoreA(u8),
    /// LD A (BC)/(DE)/(HL+)/(HL-)
    LoadA(u8),
    IncR16(u8),
    DecR16(u8),
    /// ADD HL rr
    AddHl(u8),
    IncR8(u8),
    DecR8(u8),
    /// LD r d8
    LdR8Imm(u8),
    Rlca,
    Rrca,
    Rla,
    Rra,
    Daa,
    Cpl,
    Scf,
    Ccf,
    /// LD (a16) SP
    StoreSp,
    /// JR cc r8
    Jr(u8),
    /// LD r r'
    LdR8R8(u8, u8),
    /// ALU A r
    AluR8(u8, u8),
    /// ALU A d8
    AluImm(u8),
    /// RET cc
    Ret(u8),
    Reti,
    Pop(u8),
    Push(u8),
    /// JP cc a16
    Jp(u8),
    /// JP (HL)
    JpHl,
    /// CALL cc a16
    Call(u8),
    /// RST to the given address
    Rst(u8),
    PrefixCb,
    /// LDH (a8) A
    LdhStore,
    /// LDH A (a8)
    LdhLoad,
    /// LD (C) A
    StoreC,
    /// LD A (C)
    LoadC,
    /// LD (a16) A
    StoreA16,
    /// LD A (a16)
    LoadA16,
    /// ADD SP r8
    AddSp,
    /// LD HL SP+r8
    LdHlSp,
    /// LD SP HL
    LdSpHl,
    Di,
    Ei,
}

/// The instructions behind the CB prefix.
#[derive(Clone, Copy, PartialEq, Eq, Structural, Debug)]
pub enum CbInstr {
    /// 0 RLC, 1 RRC, 2 RL, 3 RR, 4 SLA, 5 SRA, 6 SWAP, 7 SRL on a register
    Rot(u8, u8),
    /// BIT n r
    Bit(u8, u8),
    /// RES n r
    ResBit(u8, u8),
    /// SET n r
    SetBit(u8, u8),
}

pub open spec fn is_invalid_opcode(op: u8) -> bool {
    op == 0xd3 || op == 0xdb || op == 0xdd || op == 0xe3 || op == 0xe4 || op == 0xeb || op
        == 0xec || op == 0xed || op == 0xf4 || op == 0xfc || op == 0xfd
}

/// The instruction an opcode stands for.
pub open spec fn decode_spec(op: u8) -> Instr {
    let x: u8 = op / 64;
    let y: u8 = (op / 8) % 8;
    let z: u8 = op % 8;
    if x == 1 {
        if op == 0x76 {
            Instr::Halt
        } else {
            Instr::LdR8R8(y, z)
        }
    } else if x == 2 {
        Instr::AluR8(y, z)
    } else if x == 0 {
        if z == 0 {
            if y == 0 {
                Instr::Nop
            } else if y == 1 {
                Instr::StoreSp
            } else if y == 2 {
                Instr::Stop
            } else if y == 3 {
                Instr::Jr(0)
            } else {
                Instr::Jr((y - 3) as u8)
            }
        } else if z == 1 {
            if y % 2 == 0 {
                Instr::LdR16Imm(y / 2)
            } else {
                Instr::AddHl(y / 2)
            }
        } else if z == 2 {
            if y % 2 == 0 {
                Instr::StoreA(y / 2)
            } else {
                Instr::LoadA(y / 2)
            }
        } else if z == 3 {
            if y % 2 == 0 {
                Instr::IncR16(y / 2)
            } else {
                Instr::DecR16(y / 2)
            }
        } else if z == 4 {
            Instr::IncR8(y)
        } else if z == 5 {
            Instr::DecR8(y)
        } else if z == 6 {
            Instr::LdR8Imm(y)
        } else {
            if y == 0 {
                Instr::Rlca
            } else if y == 1 {
                Instr::Rrca
            } else if y == 2 {
                Instr::Rla
            } else if y == 3 {
                Instr::Rra
            } else if y == 4 {
                Instr::Daa
            } else if y == 5 {
                Instr::Cpl
            } else if y == 6 {
                Instr::Scf
            } else {
                Instr::Ccf
            }
        }
    } else {
        if is_invalid_opcode(op) {
            Instr::Invalid(op)
        } else if z == 0 {
            if y < 4 {
                Instr::Ret((y + 1) as u8)
            } else if y == 4 {
                Instr::LdhStore
            } else if y == 5 {
                Instr::AddSp
            } else if y == 6 {
                Instr::LdhLoad
            } else {
                Instr::LdHlSp
            }
        } else if z == 1 {
            if y % 2 == 0 {
                Instr::Pop(y / 2)
            } else if y == 1 {
                Instr::Ret(0)
            } else if y == 3 {
                Instr::Reti
            } else if y == 5 {
                Instr::JpHl
            } else {
                Instr::LdSpHl
            }
        } else if z == 2 {
            if y < 4 {
                Instr::Jp((y + 1) as u8)
            } else if y == 4 {
                Instr::StoreC
            } else if y == 5 {
                Instr::StoreA16
            } else if y == 6 {
                Instr::LoadC
            } else {
                Instr::LoadA16
            }
        } else if z == 3 {
            if y == 0 {
                Instr::Jp(0)
            } else if y == 1 {
                Instr::PrefixCb
            } else if y == 6 {
                Instr::Di
            } else {
                Instr::Ei
            }
        } else if z == 4 {
            Instr::Call((y + 1) as u8)
        } else if z == 5 {
            if y % 2 == 0 {
                Instr::Push(y / 2)
            } else {
                Instr::Call(0)
            }
        } else if z == 6 {
            Instr::AluImm(y)
        } else {
            Instr::Rst((y * 8) as u8)
        }
    }
}

/// The instruction a byte after the CB prefix stands for.
pub open spec fn decode_cb_spec(op: u8) -> CbInstr {
    let x: u8 = op / 64;
    let y: u8 = (op / 8) % 8;
    let z: u8 = op % 8;
    if x == 0 {
        CbInstr::Rot(y, z)
    } else if x == 1 {
        CbInstr::Bit(y, z)
    } else if x == 2 {
        CbInstr::ResBit(y, z)
    } else {
        CbInstr::SetBit(y, z)
    }
}

/// Operand numbers are in range for every decoded instruction.
pub open spec fn instr_wf(i: Instr) -> bool {
    match i {
        Instr::LdR16Imm(p) | Instr::StoreA(p) | Instr::LoadA(p) | Instr::IncR16(p)
        | Instr::DecR16(p) | Instr::AddHl(p) | Instr::Pop(p) | Instr::Push(p) => p < 4,
        Instr::IncR8(r) | Instr::DecR8(r) | Instr::LdR8Imm(r) | Instr::AluImm(r) => r < 8,
        Instr::Jr(c) | Instr::Ret(c) | Instr::Jp(c) | Instr::Call(c) => c < 5,
        Instr::LdR8R8(d, s) => d < 8 && s < 8 && !(d == 6 && s == 6),
        Instr::AluR8(o, r) => o < 8 && r < 8,
        _ => true,
    }
}

pub open spec fn cb_wf(i: CbInstr) -> bool {
    match i {
        CbInstr::Rot(a, b) | CbInstr::Bit(a, b) | CbInstr::ResBit(a, b) | CbInstr::SetBit(a, b) => a
            < 8 && b < 8,
    }
}

pub proof fn lemma_decode_wf(op: u8)
    ensures
        instr_wf(decode_spec(op)),
        cb_wf(decode_cb_spec(op)),
{
}

pub fn decode(op: u8) -> (i: Instr)
    ensures
        i == decode_spec(op),
        instr_wf(i),
{
    let x: u8 = op / 64;
    let y: u8 = (op / 8) % 8;
    let z: u8 = op % 8;
    if x == 1 {
        if op == 0x76 {
            Instr::Halt
        } else {
            Instr::LdR8R8(y, z)
        }
    } else if x == 2 {
        Instr::AluR8(y, z)
    } else if x == 0 {
        if z == 0 {
            if y == 0 {
                Instr::Nop
            } else if y == 1 {
                Instr::StoreSp
            } else if y == 2 {
                Instr::Stop
            } else if y == 3 {
                Instr::Jr(0)
            } else {
                Instr::Jr(y - 3)
            }
        } else if z == 1 {
            if y % 2 == 0 {
                Instr::LdR16Imm(y / 2)
            } else {
                Instr::AddHl(y / 2)
            }
        } else if z == 2 {
            if y % 2 == 0 {
                Instr::StoreA(y / 2)
            } else {
                Instr::LoadA(y / 2)
            }
        } else if z == 3 {
            if y % 2 == 0 {
                Instr::IncR16(y / 2)
            } else {
                Instr::DecR16(y / 2)
            }
        } else if z == 4 {
            Instr::IncR8(y)
        } else if z == 5 {
            Instr::DecR8(y)
        } else if z == 6 {
            Instr::LdR8Imm(y)
        } else {
            if y == 0 {
                Instr::Rlca
            } else if y == 1 {
                Instr::Rrca
            } else if y == 2 {
                Instr::Rla
            } else if y == 3 {
                Instr::Rra
            } else if y == 4 {
                Instr::Daa
            } else if y == 5 {
                Instr::Cpl
            } else if y == 6 {
                Instr::Scf
            } else {
                Instr::Ccf
            }
        }
    } else {
        if op == 0xd3 || op == 0xdb || op == 0xdd || op == 0xe3 || op == 0xe4 || op == 0xeb
            || op == 0xec || op == 0xed || op == 0xf4 || op == 0xfc || op == 0xfd {
            Instr::Invalid(op)
        } else if z == 0 {
            if y < 4 {
                Instr::Ret(y + 1)
            } else if y == 4 {
                Instr::LdhStore
            } else if y == 5 {
                Instr::AddSp
            } else if y == 6 {
                Instr::LdhLoad
            } else {
                Instr::LdHlSp
            }
        } else if z == 1 {
            if y % 2 == 0 {
                Instr::Pop(y / 2)
            } else if y == 1 {
                Instr::Ret(0)
            } else if y == 3 {
                Instr::Reti
            } else if y == 5 {
                Instr::JpHl
            } else {
                Instr::LdSpHl
            }
        } else if z == 2 {
            if y < 4 {
                Instr::Jp(y + 1)
            } else if y == 4 {
                Instr::StoreC
            } else if y == 5 {
                Instr::StoreA16
            } else if y == 6 {
                Instr::LoadC
            } else {
                Instr::LoadA16
            }
        } else if z == 3 {
            if y == 0 {
                Instr::Jp(0)
            } else if y == 1 {
                Instr::PrefixCb
            } else if y == 6 {
                Instr::Di
            } else {
                Instr::Ei
            }
        } else if z == 4 {
            Instr::Call(y + 1)
        } else if z == 5 {
            if y % 2 == 0 {
                Instr::Push(y / 2)
            } else {
                Instr::Call(0)
            }
        } else if z == 6 {
            Instr::AluImm(y)
        } else {
            Instr::Rst(y * 8)
        }
    }
}

pub fn decode_cb(op: u8) -> (i: CbInstr)
    ensures
        i == decode_cb_spec(op),
        cb_wf(i),
{
    let x: u8 = op / 64;
    let y: u8 = (op / 8) % 8;
    let z: u8 = op % 8;
    if x == 0 {
        CbInstr::Rot(y, z)
    } else if x == 1 {
        CbInstr::Bit(y, z)
    } else if x == 2 {
        CbInstr::ResBit(y, z)
    } else {
        CbInstr::SetBit(y, z)
    }
}

} // verus!
