//! What the disassembler calls each instruction, built from the decoded
//! instruction: the opcode tables and the cpu's decoder name the same
//! instruction for every opcode.

use super::table::{instr_cb_entry_spec, instr_entry_spec};
use crate::cpu::decode::{CbInstr, Instr, decode_cb_spec, decode_spec};
use vstd::prelude::*;

verus! {

/// The 8-bit operands: 0 B, 1 C, 2 D, 3 E, 4 H, 5 L, 6 (HL), 7 A.
pub open spec fn r8_name(i: u8) -> Seq<char> {
    if i == 0 {
        seq!['b']
    } else if i == 1 {
        seq!['c']
    } else if i == 2 {
        seq!['d']
    } else if i == 3 {
        seq!['e']
    } else if i == 4 {
        seq!['h']
    } else if i == 5 {
        seq!['l']
    } else if i == 6 {
        seq!['(', 'h', 'l', ')']
    } else {
        seq!['a']
    }
}

/// The register pairs of loads and arithmetic: BC, DE, HL, SP.
pub open spec fn r16_name(p: u8) -> Seq<char> {
    if p == 0 {
        seq!['b', 'c']
    } else if p == 1 {
        seq!['d', 'e']
    } else if p == 2 {
        seq!['h', 'l']
    } else {
        seq!['s', 'p']
    }
}

/// The register pairs of PUSH and POP: BC, DE, HL, AF.
pub open spec fn stack_name(p: u8) -> Seq<char> {
    if p == 3 {
        seq!['a', 'f']
    } else {
        r16_name(p)
    }
}

/// The memory operands of the A loads and stores: (BC), (DE), (HL+), (HL-).
pub open spec fn a_ind_name(p: u8) -> Seq<char> {
    if p == 0 {
        seq!['(', 'b', 'c', ')']
    } else if p == 1 {
        seq!['(', 'd', 'e', ')']
    } else if p == 2 {
        seq!['(', 'h', 'l', '+', ')']
    } else {
        seq!['(', 'h', 'l', '-', ')']
    }
}

/// The conditions: 1 NZ, 2 Z, 3 NC, 4 C.
pub open spec fn cond_name(c: u8) -> Seq<char> {
    if c == 1 {
        seq!['n', 'z']
    } else if c == 2 {
        seq!['z']
    } else if c == 3 {
        seq!['n', 'c']
    } else {
        seq!['c']
    }
}

/// An arithmetic operation and what comes before its operand: ADD, ADC
/// and SBC name A as well.
pub open spec fn alu_head(op: u8) -> Seq<char> {
    if op == 0 {
        seq!['a', 'd', 'd', ' ', 'a', ' ']
    } else if op == 1 {
        seq!['a', 'd', 'c', ' ', 'a', ' ']
    } else if op == 2 {
        seq!['s', 'u', 'b', ' ']
    } else if op == 3 {
        seq!['s', 'b', 'c', ' ', 'a', ' ']
    } else if op == 4 {
        seq!['a', 'n', 'd', ' ']
    } else if op == 5 {
        seq!['x', 'o', 'r', ' ']
    } else if op == 6 {
        seq!['o', 'r', ' ']
    } else {
        seq!['c', 'p', ' ']
    }
}

/// A hexadecimal digit.
pub open spec fn hex_digit(d: u8) -> char {
    if d < 10 {
        ('0' as u8 + d) as char
    } else {
        ('a' as u8 + d - 10) as char
    }
}

/// A jump or call: its name, then the condition if there is one, then the
/// operand.
pub open spec fn cond_jump(head: Seq<char>, c: u8, operand: Seq<char>) -> Seq<char> {
    if c == 0 {
        head + seq![' '] + operand
    } else {
        head + seq![' '] + cond_name(c) + seq![' '] + operand
    }
}

/// The text of an instruction.
pub open spec fn instr_name(i: Instr) -> Seq<char> {
    match i {
        Instr::Nop => seq!['n', 'o', 'p'],
        Instr::Stop => seq!['s', 't', 'o', 'p'],
        Instr::Halt => seq!['h', 'a', 'l', 't'],
        Instr::Invalid(_) => seq!['?', '?', '?'],
        Instr::LdR16Imm(p) => seq!['l', 'd', ' '] + r16_name(p) + seq![' ', 'd', '1', '6'],
        Instr::StoreA(p) => seq!['l', 'd', ' '] + a_ind_name(p) + seq![' ', 'a'],
        Instr::LoadA(p) => seq!['l', 'd', ' ', 'a', ' '] + a_ind_name(p),
        Instr::IncR16(p) => seq!['i', 'n', 'c', ' '] + r16_name(p),
        Instr::DecR16(p) => seq!['d', 'e', 'c', ' '] + r16_name(p),
        Instr::AddHl(p) => seq!['a', 'd', 'd', ' ', 'h', 'l', ' '] + r16_name(p),
        Instr::IncR8(r) => seq!['i', 'n', 'c', ' '] + r8_name(r),
        Instr::DecR8(r) => seq!['d', 'e', 'c', ' '] + r8_name(r),
        Instr::LdR8Imm(r) => seq!['l', 'd', ' '] + r8_name(r) + seq![' ', 'd', '8'],
        Instr::Rlca => seq!['r', 'l', 'c', 'a'],
        Instr::Rrca => seq!['r', 'r', 'c', 'a'],
        Instr::Rla => seq!['r', 'l', 'a'],
        Instr::Rra => seq!['r', 'r', 'a'],
        Instr::Daa => seq!['d', 'a', 'a'],
        Instr::Cpl => seq!['c', 'p', 'l'],
        Instr::Scf => seq!['s', 'c', 'f'],
        Instr::Ccf => seq!['c', 'c', 'f'],
        Instr::StoreSp => seq!['l', 'd', ' ', '(', 'a', '1', '6', ')', ' ', 's', 'p'],
        Instr::Jr(c) => cond_jump(seq!['j', 'r'], c, seq!['r', '8']),
        Instr::LdR8R8(d, s) => seq!['l', 'd', ' '] + r8_name(d) + seq![' '] + r8_name(s),
        Instr::AluR8(op, r) => alu_head(op) + r8_name(r),
        Instr::AluImm(op) => alu_head(op) + seq!['d', '8'],
        Instr::Ret(c) => if c == 0 {
            seq!['r', 'e', 't']
        } else {
            seq!['r', 'e', 't', ' '] + cond_name(c)
        },
        Instr::Reti => seq!['r', 'e', 't', 'i'],
        Instr::Pop(p) => seq!['p', 'o', 'p', ' '] + stack_name(p),
        Instr::Push(p) => seq!['p', 'u', 's', 'h', ' '] + stack_name(p),
        Instr::Jp(c) => cond_jump(seq!['j', 'p'], c, seq!['a', '1', '6']),
        Instr::JpHl => seq!['j', 'p', ' ', '(', 'h', 'l', ')'],
        Instr::Call(c) => cond_jump(seq!['c', 'a', 'l', 'l'], c, seq!['a', '1', '6']),
        Instr::Rst(a) => seq!['r', 's', 't', ' '] + seq![hex_digit(a / 16), hex_digit(a % 16)] + seq!['h'],
        Instr::PrefixCb => seq!['p', 'r', 'e', 'f', 'i', 'x', '_', 'c', 'b'],
        Instr::LdhStore => seq!['l', 'd', 'h', ' ', '(', 'a', '8', ')', ' ', 'a'],
        Instr::LdhLoad => seq!['l', 'd', 'h', ' ', 'a', ' ', '(', 'a', '8', ')'],
        Instr::StoreC => seq!['l', 'd', ' ', '(', 'c', ')', ' ', 'a'],
        Instr::LoadC => seq!['l', 'd', ' ', 'a', ' ', '(', 'c', ')'],
        Instr::StoreA16 => seq!['l', 'd', ' ', '(', 'a', '1', '6', ')', ' ', 'a'],
        Instr::LoadA16 => seq!['l', 'd', ' ', 'a', ' ', '(', 'a', '1', '6', ')'],
        Instr::AddSp => seq!['a', 'd', 'd', ' ', 's', 'p', ' ', 'r', '8'],
        Instr::LdHlSp => seq!['l', 'd', ' ', 'h', 'l', ' ', 's', 'p', '+', 'r', '8'],
        Instr::LdSpHl => seq!['l', 'd', ' ', 's', 'p', ' ', 'h', 'l'],
        Instr::Di => seq!['d', 'i'],
        Instr::Ei => seq!['e', 'i'],
    }
}

/// The rotations and shifts behind the CB prefix: 0 RLC, 1 RRC, 2 RL,
/// 3 RR, 4 SLA, 5 SRA, 6 SWAP, 7 SRL.
pub open spec fn rot_name(op: u8) -> Seq<char> {
    if op == 0 {
        seq!['r', 'l', 'c']
    } else if op == 1 {
        seq!['r', 'r', 'c']
    } else if op == 2 {
        seq!['r', 'l']
    } else if op == 3 {
        seq!['r', 'r']
    } else if op == 4 {
        seq!['s', 'l', 'a']
    } else if op == 5 {
        seq!['s', 'r', 'a']
    } else if op == 6 {
        seq!['s', 'w', 'a', 'p']
    } else {
        seq!['s', 'r', 'l']
    }
}

/// The text of an instruction behind the CB prefix.
pub open spec fn cb_name(i: CbInstr) -> Seq<char> {
    match i {
        CbInstr::Rot(op, r) => rot_name(op) + seq![' '] + r8_name(r),
        CbInstr::Bit(n, r) => seq!['b', 'i', 't', ' '] + seq![hex_digit(n)] + seq![' '] + r8_name(r),
        CbInstr::ResBit(n, r) => seq!['r', 'e', 's', ' '] + seq![hex_digit(n)] + seq![' '] + r8_name(r),
        CbInstr::SetBit(n, r) => seq!['s', 'e', 't', ' '] + seq![hex_digit(n)] + seq![' '] + r8_name(r),
    }
}

/// The disassembler's text for every opcode is the text of the instruction
/// the cpu decodes it to; the one exception is $C0 (RET NZ), which the
/// opcode table writes `req nz`.
pub proof fn lemma_names_match_decoder(op: u8)
    requires
        op != 0xc0,
    ensures
        instr_entry_spec(op).name@ == instr_name(decode_spec(op)),
{
    if op < 16 {
        lemma_names_0(op);
    } else if op < 32 {
        lemma_names_1(op);
    } else if op < 48 {
        lemma_names_2(op);
    } else if op < 64 {
        lemma_names_3(op);
    } else if op < 80 {
        lemma_names_4(op);
    } else if op < 96 {
        lemma_names_5(op);
    } else if op < 112 {
        lemma_names_6(op);
    } else if op < 128 {
        lemma_names_7(op);
    } else if op < 144 {
        lemma_names_8(op);
    } else if op < 160 {
        lemma_names_9(op);
    } else if op < 176 {
        lemma_names_a(op);
    } else if op < 192 {
        lemma_names_b(op);
    } else if op < 208 {
        lemma_names_c(op);
    } else if op < 224 {
        lemma_names_d(op);
    } else if op < 240 {
        lemma_names_e(op);
    } else {
        lemma_names_f(op);
    }
}

/// The disassembler's text for every opcode behind the CB prefix is the
/// text of the instruction the cpu decodes it to.
pub proof fn lemma_cb_names_match_decoder(op: u8)
    ensures
        instr_cb_entry_spec(op).name@ == cb_name(decode_cb_spec(op)),
{
    if op < 16 {
        lemma_cb_names_0(op);
    } else if op < 32 {
        lemma_cb_names_1(op);
    } else if op < 48 {
        lemma_cb_names_2(op);
    } else if op < 64 {
        lemma_cb_names_3(op);
    } else if op < 80 {
        lemma_cb_names_4(op);
    } else if op < 96 {
        lemma_cb_names_5(op);
    } else if op < 112 {
        lemma_cb_names_6(op);
    } else if op < 128 {
        lemma_cb_names_7(op);
    } else if op < 144 {
        lemma_cb_names_8(op);
    } else if op < 160 {
        lemma_cb_names_9(op);
    } else if op < 176 {
        lemma_cb_names_a(op);
    } else if op < 192 {
        lemma_cb_names_b(op);
    } else if op < 208 {
        lemma_cb_names_c(op);
    } else if op < 224 {
        lemma_cb_names_d(op);
    } else if op < 240 {
        lemma_cb_names_e(op);
    } else {
        lemma_cb_names_f(op);
    }
}

proof fn lemma_names_0(op: u8)
    requires
        0 <= op < 16,
    ensures
        instr_entry_spec(op).name@ == instr_name(decode_spec(op)),
{
    if op == 0 {
        reveal_strlit("nop");
        assert(instr_entry_spec(0u8).name@ =~= instr_name(decode_spec(0u8)));
    } else if op == 1 {
        reveal_strlit("ld bc d16");
        assert(instr_entry_spec(1u8).name@ =~= instr_name(decode_spec(1u8)));
    } else if op == 2 {
        reveal_strlit("ld (bc) a");
        assert(instr_entry_spec(2u8).name@ =~= instr_name(decode_spec(2u8)));
    } else if op == 3 {
        reveal_strlit("inc bc");
        assert(instr_entry_spec(3u8).name@ =~= instr_name(decode_spec(3u8)));
    } else if op == 4 {
        reveal_strlit("inc b");
        assert(instr_entry_spec(4u8).name@ =~= instr_name(decode_spec(4u8)));
    } else if op == 5 {
        reveal_strlit("dec b");
        assert(instr_entry_spec(5u8).name@ =~= instr_name(decode_spec(5u8)));
    } else if op == 6 {
        reveal_strlit("ld b d8");
        assert(instr_entry_spec(6u8).name@ =~= instr_name(decode_spec(6u8)));
    } else if op == 7 {
        reveal_strlit("rlca");
        assert(instr_entry_spec(7u8).name@ =~= instr_name(decode_spec(7u8)));
    } else if op == 8 {
        reveal_strlit("ld (a16) sp");
        assert(instr_entry_spec(8u8).name@ =~= instr_name(decode_spec(8u8)));
    } else if op == 9 {
        reveal_strlit("add hl bc");
        assert(instr_entry_spec(9u8).name@ =~= instr_name(decode_spec(9u8)));
    } else if op == 10 {
        reveal_strlit("ld a (bc)");
        assert(instr_entry_spec(10u8).name@ =~= instr_name(decode_spec(10u8)));
    } else if op == 11 {
        reveal_strlit("dec bc");
        assert(instr_entry_spec(11u8).name@ =~= instr_name(decode_spec(11u8)));
    } else if op == 12 {
        reveal_strlit("inc c");
        assert(instr_entry_spec(12u8).name@ =~= instr_name(decode_spec(12u8)));
    } else if op == 13 {
        reveal_strlit("dec c");
        assert(instr_entry_spec(13u8).name@ =~= instr_name(decode_spec(13u8)));
    } else if op == 14 {
        reveal_strlit("ld c d8");
        assert(instr_entry_spec(14u8).name@ =~= instr_name(decode_spec(14u8)));
    } else if op == 15 {
        reveal_strlit("rrca");
        assert(instr_entry_spec(15u8).name@ =~= instr_name(decode_spec(15u8)));
    }
}

proof fn lemma_names_1(op: u8)
    requires
        16 <= op < 32,
    ensures
        instr_entry_spec(op).name@ == instr_name(decode_spec(op)),
{
    if op == 16 {
        reveal_strlit("stop");
        assert(instr_entry_spec(16u8).name@ =~= instr_name(decode_spec(16u8)));
    } else if op == 17 {
        reveal_strlit("ld de d16");
        assert(instr_entry_spec(17u8).name@ =~= instr_name(decode_spec(17u8)));
    } else if op == 18 {
        reveal_strlit("ld (de) a");
        assert(instr_entry_spec(18u8).name@ =~= instr_name(decode_spec(18u8)));
    } else if op == 19 {
        reveal_strlit("inc de");
        assert(instr_entry_spec(19u8).name@ =~= instr_name(decode_spec(19u8)));
    } else if op == 20 {
        reveal_strlit("inc d");
        assert(instr_entry_spec(20u8).name@ =~= instr_name(decode_spec(20u8)));
    } else if op == 21 {
        reveal_strlit("dec d");
        assert(instr_entry_spec(21u8).name@ =~= instr_name(decode_spec(21u8)));
    } else if op == 22 {
        reveal_strlit("ld d d8");
        assert(instr_entry_spec(22u8).name@ =~= instr_name(decode_spec(22u8)));
    } else if op == 23 {
        reveal_strlit("rla");
        assert(instr_entry_spec(23u8).name@ =~= instr_name(decode_spec(23u8)));
    } else if op == 24 {
        reveal_strlit("jr r8");
        assert(instr_entry_spec(24u8).name@ =~= instr_name(decode_spec(24u8)));
    } else if op == 25 {
        reveal_strlit("add hl de");
        assert(instr_entry_spec(25u8).name@ =~= instr_name(decode_spec(25u8)));
    } else if op == 26 {
        reveal_strlit("ld a (de)");
        assert(instr_entry_spec(26u8).name@ =~= instr_name(decode_spec(26u8)));
    } else if op == 27 {
        reveal_strlit("dec de");
        assert(instr_entry_spec(27u8).name@ =~= instr_name(decode_spec(27u8)));
    } else if op == 28 {
        reveal_strlit("inc e");
        assert(instr_entry_spec(28u8).name@ =~= instr_name(decode_spec(28u8)));
    } else if op == 29 {
        reveal_strlit("dec e");
        assert(instr_entry_spec(29u8).name@ =~= instr_name(decode_spec(29u8)));
    } else if op == 30 {
        reveal_strlit("ld e d8");
        assert(instr_entry_spec(30u8).name@ =~= instr_name(decode_spec(30u8)));
    } else if op == 31 {
        reveal_strlit("rra");
        assert(instr_entry_spec(31u8).name@ =~= instr_name(decode_spec(31u8)));
    }
}

proof fn lemma_names_2(op: u8)
    requires
        32 <= op < 48,
    ensures
        instr_entry_spec(op).name@ == instr_name(decode_spec(op)),
{
    if op == 32 {
        reveal_strlit("jr nz r8");
        assert(instr_entry_spec(32u8).name@ =~= instr_name(decode_spec(32u8)));
    } else if op == 33 {
        reveal_strlit("ld hl d16");
        assert(instr_entry_spec(33u8).name@ =~= instr_name(decode_spec(33u8)));
    } else if op == 34 {
        reveal_strlit("ld (hl+) a");
        assert(instr_entry_spec(34u8).name@ =~= instr_name(decode_spec(34u8)));
    } else if op == 35 {
        reveal_strlit("inc hl");
        assert(instr_entry_spec(35u8).name@ =~= instr_name(decode_spec(35u8)));
    } else if op == 36 {
        reveal_strlit("inc h");
        assert(instr_entry_spec(36u8).name@ =~= instr_name(decode_spec(36u8)));
    } else if op == 37 {
        reveal_strlit("dec h");
        assert(instr_entry_spec(37u8).name@ =~= instr_name(decode_spec(37u8)));
    } else if op == 38 {
        reveal_strlit("ld h d8");
        assert(instr_entry_spec(38u8).name@ =~= instr_name(decode_spec(38u8)));
    } else if op == 39 {
        reveal_strlit("daa");
        assert(instr_entry_spec(39u8).name@ =~= instr_name(decode_spec(39u8)));
    } else if op == 40 {
        reveal_strlit("jr z r8");
        assert(instr_entry_spec(40u8).name@ =~= instr_name(decode_spec(40u8)));
    } else if op == 41 {
        reveal_strlit("add hl hl");
        assert(instr_entry_spec(41u8).name@ =~= instr_name(decode_spec(41u8)));
    } else if op == 42 {
        reveal_strlit("ld a (hl+)");
        assert(instr_entry_spec(42u8).name@ =~= instr_name(decode_spec(42u8)));
    } else if op == 43 {
        reveal_strlit("dec hl");
        assert(instr_entry_spec(43u8).name@ =~= instr_name(decode_spec(43u8)));
    } else if op == 44 {
        reveal_strlit("inc l");
        assert(instr_entry_spec(44u8).name@ =~= instr_name(decode_spec(44u8)));
    } else if op == 45 {
        reveal_strlit("dec l");
        assert(instr_entry_spec(45u8).name@ =~= instr_name(decode_spec(45u8)));
    } else if op == 46 {
        reveal_strlit("ld l d8");
        assert(instr_entry_spec(46u8).name@ =~= instr_name(decode_spec(46u8)));
    } else if op == 47 {
        reveal_strlit("cpl");
        assert(instr_entry_spec(47u8).name@ =~= instr_name(decode_spec(47u8)));
    }
}

proof fn lemma_names_3(op: u8)
    requires
        48 <= op < 64,
    ensures
        instr_entry_spec(op).name@ == instr_name(decode_spec(op)),
{
    if op == 48 {
        reveal_strlit("jr nc r8");
        assert(instr_entry_spec(48u8).name@ =~= instr_name(decode_spec(48u8)));
    } else if op == 49 {
        reveal_strlit("ld sp d16");
        assert(instr_entry_spec(49u8).name@ =~= instr_name(decode_spec(49u8)));
    } else if op == 50 {
        reveal_strlit("ld (hl-) a");
        assert(instr_entry_spec(50u8).name@ =~= instr_name(decode_spec(50u8)));
    } else if op == 51 {
        reveal_strlit("inc sp");
        assert(instr_entry_spec(51u8).name@ =~= instr_name(decode_spec(51u8)));
    } else if op == 52 {
        reveal_strlit("inc (hl)");
        assert(instr_entry_spec(52u8).name@ =~= instr_name(decode_spec(52u8)));
    } else if op == 53 {
        reveal_strlit("dec (hl)");
        assert(instr_entry_spec(53u8).name@ =~= instr_name(decode_spec(53u8)));
    } else if op == 54 {
        reveal_strlit("ld (hl) d8");
        assert(instr_entry_spec(54u8).name@ =~= instr_name(decode_spec(54u8)));
    } else if op == 55 {
        reveal_strlit("scf");
        assert(instr_entry_spec(55u8).name@ =~= instr_name(decode_spec(55u8)));
    } else if op == 56 {
        reveal_strlit("jr c r8");
        assert(instr_entry_spec(56u8).name@ =~= instr_name(decode_spec(56u8)));
    } else if op == 57 {
        reveal_strlit("add hl sp");
        assert(instr_entry_spec(57u8).name@ =~= instr_name(decode_spec(57u8)));
    } else if op == 58 {
        reveal_strlit("ld a (hl-)");
        assert(instr_entry_spec(58u8).name@ =~= instr_name(decode_spec(58u8)));
    } else if op == 59 {
        reveal_strlit("dec sp");
        assert(instr_entry_spec(59u8).name@ =~= instr_name(decode_spec(59u8)));
    } else if op == 60 {
        reveal_strlit("inc a");
        assert(instr_entry_spec(60u8).name@ =~= instr_name(decode_spec(60u8)));
    } else if op == 61 {
        reveal_strlit("dec a");
        assert(instr_entry_spec(61u8).name@ =~= instr_name(decode_spec(61u8)));
    } else if op == 62 {
        reveal_strlit("ld a d8");
        assert(instr_entry_spec(62u8).name@ =~= instr_name(decode_spec(62u8)));
    } else if op == 63 {
        reveal_strlit("ccf");
        assert(instr_entry_spec(63u8).name@ =~= instr_name(decode_spec(63u8)));
    }
}

proof fn lemma_names_4(op: u8)
    requires
        64 <= op < 80,
    ensures
        instr_entry_spec(op).name@ == instr_name(decode_spec(op)),
{
    if op == 64 {
        reveal_strlit("ld b b");
        assert(instr_entry_spec(64u8).name@ =~= instr_name(decode_spec(64u8)));
    } else if op == 65 {
        reveal_strlit("ld b c");
        assert(instr_entry_spec(65u8).name@ =~= instr_name(decode_spec(65u8)));
    } else if op == 66 {
        reveal_strlit("ld b d");
        assert(instr_entry_spec(66u8).name@ =~= instr_name(decode_spec(66u8)));
    } else if op == 67 {
        reveal_strlit("ld b e");
        assert(instr_entry_spec(67u8).name@ =~= instr_name(decode_spec(67u8)));
    } else if op == 68 {
        reveal_strlit("ld b h");
        assert(instr_entry_spec(68u8).name@ =~= instr_name(decode_spec(68u8)));
    } else if op == 69 {
        reveal_strlit("ld b l");
        assert(instr_entry_spec(69u8).name@ =~= instr_name(decode_spec(69u8)));
    } else if op == 70 {
        reveal_strlit("ld b (hl)");
        assert(instr_entry_spec(70u8).name@ =~= instr_name(decode_spec(70u8)));
    } else if op == 71 {
        reveal_strlit("ld b a");
        assert(instr_entry_spec(71u8).name@ =~= instr_name(decode_spec(71u8)));
    } else if op == 72 {
        reveal_strlit("ld c b");
        assert(instr_entry_spec(72u8).name@ =~= instr_name(decode_spec(72u8)));
    } else if op == 73 {
        reveal_strlit("ld c c");
        assert(instr_entry_spec(73u8).name@ =~= instr_name(decode_spec(73u8)));
    } else if op == 74 {
        reveal_strlit("ld c d");
        assert(instr_entry_spec(74u8).name@ =~= instr_name(decode_spec(74u8)));
    } else if op == 75 {
        reveal_strlit("ld c e");
        assert(instr_entry_spec(75u8).name@ =~= instr_name(decode_spec(75u8)));
    } else if op == 76 {
        reveal_strlit("ld c h");
        assert(instr_entry_spec(76u8).name@ =~= instr_name(decode_spec(76u8)));
    } else if op == 77 {
        reveal_strlit("ld c l");
        assert(instr_entry_spec(77u8).name@ =~= instr_name(decode_spec(77u8)));
    } else if op == 78 {
        reveal_strlit("ld c (hl)");
        assert(instr_entry_spec(78u8).name@ =~= instr_name(decode_spec(78u8)));
    } else if op == 79 {
        reveal_strlit("ld c a");
        assert(instr_entry_spec(79u8).name@ =~= instr_name(decode_spec(79u8)));
    }
}

proof fn lemma_names_5(op: u8)
    requires
        80 <= op < 96,
    ensures
        instr_entry_spec(op).name@ == instr_name(decode_spec(op)),
{
    if op == 80 {
        reveal_strlit("ld d b");
        assert(instr_entry_spec(80u8).name@ =~= instr_name(decode_spec(80u8)));
    } else if op == 81 {
        reveal_strlit("ld d c");
        assert(instr_entry_spec(81u8).name@ =~= instr_name(decode_spec(81u8)));
    } else if op == 82 {
        reveal_strlit("ld d d");
        assert(instr_entry_spec(82u8).name@ =~= instr_name(decode_spec(82u8)));
    } else if op == 83 {
        reveal_strlit("ld d e");
        assert(instr_entry_spec(83u8).name@ =~= instr_name(decode_spec(83u8)));
    } else if op == 84 {
        reveal_strlit("ld d h");
        assert(instr_entry_spec(84u8).name@ =~= instr_name(decode_spec(84u8)));
    } else if op == 85 {
        reveal_strlit("ld d l");
        assert(instr_entry_spec(85u8).name@ =~= instr_name(decode_spec(85u8)));
    } else if op == 86 {
        reveal_strlit("ld d (hl)");
        assert(instr_entry_spec(86u8).name@ =~= instr_name(decode_spec(86u8)));
    } else if op == 87 {
        reveal_strlit("ld d a");
        assert(instr_entry_spec(87u8).name@ =~= instr_name(decode_spec(87u8)));
    } else if op == 88 {
        reveal_strlit("ld e b");
        assert(instr_entry_spec(88u8).name@ =~= instr_name(decode_spec(88u8)));
    } else if op == 89 {
        reveal_strlit("ld e c");
        assert(instr_entry_spec(89u8).name@ =~= instr_name(decode_spec(89u8)));
    } else if op == 90 {
        reveal_strlit("ld e d");
        assert(instr_entry_spec(90u8).name@ =~= instr_name(decode_spec(90u8)));
    } else if op == 91 {
        reveal_strlit("ld e e");
        assert(instr_entry_spec(91u8).name@ =~= instr_name(decode_spec(91u8)));
    } else if op == 92 {
        reveal_strlit("ld e h");
        assert(instr_entry_spec(92u8).name@ =~= instr_name(decode_spec(92u8)));
    } else if op == 93 {
        reveal_strlit("ld e l");
        assert(instr_entry_spec(93u8).name@ =~= instr_name(decode_spec(93u8)));
    } else if op == 94 {
        reveal_strlit("ld e (hl)");
        assert(instr_entry_spec(94u8).name@ =~= instr_name(decode_spec(94u8)));
    } else if op == 95 {
        reveal_strlit("ld e a");
        assert(instr_entry_spec(95u8).name@ =~= instr_name(decode_spec(95u8)));
    }
}

proof fn lemma_names_6(op: u8)
    requires
        96 <= op < 112,
    ensures
        instr_entry_spec(op).name@ == instr_name(decode_spec(op)),
{
    if op == 96 {
        reveal_strlit("ld h b");
        assert(instr_entry_spec(96u8).name@ =~= instr_name(decode_spec(96u8)));
    } else if op == 97 {
        reveal_strlit("ld h c");
        assert(instr_entry_spec(97u8).name@ =~= instr_name(decode_spec(97u8)));
    } else if op == 98 {
        reveal_strlit("ld h d");
        assert(instr_entry_spec(98u8).name@ =~= instr_name(decode_spec(98u8)));
    } else if op == 99 {
        reveal_strlit("ld h e");
        assert(instr_entry_spec(99u8).name@ =~= instr_name(decode_spec(99u8)));
    } else if op == 100 {
        reveal_strlit("ld h h");
        assert(instr_entry_spec(100u8).name@ =~= instr_name(decode_spec(100u8)));
    } else if op == 101 {
        reveal_strlit("ld h l");
        assert(instr_entry_spec(101u8).name@ =~= instr_name(decode_spec(101u8)));
    } else if op == 102 {
        reveal_strlit("ld h (hl)");
        assert(instr_entry_spec(102u8).name@ =~= instr_name(decode_spec(102u8)));
    } else if op == 103 {
        reveal_strlit("ld h a");
        assert(instr_entry_spec(103u8).name@ =~= instr_name(decode_spec(103u8)));
    } else if op == 104 {
        reveal_strlit("ld l b");
        assert(instr_entry_spec(104u8).name@ =~= instr_name(decode_spec(104u8)));
    } else if op == 105 {
        reveal_strlit("ld l c");
        assert(instr_entry_spec(105u8).name@ =~= instr_name(decode_spec(105u8)));
    } else if op == 106 {
        reveal_strlit("ld l d");
        assert(instr_entry_spec(106u8).name@ =~= instr_name(decode_spec(106u8)));
    } else if op == 107 {
        reveal_strlit("ld l e");
        assert(instr_entry_spec(107u8).name@ =~= instr_name(decode_spec(107u8)));
    } else if op == 108 {
        reveal_strlit("ld l h");
        assert(instr_entry_spec(108u8).name@ =~= instr_name(decode_spec(108u8)));
    } else if op == 109 {
        reveal_strlit("ld l l");
        assert(instr_entry_spec(109u8).name@ =~= instr_name(decode_spec(109u8)));
    } else if op == 110 {
        reveal_strlit("ld l (hl)");
        assert(instr_entry_spec(110u8).name@ =~= instr_name(decode_spec(110u8)));
    } else if op == 111 {
        reveal_strlit("ld l a");
        assert(instr_entry_spec(111u8).name@ =~= instr_name(decode_spec(111u8)));
    }
}

proof fn lemma_names_7(op: u8)
    requires
        112 <= op < 128,
    ensures
        instr_entry_spec(op).name@ == instr_name(decode_spec(op)),
{
    if op == 112 {
        reveal_strlit("ld (hl) b");
        assert(instr_entry_spec(112u8).name@ =~= instr_name(decode_spec(112u8)));
    } else if op == 113 {
        reveal_strlit("ld (hl) c");
        assert(instr_entry_spec(113u8).name@ =~= instr_name(decode_spec(113u8)));
    } else if op == 114 {
        reveal_strlit("ld (hl) d");
        assert(instr_entry_spec(114u8).name@ =~= instr_name(decode_spec(114u8)));
    } else if op == 115 {
        reveal_strlit("ld (hl) e");
        assert(instr_entry_spec(115u8).name@ =~= instr_name(decode_spec(115u8)));
    } else if op == 116 {
        reveal_strlit("ld (hl) h");
        assert(instr_entry_spec(116u8).name@ =~= instr_name(decode_spec(116u8)));
    } else if op == 117 {
        reveal_strlit("ld (hl) l");
        assert(instr_entry_spec(117u8).name@ =~= instr_name(decode_spec(117u8)));
    } else if op == 118 {
        reveal_strlit("halt");
        assert(instr_entry_spec(118u8).name@ =~= instr_name(decode_spec(118u8)));
    } else if op == 119 {
        reveal_strlit("ld (hl) a");
        assert(instr_entry_spec(119u8).name@ =~= instr_name(decode_spec(119u8)));
    } else if op == 120 {
        reveal_strlit("ld a b");
        assert(instr_entry_spec(120u8).name@ =~= instr_name(decode_spec(120u8)));
    } else if op == 121 {
        reveal_strlit("ld a c");
        assert(instr_entry_spec(121u8).name@ =~= instr_name(decode_spec(121u8)));
    } else if op == 122 {
        reveal_strlit("ld a d");
        assert(instr_entry_spec(122u8).name@ =~= instr_name(decode_spec(122u8)));
    } else if op == 123 {
        reveal_strlit("ld a e");
        assert(instr_entry_spec(123u8).name@ =~= instr_name(decode_spec(123u8)));
    } else if op == 124 {
        reveal_strlit("ld a h");
        assert(instr_entry_spec(124u8).name@ =~= instr_name(decode_spec(124u8)));
    } else if op == 125 {
        reveal_strlit("ld a l");
        assert(instr_entry_spec(125u8).name@ =~= instr_name(decode_spec(125u8)));
    } else if op == 126 {
        reveal_strlit("ld a (hl)");
        assert(instr_entry_spec(126u8).name@ =~= instr_name(decode_spec(126u8)));
    } else if op == 127 {
        reveal_strlit("ld a a");
        assert(instr_entry_spec(127u8).name@ =~= instr_name(decode_spec(127u8)));
    }
}

proof fn lemma_names_8(op: u8)
    requires
        128 <= op < 144,
    ensures
        instr_entry_spec(op).name@ == instr_name(decode_spec(op)),
{
    if op == 128 {
        reveal_strlit("add a b");
        assert(instr_entry_spec(128u8).name@ =~= instr_name(decode_spec(128u8)));
    } else if op == 129 {
        reveal_strlit("add a c");
        assert(instr_entry_spec(129u8).name@ =~= instr_name(decode_spec(129u8)));
    } else if op == 130 {
        reveal_strlit("add a d");
        assert(instr_entry_spec(130u8).name@ =~= instr_name(decode_spec(130u8)));
    } else if op == 131 {
        reveal_strlit("add a e");
        assert(instr_entry_spec(131u8).name@ =~= instr_name(decode_spec(131u8)));
    } else if op == 132 {
        reveal_strlit("add a h");
        assert(instr_entry_spec(132u8).name@ =~= instr_name(decode_spec(132u8)));
    } else if op == 133 {
        reveal_strlit("add a l");
        assert(instr_entry_spec(133u8).name@ =~= instr_name(decode_spec(133u8)));
    } else if op == 134 {
        reveal_strlit("add a (hl)");
        assert(instr_entry_spec(134u8).name@ =~= instr_name(decode_spec(134u8)));
    } else if op == 135 {
        reveal_strlit("add a a");
        assert(instr_entry_spec(135u8).name@ =~= instr_name(decode_spec(135u8)));
    } else if op == 136 {
        reveal_strlit("adc a b");
        assert(instr_entry_spec(136u8).name@ =~= instr_name(decode_spec(136u8)));
    } else if op == 137 {
        reveal_strlit("adc a c");
        assert(instr_entry_spec(137u8).name@ =~= instr_name(decode_spec(137u8)));
    } else if op == 138 {
        reveal_strlit("adc a d");
        assert(instr_entry_spec(138u8).name@ =~= instr_name(decode_spec(138u8)));
    } else if op == 139 {
        reveal_strlit("adc a e");
        assert(instr_entry_spec(139u8).name@ =~= instr_name(decode_spec(139u8)));
    } else if op == 140 {
        reveal_strlit("adc a h");
        assert(instr_entry_spec(140u8).name@ =~= instr_name(decode_spec(140u8)));
    } else if op == 141 {
        reveal_strlit("adc a l");
        assert(instr_entry_spec(141u8).name@ =~= instr_name(decode_spec(141u8)));
    } else if op == 142 {
        reveal_strlit("adc a (hl)");
        assert(instr_entry_spec(142u8).name@ =~= instr_name(decode_spec(142u8)));
    } else if op == 143 {
        reveal_strlit("adc a a");
        assert(instr_entry_spec(143u8).name@ =~= instr_name(decode_spec(143u8)));
    }
}

proof fn lemma_names_9(op: u8)
    requires
        144 <= op < 160,
    ensures
        instr_entry_spec(op).name@ == instr_name(decode_spec(op)),
{
    if op == 144 {
        reveal_strlit("sub b");
        assert(instr_entry_spec(144u8).name@ =~= instr_name(decode_spec(144u8)));
    } else if op == 145 {
        reveal_strlit("sub c");
        assert(instr_entry_spec(145u8).name@ =~= instr_name(decode_spec(145u8)));
    } else if op == 146 {
        reveal_strlit("sub d");
        assert(instr_entry_spec(146u8).name@ =~= instr_name(decode_spec(146u8)));
    } else if op == 147 {
        reveal_strlit("sub e");
        assert(instr_entry_spec(147u8).name@ =~= instr_name(decode_spec(147u8)));
    } else if op == 148 {
        reveal_strlit("sub h");
        assert(instr_entry_spec(148u8).name@ =~= instr_name(decode_spec(148u8)));
    } else if op == 149 {
        reveal_strlit("sub l");
        assert(instr_entry_spec(149u8).name@ =~= instr_name(decode_spec(149u8)));
    } else if op == 150 {
        reveal_strlit("sub (hl)");
        assert(instr_entry_spec(150u8).name@ =~= instr_name(decode_spec(150u8)));
    } else if op == 151 {
        reveal_strlit("sub a");
        assert(instr_entry_spec(151u8).name@ =~= instr_name(decode_spec(151u8)));
    } else if op == 152 {
        reveal_strlit("sbc a b");
        assert(instr_entry_spec(152u8).name@ =~= instr_name(decode_spec(152u8)));
    } else if op == 153 {
        reveal_strlit("sbc a c");
        assert(instr_entry_spec(153u8).name@ =~= instr_name(decode_spec(153u8)));
    } else if op == 154 {
        reveal_strlit("sbc a d");
        assert(instr_entry_spec(154u8).name@ =~= instr_name(decode_spec(154u8)));
    } else if op == 155 {
        reveal_strlit("sbc a e");
        assert(instr_entry_spec(155u8).name@ =~= instr_name(decode_spec(155u8)));
    } else if op == 156 {
        reveal_strlit("sbc a h");
        assert(instr_entry_spec(156u8).name@ =~= instr_name(decode_spec(156u8)));
    } else if op == 157 {
        reveal_strlit("sbc a l");
        assert(instr_entry_spec(157u8).name@ =~= instr_name(decode_spec(157u8)));
    } else if op == 158 {
        reveal_strlit("sbc a (hl)");
        assert(instr_entry_spec(158u8).name@ =~= instr_name(decode_spec(158u8)));
    } else if op == 159 {
        reveal_strlit("sbc a a");
        assert(instr_entry_spec(159u8).name@ =~= instr_name(decode_spec(159u8)));
    }
}

proof fn lemma_names_a(op: u8)
    requires
        160 <= op < 176,
    ensures
        instr_entry_spec(op).name@ == instr_name(decode_spec(op)),
{
    if op == 160 {
        reveal_strlit("and b");
        assert(instr_entry_spec(160u8).name@ =~= instr_name(decode_spec(160u8)));
    } else if op == 161 {
        reveal_strlit("and c");
        assert(instr_entry_spec(161u8).name@ =~= instr_name(decode_spec(161u8)));
    } else if op == 162 {
        reveal_strlit("and d");
        assert(instr_entry_spec(162u8).name@ =~= instr_name(decode_spec(162u8)));
    } else if op == 163 {
        reveal_strlit("and e");
        assert(instr_entry_spec(163u8).name@ =~= instr_name(decode_spec(163u8)));
    } else if op == 164 {
        reveal_strlit("and h");
        assert(instr_entry_spec(164u8).name@ =~= instr_name(decode_spec(164u8)));
    } else if op == 165 {
        reveal_strlit("and l");
        assert(instr_entry_spec(165u8).name@ =~= instr_name(decode_spec(165u8)));
    } else if op == 166 {
        reveal_strlit("and (hl)");
        assert(instr_entry_spec(166u8).name@ =~= instr_name(decode_spec(166u8)));
    } else if op == 167 {
        reveal_strlit("and a");
        assert(instr_entry_spec(167u8).name@ =~= instr_name(decode_spec(167u8)));
    } else if op == 168 {
        reveal_strlit("xor b");
        assert(instr_entry_spec(168u8).name@ =~= instr_name(decode_spec(168u8)));
    } else if op == 169 {
        reveal_strlit("xor c");
        assert(instr_entry_spec(169u8).name@ =~= instr_name(decode_spec(169u8)));
    } else if op == 170 {
        reveal_strlit("xor d");
        assert(instr_entry_spec(170u8).name@ =~= instr_name(decode_spec(170u8)));
    } else if op == 171 {
        reveal_strlit("xor e");
        assert(instr_entry_spec(171u8).name@ =~= instr_name(decode_spec(171u8)));
    } else if op == 172 {
        reveal_strlit("xor h");
        assert(instr_entry_spec(172u8).name@ =~= instr_name(decode_spec(172u8)));
    } else if op == 173 {
        reveal_strlit("xor l");
        assert(instr_entry_spec(173u8).name@ =~= instr_name(decode_spec(173u8)));
    } else if op == 174 {
        reveal_strlit("xor (hl)");
        assert(instr_entry_spec(174u8).name@ =~= instr_name(decode_spec(174u8)));
    } else if op == 175 {
        reveal_strlit("xor a");
        assert(instr_entry_spec(175u8).name@ =~= instr_name(decode_spec(175u8)));
    }
}

proof fn lemma_names_b(op: u8)
    requires
        176 <= op < 192,
    ensures
        instr_entry_spec(op).name@ == instr_name(decode_spec(op)),
{
    if op == 176 {
        reveal_strlit("or b");
        assert(instr_entry_spec(176u8).name@ =~= instr_name(decode_spec(176u8)));
    } else if op == 177 {
        reveal_strlit("or c");
        assert(instr_entry_spec(177u8).name@ =~= instr_name(decode_spec(177u8)));
    } else if op == 178 {
        reveal_strlit("or d");
        assert(instr_entry_spec(178u8).name@ =~= instr_name(decode_spec(178u8)));
    } else if op == 179 {
        reveal_strlit("or e");
        assert(instr_entry_spec(179u8).name@ =~= instr_name(decode_spec(179u8)));
    } else if op == 180 {
        reveal_strlit("or h");
        assert(instr_entry_spec(180u8).name@ =~= instr_name(decode_spec(180u8)));
    } else if op == 181 {
        reveal_strlit("or l");
        assert(instr_entry_spec(181u8).name@ =~= instr_name(decode_spec(181u8)));
    } else if op == 182 {
        reveal_strlit("or (hl)");
        assert(instr_entry_spec(182u8).name@ =~= instr_name(decode_spec(182u8)));
    } else if op == 183 {
        reveal_strlit("or a");
        assert(instr_entry_spec(183u8).name@ =~= instr_name(decode_spec(183u8)));
    } else if op == 184 {
        reveal_strlit("cp b");
        assert(instr_entry_spec(184u8).name@ =~= instr_name(decode_spec(184u8)));
    } else if op == 185 {
        reveal_strlit("cp c");
        assert(instr_entry_spec(185u8).name@ =~= instr_name(decode_spec(185u8)));
    } else if op == 186 {
        reveal_strlit("cp d");
        assert(instr_entry_spec(186u8).name@ =~= instr_name(decode_spec(186u8)));
    } else if op == 187 {
        reveal_strlit("cp e");
        assert(instr_entry_spec(187u8).name@ =~= instr_name(decode_spec(187u8)));
    } else if op == 188 {
        reveal_strlit("cp h");
        assert(instr_entry_spec(188u8).name@ =~= instr_name(decode_spec(188u8)));
    } else if op == 189 {
        reveal_strlit("cp l");
        assert(instr_entry_spec(189u8).name@ =~= instr_name(decode_spec(189u8)));
    } else if op == 190 {
        reveal_strlit("cp (hl)");
        assert(instr_entry_spec(190u8).name@ =~= instr_name(decode_spec(190u8)));
    } else if op == 191 {
        reveal_strlit("cp a");
        assert(instr_entry_spec(191u8).name@ =~= instr_name(decode_spec(191u8)));
    }
}

proof fn lemma_names_c(op: u8)
    requires
        192 <= op < 208,
        op != 192,
    ensures
        instr_entry_spec(op).name@ == instr_name(decode_spec(op)),
{
    if op == 193 {
        reveal_strlit("pop bc");
        assert(instr_entry_spec(193u8).name@ =~= instr_name(decode_spec(193u8)));
    } else if op == 194 {
        reveal_strlit("jp nz a16");
        assert(instr_entry_spec(194u8).name@ =~= instr_name(decode_spec(194u8)));
    } else if op == 195 {
        reveal_strlit("jp a16");
        assert(instr_entry_spec(195u8).name@ =~= instr_name(decode_spec(195u8)));
    } else if op == 196 {
        reveal_strlit("call nz a16");
        assert(instr_entry_spec(196u8).name@ =~= instr_name(decode_spec(196u8)));
    } else if op == 197 {
        reveal_strlit("push bc");
        assert(instr_entry_spec(197u8).name@ =~= instr_name(decode_spec(197u8)));
    } else if op == 198 {
        reveal_strlit("add a d8");
        assert(instr_entry_spec(198u8).name@ =~= instr_name(decode_spec(198u8)));
    } else if op == 199 {
        reveal_strlit("rst 00h");
        assert(instr_entry_spec(199u8).name@ =~= instr_name(decode_spec(199u8)));
    } else if op == 200 {
        reveal_strlit("ret z");
        assert(instr_entry_spec(200u8).name@ =~= instr_name(decode_spec(200u8)));
    } else if op == 201 {
        reveal_strlit("ret");
        assert(instr_entry_spec(201u8).name@ =~= instr_name(decode_spec(201u8)));
    } else if op == 202 {
        reveal_strlit("jp z a16");
        assert(instr_entry_spec(202u8).name@ =~= instr_name(decode_spec(202u8)));
    } else if op == 203 {
        reveal_strlit("prefix_cb");
        assert(instr_entry_spec(203u8).name@ =~= instr_name(decode_spec(203u8)));
    } else if op == 204 {
        reveal_strlit("call z a16");
        assert(instr_entry_spec(204u8).name@ =~= instr_name(decode_spec(204u8)));
    } else if op == 205 {
        reveal_strlit("call a16");
        assert(instr_entry_spec(205u8).name@ =~= instr_name(decode_spec(205u8)));
    } else if op == 206 {
        reveal_strlit("adc a d8");
        assert(instr_entry_spec(206u8).name@ =~= instr_name(decode_spec(206u8)));
    } else if op == 207 {
        reveal_strlit("rst 08h");
        assert(instr_entry_spec(207u8).name@ =~= instr_name(decode_spec(207u8)));
    }
}

proof fn lemma_names_d(op: u8)
    requires
        208 <= op < 224,
    ensures
        instr_entry_spec(op).name@ == instr_name(decode_spec(op)),
{
    if op == 208 {
        reveal_strlit("ret nc");
        assert(instr_entry_spec(208u8).name@ =~= instr_name(decode_spec(208u8)));
    } else if op == 209 {
        reveal_strlit("pop de");
        assert(instr_entry_spec(209u8).name@ =~= instr_name(decode_spec(209u8)));
    } else if op == 210 {
        reveal_strlit("jp nc a16");
        assert(instr_entry_spec(210u8).name@ =~= instr_name(decode_spec(210u8)));
    } else if op == 211 {
        reveal_strlit("???");
        assert(instr_entry_spec(211u8).name@ =~= instr_name(decode_spec(211u8)));
    } else if op == 212 {
        reveal_strlit("call nc a16");
        assert(instr_entry_spec(212u8).name@ =~= instr_name(decode_spec(212u8)));
    } else if op == 213 {
        reveal_strlit("push de");
        assert(instr_entry_spec(213u8).name@ =~= instr_name(decode_spec(213u8)));
    } else if op == 214 {
        reveal_strlit("sub d8");
        assert(instr_entry_spec(214u8).name@ =~= instr_name(decode_spec(214u8)));
    } else if op == 215 {
        reveal_strlit("rst 10h");
        assert(instr_entry_spec(215u8).name@ =~= instr_name(decode_spec(215u8)));
    } else if op == 216 {
        reveal_strlit("ret c");
        assert(instr_entry_spec(216u8).name@ =~= instr_name(decode_spec(216u8)));
    } else if op == 217 {
        reveal_strlit("reti");
        assert(instr_entry_spec(217u8).name@ =~= instr_name(decode_spec(217u8)));
    } else if op == 218 {
        reveal_strlit("jp c a16");
        assert(instr_entry_spec(218u8).name@ =~= instr_name(decode_spec(218u8)));
    } else if op == 219 {
        reveal_strlit("???");
        assert(instr_entry_spec(219u8).name@ =~= instr_name(decode_spec(219u8)));
    } else if op == 220 {
        reveal_strlit("call c a16");
        assert(instr_entry_spec(220u8).name@ =~= instr_name(decode_spec(220u8)));
    } else if op == 221 {
        reveal_strlit("???");
        assert(instr_entry_spec(221u8).name@ =~= instr_name(decode_spec(221u8)));
    } else if op == 222 {
        reveal_strlit("sbc a d8");
        assert(instr_entry_spec(222u8).name@ =~= instr_name(decode_spec(222u8)));
    } else if op == 223 {
        reveal_strlit("rst 18h");
        assert(instr_entry_spec(223u8).name@ =~= instr_name(decode_spec(223u8)));
    }
}

proof fn lemma_names_e(op: u8)
    requires
        224 <= op < 240,
    ensures
        instr_entry_spec(op).name@ == instr_name(decode_spec(op)),
{
    if op == 224 {
        reveal_strlit("ldh (a8) a");
        assert(instr_entry_spec(224u8).name@ =~= instr_name(decode_spec(224u8)));
    } else if op == 225 {
        reveal_strlit("pop hl");
        assert(instr_entry_spec(225u8).name@ =~= instr_name(decode_spec(225u8)));
    } else if op == 226 {
        reveal_strlit("ld (c) a");
        assert(instr_entry_spec(226u8).name@ =~= instr_name(decode_spec(226u8)));
    } else if op == 227 {
        reveal_strlit("???");
        assert(instr_entry_spec(227u8).name@ =~= instr_name(decode_spec(227u8)));
    } else if op == 228 {
        reveal_strlit("???");
        assert(instr_entry_spec(228u8).name@ =~= instr_name(decode_spec(228u8)));
    } else if op == 229 {
        reveal_strlit("push hl");
        assert(instr_entry_spec(229u8).name@ =~= instr_name(decode_spec(229u8)));
    } else if op == 230 {
        reveal_strlit("and d8");
        assert(instr_entry_spec(230u8).name@ =~= instr_name(decode_spec(230u8)));
    } else if op == 231 {
        reveal_strlit("rst 20h");
        assert(instr_entry_spec(231u8).name@ =~= instr_name(decode_spec(231u8)));
    } else if op == 232 {
        reveal_strlit("add sp r8");
        assert(instr_entry_spec(232u8).name@ =~= instr_name(decode_spec(232u8)));
    } else if op == 233 {
        reveal_strlit("jp (hl)");
        assert(instr_entry_spec(233u8).name@ =~= instr_name(decode_spec(233u8)));
    } else if op == 234 {
        reveal_strlit("ld (a16) a");
        assert(instr_entry_spec(234u8).name@ =~= instr_name(decode_spec(234u8)));
    } else if op == 235 {
        reveal_strlit("???");
        assert(instr_entry_spec(235u8).name@ =~= instr_name(decode_spec(235u8)));
    } else if op == 236 {
        reveal_strlit("???");
        assert(instr_entry_spec(236u8).name@ =~= instr_name(decode_spec(236u8)));
    } else if op == 237 {
        reveal_strlit("???");
        assert(instr_entry_spec(237u8).name@ =~= instr_name(decode_spec(237u8)));
    } else if op == 238 {
        reveal_strlit("xor d8");
        assert(instr_entry_spec(238u8).name@ =~= instr_name(decode_spec(238u8)));
    } else if op == 239 {
        reveal_strlit("rst 28h");
        assert(instr_entry_spec(239u8).name@ =~= instr_name(decode_spec(239u8)));
    }
}

proof fn lemma_names_f(op: u8)
    requires
        240 <= op < 256,
    ensures
        instr_entry_spec(op).name@ == instr_name(decode_spec(op)),
{
    if op == 240 {
        reveal_strlit("ldh a (a8)");
        assert(instr_entry_spec(240u8).name@ =~= instr_name(decode_spec(240u8)));
    } else if op == 241 {
        reveal_strlit("pop af");
        assert(instr_entry_spec(241u8).name@ =~= instr_name(decode_spec(241u8)));
    } else if op == 242 {
        reveal_strlit("ld a (c)");
        assert(instr_entry_spec(242u8).name@ =~= instr_name(decode_spec(242u8)));
    } else if op == 243 {
        reveal_strlit("di");
        assert(instr_entry_spec(243u8).name@ =~= instr_name(decode_spec(243u8)));
    } else if op == 244 {
        reveal_strlit("???");
        assert(instr_entry_spec(244u8).name@ =~= instr_name(decode_spec(244u8)));
    } else if op == 245 {
        reveal_strlit("push af");
        assert(instr_entry_spec(245u8).name@ =~= instr_name(decode_spec(245u8)));
    } else if op == 246 {
        reveal_strlit("or d8");
        assert(instr_entry_spec(246u8).name@ =~= instr_name(decode_spec(246u8)));
    } else if op == 247 {
        reveal_strlit("rst 30h");
        assert(instr_entry_spec(247u8).name@ =~= instr_name(decode_spec(247u8)));
    } else if op == 248 {
        reveal_strlit("ld hl sp+r8");
        assert(instr_entry_spec(248u8).name@ =~= instr_name(decode_spec(248u8)));
    } else if op == 249 {
        reveal_strlit("ld sp hl");
        assert(instr_entry_spec(249u8).name@ =~= instr_name(decode_spec(249u8)));
    } else if op == 250 {
        reveal_strlit("ld a (a16)");
        assert(instr_entry_spec(250u8).name@ =~= instr_name(decode_spec(250u8)));
    } else if op == 251 {
        reveal_strlit("ei");
        assert(instr_entry_spec(251u8).name@ =~= instr_name(decode_spec(251u8)));
    } else if op == 252 {
        reveal_strlit("???");
        assert(instr_entry_spec(252u8).name@ =~= instr_name(decode_spec(252u8)));
    } else if op == 253 {
        reveal_strlit("???");
        assert(instr_entry_spec(253u8).name@ =~= instr_name(decode_spec(253u8)));
    } else if op == 254 {
        reveal_strlit("cp d8");
        assert(instr_entry_spec(254u8).name@ =~= instr_name(decode_spec(254u8)));
    } else if op == 255 {
        reveal_strlit("rst 38h");
        assert(instr_entry_spec(255u8).name@ =~= instr_name(decode_spec(255u8)));
    }
}

proof fn lemma_cb_names_0(op: u8)
    requires
        0 <= op < 16,
    ensures
        instr_cb_entry_spec(op).name@ == cb_name(decode_cb_spec(op)),
{
    if op == 0 {
        reveal_strlit("rlc b");
        assert(instr_cb_entry_spec(0u8).name@ =~= cb_name(decode_cb_spec(0u8)));
    } else if op == 1 {
        reveal_strlit("rlc c");
        assert(instr_cb_entry_spec(1u8).name@ =~= cb_name(decode_cb_spec(1u8)));
    } else if op == 2 {
        reveal_strlit("rlc d");
        assert(instr_cb_entry_spec(2u8).name@ =~= cb_name(decode_cb_spec(2u8)));
    } else if op == 3 {
        reveal_strlit("rlc e");
        assert(instr_cb_entry_spec(3u8).name@ =~= cb_name(decode_cb_spec(3u8)));
    } else if op == 4 {
        reveal_strlit("rlc h");
        assert(instr_cb_entry_spec(4u8).name@ =~= cb_name(decode_cb_spec(4u8)));
    } else if op == 5 {
        reveal_strlit("rlc l");
        assert(instr_cb_entry_spec(5u8).name@ =~= cb_name(decode_cb_spec(5u8)));
    } else if op == 6 {
        reveal_strlit("rlc (hl)");
        assert(instr_cb_entry_spec(6u8).name@ =~= cb_name(decode_cb_spec(6u8)));
    } else if op == 7 {
        reveal_strlit("rlc a");
        assert(instr_cb_entry_spec(7u8).name@ =~= cb_name(decode_cb_spec(7u8)));
    } else if op == 8 {
        reveal_strlit("rrc b");
        assert(instr_cb_entry_spec(8u8).name@ =~= cb_name(decode_cb_spec(8u8)));
    } else if op == 9 {
        reveal_strlit("rrc c");
        assert(instr_cb_entry_spec(9u8).name@ =~= cb_name(decode_cb_spec(9u8)));
    } else if op == 10 {
        reveal_strlit("rrc d");
        assert(instr_cb_entry_spec(10u8).name@ =~= cb_name(decode_cb_spec(10u8)));
    } else if op == 11 {
        reveal_strlit("rrc e");
        assert(instr_cb_entry_spec(11u8).name@ =~= cb_name(decode_cb_spec(11u8)));
    } else if op == 12 {
        reveal_strlit("rrc h");
        assert(instr_cb_entry_spec(12u8).name@ =~= cb_name(decode_cb_spec(12u8)));
    } else if op == 13 {
        reveal_strlit("rrc l");
        assert(instr_cb_entry_spec(13u8).name@ =~= cb_name(decode_cb_spec(13u8)));
    } else if op == 14 {
        reveal_strlit("rrc (hl)");
        assert(instr_cb_entry_spec(14u8).name@ =~= cb_name(decode_cb_spec(14u8)));
    } else if op == 15 {
        reveal_strlit("rrc a");
        assert(instr_cb_entry_spec(15u8).name@ =~= cb_name(decode_cb_spec(15u8)));
    }
}

proof fn lemma_cb_names_1(op: u8)
    requires
        16 <= op < 32,
    ensures
        instr_cb_entry_spec(op).name@ == cb_name(decode_cb_spec(op)),
{
    if op == 16 {
        reveal_strlit("rl b");
        assert(instr_cb_entry_spec(16u8).name@ =~= cb_name(decode_cb_spec(16u8)));
    } else if op == 17 {
        reveal_strlit("rl c");
        assert(instr_cb_entry_spec(17u8).name@ =~= cb_name(decode_cb_spec(17u8)));
    } else if op == 18 {
        reveal_strlit("rl d");
        assert(instr_cb_entry_spec(18u8).name@ =~= cb_name(decode_cb_spec(18u8)));
    } else if op == 19 {
        reveal_strlit("rl e");
        assert(instr_cb_entry_spec(19u8).name@ =~= cb_name(decode_cb_spec(19u8)));
    } else if op == 20 {
        reveal_strlit("rl h");
        assert(instr_cb_entry_spec(20u8).name@ =~= cb_name(decode_cb_spec(20u8)));
    } else if op == 21 {
        reveal_strlit("rl l");
        assert(instr_cb_entry_spec(21u8).name@ =~= cb_name(decode_cb_spec(21u8)));
    } else if op == 22 {
        reveal_strlit("rl (hl)");
        assert(instr_cb_entry_spec(22u8).name@ =~= cb_name(decode_cb_spec(22u8)));
    } else if op == 23 {
        reveal_strlit("rl a");
        assert(instr_cb_entry_spec(23u8).name@ =~= cb_name(decode_cb_spec(23u8)));
    } else if op == 24 {
        reveal_strlit("rr b");
        assert(instr_cb_entry_spec(24u8).name@ =~= cb_name(decode_cb_spec(24u8)));
    } else if op == 25 {
        reveal_strlit("rr c");
        assert(instr_cb_entry_spec(25u8).name@ =~= cb_name(decode_cb_spec(25u8)));
    } else if op == 26 {
        reveal_strlit("rr d");
        assert(instr_cb_entry_spec(26u8).name@ =~= cb_name(decode_cb_spec(26u8)));
    } else if op == 27 {
        reveal_strlit("rr e");
        assert(instr_cb_entry_spec(27u8).name@ =~= cb_name(decode_cb_spec(27u8)));
    } else if op == 28 {
        reveal_strlit("rr h");
        assert(instr_cb_entry_spec(28u8).name@ =~= cb_name(decode_cb_spec(28u8)));
    } else if op == 29 {
        reveal_strlit("rr l");
        assert(instr_cb_entry_spec(29u8).name@ =~= cb_name(decode_cb_spec(29u8)));
    } else if op == 30 {
        reveal_strlit("rr (hl)");
        assert(instr_cb_entry_spec(30u8).name@ =~= cb_name(decode_cb_spec(30u8)));
    } else if op == 31 {
        reveal_strlit("rr a");
        assert(instr_cb_entry_spec(31u8).name@ =~= cb_name(decode_cb_spec(31u8)));
    }
}

proof fn lemma_cb_names_2(op: u8)
    requires
        32 <= op < 48,
    ensures
        instr_cb_entry_spec(op).name@ == cb_name(decode_cb_spec(op)),
{
    if op == 32 {
        reveal_strlit("sla b");
        assert(instr_cb_entry_spec(32u8).name@ =~= cb_name(decode_cb_spec(32u8)));
    } else if op == 33 {
        reveal_strlit("sla c");
        assert(instr_cb_entry_spec(33u8).name@ =~= cb_name(decode_cb_spec(33u8)));
    } else if op == 34 {
        reveal_strlit("sla d");
        assert(instr_cb_entry_spec(34u8).name@ =~= cb_name(decode_cb_spec(34u8)));
    } else if op == 35 {
        reveal_strlit("sla e");
        assert(instr_cb_entry_spec(35u8).name@ =~= cb_name(decode_cb_spec(35u8)));
    } else if op == 36 {
        reveal_strlit("sla h");
        assert(instr_cb_entry_spec(36u8).name@ =~= cb_name(decode_cb_spec(36u8)));
    } else if op == 37 {
        reveal_strlit("sla l");
        assert(instr_cb_entry_spec(37u8).name@ =~= cb_name(decode_cb_spec(37u8)));
    } else if op == 38 {
        reveal_strlit("sla (hl)");
        assert(instr_cb_entry_spec(38u8).name@ =~= cb_name(decode_cb_spec(38u8)));
    } else if op == 39 {
        reveal_strlit("sla a");
        assert(instr_cb_entry_spec(39u8).name@ =~= cb_name(decode_cb_spec(39u8)));
    } else if op == 40 {
        reveal_strlit("sra b");
        assert(instr_cb_entry_spec(40u8).name@ =~= cb_name(decode_cb_spec(40u8)));
    } else if op == 41 {
        reveal_strlit("sra c");
        assert(instr_cb_entry_spec(41u8).name@ =~= cb_name(decode_cb_spec(41u8)));
    } else if op == 42 {
        reveal_strlit("sra d");
        assert(instr_cb_entry_spec(42u8).name@ =~= cb_name(decode_cb_spec(42u8)));
    } else if op == 43 {
        reveal_strlit("sra e");
        assert(instr_cb_entry_spec(43u8).name@ =~= cb_name(decode_cb_spec(43u8)));
    } else if op == 44 {
        reveal_strlit("sra h");
        assert(instr_cb_entry_spec(44u8).name@ =~= cb_name(decode_cb_spec(44u8)));
    } else if op == 45 {
        reveal_strlit("sra l");
        assert(instr_cb_entry_spec(45u8).name@ =~= cb_name(decode_cb_spec(45u8)));
    } else if op == 46 {
        reveal_strlit("sra (hl)");
        assert(instr_cb_entry_spec(46u8).name@ =~= cb_name(decode_cb_spec(46u8)));
    } else if op == 47 {
        reveal_strlit("sra a");
        assert(instr_cb_entry_spec(47u8).name@ =~= cb_name(decode_cb_spec(47u8)));
    }
}

proof fn lemma_cb_names_3(op: u8)
    requires
        48 <= op < 64,
    ensures
        instr_cb_entry_spec(op).name@ == cb_name(decode_cb_spec(op)),
{
    if op == 48 {
        reveal_strlit("swap b");
        assert(instr_cb_entry_spec(48u8).name@ =~= cb_name(decode_cb_spec(48u8)));
    } else if op == 49 {
        reveal_strlit("swap c");
        assert(instr_cb_entry_spec(49u8).name@ =~= cb_name(decode_cb_spec(49u8)));
    } else if op == 50 {
        reveal_strlit("swap d");
        assert(instr_cb_entry_spec(50u8).name@ =~= cb_name(decode_cb_spec(50u8)));
    } else if op == 51 {
        reveal_strlit("swap e");
        assert(instr_cb_entry_spec(51u8).name@ =~= cb_name(decode_cb_spec(51u8)));
    } else if op == 52 {
        reveal_strlit("swap h");
        assert(instr_cb_entry_spec(52u8).name@ =~= cb_name(decode_cb_spec(52u8)));
    } else if op == 53 {
        reveal_strlit("swap l");
        assert(instr_cb_entry_spec(53u8).name@ =~= cb_name(decode_cb_spec(53u8)));
    } else if op == 54 {
        reveal_strlit("swap (hl)");
        assert(instr_cb_entry_spec(54u8).name@ =~= cb_name(decode_cb_spec(54u8)));
    } else if op == 55 {
        reveal_strlit("swap a");
        assert(instr_cb_entry_spec(55u8).name@ =~= cb_name(decode_cb_spec(55u8)));
    } else if op == 56 {
        reveal_strlit("srl b");
        assert(instr_cb_entry_spec(56u8).name@ =~= cb_name(decode_cb_spec(56u8)));
    } else if op == 57 {
        reveal_strlit("srl c");
        assert(instr_cb_entry_spec(57u8).name@ =~= cb_name(decode_cb_spec(57u8)));
    } else if op == 58 {
        reveal_strlit("srl d");
        assert(instr_cb_entry_spec(58u8).name@ =~= cb_name(decode_cb_spec(58u8)));
    } else if op == 59 {
        reveal_strlit("srl e");
        assert(instr_cb_entry_spec(59u8).name@ =~= cb_name(decode_cb_spec(59u8)));
    } else if op == 60 {
        reveal_strlit("srl h");
        assert(instr_cb_entry_spec(60u8).name@ =~= cb_name(decode_cb_spec(60u8)));
    } else if op == 61 {
        reveal_strlit("srl l");
        assert(instr_cb_entry_spec(61u8).name@ =~= cb_name(decode_cb_spec(61u8)));
    } else if op == 62 {
        reveal_strlit("srl (hl)");
        assert(instr_cb_entry_spec(62u8).name@ =~= cb_name(decode_cb_spec(62u8)));
    } else if op == 63 {
        reveal_strlit("srl a");
        assert(instr_cb_entry_spec(63u8).name@ =~= cb_name(decode_cb_spec(63u8)));
    }
}

proof fn lemma_cb_names_4(op: u8)
    requires
        64 <= op < 80,
    ensures
        instr_cb_entry_spec(op).name@ == cb_name(decode_cb_spec(op)),
{
    if op == 64 {
        reveal_strlit("bit 0 b");
        assert(instr_cb_entry_spec(64u8).name@ =~= cb_name(decode_cb_spec(64u8)));
    } else if op == 65 {
        reveal_strlit("bit 0 c");
        assert(instr_cb_entry_spec(65u8).name@ =~= cb_name(decode_cb_spec(65u8)));
    } else if op == 66 {
        reveal_strlit("bit 0 d");
        assert(instr_cb_entry_spec(66u8).name@ =~= cb_name(decode_cb_spec(66u8)));
    } else if op == 67 {
        reveal_strlit("bit 0 e");
        assert(instr_cb_entry_spec(67u8).name@ =~= cb_name(decode_cb_spec(67u8)));
    } else if op == 68 {
        reveal_strlit("bit 0 h");
        assert(instr_cb_entry_spec(68u8).name@ =~= cb_name(decode_cb_spec(68u8)));
    } else if op == 69 {
        reveal_strlit("bit 0 l");
        assert(instr_cb_entry_spec(69u8).name@ =~= cb_name(decode_cb_spec(69u8)));
    } else if op == 70 {
        reveal_strlit("bit 0 (hl)");
        assert(instr_cb_entry_spec(70u8).name@ =~= cb_name(decode_cb_spec(70u8)));
    } else if op == 71 {
        reveal_strlit("bit 0 a");
        assert(instr_cb_entry_spec(71u8).name@ =~= cb_name(decode_cb_spec(71u8)));
    } else if op == 72 {
        reveal_strlit("bit 1 b");
        assert(instr_cb_entry_spec(72u8).name@ =~= cb_name(decode_cb_spec(72u8)));
    } else if op == 73 {
        reveal_strlit("bit 1 c");
        assert(instr_cb_entry_spec(73u8).name@ =~= cb_name(decode_cb_spec(73u8)));
    } else if op == 74 {
        reveal_strlit("bit 1 d");
        assert(instr_cb_entry_spec(74u8).name@ =~= cb_name(decode_cb_spec(74u8)));
    } else if op == 75 {
        reveal_strlit("bit 1 e");
        assert(instr_cb_entry_spec(75u8).name@ =~= cb_name(decode_cb_spec(75u8)));
    } else if op == 76 {
        reveal_strlit("bit 1 h");
        assert(instr_cb_entry_spec(76u8).name@ =~= cb_name(decode_cb_spec(76u8)));
    } else if op == 77 {
        reveal_strlit("bit 1 l");
        assert(instr_cb_entry_spec(77u8).name@ =~= cb_name(decode_cb_spec(77u8)));
    } else if op == 78 {
        reveal_strlit("bit 1 (hl)");
        assert(instr_cb_entry_spec(78u8).name@ =~= cb_name(decode_cb_spec(78u8)));
    } else if op == 79 {
        reveal_strlit("bit 1 a");
        assert(instr_cb_entry_spec(79u8).name@ =~= cb_name(decode_cb_spec(79u8)));
    }
}

proof fn lemma_cb_names_5(op: u8)
    requires
        80 <= op < 96,
    ensures
        instr_cb_entry_spec(op).name@ == cb_name(decode_cb_spec(op)),
{
    if op == 80 {
        reveal_strlit("bit 2 b");
        assert(instr_cb_entry_spec(80u8).name@ =~= cb_name(decode_cb_spec(80u8)));
    } else if op == 81 {
        reveal_strlit("bit 2 c");
        assert(instr_cb_entry_spec(81u8).name@ =~= cb_name(decode_cb_spec(81u8)));
    } else if op == 82 {
        reveal_strlit("bit 2 d");
        assert(instr_cb_entry_spec(82u8).name@ =~= cb_name(decode_cb_spec(82u8)));
    } else if op == 83 {
        reveal_strlit("bit 2 e");
        assert(instr_cb_entry_spec(83u8).name@ =~= cb_name(decode_cb_spec(83u8)));
    } else if op == 84 {
        reveal_strlit("bit 2 h");
        assert(instr_cb_entry_spec(84u8).name@ =~= cb_name(decode_cb_spec(84u8)));
    } else if op == 85 {
        reveal_strlit("bit 2 l");
        assert(instr_cb_entry_spec(85u8).name@ =~= cb_name(decode_cb_spec(85u8)));
    } else if op == 86 {
        reveal_strlit("bit 2 (hl)");
        assert(instr_cb_entry_spec(86u8).name@ =~= cb_name(decode_cb_spec(86u8)));
    } else if op == 87 {
        reveal_strlit("bit 2 a");
        assert(instr_cb_entry_spec(87u8).name@ =~= cb_name(decode_cb_spec(87u8)));
    } else if op == 88 {
        reveal_strlit("bit 3 b");
        assert(instr_cb_entry_spec(88u8).name@ =~= cb_name(decode_cb_spec(88u8)));
    } else if op == 89 {
        reveal_strlit("bit 3 c");
        assert(instr_cb_entry_spec(89u8).name@ =~= cb_name(decode_cb_spec(89u8)));
    } else if op == 90 {
        reveal_strlit("bit 3 d");
        assert(instr_cb_entry_spec(90u8).name@ =~= cb_name(decode_cb_spec(90u8)));
    } else if op == 91 {
        reveal_strlit("bit 3 e");
        assert(instr_cb_entry_spec(91u8).name@ =~= cb_name(decode_cb_spec(91u8)));
    } else if op == 92 {
        reveal_strlit("bit 3 h");
        assert(instr_cb_entry_spec(92u8).name@ =~= cb_name(decode_cb_spec(92u8)));
    } else if op == 93 {
        reveal_strlit("bit 3 l");
        assert(instr_cb_entry_spec(93u8).name@ =~= cb_name(decode_cb_spec(93u8)));
    } else if op == 94 {
        reveal_strlit("bit 3 (hl)");
        assert(instr_cb_entry_spec(94u8).name@ =~= cb_name(decode_cb_spec(94u8)));
    } else if op == 95 {
        reveal_strlit("bit 3 a");
        assert(instr_cb_entry_spec(95u8).name@ =~= cb_name(decode_cb_spec(95u8)));
    }
}

proof fn lemma_cb_names_6(op: u8)
    requires
        96 <= op < 112,
    ensures
        instr_cb_entry_spec(op).name@ == cb_name(decode_cb_spec(op)),
{
    if op == 96 {
        reveal_strlit("bit 4 b");
        assert(instr_cb_entry_spec(96u8).name@ =~= cb_name(decode_cb_spec(96u8)));
    } else if op == 97 {
        reveal_strlit("bit 4 c");
        assert(instr_cb_entry_spec(97u8).name@ =~= cb_name(decode_cb_spec(97u8)));
    } else if op == 98 {
        reveal_strlit("bit 4 d");
        assert(instr_cb_entry_spec(98u8).name@ =~= cb_name(decode_cb_spec(98u8)));
    } else if op == 99 {
        reveal_strlit("bit 4 e");
        assert(instr_cb_entry_spec(99u8).name@ =~= cb_name(decode_cb_spec(99u8)));
    } else if op == 100 {
        reveal_strlit("bit 4 h");
        assert(instr_cb_entry_spec(100u8).name@ =~= cb_name(decode_cb_spec(100u8)));
    } else if op == 101 {
        reveal_strlit("bit 4 l");
        assert(instr_cb_entry_spec(101u8).name@ =~= cb_name(decode_cb_spec(101u8)));
    } else if op == 102 {
        reveal_strlit("bit 4 (hl)");
        assert(instr_cb_entry_spec(102u8).name@ =~= cb_name(decode_cb_spec(102u8)));
    } else if op == 103 {
        reveal_strlit("bit 4 a");
        assert(instr_cb_entry_spec(103u8).name@ =~= cb_name(decode_cb_spec(103u8)));
    } else if op == 104 {
        reveal_strlit("bit 5 b");
        assert(instr_cb_entry_spec(104u8).name@ =~= cb_name(decode_cb_spec(104u8)));
    } else if op == 105 {
        reveal_strlit("bit 5 c");
        assert(instr_cb_entry_spec(105u8).name@ =~= cb_name(decode_cb_spec(105u8)));
    } else if op == 106 {
        reveal_strlit("bit 5 d");
        assert(instr_cb_entry_spec(106u8).name@ =~= cb_name(decode_cb_spec(106u8)));
    } else if op == 107 {
        reveal_strlit("bit 5 e");
        assert(instr_cb_entry_spec(107u8).name@ =~= cb_name(decode_cb_spec(107u8)));
    } else if op == 108 {
        reveal_strlit("bit 5 h");
        assert(instr_cb_entry_spec(108u8).name@ =~= cb_name(decode_cb_spec(108u8)));
    } else if op == 109 {
        reveal_strlit("bit 5 l");
        assert(instr_cb_entry_spec(109u8).name@ =~= cb_name(decode_cb_spec(109u8)));
    } else if op == 110 {
        reveal_strlit("bit 5 (hl)");
        assert(instr_cb_entry_spec(110u8).name@ =~= cb_name(decode_cb_spec(110u8)));
    } else if op == 111 {
        reveal_strlit("bit 5 a");
        assert(instr_cb_entry_spec(111u8).name@ =~= cb_name(decode_cb_spec(111u8)));
    }
}

proof fn lemma_cb_names_7(op: u8)
    requires
        112 <= op < 128,
    ensures
        instr_cb_entry_spec(op).name@ == cb_name(decode_cb_spec(op)),
{
    if op == 112 {
        reveal_strlit("bit 6 b");
        assert(instr_cb_entry_spec(112u8).name@ =~= cb_name(decode_cb_spec(112u8)));
    } else if op == 113 {
        reveal_strlit("bit 6 c");
        assert(instr_cb_entry_spec(113u8).name@ =~= cb_name(decode_cb_spec(113u8)));
    } else if op == 114 {
        reveal_strlit("bit 6 d");
        assert(instr_cb_entry_spec(114u8).name@ =~= cb_name(decode_cb_spec(114u8)));
    } else if op == 115 {
        reveal_strlit("bit 6 e");
        assert(instr_cb_entry_spec(115u8).name@ =~= cb_name(decode_cb_spec(115u8)));
    } else if op == 116 {
        reveal_strlit("bit 6 h");
        assert(instr_cb_entry_spec(116u8).name@ =~= cb_name(decode_cb_spec(116u8)));
    } else if op == 117 {
        reveal_strlit("bit 6 l");
        assert(instr_cb_entry_spec(117u8).name@ =~= cb_name(decode_cb_spec(117u8)));
    } else if op == 118 {
        reveal_strlit("bit 6 (hl)");
        assert(instr_cb_entry_spec(118u8).name@ =~= cb_name(decode_cb_spec(118u8)));
    } else if op == 119 {
        reveal_strlit("bit 6 a");
        assert(instr_cb_entry_spec(119u8).name@ =~= cb_name(decode_cb_spec(119u8)));
    } else if op == 120 {
        reveal_strlit("bit 7 b");
        assert(instr_cb_entry_spec(120u8).name@ =~= cb_name(decode_cb_spec(120u8)));
    } else if op == 121 {
        reveal_strlit("bit 7 c");
        assert(instr_cb_entry_spec(121u8).name@ =~= cb_name(decode_cb_spec(121u8)));
    } else if op == 122 {
        reveal_strlit("bit 7 d");
        assert(instr_cb_entry_spec(122u8).name@ =~= cb_name(decode_cb_spec(122u8)));
    } else if op == 123 {
        reveal_strlit("bit 7 e");
        assert(instr_cb_entry_spec(123u8).name@ =~= cb_name(decode_cb_spec(123u8)));
    } else if op == 124 {
        reveal_strlit("bit 7 h");
        assert(instr_cb_entry_spec(124u8).name@ =~= cb_name(decode_cb_spec(124u8)));
    } else if op == 125 {
        reveal_strlit("bit 7 l");
        assert(instr_cb_entry_spec(125u8).name@ =~= cb_name(decode_cb_spec(125u8)));
    } else if op == 126 {
        reveal_strlit("bit 7 (hl)");
        assert(instr_cb_entry_spec(126u8).name@ =~= cb_name(decode_cb_spec(126u8)));
    } else if op == 127 {
        reveal_strlit("bit 7 a");
        assert(instr_cb_entry_spec(127u8).name@ =~= cb_name(decode_cb_spec(127u8)));
    }
}

proof fn lemma_cb_names_8(op: u8)
    requires
        128 <= op < 144,
    ensures
        instr_cb_entry_spec(op).name@ == cb_name(decode_cb_spec(op)),
{
    if op == 128 {
        reveal_strlit("res 0 b");
        assert(instr_cb_entry_spec(128u8).name@ =~= cb_name(decode_cb_spec(128u8)));
    } else if op == 129 {
        reveal_strlit("res 0 c");
        assert(instr_cb_entry_spec(129u8).name@ =~= cb_name(decode_cb_spec(129u8)));
    } else if op == 130 {
        reveal_strlit("res 0 d");
        assert(instr_cb_entry_spec(130u8).name@ =~= cb_name(decode_cb_spec(130u8)));
    } else if op == 131 {
        reveal_strlit("res 0 e");
        assert(instr_cb_entry_spec(131u8).name@ =~= cb_name(decode_cb_spec(131u8)));
    } else if op == 132 {
        reveal_strlit("res 0 h");
        assert(instr_cb_entry_spec(132u8).name@ =~= cb_name(decode_cb_spec(132u8)));
    } else if op == 133 {
        reveal_strlit("res 0 l");
        assert(instr_cb_entry_spec(133u8).name@ =~= cb_name(decode_cb_spec(133u8)));
    } else if op == 134 {
        reveal_strlit("res 0 (hl)");
        assert(instr_cb_entry_spec(134u8).name@ =~= cb_name(decode_cb_spec(134u8)));
    } else if op == 135 {
        reveal_strlit("res 0 a");
        assert(instr_cb_entry_spec(135u8).name@ =~= cb_name(decode_cb_spec(135u8)));
    } else if op == 136 {
        reveal_strlit("res 1 b");
        assert(instr_cb_entry_spec(136u8).name@ =~= cb_name(decode_cb_spec(136u8)));
    } else if op == 137 {
        reveal_strlit("res 1 c");
        assert(instr_cb_entry_spec(137u8).name@ =~= cb_name(decode_cb_spec(137u8)));
    } else if op == 138 {
        reveal_strlit("res 1 d");
        assert(instr_cb_entry_spec(138u8).name@ =~= cb_name(decode_cb_spec(138u8)));
    } else if op == 139 {
        reveal_strlit("res 1 e");
        assert(instr_cb_entry_spec(139u8).name@ =~= cb_name(decode_cb_spec(139u8)));
    } else if op == 140 {
        reveal_strlit("res 1 h");
        assert(instr_cb_entry_spec(140u8).name@ =~= cb_name(decode_cb_spec(140u8)));
    } else if op == 141 {
        reveal_strlit("res 1 l");
        assert(instr_cb_entry_spec(141u8).name@ =~= cb_name(decode_cb_spec(141u8)));
    } else if op == 142 {
        reveal_strlit("res 1 (hl)");
        assert(instr_cb_entry_spec(142u8).name@ =~= cb_name(decode_cb_spec(142u8)));
    } else if op == 143 {
        reveal_strlit("res 1 a");
        assert(instr_cb_entry_spec(143u8).name@ =~= cb_name(decode_cb_spec(143u8)));
    }
}

proof fn lemma_cb_names_9(op: u8)
    requires
        144 <= op < 160,
    ensures
        instr_cb_entry_spec(op).name@ == cb_name(decode_cb_spec(op)),
{
    if op == 144 {
        reveal_strlit("res 2 b");
        assert(instr_cb_entry_spec(144u8).name@ =~= cb_name(decode_cb_spec(144u8)));
    } else if op == 145 {
        reveal_strlit("res 2 c");
        assert(instr_cb_entry_spec(145u8).name@ =~= cb_name(decode_cb_spec(145u8)));
    } else if op == 146 {
        reveal_strlit("res 2 d");
        assert(instr_cb_entry_spec(146u8).name@ =~= cb_name(decode_cb_spec(146u8)));
    } else if op == 147 {
        reveal_strlit("res 2 e");
        assert(instr_cb_entry_spec(147u8).name@ =~= cb_name(decode_cb_spec(147u8)));
    } else if op == 148 {
        reveal_strlit("res 2 h");
        assert(instr_cb_entry_spec(148u8).name@ =~= cb_name(decode_cb_spec(148u8)));
    } else if op == 149 {
        reveal_strlit("res 2 l");
        assert(instr_cb_entry_spec(149u8).name@ =~= cb_name(decode_cb_spec(149u8)));
    } else if op == 150 {
        reveal_strlit("res 2 (hl)");
        assert(instr_cb_entry_spec(150u8).name@ =~= cb_name(decode_cb_spec(150u8)));
    } else if op == 151 {
        reveal_strlit("res 2 a");
        assert(instr_cb_entry_spec(151u8).name@ =~= cb_name(decode_cb_spec(151u8)));
    } else if op == 152 {
        reveal_strlit("res 3 b");
        assert(instr_cb_entry_spec(152u8).name@ =~= cb_name(decode_cb_spec(152u8)));
    } else if op == 153 {
        reveal_strlit("res 3 c");
        assert(instr_cb_entry_spec(153u8).name@ =~= cb_name(decode_cb_spec(153u8)));
    } else if op == 154 {
        reveal_strlit("res 3 d");
        assert(instr_cb_entry_spec(154u8).name@ =~= cb_name(decode_cb_spec(154u8)));
    } else if op == 155 {
        reveal_strlit("res 3 e");
        assert(instr_cb_entry_spec(155u8).name@ =~= cb_name(decode_cb_spec(155u8)));
    } else if op == 156 {
        reveal_strlit("res 3 h");
        assert(instr_cb_entry_spec(156u8).name@ =~= cb_name(decode_cb_spec(156u8)));
    } else if op == 157 {
        reveal_strlit("res 3 l");
        assert(instr_cb_entry_spec(157u8).name@ =~= cb_name(decode_cb_spec(157u8)));
    } else if op == 158 {
        reveal_strlit("res 3 (hl)");
        assert(instr_cb_entry_spec(158u8).name@ =~= cb_name(decode_cb_spec(158u8)));
    } else if op == 159 {
        reveal_strlit("res 3 a");
        assert(instr_cb_entry_spec(159u8).name@ =~= cb_name(decode_cb_spec(159u8)));
    }
}

proof fn lemma_cb_names_a(op: u8)
    requires
        160 <= op < 176,
    ensures
        instr_cb_entry_spec(op).name@ == cb_name(decode_cb_spec(op)),
{
    if op == 160 {
        reveal_strlit("res 4 b");
        assert(instr_cb_entry_spec(160u8).name@ =~= cb_name(decode_cb_spec(160u8)));
    } else if op == 161 {
        reveal_strlit("res 4 c");
        assert(instr_cb_entry_spec(161u8).name@ =~= cb_name(decode_cb_spec(161u8)));
    } else if op == 162 {
        reveal_strlit("res 4 d");
        assert(instr_cb_entry_spec(162u8).name@ =~= cb_name(decode_cb_spec(162u8)));
    } else if op == 163 {
        reveal_strlit("res 4 e");
        assert(instr_cb_entry_spec(163u8).name@ =~= cb_name(decode_cb_spec(163u8)));
    } else if op == 164 {
        reveal_strlit("res 4 h");
        assert(instr_cb_entry_spec(164u8).name@ =~= cb_name(decode_cb_spec(164u8)));
    } else if op == 165 {
        reveal_strlit("res 4 l");
        assert(instr_cb_entry_spec(165u8).name@ =~= cb_name(decode_cb_spec(165u8)));
    } else if op == 166 {
        reveal_strlit("res 4 (hl)");
        assert(instr_cb_entry_spec(166u8).name@ =~= cb_name(decode_cb_spec(166u8)));
    } else if op == 167 {
        reveal_strlit("res 4 a");
        assert(instr_cb_entry_spec(167u8).name@ =~= cb_name(decode_cb_spec(167u8)));
    } else if op == 168 {
        reveal_strlit("res 5 b");
        assert(instr_cb_entry_spec(168u8).name@ =~= cb_name(decode_cb_spec(168u8)));
    } else if op == 169 {
        reveal_strlit("res 5 c");
        assert(instr_cb_entry_spec(169u8).name@ =~= cb_name(decode_cb_spec(169u8)));
    } else if op == 170 {
        reveal_strlit("res 5 d");
        assert(instr_cb_entry_spec(170u8).name@ =~= cb_name(decode_cb_spec(170u8)));
    } else if op == 171 {
        reveal_strlit("res 5 e");
        assert(instr_cb_entry_spec(171u8).name@ =~= cb_name(decode_cb_spec(171u8)));
    } else if op == 172 {
        reveal_strlit("res 5 h");
        assert(instr_cb_entry_spec(172u8).name@ =~= cb_name(decode_cb_spec(172u8)));
    } else if op == 173 {
        reveal_strlit("res 5 l");
        assert(instr_cb_entry_spec(173u8).name@ =~= cb_name(decode_cb_spec(173u8)));
    } else if op == 174 {
        reveal_strlit("res 5 (hl)");
        assert(instr_cb_entry_spec(174u8).name@ =~= cb_name(decode_cb_spec(174u8)));
    } else if op == 175 {
        reveal_strlit("res 5 a");
        assert(instr_cb_entry_spec(175u8).name@ =~= cb_name(decode_cb_spec(175u8)));
    }
}

proof fn lemma_cb_names_b(op: u8)
    requires
        176 <= op < 192,
    ensures
        instr_cb_entry_spec(op).name@ == cb_name(decode_cb_spec(op)),
{
    if op == 176 {
        reveal_strlit("res 6 b");
        assert(instr_cb_entry_spec(176u8).name@ =~= cb_name(decode_cb_spec(176u8)));
    } else if op == 177 {
        reveal_strlit("res 6 c");
        assert(instr_cb_entry_spec(177u8).name@ =~= cb_name(decode_cb_spec(177u8)));
    } else if op == 178 {
        reveal_strlit("res 6 d");
        assert(instr_cb_entry_spec(178u8).name@ =~= cb_name(decode_cb_spec(178u8)));
    } else if op == 179 {
        reveal_strlit("res 6 e");
        assert(instr_cb_entry_spec(179u8).name@ =~= cb_name(decode_cb_spec(179u8)));
    } else if op == 180 {
        reveal_strlit("res 6 h");
        assert(instr_cb_entry_spec(180u8).name@ =~= cb_name(decode_cb_spec(180u8)));
    } else if op == 181 {
        reveal_strlit("res 6 l");
        assert(instr_cb_entry_spec(181u8).name@ =~= cb_name(decode_cb_spec(181u8)));
    } else if op == 182 {
        reveal_strlit("res 6 (hl)");
        assert(instr_cb_entry_spec(182u8).name@ =~= cb_name(decode_cb_spec(182u8)));
    } else if op == 183 {
        reveal_strlit("res 6 a");
        assert(instr_cb_entry_spec(183u8).name@ =~= cb_name(decode_cb_spec(183u8)));
    } else if op == 184 {
        reveal_strlit("res 7 b");
        assert(instr_cb_entry_spec(184u8).name@ =~= cb_name(decode_cb_spec(184u8)));
    } else if op == 185 {
        reveal_strlit("res 7 c");
        assert(instr_cb_entry_spec(185u8).name@ =~= cb_name(decode_cb_spec(185u8)));
    } else if op == 186 {
        reveal_strlit("res 7 d");
        assert(instr_cb_entry_spec(186u8).name@ =~= cb_name(decode_cb_spec(186u8)));
    } else if op == 187 {
        reveal_strlit("res 7 e");
        assert(instr_cb_entry_spec(187u8).name@ =~= cb_name(decode_cb_spec(187u8)));
    } else if op == 188 {
        reveal_strlit("res 7 h");
        assert(instr_cb_entry_spec(188u8).name@ =~= cb_name(decode_cb_spec(188u8)));
    } else if op == 189 {
        reveal_strlit("res 7 l");
        assert(instr_cb_entry_spec(189u8).name@ =~= cb_name(decode_cb_spec(189u8)));
    } else if op == 190 {
        reveal_strlit("res 7 (hl)");
        assert(instr_cb_entry_spec(190u8).name@ =~= cb_name(decode_cb_spec(190u8)));
    } else if op == 191 {
        reveal_strlit("res 7 a");
        assert(instr_cb_entry_spec(191u8).name@ =~= cb_name(decode_cb_spec(191u8)));
    }
}

proof fn lemma_cb_names_c(op: u8)
    requires
        192 <= op < 208,
    ensures
        instr_cb_entry_spec(op).name@ == cb_name(decode_cb_spec(op)),
{
    if op == 192 {
        reveal_strlit("set 0 b");
        assert(instr_cb_entry_spec(192u8).name@ =~= cb_name(decode_cb_spec(192u8)));
    } else if op == 193 {
        reveal_strlit("set 0 c");
        assert(instr_cb_entry_spec(193u8).name@ =~= cb_name(decode_cb_spec(193u8)));
    } else if op == 194 {
        reveal_strlit("set 0 d");
        assert(instr_cb_entry_spec(194u8).name@ =~= cb_name(decode_cb_spec(194u8)));
    } else if op == 195 {
        reveal_strlit("set 0 e");
        assert(instr_cb_entry_spec(195u8).name@ =~= cb_name(decode_cb_spec(195u8)));
    } else if op == 196 {
        reveal_strlit("set 0 h");
        assert(instr_cb_entry_spec(196u8).name@ =~= cb_name(decode_cb_spec(196u8)));
    } else if op == 197 {
        reveal_strlit("set 0 l");
        assert(instr_cb_entry_spec(197u8).name@ =~= cb_name(decode_cb_spec(197u8)));
    } else if op == 198 {
        reveal_strlit("set 0 (hl)");
        assert(instr_cb_entry_spec(198u8).name@ =~= cb_name(decode_cb_spec(198u8)));
    } else if op == 199 {
        reveal_strlit("set 0 a");
        assert(instr_cb_entry_spec(199u8).name@ =~= cb_name(decode_cb_spec(199u8)));
    } else if op == 200 {
        reveal_strlit("set 1 b");
        assert(instr_cb_entry_spec(200u8).name@ =~= cb_name(decode_cb_spec(200u8)));
    } else if op == 201 {
        reveal_strlit("set 1 c");
        assert(instr_cb_entry_spec(201u8).name@ =~= cb_name(decode_cb_spec(201u8)));
    } else if op == 202 {
        reveal_strlit("set 1 d");
        assert(instr_cb_entry_spec(202u8).name@ =~= cb_name(decode_cb_spec(202u8)));
    } else if op == 203 {
        reveal_strlit("set 1 e");
        assert(instr_cb_entry_spec(203u8).name@ =~= cb_name(decode_cb_spec(203u8)));
    } else if op == 204 {
        reveal_strlit("set 1 h");
        assert(instr_cb_entry_spec(204u8).name@ =~= cb_name(decode_cb_spec(204u8)));
    } else if op == 205 {
        reveal_strlit("set 1 l");
        assert(instr_cb_entry_spec(205u8).name@ =~= cb_name(decode_cb_spec(205u8)));
    } else if op == 206 {
        reveal_strlit("set 1 (hl)");
        assert(instr_cb_entry_spec(206u8).name@ =~= cb_name(decode_cb_spec(206u8)));
    } else if op == 207 {
        reveal_strlit("set 1 a");
        assert(instr_cb_entry_spec(207u8).name@ =~= cb_name(decode_cb_spec(207u8)));
    }
}

proof fn lemma_cb_names_d(op: u8)
    requires
        208 <= op < 224,
    ensures
        instr_cb_entry_spec(op).name@ == cb_name(decode_cb_spec(op)),
{
    if op == 208 {
        reveal_strlit("set 2 b");
        assert(instr_cb_entry_spec(208u8).name@ =~= cb_name(decode_cb_spec(208u8)));
    } else if op == 209 {
        reveal_strlit("set 2 c");
        assert(instr_cb_entry_spec(209u8).name@ =~= cb_name(decode_cb_spec(209u8)));
    } else if op == 210 {
        reveal_strlit("set 2 d");
        assert(instr_cb_entry_spec(210u8).name@ =~= cb_name(decode_cb_spec(210u8)));
    } else if op == 211 {
        reveal_strlit("set 2 e");
        assert(instr_cb_entry_spec(211u8).name@ =~= cb_name(decode_cb_spec(211u8)));
    } else if op == 212 {
        reveal_strlit("set 2 h");
        assert(instr_cb_entry_spec(212u8).name@ =~= cb_name(decode_cb_spec(212u8)));
    } else if op == 213 {
        reveal_strlit("set 2 l");
        assert(instr_cb_entry_spec(213u8).name@ =~= cb_name(decode_cb_spec(213u8)));
    } else if op == 214 {
        reveal_strlit("set 2 (hl)");
        assert(instr_cb_entry_spec(214u8).name@ =~= cb_name(decode_cb_spec(214u8)));
    } else if op == 215 {
        reveal_strlit("set 2 a");
        assert(instr_cb_entry_spec(215u8).name@ =~= cb_name(decode_cb_spec(215u8)));
    } else if op == 216 {
        reveal_strlit("set 3 b");
        assert(instr_cb_entry_spec(216u8).name@ =~= cb_name(decode_cb_spec(216u8)));
    } else if op == 217 {
        reveal_strlit("set 3 c");
        assert(instr_cb_entry_spec(217u8).name@ =~= cb_name(decode_cb_spec(217u8)));
    } else if op == 218 {
        reveal_strlit("set 3 d");
        assert(instr_cb_entry_spec(218u8).name@ =~= cb_name(decode_cb_spec(218u8)));
    } else if op == 219 {
        reveal_strlit("set 3 e");
        assert(instr_cb_entry_spec(219u8).name@ =~= cb_name(decode_cb_spec(219u8)));
    } else if op == 220 {
        reveal_strlit("set 3 h");
        assert(instr_cb_entry_spec(220u8).name@ =~= cb_name(decode_cb_spec(220u8)));
    } else if op == 221 {
        reveal_strlit("set 3 l");
        assert(instr_cb_entry_spec(221u8).name@ =~= cb_name(decode_cb_spec(221u8)));
    } else if op == 222 {
        reveal_strlit("set 3 (hl)");
        assert(instr_cb_entry_spec(222u8).name@ =~= cb_name(decode_cb_spec(222u8)));
    } else if op == 223 {
        reveal_strlit("set 3 a");
        assert(instr_cb_entry_spec(223u8).name@ =~= cb_name(decode_cb_spec(223u8)));
    }
}

proof fn lemma_cb_names_e(op: u8)
    requires
        224 <= op < 240,
    ensures
        instr_cb_entry_spec(op).name@ == cb_name(decode_cb_spec(op)),
{
    if op == 224 {
        reveal_strlit("set 4 b");
        assert(instr_cb_entry_spec(224u8).name@ =~= cb_name(decode_cb_spec(224u8)));
    } else if op == 225 {
        reveal_strlit("set 4 c");
        assert(instr_cb_entry_spec(225u8).name@ =~= cb_name(decode_cb_spec(225u8)));
    } else if op == 226 {
        reveal_strlit("set 4 d");
        assert(instr_cb_entry_spec(226u8).name@ =~= cb_name(decode_cb_spec(226u8)));
    } else if op == 227 {
        reveal_strlit("set 4 e");
        assert(instr_cb_entry_spec(227u8).name@ =~= cb_name(decode_cb_spec(227u8)));
    } else if op == 228 {
        reveal_strlit("set 4 h");
        assert(instr_cb_entry_spec(228u8).name@ =~= cb_name(decode_cb_spec(228u8)));
    } else if op == 229 {
        reveal_strlit("set 4 l");
        assert(instr_cb_entry_spec(229u8).name@ =~= cb_name(decode_cb_spec(229u8)));
    } else if op == 230 {
        reveal_strlit("set 4 (hl)");
        assert(instr_cb_entry_spec(230u8).name@ =~= cb_name(decode_cb_spec(230u8)));
    } else if op == 231 {
        reveal_strlit("set 4 a");
        assert(instr_cb_entry_spec(231u8).name@ =~= cb_name(decode_cb_spec(231u8)));
    } else if op == 232 {
        reveal_strlit("set 5 b");
        assert(instr_cb_entry_spec(232u8).name@ =~= cb_name(decode_cb_spec(232u8)));
    } else if op == 233 {
        reveal_strlit("set 5 c");
        assert(instr_cb_entry_spec(233u8).name@ =~= cb_name(decode_cb_spec(233u8)));
    } else if op == 234 {
        reveal_strlit("set 5 d");
        assert(instr_cb_entry_spec(234u8).name@ =~= cb_name(decode_cb_spec(234u8)));
    } else if op == 235 {
        reveal_strlit("set 5 e");
        assert(instr_cb_entry_spec(235u8).name@ =~= cb_name(decode_cb_spec(235u8)));
    } else if op == 236 {
        reveal_strlit("set 5 h");
        assert(instr_cb_entry_spec(236u8).name@ =~= cb_name(decode_cb_spec(236u8)));
    } else if op == 237 {
        reveal_strlit("set 5 l");
        assert(instr_cb_entry_spec(237u8).name@ =~= cb_name(decode_cb_spec(237u8)));
    } else if op == 238 {
        reveal_strlit("set 5 (hl)");
        assert(instr_cb_entry_spec(238u8).name@ =~= cb_name(decode_cb_spec(238u8)));
    } else if op == 239 {
        reveal_strlit("set 5 a");
        assert(instr_cb_entry_spec(239u8).name@ =~= cb_name(decode_cb_spec(239u8)));
    }
}

proof fn lemma_cb_names_f(op: u8)
    requires
        240 <= op < 256,
    ensures
        instr_cb_entry_spec(op).name@ == cb_name(decode_cb_spec(op)),
{
    if op == 240 {
        reveal_strlit("set 6 b");
        assert(instr_cb_entry_spec(240u8).name@ =~= cb_name(decode_cb_spec(240u8)));
    } else if op == 241 {
        reveal_strlit("set 6 c");
        assert(instr_cb_entry_spec(241u8).name@ =~= cb_name(decode_cb_spec(241u8)));
    } else if op == 242 {
        reveal_strlit("set 6 d");
        assert(instr_cb_entry_spec(242u8).name@ =~= cb_name(decode_cb_spec(242u8)));
    } else if op == 243 {
        reveal_strlit("set 6 e");
        assert(instr_cb_entry_spec(243u8).name@ =~= cb_name(decode_cb_spec(243u8)));
    } else if op == 244 {
        reveal_strlit("set 6 h");
        assert(instr_cb_entry_spec(244u8).name@ =~= cb_name(decode_cb_spec(244u8)));
    } else if op == 245 {
        reveal_strlit("set 6 l");
        assert(instr_cb_entry_spec(245u8).name@ =~= cb_name(decode_cb_spec(245u8)));
    } else if op == 246 {
        reveal_strlit("set 6 (hl)");
        assert(instr_cb_entry_spec(246u8).name@ =~= cb_name(decode_cb_spec(246u8)));
    } else if op == 247 {
        reveal_strlit("set 6 a");
        assert(instr_cb_entry_spec(247u8).name@ =~= cb_name(decode_cb_spec(247u8)));
    } else if op == 248 {
        reveal_strlit("set 7 b");
        assert(instr_cb_entry_spec(248u8).name@ =~= cb_name(decode_cb_spec(248u8)));
    } else if op == 249 {
        reveal_strlit("set 7 c");
        assert(instr_cb_entry_spec(249u8).name@ =~= cb_name(decode_cb_spec(249u8)));
    } else if op == 250 {
        reveal_strlit("set 7 d");
        assert(instr_cb_entry_spec(250u8).name@ =~= cb_name(decode_cb_spec(250u8)));
    } else if op == 251 {
        reveal_strlit("set 7 e");
        assert(instr_cb_entry_spec(251u8).name@ =~= cb_name(decode_cb_spec(251u8)));
    } else if op == 252 {
        reveal_strlit("set 7 h");
        assert(instr_cb_entry_spec(252u8).name@ =~= cb_name(decode_cb_spec(252u8)));
    } else if op == 253 {
        reveal_strlit("set 7 l");
        assert(instr_cb_entry_spec(253u8).name@ =~= cb_name(decode_cb_spec(253u8)));
    } else if op == 254 {
        reveal_strlit("set 7 (hl)");
        assert(instr_cb_entry_spec(254u8).name@ =~= cb_name(decode_cb_spec(254u8)));
    } else if op == 255 {
        reveal_strlit("set 7 a");
        assert(instr_cb_entry_spec(255u8).name@ =~= cb_name(decode_cb_spec(255u8)));
    }
}


} // verus!
