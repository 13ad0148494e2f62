//! The opcode tables of the disassembler: the name of each instruction,
//! its length in bytes and the kind of immediate it carries.

use super::{ImmInfo, InstrEntry};
use vstd::prelude::*;

verus! {

/// The entry of the instruction with opcode `op`.
pub open spec fn instr_entry_spec(op: u8) -> InstrEntry {
    match op {
        0x00u8 => InstrEntry { name: "nop", size: 1, info: None },
        0x01u8 => InstrEntry { name: "ld bc d16", size: 3, info: Some(ImmInfo::D16) },
        0x02u8 => InstrEntry { name: "ld (bc) a", size: 1, info: None },
        0x03u8 => InstrEntry { name: "inc bc", size: 1, info: None },
        0x04u8 => InstrEntry { name: "inc b", size: 1, info: None },
        0x05u8 => InstrEntry { name: "dec b", size: 1, info: None },
        0x06u8 => InstrEntry { name: "ld b d8", size: 2, info: Some(ImmInfo::D8) },
        0x07u8 => InstrEntry { name: "rlca", size: 1, info: None },
        0x08u8 => InstrEntry { name: "ld (a16) sp", size: 3, info: Some(ImmInfo::A16) },
        0x09u8 => InstrEntry { name: "add hl bc", size: 1, info: None },
        0x0Au8 => InstrEntry { name: "ld a (bc)", size: 1, info: None },
        0x0Bu8 => InstrEntry { name: "dec bc", size: 1, info: None },
        0x0Cu8 => InstrEntry { name: "inc c", size: 1, info: None },
        0x0Du8 => InstrEntry { name: "dec c", size: 1, info: None },
        0x0Eu8 => InstrEntry { name: "ld c d8", size: 2, info: Some(ImmInfo::D8) },
        0x0Fu8 => InstrEntry { name: "rrca", size: 1, info: None },
        0x10u8 => InstrEntry { name: "stop", size: 2, info: None },
        0x11u8 => InstrEntry { name: "ld de d16", size: 3, info: Some(ImmInfo::D16) },
        0x12u8 => InstrEntry { name: "ld (de) a", size: 1, info: None },
        0x13u8 => InstrEntry { name: "inc de", size: 1, info: None },
        0x14u8 => InstrEntry { name: "inc d", size: 1, info: None },
        0x15u8 => InstrEntry { name: "dec d", size: 1, info: None },
        0x16u8 => InstrEntry { name: "ld d d8", size: 2, info: Some(ImmInfo::D8) },
        0x17u8 => InstrEntry { name: "rla", size: 1, info: None },
        0x18u8 => InstrEntry { name: "jr r8", size: 2, info: Some(ImmInfo::R8) },
        0x19u8 => InstrEntry { name: "add hl de", size: 1, info: None },
        0x1Au8 => InstrEntry { name: "ld a (de)", size: 1, info: None },
        0x1Bu8 => InstrEntry { name: "dec de", size: 1, info: None },
        0x1Cu8 => InstrEntry { name: "inc e", size: 1, info: None },
        0x1Du8 => InstrEntry { name: "dec e", size: 1, info: None },
        0x1Eu8 => InstrEntry { name: "ld e d8", size: 2, info: Some(ImmInfo::D8) },
        0x1Fu8 => InstrEntry { name: "rra", size: 1, info: None },
        0x20u8 => InstrEntry { name: "jr nz r8", size: 2, info: Some(ImmInfo::R8) },
        0x21u8 => InstrEntry { name: "ld hl d16", size: 3, info: Some(ImmInfo::D16) },
        0x22u8 => InstrEntry { name: "ld (hl+) a", size: 1, info: None },
        0x23u8 => InstrEntry { name: "inc hl", size: 1, info: None },
        0x24u8 => InstrEntry { name: "inc h", size: 1, info: None },
        0x25u8 => InstrEntry { name: "dec h", size: 1, info: None },
        0x26u8 => InstrEntry { name: "ld h d8", size: 2, info: Some(ImmInfo::D8) },
        0x27u8 => InstrEntry { name: "daa", size: 1, info: None },
        0x28u8 => InstrEntry { name: "jr z r8", size: 2, info: Some(ImmInfo::R8) },
        0x29u8 => InstrEntry { name: "add hl hl", size: 1, info: None },
        0x2Au8 => InstrEntry { name: "ld a (hl+)", size: 1, info: None },
        0x2Bu8 => InstrEntry { name: "dec hl", size: 1, info: None },
        0x2Cu8 => InstrEntry { name: "inc l", size: 1, info: None },
        0x2Du8 => InstrEntry { name: "dec l", size: 1, info: None },
        0x2Eu8 => InstrEntry { name: "ld l d8", size: 2, info: Some(ImmInfo::D8) },
        0x2Fu8 => InstrEntry { name: "cpl", size: 1, info: None },
        0x30u8 => InstrEntry { name: "jr nc r8", size: 2, info: Some(ImmInfo::R8) },
        0x31u8 => InstrEntry { name: "ld sp d16", size: 3, info: Some(ImmInfo::D16) },
        0x32u8 => InstrEntry { name: "ld (hl-) a", size: 1, info: None },
        0x33u8 => InstrEntry { name: "inc sp", size: 1, info: None },
        0x34u8 => InstrEntry { name: "inc (hl)", size: 1, info: None },
        0x35u8 => InstrEntry { name: "dec (hl)", size: 1, info: None },
        0x36u8 => InstrEntry { name: "ld (hl) d8", size: 2, info: Some(ImmInfo::D8) },
        0x37u8 => InstrEntry { name: "scf", size: 1, info: None },
        0x38u8 => InstrEntry { name: "jr c r8", size: 2, info: Some(ImmInfo::R8) },
        0x39u8 => InstrEntry { name: "add hl sp", size: 1, info: None },
        0x3Au8 => InstrEntry { name: "ld a (hl-)", size: 1, info: None },
        0x3Bu8 => InstrEntry { name: "dec sp", size: 1, info: None },
        0x3Cu8 => InstrEntry { name: "inc a", size: 1, info: None },
        0x3Du8 => InstrEntry { name: "dec a", size: 1, info: None },
        0x3Eu8 => InstrEntry { name: "ld a d8", size: 2, info: Some(ImmInfo::D8) },
        0x3Fu8 => InstrEntry { name: "ccf", size: 1, info: None },
        0x40u8 => InstrEntry { name: "ld b b", size: 1, info: None },
        0x41u8 => InstrEntry { name: "ld b c", size: 1, info: None },
        0x42u8 => InstrEntry { name: "ld b d", size: 1, info: None },
        0x43u8 => InstrEntry { name: "ld b e", size: 1, info: None },
        0x44u8 => InstrEntry { name: "ld b h", size: 1, info: None },
        0x45u8 => InstrEntry { name: "ld b l", size: 1, info: None },
        0x46u8 => InstrEntry { name: "ld b (hl)", size: 1, info: None },
        0x47u8 => InstrEntry { name: "ld b a", size: 1, info: None },
        0x48u8 => InstrEntry { name: "ld c b", size: 1, info: None },
        0x49u8 => InstrEntry { name: "ld c c", size: 1, info: None },
        0x4Au8 => InstrEntry { name: "ld c d", size: 1, info: None },
        0x4Bu8 => InstrEntry { name: "ld c e", size: 1, info: None },
        0x4Cu8 => InstrEntry { name: "ld c h", size: 1, info: None },
        0x4Du8 => InstrEntry { name: "ld c l", size: 1, info: None },
        0x4Eu8 => InstrEntry { name: "ld c (hl)", size: 1, info: None },
        0x4Fu8 => InstrEntry { name: "ld c a", size: 1, info: None },
        0x50u8 => InstrEntry { name: "ld d b", size: 1, info: None },
        0x51u8 => InstrEntry { name: "ld d c", size: 1, info: None },
        0x52u8 => InstrEntry { name: "ld d d", size: 1, info: None },
        0x53u8 => InstrEntry { name: "ld d e", size: 1, info: None },
        0x54u8 => InstrEntry { name: "ld d h", size: 1, info: None },
        0x55u8 => InstrEntry { name: "ld d l", size: 1, info: None },
        0x56u8 => InstrEntry { name: "ld d (hl)", size: 1, info: None },
        0x57u8 => InstrEntry { name: "ld d a", size: 1, info: None },
        0x58u8 => InstrEntry { name: "ld e b", size: 1, info: None },
        0x59u8 => InstrEntry { name: "ld e c", size: 1, info: None },
        0x5Au8 => InstrEntry { name: "ld e d", size: 1, info: None },
        0x5Bu8 => InstrEntry { name: "ld e e", size: 1, info: None },
        0x5Cu8 => InstrEntry { name: "ld e h", size: 1, info: None },
        0x5Du8 => InstrEntry { name: "ld e l", size: 1, info: None },
        0x5Eu8 => InstrEntry { name: "ld e (hl)", size: 1, info: None },
        0x5Fu8 => InstrEntry { name: "ld e a", size: 1, info: None },
        0x60u8 => InstrEntry { name: "ld h b", size: 1, info: None },
        0x61u8 => InstrEntry { name: "ld h c", size: 1, info: None },
        0x62u8 => InstrEntry { name: "ld h d", size: 1, info: None },
        0x63u8 => InstrEntry { name: "ld h e", size: 1, info: None },
        0x64u8 => InstrEntry { name: "ld h h", size: 1, info: None },
        0x65u8 => InstrEntry { name: "ld h l", size: 1, info: None },
        0x66u8 => InstrEntry { name: "ld h (hl)", size: 1, info: None },
        0x67u8 => InstrEntry { name: "ld h a", size: 1, info: None },
        0x68u8 => InstrEntry { name: "ld l b", size: 1, info: None },
        0x69u8 => InstrEntry { name: "ld l c", size: 1, info: None },
        0x6Au8 => InstrEntry { name: "ld l d", size: 1, info: None },
        0x6Bu8 => InstrEntry { name: "ld l e", size: 1, info: None },
        0x6Cu8 => InstrEntry { name: "ld l h", size: 1, info: None },
        0x6Du8 => InstrEntry { name: "ld l l", size: 1, info: None },
        0x6Eu8 => InstrEntry { name: "ld l (hl)", size: 1, info: None },
        0x6Fu8 => InstrEntry { name: "ld l a", size: 1, info: None },
        0x70u8 => InstrEntry { name: "ld (hl) b", size: 1, info: None },
        0x71u8 => InstrEntry { name: "ld (hl) c", size: 1, info: None },
        0x72u8 => InstrEntry { name: "ld (hl) d", size: 1, info: None },
        0x73u8 => InstrEntry { name: "ld (hl) e", size: 1, info: None },
        0x74u8 => InstrEntry { name: "ld (hl) h", size: 1, info: None },
        0x75u8 => InstrEntry { name: "ld (hl) l", size: 1, info: None },
        0x76u8 => InstrEntry { name: "halt", size: 1, info: None },
        0x77u8 => InstrEntry { name: "ld (hl) a", size: 1, info: None },
        0x78u8 => InstrEntry { name: "ld a b", size: 1, info: None },
        0x79u8 => InstrEntry { name: "ld a c", size: 1, info: None },
        0x7Au8 => InstrEntry { name: "ld a d", size: 1, info: None },
        0x7Bu8 => InstrEntry { name: "ld a e", size: 1, info: None },
        0x7Cu8 => InstrEntry { name: "ld a h", size: 1, info: None },
        0x7Du8 => InstrEntry { name: "ld a l", size: 1, info: None },
        0x7Eu8 => InstrEntry { name: "ld a (hl)", size: 1, info: None },
        0x7Fu8 => InstrEntry { name: "ld a a", size: 1, info: None },
        0x80u8 => InstrEntry { name: "add a b", size: 1, info: None },
        0x81u8 => InstrEntry { name: "add a c", size: 1, info: None },
        0x82u8 => InstrEntry { name: "add a d", size: 1, info: None },
        0x83u8 => InstrEntry { name: "add a e", size: 1, info: None },
        0x84u8 => InstrEntry { name: "add a h", size: 1, info: None },
        0x85u8 => InstrEntry { name: "add a l", size: 1, info: None },
        0x86u8 => InstrEntry { name: "add a (hl)", size: 1, info: None },
        0x87u8 => InstrEntry { name: "add a a", size: 1, info: None },
        0x88u8 => InstrEntry { name: "adc a b", size: 1, info: None },
        0x89u8 => InstrEntry { name: "adc a c", size: 1, info: None },
        0x8Au8 => InstrEntry { name: "adc a d", size: 1, info: None },
        0x8Bu8 => InstrEntry { name: "adc a e", size: 1, info: None },
        0x8Cu8 => InstrEntry { name: "adc a h", size: 1, info: None },
        0x8Du8 => InstrEntry { name: "adc a l", size: 1, info: None },
        0x8Eu8 => InstrEntry { name: "adc a (hl)", size: 1, info: None },
        0x8Fu8 => InstrEntry { name: "adc a a", size: 1, info: None },
        0x90u8 => InstrEntry { name: "sub b", size: 1, info: None },
        0x91u8 => InstrEntry { name: "sub c", size: 1, info: None },
        0x92u8 => InstrEntry { name: "sub d", size: 1, info: None },
        0x93u8 => InstrEntry { name: "sub e", size: 1, info: None },
        0x94u8 => InstrEntry { name: "sub h", size: 1, info: None },
        0x95u8 => InstrEntry { name: "sub l", size: 1, info: None },
        0x96u8 => InstrEntry { name: "sub (hl)", size: 1, info: None },
        0x97u8 => InstrEntry { name: "sub a", size: 1, info: None },
        0x98u8 => InstrEntry { name: "sbc a b", size: 1, info: None },
        0x99u8 => InstrEntry { name: "sbc a c", size: 1, info: None },
        0x9Au8 => InstrEntry { name: "sbc a d", size: 1, info: None },
        0x9Bu8 => InstrEntry { name: "sbc a e", size: 1, info: None },
        0x9Cu8 => InstrEntry { name: "sbc a h", size: 1, info: None },
        0x9Du8 => InstrEntry { name: "sbc a l", size: 1, info: None },
        0x9Eu8 => InstrEntry { name: "sbc a (hl)", size: 1, info: None },
        0x9Fu8 => InstrEntry { name: "sbc a a", size: 1, info: None },
        0xA0u8 => InstrEntry { name: "and b", size: 1, info: None },
        0xA1u8 => InstrEntry { name: "and c", size: 1, info: None },
        0xA2u8 => InstrEntry { name: "and d", size: 1, info: None },
        0xA3u8 => InstrEntry { name: "and e", size: 1, info: None },
        0xA4u8 => InstrEntry { name: "and h", size: 1, info: None },
        0xA5u8 => InstrEntry { name: "and l", size: 1, info: None },
        0xA6u8 => InstrEntry { name: "and (hl)", size: 1, info: None },
        0xA7u8 => InstrEntry { name: "and a", size: 1, info: None },
        0xA8u8 => InstrEntry { name: "xor b", size: 1, info: None },
        0xA9u8 => InstrEntry { name: "xor c", size: 1, info: None },
        0xAAu8 => InstrEntry { name: "xor d", size: 1, info: None },
        0xABu8 => InstrEntry { name: "xor e", size: 1, info: None },
        0xACu8 => InstrEntry { name: "xor h", size: 1, info: None },
        0xADu8 => InstrEntry { name: "xor l", size: 1, info: None },
        0xAEu8 => InstrEntry { name: "xor (hl)", size: 1, info: None },
        0xAFu8 => InstrEntry { name: "xor a", size: 1, info: None },
        0xB0u8 => InstrEntry { name: "or b", size: 1, info: None },
        0xB1u8 => InstrEntry { name: "or c", size: 1, info: None },
        0xB2u8 => InstrEntry { name: "or d", size: 1, info: None },
        0xB3u8 => InstrEntry { name: "or e", size: 1, info: None },
        0xB4u8 => InstrEntry { name: "or h", size: 1, info: None },
        0xB5u8 => InstrEntry { name: "or l", size: 1, info: None },
        0xB6u8 => InstrEntry { name: "or (hl)", size: 1, info: None },
        0xB7u8 => InstrEntry { name: "or a", size: 1, info: None },
        0xB8u8 => InstrEntry { name: "cp b", size: 1, info: None },
        0xB9u8 => InstrEntry { name: "cp c", size: 1, info: None },
        0xBAu8 => InstrEntry { name: "cp d", size: 1, info: None },
        0xBBu8 => InstrEntry { name: "cp e", size: 1, info: None },
        0xBCu8 => InstrEntry { name: "cp h", size: 1, info: None },
        0xBDu8 => InstrEntry { name: "cp l", size: 1, info: None },
        0xBEu8 => InstrEntry { name: "cp (hl)", size: 1, info: None },
        0xBFu8 => InstrEntry { name: "cp a", size: 1, info: None },
        0xC0u8 => InstrEntry { name: "req nz", size: 1, info: None },
        0xC1u8 => InstrEntry { name: "pop bc", size: 1, info: None },
        0xC2u8 => InstrEntry { name: "jp nz a16", size: 3, info: Some(ImmInfo::A16) },
        0xC3u8 => InstrEntry { name: "jp a16", size: 3, info: Some(ImmInfo::A16) },
        0xC4u8 => InstrEntry { name: "call nz a16", size: 3, info: Some(ImmInfo::A16) },
        0xC5u8 => InstrEntry { name: "push bc", size: 1, info: None },
        0xC6u8 => InstrEntry { name: "add a d8", size: 2, info: Some(ImmInfo::D8) },
        0xC7u8 => InstrEntry { name: "rst 00h", size: 1, info: None },
        0xC8u8 => InstrEntry { name: "ret z", size: 1, info: None },
        0xC9u8 => InstrEntry { name: "ret", size: 1, info: None },
        0xCAu8 => InstrEntry { name: "jp z a16", size: 3, info: Some(ImmInfo::A16) },
        0xCBu8 => InstrEntry { name: "prefix_cb", size: 1, info: None },
        0xCCu8 => InstrEntry { name: "call z a16", size: 3, info: Some(ImmInfo::A16) },
        0xCDu8 => InstrEntry { name: "call a16", size: 3, info: Some(ImmInfo::A16) },
        0xCEu8 => InstrEntry { name: "adc a d8", size: 2, info: Some(ImmInfo::D8) },
        0xCFu8 => InstrEntry { name: "rst 08h", size: 1, info: None },
        0xD0u8 => InstrEntry { name: "ret nc", size: 1, info: None },
        0xD1u8 => InstrEntry { name: "pop de", size: 1, info: None },
        0xD2u8 => InstrEntry { name: "jp nc a16", size: 3, info: Some(ImmInfo::A16) },
        0xD3u8 => InstrEntry { name: "???", size: 1, info: None },
        0xD4u8 => InstrEntry { name: "call nc a16", size: 3, info: Some(ImmInfo::A16) },
        0xD5u8 => InstrEntry { name: "push de", size: 1, info: None },
        0xD6u8 => InstrEntry { name: "sub d8", size: 2, info: Some(ImmInfo::D8) },
        0xD7u8 => InstrEntry { name: "rst 10h", size: 1, info: None },
        0xD8u8 => InstrEntry { name: "ret c", size: 1, info: None },
        0xD9u8 => InstrEntry { name: "reti", size: 1, info: None },
        0xDAu8 => InstrEntry { name: "jp c a16", size: 3, info: Some(ImmInfo::A16) },
        0xDBu8 => InstrEntry { name: "???", size: 1, info: None },
        0xDCu8 => InstrEntry { name: "call c a16", size: 3, info: Some(ImmInfo::A16) },
        0xDDu8 => InstrEntry { name: "???", size: 1, info: None },
        0xDEu8 => InstrEntry { name: "sbc a d8", size: 2, info: Some(ImmInfo::D8) },
        0xDFu8 => InstrEntry { name: "rst 18h", size: 1, info: None },
        0xE0u8 => InstrEntry { name: "ldh (a8) a", size: 2, info: Some(ImmInfo::A8) },
        0xE1u8 => InstrEntry { name: "pop hl", size: 1, info: None },
        0xE2u8 => InstrEntry { name: "ld (c) a", size: 1, info: None },
        0xE3u8 => InstrEntry { name: "???", size: 1, info: None },
        0xE4u8 => InstrEntry { name: "???", size: 1, info: None },
        0xE5u8 => InstrEntry { name: "push hl", size: 1, info: None },
        0xE6u8 => InstrEntry { name: "and d8", size: 2, info: Some(ImmInfo::D8) },
        0xE7u8 => InstrEntry { name: "rst 20h", size: 1, info: None },
        0xE8u8 => InstrEntry { name: "add sp r8", size: 2, info: Some(ImmInfo::R8) },
        0xE9u8 => InstrEntry { name: "jp (hl)", size: 1, info: None },
        0xEAu8 => InstrEntry { name: "ld (a16) a", size: 3, info: Some(ImmInfo::A16) },
        0xEBu8 => InstrEntry { name: "???", size: 1, info: None },
        0xECu8 => InstrEntry { name: "???", size: 1, info: None },
        0xEDu8 => InstrEntry { name: "???", size: 1, info: None },
        0xEEu8 => InstrEntry { name: "xor d8", size: 2, info: Some(ImmInfo::D8) },
        0xEFu8 => InstrEntry { name: "rst 28h", size: 1, info: None },
        0xF0u8 => InstrEntry { name: "ldh a (a8)", size: 2, info: Some(ImmInfo::A8) },
        0xF1u8 => InstrEntry { name: "pop af", size: 1, info: None },
        0xF2u8 => InstrEntry { name: "ld a (c)", size: 1, info: None },
        0xF3u8 => InstrEntry { name: "di", size: 1, info: None },
        0xF4u8 => InstrEntry { name: "???", size: 1, info: None },
        0xF5u8 => InstrEntry { name: "push af", size: 1, info: None },
        0xF6u8 => InstrEntry { name: "or d8", size: 2, info: Some(ImmInfo::D8) },
        0xF7u8 => InstrEntry { name: "rst 30h", size: 1, info: None },
        0xF8u8 => InstrEntry { name: "ld hl sp+r8", size: 2, info: Some(ImmInfo::R8) },
        0xF9u8 => InstrEntry { name: "ld sp hl", size: 1, info: None },
        0xFAu8 => InstrEntry { name: "ld a (a16)", size: 3, info: Some(ImmInfo::A16) },
        0xFBu8 => InstrEntry { name: "ei", size: 1, info: None },
        0xFCu8 => InstrEntry { name: "???", size: 1, info: None },
        0xFDu8 => InstrEntry { name: "???", size: 1, info: None },
        0xFEu8 => InstrEntry { name: "cp d8", size: 2, info: Some(ImmInfo::D8) },
        _ => InstrEntry { name: "rst 38h", size: 1, info: None },
    }
}

/// The entry of the instruction with opcode `op`.
pub fn instr_entry(op: u8) -> (e: InstrEntry)
    ensures
        e == instr_entry_spec(op),
{
    match op {
        0x00u8 => InstrEntry { name: "nop", size: 1, info: None },
        0x01u8 => InstrEntry { name: "ld bc d16", size: 3, info: Some(ImmInfo::D16) },
        0x02u8 => InstrEntry { name: "ld (bc) a", size: 1, info: None },
        0x03u8 => InstrEntry { name: "inc bc", size: 1, info: None },
        0x04u8 => InstrEntry { name: "inc b", size: 1, info: None },
        0x05u8 => InstrEntry { name: "dec b", size: 1, info: None },
        0x06u8 => InstrEntry { name: "ld b d8", size: 2, info: Some(ImmInfo::D8) },
        0x07u8 => InstrEntry { name: "rlca", size: 1, info: None },
        0x08u8 => InstrEntry { name: "ld (a16) sp", size: 3, info: Some(ImmInfo::A16) },
        0x09u8 => InstrEntry { name: "add hl bc", size: 1, info: None },
        0x0Au8 => InstrEntry { name: "ld a (bc)", size: 1, info: None },
        0x0Bu8 => InstrEntry { name: "dec bc", size: 1, info: None },
        0x0Cu8 => InstrEntry { name: "inc c", size: 1, info: None },
        0x0Du8 => InstrEntry { name: "dec c", size: 1, info: None },
        0x0Eu8 => InstrEntry { name: "ld c d8", size: 2, info: Some(ImmInfo::D8) },
        0x0Fu8 => InstrEntry { name: "rrca", size: 1, info: None },
        0x10u8 => InstrEntry { name: "stop", size: 2, info: None },
        0x11u8 => InstrEntry { name: "ld de d16", size: 3, info: Some(ImmInfo::D16) },
        0x12u8 => InstrEntry { name: "ld (de) a", size: 1, info: None },
        0x13u8 => InstrEntry { name: "inc de", size: 1, info: None },
        0x14u8 => InstrEntry { name: "inc d", size: 1, info: None },
        0x15u8 => InstrEntry { name: "dec d", size: 1, info: None },
        0x16u8 => InstrEntry { name: "ld d d8", size: 2, info: Some(ImmInfo::D8) },
        0x17u8 => InstrEntry { name: "rla", size: 1, info: None },
        0x18u8 => InstrEntry { name: "jr r8", size: 2, info: Some(ImmInfo::R8) },
        0x19u8 => InstrEntry { name: "add hl de", size: 1, info: None },
        0x1Au8 => InstrEntry { name: "ld a (de)", size: 1, info: None },
        0x1Bu8 => InstrEntry { name: "dec de", size: 1, info: None },
        0x1Cu8 => InstrEntry { name: "inc e", size: 1, info: None },
        0x1Du8 => InstrEntry { name: "dec e", size: 1, info: None },
        0x1Eu8 => InstrEntry { name: "ld e d8", size: 2, info: Some(ImmInfo::D8) },
        0x1Fu8 => InstrEntry { name: "rra", size: 1, info: None },
        0x20u8 => InstrEntry { name: "jr nz r8", size: 2, info: Some(ImmInfo::R8) },
        0x21u8 => InstrEntry { name: "ld hl d16", size: 3, info: Some(ImmInfo::D16) },
        0x22u8 => InstrEntry { name: "ld (hl+) a", size: 1, info: None },
        0x23u8 => InstrEntry { name: "inc hl", size: 1, info: None },
        0x24u8 => InstrEntry { name: "inc h", size: 1, info: None },
        0x25u8 => InstrEntry { name: "dec h", size: 1, info: None },
        0x26u8 => InstrEntry { name: "ld h d8", size: 2, info: Some(ImmInfo::D8) },
        0x27u8 => InstrEntry { name: "daa", size: 1, info: None },
        0x28u8 => InstrEntry { name: "jr z r8", size: 2, info: Some(ImmInfo::R8) },
        0x29u8 => InstrEntry { name: "add hl hl", size: 1, info: None },
        0x2Au8 => InstrEntry { name: "ld a (hl+)", size: 1, info: None },
        0x2Bu8 => InstrEntry { name: "dec hl", size: 1, info: None },
        0x2Cu8 => InstrEntry { name: "inc l", size: 1, info: None },
        0x2Du8 => InstrEntry { name: "dec l", size: 1, info: None },
        0x2Eu8 => InstrEntry { name: "ld l d8", size: 2, info: Some(ImmInfo::D8) },
        0x2Fu8 => InstrEntry { name: "cpl", size: 1, info: None },
        0x30u8 => InstrEntry { name: "jr nc r8", size: 2, info: Some(ImmInfo::R8) },
        0x31u8 => InstrEntry { name: "ld sp d16", size: 3, info: Some(ImmInfo::D16) },
        0x32u8 => InstrEntry { name: "ld (hl-) a", size: 1, info: None },
        0x33u8 => InstrEntry { name: "inc sp", size: 1, info: None },
        0x34u8 => InstrEntry { name: "inc (hl)", size: 1, info: None },
        0x35u8 => InstrEntry { name: "dec (hl)", size: 1, info: None },
        0x36u8 => InstrEntry { name: "ld (hl) d8", size: 2, info: Some(ImmInfo::D8) },
        0x37u8 => InstrEntry { name: "scf", size: 1, info: None },
        0x38u8 => InstrEntry { name: "jr c r8", size: 2, info: Some(ImmInfo::R8) },
        0x39u8 => InstrEntry { name: "add hl sp", size: 1, info: None },
        0x3Au8 => InstrEntry { name: "ld a (hl-)", size: 1, info: None },
        0x3Bu8 => InstrEntry { name: "dec sp", size: 1, info: None },
        0x3Cu8 => InstrEntry { name: "inc a", size: 1, info: None },
        0x3Du8 => InstrEntry { name: "dec a", size: 1, info: None },
        0x3Eu8 => InstrEntry { name: "ld a d8", size: 2, info: Some(ImmInfo::D8) },
        0x3Fu8 => InstrEntry { name: "ccf", size: 1, info: None },
        0x40u8 => InstrEntry { name: "ld b b", size: 1, info: None },
        0x41u8 => InstrEntry { name: "ld b c", size: 1, info: None },
        0x42u8 => InstrEntry { name: "ld b d", size: 1, info: None },
        0x43u8 => InstrEntry { name: "ld b e", size: 1, info: None },
        0x44u8 => InstrEntry { name: "ld b h", size: 1, info: None },
        0x45u8 => InstrEntry { name: "ld b l", size: 1, info: None },
        0x46u8 => InstrEntry { name: "ld b (hl)", size: 1, info: None },
        0x47u8 => InstrEntry { name: "ld b a", size: 1, info: None },
        0x48u8 => InstrEntry { name: "ld c b", size: 1, info: None },
        0x49u8 => InstrEntry { name: "ld c c", size: 1, info: None },
        0x4Au8 => InstrEntry { name: "ld c d", size: 1, info: None },
        0x4Bu8 => InstrEntry { name: "ld c e", size: 1, info: None },
        0x4Cu8 => InstrEntry { name: "ld c h", size: 1, info: None },
        0x4Du8 => InstrEntry { name: "ld c l", size: 1, info: None },
        0x4Eu8 => InstrEntry { name: "ld c (hl)", size: 1, info: None },
        0x4Fu8 => InstrEntry { name: "ld c a", size: 1, info: None },
        0x50u8 => InstrEntry { name: "ld d b", size: 1, info: None },
        0x51u8 => InstrEntry { name: "ld d c", size: 1, info: None },
        0x52u8 => InstrEntry { name: "ld d d", size: 1, info: None },
        0x53u8 => InstrEntry { name: "ld d e", size: 1, info: None },
        0x54u8 => InstrEntry { name: "ld d h", size: 1, info: None },
        0x55u8 => InstrEntry { name: "ld d l", size: 1, info: None },
        0x56u8 => InstrEntry { name: "ld d (hl)", size: 1, info: None },
        0x57u8 => InstrEntry { name: "ld d a", size: 1, info: None },
        0x58u8 => InstrEntry { name: "ld e b", size: 1, info: None },
        0x59u8 => InstrEntry { name: "ld e c", size: 1, info: None },
        0x5Au8 => InstrEntry { name: "ld e d", size: 1, info: None },
        0x5Bu8 => InstrEntry { name: "ld e e", size: 1, info: None },
        0x5Cu8 => InstrEntry { name: "ld e h", size: 1, info: None },
        0x5Du8 => InstrEntry { name: "ld e l", size: 1, info: None },
        0x5Eu8 => InstrEntry { name: "ld e (hl)", size: 1, info: None },
        0x5Fu8 => InstrEntry { name: "ld e a", size: 1, info: None },
        0x60u8 => InstrEntry { name: "ld h b", size: 1, info: None },
        0x61u8 => InstrEntry { name: "ld h c", size: 1, info: None },
        0x62u8 => InstrEntry { name: "ld h d", size: 1, info: None },
        0x63u8 => InstrEntry { name: "ld h e", size: 1, info: None },
        0x64u8 => InstrEntry { name: "ld h h", size: 1, info: None },
        0x65u8 => InstrEntry { name: "ld h l", size: 1, info: None },
        0x66u8 => InstrEntry { name: "ld h (hl)", size: 1, info: None },
        0x67u8 => InstrEntry { name: "ld h a", size: 1, info: None },
        0x68u8 => InstrEntry { name: "ld l b", size: 1, info: None },
        0x69u8 => InstrEntry { name: "ld l c", size: 1, info: None },
        0x6Au8 => InstrEntry { name: "ld l d", size: 1, info: None },
        0x6Bu8 => InstrEntry { name: "ld l e", size: 1, info: None },
        0x6Cu8 => InstrEntry { name: "ld l h", size: 1, info: None },
        0x6Du8 => InstrEntry { name: "ld l l", size: 1, info: None },
        0x6Eu8 => InstrEntry { name: "ld l (hl)", size: 1, info: None },
        0x6Fu8 => InstrEntry { name: "ld l a", size: 1, info: None },
        0x70u8 => InstrEntry { name: "ld (hl) b", size: 1, info: None },
        0x71u8 => InstrEntry { name: "ld (hl) c", size: 1, info: None },
        0x72u8 => InstrEntry { name: "ld (hl) d", size: 1, info: None },
        0x73u8 => InstrEntry { name: "ld (hl) e", size: 1, info: None },
        0x74u8 => InstrEntry { name: "ld (hl) h", size: 1, info: None },
        0x75u8 => InstrEntry { name: "ld (hl) l", size: 1, info: None },
        0x76u8 => InstrEntry { name: "halt", size: 1, info: None },
        0x77u8 => InstrEntry { name: "ld (hl) a", size: 1, info: None },
        0x78u8 => InstrEntry { name: "ld a b", size: 1, info: None },
        0x79u8 => InstrEntry { name: "ld a c", size: 1, info: None },
        0x7Au8 => InstrEntry { name: "ld a d", size: 1, info: None },
        0x7Bu8 => InstrEntry { name: "ld a e", size: 1, info: None },
        0x7Cu8 => InstrEntry { name: "ld a h", size: 1, info: None },
        0x7Du8 => InstrEntry { name: "ld a l", size: 1, info: None },
        0x7Eu8 => InstrEntry { name: "ld a (hl)", size: 1, info: None },
        0x7Fu8 => InstrEntry { name: "ld a a", size: 1, info: None },
        0x80u8 => InstrEntry { name: "add a b", size: 1, info: None },
        0x81u8 => InstrEntry { name: "add a c", size: 1, info: None },
        0x82u8 => InstrEntry { name: "add a d", size: 1, info: None },
        0x83u8 => InstrEntry { name: "add a e", size: 1, info: None },
        0x84u8 => InstrEntry { name: "add a h", size: 1, info: None },
        0x85u8 => InstrEntry { name: "add a l", size: 1, info: None },
        0x86u8 => InstrEntry { name: "add a (hl)", size: 1, info: None },
        0x87u8 => InstrEntry { name: "add a a", size: 1, info: None },
        0x88u8 => InstrEntry { name: "adc a b", size: 1, info: None },
        0x89u8 => InstrEntry { name: "adc a c", size: 1, info: None },
        0x8Au8 => InstrEntry { name: "adc a d", size: 1, info: None },
        0x8Bu8 => InstrEntry { name: "adc a e", size: 1, info: None },
        0x8Cu8 => InstrEntry { name: "adc a h", size: 1, info: None },
        0x8Du8 => InstrEntry { name: "adc a l", size: 1, info: None },
        0x8Eu8 => InstrEntry { name: "adc a (hl)", size: 1, info: None },
        0x8Fu8 => InstrEntry { name: "adc a a", size: 1, info: None },
        0x90u8 => InstrEntry { name: "sub b", size: 1, info: None },
        0x91u8 => InstrEntry { name: "sub c", size: 1, info: None },
        0x92u8 => InstrEntry { name: "sub d", size: 1, info: None },
        0x93u8 => InstrEntry { name: "sub e", size: 1, info: None },
        0x94u8 => InstrEntry { name: "sub h", size: 1, info: None },
        0x95u8 => InstrEntry { name: "sub l", size: 1, info: None },
        0x96u8 => InstrEntry { name: "sub (hl)", size: 1, info: None },
        0x97u8 => InstrEntry { name: "sub a", size: 1, info: None },
        0x98u8 => InstrEntry { name: "sbc a b", size: 1, info: None },
        0x99u8 => InstrEntry { name: "sbc a c", size: 1, info: None },
        0x9Au8 => InstrEntry { name: "sbc a d", size: 1, info: None },
        0x9Bu8 => InstrEntry { name: "sbc a e", size: 1, info: None },
        0x9Cu8 => InstrEntry { name: "sbc a h", size: 1, info: None },
        0x9Du8 => InstrEntry { name: "sbc a l", size: 1, info: None },
        0x9Eu8 => InstrEntry { name: "sbc a (hl)", size: 1, info: None },
        0x9Fu8 => InstrEntry { name: "sbc a a", size: 1, info: None },
        0xA0u8 => InstrEntry { name: "and b", size: 1, info: None },
        0xA1u8 => InstrEntry { name: "and c", size: 1, info: None },
        0xA2u8 => InstrEntry { name: "and d", size: 1, info: None },
        0xA3u8 => InstrEntry { name: "and e", size: 1, info: None },
        0xA4u8 => InstrEntry { name: "and h", size: 1, info: None },
        0xA5u8 => InstrEntry { name: "and l", size: 1, info: None },
        0xA6u8 => InstrEntry { name: "and (hl)", size: 1, info: None },
        0xA7u8 => InstrEntry { name: "and a", size: 1, info: None },
        0xA8u8 => InstrEntry { name: "xor b", size: 1, info: None },
        0xA9u8 => InstrEntry { name: "xor c", size: 1, info: None },
        0xAAu8 => InstrEntry { name: "xor d", size: 1, info: None },
        0xABu8 => InstrEntry { name: "xor e", size: 1, info: None },
        0xACu8 => InstrEntry { name: "xor h", size: 1, info: None },
        0xADu8 => InstrEntry { name: "xor l", size: 1, info: None },
        0xAEu8 => InstrEntry { name: "xor (hl)", size: 1, info: None },
        0xAFu8 => InstrEntry { name: "xor a", size: 1, info: None },
        0xB0u8 => InstrEntry { name: "or b", size: 1, info: None },
        0xB1u8 => InstrEntry { name: "or c", size: 1, info: None },
        0xB2u8 => InstrEntry { name: "or d", size: 1, info: None },
        0xB3u8 => InstrEntry { name: "or e", size: 1, info: None },
        0xB4u8 => InstrEntry { name: "or h", size: 1, info: None },
        0xB5u8 => InstrEntry { name: "or l", size: 1, info: None },
        0xB6u8 => InstrEntry { name: "or (hl)", size: 1, info: None },
        0xB7u8 => InstrEntry { name: "or a", size: 1, info: None },
        0xB8u8 => InstrEntry { name: "cp b", size: 1, info: None },
        0xB9u8 => InstrEntry { name: "cp c", size: 1, info: None },
        0xBAu8 => InstrEntry { name: "cp d", size: 1, info: None },
        0xBBu8 => InstrEntry { name: "cp e", size: 1, info: None },
        0xBCu8 => InstrEntry { name: "cp h", size: 1, info: None },
        0xBDu8 => InstrEntry { name: "cp l", size: 1, info: None },
        0xBEu8 => InstrEntry { name: "cp (hl)", size: 1, info: None },
        0xBFu8 => InstrEntry { name: "cp a", size: 1, info: None },
        0xC0u8 => InstrEntry { name: "req nz", size: 1, info: None },
        0xC1u8 => InstrEntry { name: "pop bc", size: 1, info: None },
        0xC2u8 => InstrEntry { name: "jp nz a16", size: 3, info: Some(ImmInfo::A16) },
        0xC3u8 => InstrEntry { name: "jp a16", size: 3, info: Some(ImmInfo::A16) },
        0xC4u8 => InstrEntry { name: "call nz a16", size: 3, info: Some(ImmInfo::A16) },
        0xC5u8 => InstrEntry { name: "push bc", size: 1, info: None },
        0xC6u8 => InstrEntry { name: "add a d8", size: 2, info: Some(ImmInfo::D8) },
        0xC7u8 => InstrEntry { name: "rst 00h", size: 1, info: None },
        0xC8u8 => InstrEntry { name: "ret z", size: 1, info: None },
        0xC9u8 => InstrEntry { name: "ret", size: 1, info: None },
        0xCAu8 => InstrEntry { name: "jp z a16", size: 3, info: Some(ImmInfo::A16) },
        0xCBu8 => InstrEntry { name: "prefix_cb", size: 1, info: None },
        0xCCu8 => InstrEntry { name: "call z a16", size: 3, info: Some(ImmInfo::A16) },
        0xCDu8 => InstrEntry { name: "call a16", size: 3, info: Some(ImmInfo::A16) },
        0xCEu8 => InstrEntry { name: "adc a d8", size: 2, info: Some(ImmInfo::D8) },
        0xCFu8 => InstrEntry { name: "rst 08h", size: 1, info: None },
        0xD0u8 => InstrEntry { name: "ret nc", size: 1, info: None },
        0xD1u8 => InstrEntry { name: "pop de", size: 1, info: None },
        0xD2u8 => InstrEntry { name: "jp nc a16", size: 3, info: Some(ImmInfo::A16) },
        0xD3u8 => InstrEntry { name: "???", size: 1, info: None },
        0xD4u8 => InstrEntry { name: "call nc a16", size: 3, info: Some(ImmInfo::A16) },
        0xD5u8 => InstrEntry { name: "push de", size: 1, info: None },
        0xD6u8 => InstrEntry { name: "sub d8", size: 2, info: Some(ImmInfo::D8) },
        0xD7u8 => InstrEntry { name: "rst 10h", size: 1, info: None },
        0xD8u8 => InstrEntry { name: "ret c", size: 1, info: None },
        0xD9u8 => InstrEntry { name: "reti", size: 1, info: None },
        0xDAu8 => InstrEntry { name: "jp c a16", size: 3, info: Some(ImmInfo::A16) },
        0xDBu8 => InstrEntry { name: "???", size: 1, info: None },
        0xDCu8 => InstrEntry { name: "call c a16", size: 3, info: Some(ImmInfo::A16) },
        0xDDu8 => InstrEntry { name: "???", size: 1, info: None },
        0xDEu8 => InstrEntry { name: "sbc a d8", size: 2, info: Some(ImmInfo::D8) },
        0xDFu8 => InstrEntry { name: "rst 18h", size: 1, info: None },
        0xE0u8 => InstrEntry { name: "ldh (a8) a", size: 2, info: Some(ImmInfo::A8) },
        0xE1u8 => InstrEntry { name: "pop hl", size: 1, info: None },
        0xE2u8 => InstrEntry { name: "ld (c) a", size: 1, info: None },
        0xE3u8 => InstrEntry { name: "???", size: 1, info: None },
        0xE4u8 => InstrEntry { name: "???", size: 1, info: None },
        0xE5u8 => InstrEntry { name: "push hl", size: 1, info: None },
        0xE6u8 => InstrEntry { name: "and d8", size: 2, info: Some(ImmInfo::D8) },
        0xE7u8 => InstrEntry { name: "rst 20h", size: 1, info: None },
        0xE8u8 => InstrEntry { name: "add sp r8", size: 2, info: Some(ImmInfo::R8) },
        0xE9u8 => InstrEntry { name: "jp (hl)", size: 1, info: None },
        0xEAu8 => InstrEntry { name: "ld (a16) a", size: 3, info: Some(ImmInfo::A16) },
        0xEBu8 => InstrEntry { name: "???", size: 1, info: None },
        0xECu8 => InstrEntry { name: "???", size: 1, info: None },
        0xEDu8 => InstrEntry { name: "???", size: 1, info: None },
        0xEEu8 => InstrEntry { name: "xor d8", size: 2, info: Some(ImmInfo::D8) },
        0xEFu8 => InstrEntry { name: "rst 28h", size: 1, info: None },
        0xF0u8 => InstrEntry { name: "ldh a (a8)", size: 2, info: Some(ImmInfo::A8) },
        0xF1u8 => InstrEntry { name: "pop af", size: 1, info: None },
        0xF2u8 => InstrEntry { name: "ld a (c)", size: 1, info: None },
        0xF3u8 => InstrEntry { name: "di", size: 1, info: None },
        0xF4u8 => InstrEntry { name: "???", size: 1, info: None },
        0xF5u8 => InstrEntry { name: "push af", size: 1, info: None },
        0xF6u8 => InstrEntry { name: "or d8", size: 2, info: Some(ImmInfo::D8) },
        0xF7u8 => InstrEntry { name: "rst 30h", size: 1, info: None },
        0xF8u8 => InstrEntry { name: "ld hl sp+r8", size: 2, info: Some(ImmInfo::R8) },
        0xF9u8 => InstrEntry { name: "ld sp hl", size: 1, info: None },
        0xFAu8 => InstrEntry { name: "ld a (a16)", size: 3, info: Some(ImmInfo::A16) },
        0xFBu8 => InstrEntry { name: "ei", size: 1, info: None },
        0xFCu8 => InstrEntry { name: "???", size: 1, info: None },
        0xFDu8 => InstrEntry { name: "???", size: 1, info: None },
        0xFEu8 => InstrEntry { name: "cp d8", size: 2, info: Some(ImmInfo::D8) },
        _ => InstrEntry { name: "rst 38h", size: 1, info: None },
    }
}

/// The entry of the instruction with opcode `$CB op`.
pub open spec fn instr_cb_entry_spec(op: u8) -> InstrEntry {
    match op {
        0x00u8 => InstrEntry { name: "rlc b", size: 2, info: None },
        0x01u8 => InstrEntry { name: "rlc c", size: 2, info: None },
        0x02u8 => InstrEntry { name: "rlc d", size: 2, info: None },
        0x03u8 => InstrEntry { name: "rlc e", size: 2, info: None },
        0x04u8 => InstrEntry { name: "rlc h", size: 2, info: None },
        0x05u8 => InstrEntry { name: "rlc l", size: 2, info: None },
        0x06u8 => InstrEntry { name: "rlc (hl)", size: 2, info: None },
        0x07u8 => InstrEntry { name: "rlc a", size: 2, info: None },
        0x08u8 => InstrEntry { name: "rrc b", size: 2, info: None },
        0x09u8 => InstrEntry { name: "rrc c", size: 2, info: None },
        0x0Au8 => InstrEntry { name: "rrc d", size: 2, info: None },
        0x0Bu8 => InstrEntry { name: "rrc e", size: 2, info: None },
        0x0Cu8 => InstrEntry { name: "rrc h", size: 2, info: None },
        0x0Du8 => InstrEntry { name: "rrc l", size: 2, info: None },
        0x0Eu8 => InstrEntry { name: "rrc (hl)", size: 2, info: None },
        0x0Fu8 => InstrEntry { name: "rrc a", size: 2, info: None },
        0x10u8 => InstrEntry { name: "rl b", size: 2, info: None },
        0x11u8 => InstrEntry { name: "rl c", size: 2, info: None },
        0x12u8 => InstrEntry { name: "rl d", size: 2, info: None },
        0x13u8 => InstrEntry { name: "rl e", size: 2, info: None },
        0x14u8 => InstrEntry { name: "rl h", size: 2, info: None },
        0x15u8 => InstrEntry { name: "rl l", size: 2, info: None },
        0x16u8 => InstrEntry { name: "rl (hl)", size: 2, info: None },
        0x17u8 => InstrEntry { name: "rl a", size: 2, info: None },
        0x18u8 => InstrEntry { name: "rr b", size: 2, info: None },
        0x19u8 => InstrEntry { name: "rr c", size: 2, info: None },
        0x1Au8 => InstrEntry { name: "rr d", size: 2, info: None },
        0x1Bu8 => InstrEntry { name: "rr e", size: 2, info: None },
        0x1Cu8 => InstrEntry { name: "rr h", size: 2, info: None },
        0x1Du8 => InstrEntry { name: "rr l", size: 2, info: None },
        0x1Eu8 => InstrEntry { name: "rr (hl)", size: 2, info: None },
        0x1Fu8 => InstrEntry { name: "rr a", size: 2, info: None },
        0x20u8 => InstrEntry { name: "sla b", size: 2, info: None },
        0x21u8 => InstrEntry { name: "sla c", size: 2, info: None },
        0x22u8 => InstrEntry { name: "sla d", size: 2, info: None },
        0x23u8 => InstrEntry { name: "sla e", size: 2, info: None },
        0x24u8 => InstrEntry { name: "sla h", size: 2, info: None },
        0x25u8 => InstrEntry { name: "sla l", size: 2, info: None },
        0x26u8 => InstrEntry { name: "sla (hl)", size: 2, info: None },
        0x27u8 => InstrEntry { name: "sla a", size: 2, info: None },
        0x28u8 => InstrEntry { name: "sra b", size: 2, info: None },
        0x29u8 => InstrEntry { name: "sra c", size: 2, info: None },
        0x2Au8 => InstrEntry { name: "sra d", size: 2, info: None },
        0x2Bu8 => InstrEntry { name: "sra e", size: 2, info: None },
        0x2Cu8 => InstrEntry { name: "sra h", size: 2, info: None },
        0x2Du8 => InstrEntry { name: "sra l", size: 2, info: None },
        0x2Eu8 => InstrEntry { name: "sra (hl)", size: 2, info: None },
        0x2Fu8 => InstrEntry { name: "sra a", size: 2, info: None },
        0x30u8 => InstrEntry { name: "swap b", size: 2, info: None },
        0x31u8 => InstrEntry { name: "swap c", size: 2, info: None },
        0x32u8 => InstrEntry { name: "swap d", size: 2, info: None },
        0x33u8 => InstrEntry { name: "swap e", size: 2, info: None },
        0x34u8 => InstrEntry { name: "swap h", size: 2, info: None },
        0x35u8 => InstrEntry { name: "swap l", size: 2, info: None },
        0x36u8 => InstrEntry { name: "swap (hl)", size: 2, info: None },
        0x37u8 => InstrEntry { name: "swap a", size: 2, info: None },
        0x38u8 => InstrEntry { name: "srl b", size: 2, info: None },
        0x39u8 => InstrEntry { name: "srl c", size: 2, info: None },
        0x3Au8 => InstrEntry { name: "srl d", size: 2, info: None },
        0x3Bu8 => InstrEntry { name: "srl e", size: 2, info: None },
        0x3Cu8 => InstrEntry { name: "srl h", size: 2, info: None },
        0x3Du8 => InstrEntry { name: "srl l", size: 2, info: None },
        0x3Eu8 => InstrEntry { name: "srl (hl)", size: 2, info: None },
        0x3Fu8 => InstrEntry { name: "srl a", size: 2, info: None },
        0x40u8 => InstrEntry { name: "bit 0 b", size: 2, info: None },
        0x41u8 => InstrEntry { name: "bit 0 c", size: 2, info: None },
        0x42u8 => InstrEntry { name: "bit 0 d", size: 2, info: None },
        0x43u8 => InstrEntry { name: "bit 0 e", size: 2, info: None },
        0x44u8 => InstrEntry { name: "bit 0 h", size: 2, info: None },
        0x45u8 => InstrEntry { name: "bit 0 l", size: 2, info: None },
        0x46u8 => InstrEntry { name: "bit 0 (hl)", size: 2, info: None },
        0x47u8 => InstrEntry { name: "bit 0 a", size: 2, info: None },
        0x48u8 => InstrEntry { name: "bit 1 b", size: 2, info: None },
        0x49u8 => InstrEntry { name: "bit 1 c", size: 2, info: None },
        0x4Au8 => InstrEntry { name: "bit 1 d", size: 2, info: None },
        0x4Bu8 => InstrEntry { name: "bit 1 e", size: 2, info: None },
        0x4Cu8 => InstrEntry { name: "bit 1 h", size: 2, info: None },
        0x4Du8 => InstrEntry { name: "bit 1 l", size: 2, info: None },
        0x4Eu8 => InstrEntry { name: "bit 1 (hl)", size: 2, info: None },
        0x4Fu8 => InstrEntry { name: "bit 1 a", size: 2, info: None },
        0x50u8 => InstrEntry { name: "bit 2 b", size: 2, info: None },
        0x51u8 => InstrEntry { name: "bit 2 c", size: 2, info: None },
        0x52u8 => InstrEntry { name: "bit 2 d", size: 2, info: None },
        0x53u8 => InstrEntry { name: "bit 2 e", size: 2, info: None },
        0x54u8 => InstrEntry { name: "bit 2 h", size: 2, info: None },
        0x55u8 => InstrEntry { name: "bit 2 l", size: 2, info: None },
        0x56u8 => InstrEntry { name: "bit 2 (hl)", size: 2, info: None },
        0x57u8 => InstrEntry { name: "bit 2 a", size: 2, info: None },
        0x58u8 => InstrEntry { name: "bit 3 b", size: 2, info: None },
        0x59u8 => InstrEntry { name: "bit 3 c", size: 2, info: None },
        0x5Au8 => InstrEntry { name: "bit 3 d", size: 2, info: None },
        0x5Bu8 => InstrEntry { name: "bit 3 e", size: 2, info: None },
        0x5Cu8 => InstrEntry { name: "bit 3 h", size: 2, info: None },
        0x5Du8 => InstrEntry { name: "bit 3 l", size: 2, info: None },
        0x5Eu8 => InstrEntry { name: "bit 3 (hl)", size: 2, info: None },
        0x5Fu8 => InstrEntry { name: "bit 3 a", size: 2, info: None },
        0x60u8 => InstrEntry { name: "bit 4 b", size: 2, info: None },
        0x61u8 => InstrEntry { name: "bit 4 c", size: 2, info: None },
        0x62u8 => InstrEntry { name: "bit 4 d", size: 2, info: None },
        0x63u8 => InstrEntry { name: "bit 4 e", size: 2, info: None },
        0x64u8 => InstrEntry { name: "bit 4 h", size: 2, info: None },
        0x65u8 => InstrEntry { name: "bit 4 l", size: 2, info: None },
        0x66u8 => InstrEntry { name: "bit 4 (hl)", size: 2, info: None },
        0x67u8 => InstrEntry { name: "bit 4 a", size: 2, info: None },
        0x68u8 => InstrEntry { name: "bit 5 b", size: 2, info: None },
        0x69u8 => InstrEntry { name: "bit 5 c", size: 2, info: None },
        0x6Au8 => InstrEntry { name: "bit 5 d", size: 2, info: None },
        0x6Bu8 => InstrEntry { name: "bit 5 e", size: 2, info: None },
        0x6Cu8 => InstrEntry { name: "bit 5 h", size: 2, info: None },
        0x6Du8 => InstrEntry { name: "bit 5 l", size: 2, info: None },
        0x6Eu8 => InstrEntry { name: "bit 5 (hl)", size: 2, info: None },
        0x6Fu8 => InstrEntry { name: "bit 5 a", size: 2, info: None },
        0x70u8 => InstrEntry { name: "bit 6 b", size: 2, info: None },
        0x71u8 => InstrEntry { name: "bit 6 c", size: 2, info: None },
        0x72u8 => InstrEntry { name: "bit 6 d", size: 2, info: None },
        0x73u8 => InstrEntry { name: "bit 6 e", size: 2, info: None },
        0x74u8 => InstrEntry { name: "bit 6 h", size: 2, info: None },
        0x75u8 => InstrEntry { name: "bit 6 l", size: 2, info: None },
        0x76u8 => InstrEntry { name: "bit 6 (hl)", size: 2, info: None },
        0x77u8 => InstrEntry { name: "bit 6 a", size: 2, info: None },
        0x78u8 => InstrEntry { name: "bit 7 b", size: 2, info: None },
        0x79u8 => InstrEntry { name: "bit 7 c", size: 2, info: None },
        0x7Au8 => InstrEntry { name: "bit 7 d", size: 2, info: None },
        0x7Bu8 => InstrEntry { name: "bit 7 e", size: 2, info: None },
        0x7Cu8 => InstrEntry { name: "bit 7 h", size: 2, info: None },
        0x7Du8 => InstrEntry { name: "bit 7 l", size: 2, info: None },
        0x7Eu8 => InstrEntry { name: "bit 7 (hl)", size: 2, info: None },
        0x7Fu8 => InstrEntry { name: "bit 7 a", size: 2, info: None },
        0x80u8 => InstrEntry { name: "res 0 b", size: 2, info: None },
        0x81u8 => InstrEntry { name: "res 0 c", size: 2, info: None },
        0x82u8 => InstrEntry { name: "res 0 d", size: 2, info: None },
        0x83u8 => InstrEntry { name: "res 0 e", size: 2, info: None },
        0x84u8 => InstrEntry { name: "res 0 h", size: 2, info: None },
        0x85u8 => InstrEntry { name: "res 0 l", size: 2, info: None },
        0x86u8 => InstrEntry { name: "res 0 (hl)", size: 2, info: None },
        0x87u8 => InstrEntry { name: "res 0 a", size: 2, info: None },
        0x88u8 => InstrEntry { name: "res 1 b", size: 2, info: None },
        0x89u8 => InstrEntry { name: "res 1 c", size: 2, info: None },
        0x8Au8 => InstrEntry { name: "res 1 d", size: 2, info: None },
        0x8Bu8 => InstrEntry { name: "res 1 e", size: 2, info: None },
        0x8Cu8 => InstrEntry { name: "res 1 h", size: 2, info: None },
        0x8Du8 => InstrEntry { name: "res 1 l", size: 2, info: None },
        0x8Eu8 => InstrEntry { name: "res 1 (hl)", size: 2, info: None },
        0x8Fu8 => InstrEntry { name: "res 1 a", size: 2, info: None },
        0x90u8 => InstrEntry { name: "res 2 b", size: 2, info: None },
        0x91u8 => InstrEntry { name: "res 2 c", size: 2, info: None },
        0x92u8 => InstrEntry { name: "res 2 d", size: 2, info: None },
        0x93u8 => InstrEntry { name: "res 2 e", size: 2, info: None },
        0x94u8 => InstrEntry { name: "res 2 h", size: 2, info: None },
        0x95u8 => InstrEntry { name: "res 2 l", size: 2, info: None },
        0x96u8 => InstrEntry { name: "res 2 (hl)", size: 2, info: None },
        0x97u8 => InstrEntry { name: "res 2 a", size: 2, info: None },
        0x98u8 => InstrEntry { name: "res 3 b", size: 2, info: None },
        0x99u8 => InstrEntry { name: "res 3 c", size: 2, info: None },
        0x9Au8 => InstrEntry { name: "res 3 d", size: 2, info: None },
        0x9Bu8 => InstrEntry { name: "res 3 e", size: 2, info: None },
        0x9Cu8 => InstrEntry { name: "res 3 h", size: 2, info: None },
        0x9Du8 => InstrEntry { name: "res 3 l", size: 2, info: None },
        0x9Eu8 => InstrEntry { name: "res 3 (hl)", size: 2, info: None },
        0x9Fu8 => InstrEntry { name: "res 3 a", size: 2, info: None },
        0xA0u8 => InstrEntry { name: "res 4 b", size: 2, info: None },
        0xA1u8 => InstrEntry { name: "res 4 c", size: 2, info: None },
        0xA2u8 => InstrEntry { name: "res 4 d", size: 2, info: None },
        0xA3u8 => InstrEntry { name: "res 4 e", size: 2, info: None },
        0xA4u8 => InstrEntry { name: "res 4 h", size: 2, info: None },
        0xA5u8 => InstrEntry { name: "res 4 l", size: 2, info: None },
        0xA6u8 => InstrEntry { name: "res 4 (hl)", size: 2, info: None },
        0xA7u8 => InstrEntry { name: "res 4 a", size: 2, info: None },
        0xA8u8 => InstrEntry { name: "res 5 b", size: 2, info: None },
        0xA9u8 => InstrEntry { name: "res 5 c", size: 2, info: None },
        0xAAu8 => InstrEntry { name: "res 5 d", size: 2, info: None },
        0xABu8 => InstrEntry { name: "res 5 e", size: 2, info: None },
        0xACu8 => InstrEntry { name: "res 5 h", size: 2, info: None },
        0xADu8 => InstrEntry { name: "res 5 l", size: 2, info: None },
        0xAEu8 => InstrEntry { name: "res 5 (hl)", size: 2, info: None },
        0xAFu8 => InstrEntry { name: "res 5 a", size: 2, info: None },
        0xB0u8 => InstrEntry { name: "res 6 b", size: 2, info: None },
        0xB1u8 => InstrEntry { name: "res 6 c", size: 2, info: None },
        0xB2u8 => InstrEntry { name: "res 6 d", size: 2, info: None },
        0xB3u8 => InstrEntry { name: "res 6 e", size: 2, info: None },
        0xB4u8 => InstrEntry { name: "res 6 h", size: 2, info: None },
        0xB5u8 => InstrEntry { name: "res 6 l", size: 2, info: None },
        0xB6u8 => InstrEntry { name: "res 6 (hl)", size: 2, info: None },
        0xB7u8 => InstrEntry { name: "res 6 a", size: 2, info: None },
        0xB8u8 => InstrEntry { name: "res 7 b", size: 2, info: None },
        0xB9u8 => InstrEntry { name: "res 7 c", size: 2, info: None },
        0xBAu8 => InstrEntry { name: "res 7 d", size: 2, info: None },
        0xBBu8 => InstrEntry { name: "res 7 e", size: 2, info: None },
        0xBCu8 => InstrEntry { name: "res 7 h", size: 2, info: None },
        0xBDu8 => InstrEntry { name: "res 7 l", size: 2, info: None },
        0xBEu8 => InstrEntry { name: "res 7 (hl)", size: 2, info: None },
        0xBFu8 => InstrEntry { name: "res 7 a", size: 2, info: None },
        0xC0u8 => InstrEntry { name: "set 0 b", size: 2, info: None },
        0xC1u8 => InstrEntry { name: "set 0 c", size: 2, info: None },
        0xC2u8 => InstrEntry { name: "set 0 d", size: 2, info: None },
        0xC3u8 => InstrEntry { name: "set 0 e", size: 2, info: None },
        0xC4u8 => InstrEntry { name: "set 0 h", size: 2, info: None },
        0xC5u8 => InstrEntry { name: "set 0 l", size: 2, info: None },
        0xC6u8 => InstrEntry { name: "set 0 (hl)", size: 2, info: None },
        0xC7u8 => InstrEntry { name: "set 0 a", size: 2, info: None },
        0xC8u8 => InstrEntry { name: "set 1 b", size: 2, info: None },
        0xC9u8 => InstrEntry { name: "set 1 c", size: 2, info: None },
        0xCAu8 => InstrEntry { name: "set 1 d", size: 2, info: None },
        0xCBu8 => InstrEntry { name: "set 1 e", size: 2, info: None },
        0xCCu8 => InstrEntry { name: "set 1 h", size: 2, info: None },
        0xCDu8 => InstrEntry { name: "set 1 l", size: 2, info: None },
        0xCEu8 => InstrEntry { name: "set 1 (hl)", size: 2, info: None },
        0xCFu8 => InstrEntry { name: "set 1 a", size: 2, info: None },
        0xD0u8 => InstrEntry { name: "set 2 b", size: 2, info: None },
        0xD1u8 => InstrEntry { name: "set 2 c", size: 2, info: None },
        0xD2u8 => InstrEntry { name: "set 2 d", size: 2, info: None },
        0xD3u8 => InstrEntry { name: "set 2 e", size: 2, info: None },
        0xD4u8 => InstrEntry { name: "set 2 h", size: 2, info: None },
        0xD5u8 => InstrEntry { name: "set 2 l", size: 2, info: None },
        0xD6u8 => InstrEntry { name: "set 2 (hl)", size: 2, info: None },
        0xD7u8 => InstrEntry { name: "set 2 a", size: 2, info: None },
        0xD8u8 => InstrEntry { name: "set 3 b", size: 2, info: None },
        0xD9u8 => InstrEntry { name: "set 3 c", size: 2, info: None },
        0xDAu8 => InstrEntry { name: "set 3 d", size: 2, info: None },
        0xDBu8 => InstrEntry { name: "set 3 e", size: 2, info: None },
        0xDCu8 => InstrEntry { name: "set 3 h", size: 2, info: None },
        0xDDu8 => InstrEntry { name: "set 3 l", size: 2, info: None },
        0xDEu8 => InstrEntry { name: "set 3 (hl)", size: 2, info: None },
        0xDFu8 => InstrEntry { name: "set 3 a", size: 2, info: None },
        0xE0u8 => InstrEntry { name: "set 4 b", size: 2, info: None },
        0xE1u8 => InstrEntry { name: "set 4 c", size: 2, info: None },
        0xE2u8 => InstrEntry { name: "set 4 d", size: 2, info: None },
        0xE3u8 => InstrEntry { name: "set 4 e", size: 2, info: None },
        0xE4u8 => InstrEntry { name: "set 4 h", size: 2, info: None },
        0xE5u8 => InstrEntry { name: "set 4 l", size: 2, info: None },
        0xE6u8 => InstrEntry { name: "set 4 (hl)", size: 2, info: None },
        0xE7u8 => InstrEntry { name: "set 4 a", size: 2, info: None },
        0xE8u8 => InstrEntry { name: "set 5 b", size: 2, info: None },
        0xE9u8 => InstrEntry { name: "set 5 c", size: 2, info: None },
        0xEAu8 => InstrEntry { name: "set 5 d", size: 2, info: None },
        0xEBu8 => InstrEntry { name: "set 5 e", size: 2, info: None },
        0xECu8 => InstrEntry { name: "set 5 h", size: 2, info: None },
        0xEDu8 => InstrEntry { name: "set 5 l", size: 2, info: None },
        0xEEu8 => InstrEntry { name: "set 5 (hl)", size: 2, info: None },
        0xEFu8 => InstrEntry { name: "set 5 a", size: 2, info: None },
        0xF0u8 => InstrEntry { name: "set 6 b", size: 2, info: None },
        0xF1u8 => InstrEntry { name: "set 6 c", size: 2, info: None },
        0xF2u8 => InstrEntry { name: "set 6 d", size: 2, info: None },
        0xF3u8 => InstrEntry { name: "set 6 e", size: 2, info: None },
        0xF4u8 => InstrEntry { name: "set 6 h", size: 2, info: None },
        0xF5u8 => InstrEntry { name: "set 6 l", size: 2, info: None },
        0xF6u8 => InstrEntry { name: "set 6 (hl)", size: 2, info: None },
        0xF7u8 => InstrEntry { name: "set 6 a", size: 2, info: None },
        0xF8u8 => InstrEntry { name: "set 7 b", size: 2, info: None },
        0xF9u8 => InstrEntry { name: "set 7 c", size: 2, info: None },
        0xFAu8 => InstrEntry { name: "set 7 d", size: 2, info: None },
        0xFBu8 => InstrEntry { name: "set 7 e", size: 2, info: None },
        0xFCu8 => InstrEntry { name: "set 7 h", size: 2, info: None },
        0xFDu8 => InstrEntry { name: "set 7 l", size: 2, info: None },
        0xFEu8 => InstrEntry { name: "set 7 (hl)", size: 2, info: None },
        _ => InstrEntry { name: "set 7 a", size: 2, info: None },
    }
}

/// The entry of the instruction with opcode `$CB op`.
pub fn instr_cb_entry(op: u8) -> (e: InstrEntry)
    ensures
        e == instr_cb_entry_spec(op),
{
    match op {
        0x00u8 => InstrEntry { name: "rlc b", size: 2, info: None },
        0x01u8 => InstrEntry { name: "rlc c", size: 2, info: None },
        0x02u8 => InstrEntry { name: "rlc d", size: 2, info: None },
        0x03u8 => InstrEntry { name: "rlc e", size: 2, info: None },
        0x04u8 => InstrEntry { name: "rlc h", size: 2, info: None },
        0x05u8 => InstrEntry { name: "rlc l", size: 2, info: None },
        0x06u8 => InstrEntry { name: "rlc (hl)", size: 2, info: None },
        0x07u8 => InstrEntry { name: "rlc a", size: 2, info: None },
        0x08u8 => InstrEntry { name: "rrc b", size: 2, info: None },
        0x09u8 => InstrEntry { name: "rrc c", size: 2, info: None },
        0x0Au8 => InstrEntry { name: "rrc d", size: 2, info: None },
        0x0Bu8 => InstrEntry { name: "rrc e", size: 2, info: None },
        0x0Cu8 => InstrEntry { name: "rrc h", size: 2, info: None },
        0x0Du8 => InstrEntry { name: "rrc l", size: 2, info: None },
        0x0Eu8 => InstrEntry { name: "rrc (hl)", size: 2, info: None },
        0x0Fu8 => InstrEntry { name: "rrc a", size: 2, info: None },
        0x10u8 => InstrEntry { name: "rl b", size: 2, info: None },
        0x11u8 => InstrEntry { name: "rl c", size: 2, info: None },
        0x12u8 => InstrEntry { name: "rl d", size: 2, info: None },
        0x13u8 => InstrEntry { name: "rl e", size: 2, info: None },
        0x14u8 => InstrEntry { name: "rl h", size: 2, info: None },
        0x15u8 => InstrEntry { name: "rl l", size: 2, info: None },
        0x16u8 => InstrEntry { name: "rl (hl)", size: 2, info: None },
        0x17u8 => InstrEntry { name: "rl a", size: 2, info: None },
        0x18u8 => InstrEntry { name: "rr b", size: 2, info: None },
        0x19u8 => InstrEntry { name: "rr c", size: 2, info: None },
        0x1Au8 => InstrEntry { name: "rr d", size: 2, info: None },
        0x1Bu8 => InstrEntry { name: "rr e", size: 2, info: None },
        0x1Cu8 => InstrEntry { name: "rr h", size: 2, info: None },
        0x1Du8 => InstrEntry { name: "rr l", size: 2, info: None },
        0x1Eu8 => InstrEntry { name: "rr (hl)", size: 2, info: None },
        0x1Fu8 => InstrEntry { name: "rr a", size: 2, info: None },
        0x20u8 => InstrEntry { name: "sla b", size: 2, info: None },
        0x21u8 => InstrEntry { name: "sla c", size: 2, info: None },
        0x22u8 => InstrEntry { name: "sla d", size: 2, info: None },
        0x23u8 => InstrEntry { name: "sla e", size: 2, info: None },
        0x24u8 => InstrEntry { name: "sla h", size: 2, info: None },
        0x25u8 => InstrEntry { name: "sla l", size: 2, info: None },
        0x26u8 => InstrEntry { name: "sla (hl)", size: 2, info: None },
        0x27u8 => InstrEntry { name: "sla a", size: 2, info: None },
        0x28u8 => InstrEntry { name: "sra b", size: 2, info: None },
        0x29u8 => InstrEntry { name: "sra c", size: 2, info: None },
        0x2Au8 => InstrEntry { name: "sra d", size: 2, info: None },
        0x2Bu8 => InstrEntry { name: "sra e", size: 2, info: None },
        0x2Cu8 => InstrEntry { name: "sra h", size: 2, info: None },
        0x2Du8 => InstrEntry { name: "sra l", size: 2, info: None },
        0x2Eu8 => InstrEntry { name: "sra (hl)", size: 2, info: None },
        0x2Fu8 => InstrEntry { name: "sra a", size: 2, info: None },
        0x30u8 => InstrEntry { name: "swap b", size: 2, info: None },
        0x31u8 => InstrEntry { name: "swap c", size: 2, info: None },
        0x32u8 => InstrEntry { name: "swap d", size: 2, info: None },
        0x33u8 => InstrEntry { name: "swap e", size: 2, info: None },
        0x34u8 => InstrEntry { name: "swap h", size: 2, info: None },
        0x35u8 => InstrEntry { name: "swap l", size: 2, info: None },
        0x36u8 => InstrEntry { name: "swap (hl)", size: 2, info: None },
        0x37u8 => InstrEntry { name: "swap a", size: 2, info: None },
        0x38u8 => InstrEntry { name: "srl b", size: 2, info: None },
        0x39u8 => InstrEntry { name: "srl c", size: 2, info: None },
        0x3Au8 => InstrEntry { name: "srl d", size: 2, info: None },
        0x3Bu8 => InstrEntry { name: "srl e", size: 2, info: None },
        0x3Cu8 => InstrEntry { name: "srl h", size: 2, info: None },
        0x3Du8 => InstrEntry { name: "srl l", size: 2, info: None },
        0x3Eu8 => InstrEntry { name: "srl (hl)", size: 2, info: None },
        0x3Fu8 => InstrEntry { name: "srl a", size: 2, info: None },
        0x40u8 => InstrEntry { name: "bit 0 b", size: 2, info: None },
        0x41u8 => InstrEntry { name: "bit 0 c", size: 2, info: None },
        0x42u8 => InstrEntry { name: "bit 0 d", size: 2, info: None },
        0x43u8 => InstrEntry { name: "bit 0 e", size: 2, info: None },
        0x44u8 => InstrEntry { name: "bit 0 h", size: 2, info: None },
        0x45u8 => InstrEntry { name: "bit 0 l", size: 2, info: None },
        0x46u8 => InstrEntry { name: "bit 0 (hl)", size: 2, info: None },
        0x47u8 => InstrEntry { name: "bit 0 a", size: 2, info: None },
        0x48u8 => InstrEntry { name: "bit 1 b", size: 2, info: None },
        0x49u8 => InstrEntry { name: "bit 1 c", size: 2, info: None },
        0x4Au8 => InstrEntry { name: "bit 1 d", size: 2, info: None },
        0x4Bu8 => InstrEntry { name: "bit 1 e", size: 2, info: None },
        0x4Cu8 => InstrEntry { name: "bit 1 h", size: 2, info: None },
        0x4Du8 => InstrEntry { name: "bit 1 l", size: 2, info: None },
        0x4Eu8 => InstrEntry { name: "bit 1 (hl)", size: 2, info: None },
        0x4Fu8 => InstrEntry { name: "bit 1 a", size: 2, info: None },
        0x50u8 => InstrEntry { name: "bit 2 b", size: 2, info: None },
        0x51u8 => InstrEntry { name: "bit 2 c", size: 2, info: None },
        0x52u8 => InstrEntry { name: "bit 2 d", size: 2, info: None },
        0x53u8 => InstrEntry { name: "bit 2 e", size: 2, info: None },
        0x54u8 => InstrEntry { name: "bit 2 h", size: 2, info: None },
        0x55u8 => InstrEntry { name: "bit 2 l", size: 2, info: None },
        0x56u8 => InstrEntry { name: "bit 2 (hl)", size: 2, info: None },
        0x57u8 => InstrEntry { name: "bit 2 a", size: 2, info: None },
        0x58u8 => InstrEntry { name: "bit 3 b", size: 2, info: None },
        0x59u8 => InstrEntry { name: "bit 3 c", size: 2, info: None },
        0x5Au8 => InstrEntry { name: "bit 3 d", size: 2, info: None },
        0x5Bu8 => InstrEntry { name: "bit 3 e", size: 2, info: None },
        0x5Cu8 => InstrEntry { name: "bit 3 h", size: 2, info: None },
        0x5Du8 => InstrEntry { name: "bit 3 l", size: 2, info: None },
        0x5Eu8 => InstrEntry { name: "bit 3 (hl)", size: 2, info: None },
        0x5Fu8 => InstrEntry { name: "bit 3 a", size: 2, info: None },
        0x60u8 => InstrEntry { name: "bit 4 b", size: 2, info: None },
        0x61u8 => InstrEntry { name: "bit 4 c", size: 2, info: None },
        0x62u8 => InstrEntry { name: "bit 4 d", size: 2, info: None },
        0x63u8 => InstrEntry { name: "bit 4 e", size: 2, info: None },
        0x64u8 => InstrEntry { name: "bit 4 h", size: 2, info: None },
        0x65u8 => InstrEntry { name: "bit 4 l", size: 2, info: None },
        0x66u8 => InstrEntry { name: "bit 4 (hl)", size: 2, info: None },
        0x67u8 => InstrEntry { name: "bit 4 a", size: 2, info: None },
        0x68u8 => InstrEntry { name: "bit 5 b", size: 2, info: None },
        0x69u8 => InstrEntry { name: "bit 5 c", size: 2, info: None },
        0x6Au8 => InstrEntry { name: "bit 5 d", size: 2, info: None },
        0x6Bu8 => InstrEntry { name: "bit 5 e", size: 2, info: None },
        0x6Cu8 => InstrEntry { name: "bit 5 h", size: 2, info: None },
        0x6Du8 => InstrEntry { name: "bit 5 l", size: 2, info: None },
        0x6Eu8 => InstrEntry { name: "bit 5 (hl)", size: 2, info: None },
        0x6Fu8 => InstrEntry { name: "bit 5 a", size: 2, info: None },
        0x70u8 => InstrEntry { name: "bit 6 b", size: 2, info: None },
        0x71u8 => InstrEntry { name: "bit 6 c", size: 2, info: None },
        0x72u8 => InstrEntry { name: "bit 6 d", size: 2, info: None },
        0x73u8 => InstrEntry { name: "bit 6 e", size: 2, info: None },
        0x74u8 => InstrEntry { name: "bit 6 h", size: 2, info: None },
        0x75u8 => InstrEntry { name: "bit 6 l", size: 2, info: None },
        0x76u8 => InstrEntry { name: "bit 6 (hl)", size: 2, info: None },
        0x77u8 => InstrEntry { name: "bit 6 a", size: 2, info: None },
        0x78u8 => InstrEntry { name: "bit 7 b", size: 2, info: None },
        0x79u8 => InstrEntry { name: "bit 7 c", size: 2, info: None },
        0x7Au8 => InstrEntry { name: "bit 7 d", size: 2, info: None },
        0x7Bu8 => InstrEntry { name: "bit 7 e", size: 2, info: None },
        0x7Cu8 => InstrEntry { name: "bit 7 h", size: 2, info: None },
        0x7Du8 => InstrEntry { name: "bit 7 l", size: 2, info: None },
        0x7Eu8 => InstrEntry { name: "bit 7 (hl)", size: 2, info: None },
        0x7Fu8 => InstrEntry { name: "bit 7 a", size: 2, info: None },
        0x80u8 => InstrEntry { name: "res 0 b", size: 2, info: None },
        0x81u8 => InstrEntry { name: "res 0 c", size: 2, info: None },
        0x82u8 => InstrEntry { name: "res 0 d", size: 2, info: None },
        0x83u8 => InstrEntry { name: "res 0 e", size: 2, info: None },
        0x84u8 => InstrEntry { name: "res 0 h", size: 2, info: None },
        0x85u8 => InstrEntry { name: "res 0 l", size: 2, info: None },
        0x86u8 => InstrEntry { name: "res 0 (hl)", size: 2, info: None },
        0x87u8 => InstrEntry { name: "res 0 a", size: 2, info: None },
        0x88u8 => InstrEntry { name: "res 1 b", size: 2, info: None },
        0x89u8 => InstrEntry { name: "res 1 c", size: 2, info: None },
        0x8Au8 => InstrEntry { name: "res 1 d", size: 2, info: None },
        0x8Bu8 => InstrEntry { name: "res 1 e", size: 2, info: None },
        0x8Cu8 => InstrEntry { name: "res 1 h", size: 2, info: None },
        0x8Du8 => InstrEntry { name: "res 1 l", size: 2, info: None },
        0x8Eu8 => InstrEntry { name: "res 1 (hl)", size: 2, info: None },
        0x8Fu8 => InstrEntry { name: "res 1 a", size: 2, info: None },
        0x90u8 => InstrEntry { name: "res 2 b", size: 2, info: None },
        0x91u8 => InstrEntry { name: "res 2 c", size: 2, info: None },
        0x92u8 => InstrEntry { name: "res 2 d", size: 2, info: None },
        0x93u8 => InstrEntry { name: "res 2 e", size: 2, info: None },
        0x94u8 => InstrEntry { name: "res 2 h", size: 2, info: None },
        0x95u8 => InstrEntry { name: "res 2 l", size: 2, info: None },
        0x96u8 => InstrEntry { name: "res 2 (hl)", size: 2, info: None },
        0x97u8 => InstrEntry { name: "res 2 a", size: 2, info: None },
        0x98u8 => InstrEntry { name: "res 3 b", size: 2, info: None },
        0x99u8 => InstrEntry { name: "res 3 c", size: 2, info: None },
        0x9Au8 => InstrEntry { name: "res 3 d", size: 2, info: None },
        0x9Bu8 => InstrEntry { name: "res 3 e", size: 2, info: None },
        0x9Cu8 => InstrEntry { name: "res 3 h", size: 2, info: None },
        0x9Du8 => InstrEntry { name: "res 3 l", size: 2, info: None },
        0x9Eu8 => InstrEntry { name: "res 3 (hl)", size: 2, info: None },
        0x9Fu8 => InstrEntry { name: "res 3 a", size: 2, info: None },
        0xA0u8 => InstrEntry { name: "res 4 b", size: 2, info: None },
        0xA1u8 => InstrEntry { name: "res 4 c", size: 2, info: None },
        0xA2u8 => InstrEntry { name: "res 4 d", size: 2, info: None },
        0xA3u8 => InstrEntry { name: "res 4 e", size: 2, info: None },
        0xA4u8 => InstrEntry { name: "res 4 h", size: 2, info: None },
        0xA5u8 => InstrEntry { name: "res 4 l", size: 2, info: None },
        0xA6u8 => InstrEntry { name: "res 4 (hl)", size: 2, info: None },
        0xA7u8 => InstrEntry { name: "res 4 a", size: 2, info: None },
        0xA8u8 => InstrEntry { name: "res 5 b", size: 2, info: None },
        0xA9u8 => InstrEntry { name: "res 5 c", size: 2, info: None },
        0xAAu8 => InstrEntry { name: "res 5 d", size: 2, info: None },
        0xABu8 => InstrEntry { name: "res 5 e", size: 2, info: None },
        0xACu8 => InstrEntry { name: "res 5 h", size: 2, info: None },
        0xADu8 => InstrEntry { name: "res 5 l", size: 2, info: None },
        0xAEu8 => InstrEntry { name: "res 5 (hl)", size: 2, info: None },
        0xAFu8 => InstrEntry { name: "res 5 a", size: 2, info: None },
        0xB0u8 => InstrEntry { name: "res 6 b", size: 2, info: None },
        0xB1u8 => InstrEntry { name: "res 6 c", size: 2, info: None },
        0xB2u8 => InstrEntry { name: "res 6 d", size: 2, info: None },
        0xB3u8 => InstrEntry { name: "res 6 e", size: 2, info: None },
        0xB4u8 => InstrEntry { name: "res 6 h", size: 2, info: None },
        0xB5u8 => InstrEntry { name: "res 6 l", size: 2, info: None },
        0xB6u8 => InstrEntry { name: "res 6 (hl)", size: 2, info: None },
        0xB7u8 => InstrEntry { name: "res 6 a", size: 2, info: None },
        0xB8u8 => InstrEntry { name: "res 7 b", size: 2, info: None },
        0xB9u8 => InstrEntry { name: "res 7 c", size: 2, info: None },
        0xBAu8 => InstrEntry { name: "res 7 d", size: 2, info: None },
        0xBBu8 => InstrEntry { name: "res 7 e", size: 2, info: None },
        0xBCu8 => InstrEntry { name: "res 7 h", size: 2, info: None },
        0xBDu8 => InstrEntry { name: "res 7 l", size: 2, info: None },
        0xBEu8 => InstrEntry { name: "res 7 (hl)", size: 2, info: None },
        0xBFu8 => InstrEntry { name: "res 7 a", size: 2, info: None },
        0xC0u8 => InstrEntry { name: "set 0 b", size: 2, info: None },
        0xC1u8 => InstrEntry { name: "set 0 c", size: 2, info: None },
        0xC2u8 => InstrEntry { name: "set 0 d", size: 2, info: None },
        0xC3u8 => InstrEntry { name: "set 0 e", size: 2, info: None },
        0xC4u8 => InstrEntry { name: "set 0 h", size: 2, info: None },
        0xC5u8 => InstrEntry { name: "set 0 l", size: 2, info: None },
        0xC6u8 => InstrEntry { name: "set 0 (hl)", size: 2, info: None },
        0xC7u8 => InstrEntry { name: "set 0 a", size: 2, info: None },
        0xC8u8 => InstrEntry { name: "set 1 b", size: 2, info: None },
        0xC9u8 => InstrEntry { name: "set 1 c", size: 2, info: None },
        0xCAu8 => InstrEntry { name: "set 1 d", size: 2, info: None },
        0xCBu8 => InstrEntry { name: "set 1 e", size: 2, info: None },
        0xCCu8 => InstrEntry { name: "set 1 h", size: 2, info: None },
        0xCDu8 => InstrEntry { name: "set 1 l", size: 2, info: None },
        0xCEu8 => InstrEntry { name: "set 1 (hl)", size: 2, info: None },
        0xCFu8 => InstrEntry { name: "set 1 a", size: 2, info: None },
        0xD0u8 => InstrEntry { name: "set 2 b", size: 2, info: None },
        0xD1u8 => InstrEntry { name: "set 2 c", size: 2, info: None },
        0xD2u8 => InstrEntry { name: "set 2 d", size: 2, info: None },
        0xD3u8 => InstrEntry { name: "set 2 e", size: 2, info: None },
        0xD4u8 => InstrEntry { name: "set 2 h", size: 2, info: None },
        0xD5u8 => InstrEntry { name: "set 2 l", size: 2, info: None },
        0xD6u8 => InstrEntry { name: "set 2 (hl)", size: 2, info: None },
        0xD7u8 => InstrEntry { name: "set 2 a", size: 2, info: None },
        0xD8u8 => InstrEntry { name: "set 3 b", size: 2, info: None },
        0xD9u8 => InstrEntry { name: "set 3 c", size: 2, info: None },
        0xDAu8 => InstrEntry { name: "set 3 d", size: 2, info: None },
        0xDBu8 => InstrEntry { name: "set 3 e", size: 2, info: None },
        0xDCu8 => InstrEntry { name: "set 3 h", size: 2, info: None },
        0xDDu8 => InstrEntry { name: "set 3 l", size: 2, info: None },
        0xDEu8 => InstrEntry { name: "set 3 (hl)", size: 2, info: None },
        0xDFu8 => InstrEntry { name: "set 3 a", size: 2, info: None },
        0xE0u8 => InstrEntry { name: "set 4 b", size: 2, info: None },
        0xE1u8 => InstrEntry { name: "set 4 c", size: 2, info: None },
        0xE2u8 => InstrEntry { name: "set 4 d", size: 2, info: None },
        0xE3u8 => InstrEntry { name: "set 4 e", size: 2, info: None },
        0xE4u8 => InstrEntry { name: "set 4 h", size: 2, info: None },
        0xE5u8 => InstrEntry { name: "set 4 l", size: 2, info: None },
        0xE6u8 => InstrEntry { name: "set 4 (hl)", size: 2, info: None },
        0xE7u8 => InstrEntry { name: "set 4 a", size: 2, info: None },
        0xE8u8 => InstrEntry { name: "set 5 b", size: 2, info: None },
        0xE9u8 => InstrEntry { name: "set 5 c", size: 2, info: None },
        0xEAu8 => InstrEntry { name: "set 5 d", size: 2, info: None },
        0xEBu8 => InstrEntry { name: "set 5 e", size: 2, info: None },
        0xECu8 => InstrEntry { name: "set 5 h", size: 2, info: None },
        0xEDu8 => InstrEntry { name: "set 5 l", size: 2, info: None },
        0xEEu8 => InstrEntry { name: "set 5 (hl)", size: 2, info: None },
        0xEFu8 => InstrEntry { name: "set 5 a", size: 2, info: None },
        0xF0u8 => InstrEntry { name: "set 6 b", size: 2, info: None },
        0xF1u8 => InstrEntry { name: "set 6 c", size: 2, info: None },
        0xF2u8 => InstrEntry { name: "set 6 d", size: 2, info: None },
        0xF3u8 => InstrEntry { name: "set 6 e", size: 2, info: None },
        0xF4u8 => InstrEntry { name: "set 6 h", size: 2, info: None },
        0xF5u8 => InstrEntry { name: "set 6 l", size: 2, info: None },
        0xF6u8 => InstrEntry { name: "set 6 (hl)", size: 2, info: None },
        0xF7u8 => InstrEntry { name: "set 6 a", size: 2, info: None },
        0xF8u8 => InstrEntry { name: "set 7 b", size: 2, info: None },
        0xF9u8 => InstrEntry { name: "set 7 c", size: 2, info: None },
        0xFAu8 => InstrEntry { name: "set 7 d", size: 2, info: None },
        0xFBu8 => InstrEntry { name: "set 7 e", size: 2, info: None },
        0xFCu8 => InstrEntry { name: "set 7 h", size: 2, info: None },
        0xFDu8 => InstrEntry { name: "set 7 l", size: 2, info: None },
        0xFEu8 => InstrEntry { name: "set 7 (hl)", size: 2, info: None },
        _ => InstrEntry { name: "set 7 a", size: 2, info: None },
    }
}

} // verus!
