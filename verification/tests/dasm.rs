use gameboy::dasm::Dasm;
use std::collections::VecDeque;

fn next_instr(dasm: &mut Dasm, bytes: &mut VecDeque<u8>) -> Option<String> {
    loop {
        let val = dasm.munch(bytes.pop_front().unwrap());
        if val.is_some() {
            return val;
        }
    }
}

#[test]
fn test_dasm_nop() {
    let mut dasm = Dasm::new();
    let mut bytes = VecDeque::from([0x00u8]);
    let instr = dasm.munch(bytes.pop_front().unwrap());
    assert!(instr.is_some());
    assert_eq!(instr.unwrap(), "nop");
}

#[test]
fn test_dasm_size_1_no_imm() {
    let mut dasm = Dasm::new();
    let mut bytes = VecDeque::from([0x05u8, 0x03, 0x04, 0x07, 0x58, 0x93, 0xe3]);
    // dec b
    let instr = dasm.munch(bytes.pop_front().unwrap());
    assert!(instr.is_some());
    assert_eq!(instr.unwrap(), "dec b");
    // inc bc
    let instr = dasm.munch(bytes.pop_front().unwrap());
    assert!(instr.is_some());
    assert_eq!(instr.unwrap(), "inc bc");
    // inc b
    let instr = dasm.munch(bytes.pop_front().unwrap());
    assert!(instr.is_some());
    assert_eq!(instr.unwrap(), "inc b");
    // rlca
    let instr = dasm.munch(bytes.pop_front().unwrap());
    assert!(instr.is_some());
    assert_eq!(instr.unwrap(), "rlca");
    // ld e b
    let instr = dasm.munch(bytes.pop_front().unwrap());
    assert!(instr.is_some());
    assert_eq!(instr.unwrap(), "ld e b");
    // sub e
    let instr = dasm.munch(bytes.pop_front().unwrap());
    assert!(instr.is_some());
    assert_eq!(instr.unwrap(), "sub e");
    // invalid
    let instr = dasm.munch(bytes.pop_front().unwrap());
    assert!(instr.is_some());
    assert_eq!(instr.unwrap(), "???");
}

#[test]
fn test_dasm_size_2_no_imm() {
    let mut dasm = Dasm::new();
    let mut bytes = VecDeque::from([0xcbu8, 0x10, 0xcb, 0x75, 0xcb, 0xcb]);
    // rl b
    let instr = next_instr(&mut dasm, &mut bytes);
    assert_eq!(instr.unwrap(), "rl b");
    // bit 6 l
    let instr = next_instr(&mut dasm, &mut bytes);
    assert_eq!(instr.unwrap(), "bit 6 l");
    // set 1 e
    let instr = next_instr(&mut dasm, &mut bytes);
    assert_eq!(instr.unwrap(), "set 1 e");
}

#[test]
fn test_dasm_size_2_imm8() {
    let mut dasm = Dasm::new();
    let mut bytes = VecDeque::from([0x06u8, 100]);
    // ld b 100
    let instr = next_instr(&mut dasm, &mut bytes);
    assert_eq!(instr.unwrap(), "ld b 100");
}

#[test]
fn test_dasm_size_3() {
    let mut dasm = Dasm::new();
    let mut bytes = VecDeque::from([0x01u8, 10, 0x00, 0xea, 0x34, 0x12]);
    // 01: ld bc 10
    let instr = next_instr(&mut dasm, &mut bytes);
    assert_eq!(instr.unwrap(), "ld bc 10");
    // EA: ld ($1234) a
    let instr = next_instr(&mut dasm, &mut bytes);
    assert_eq!(instr.unwrap(), "ld ($1234) a");
}

#[test]
fn test_dasm_any() {
    let mut dasm = Dasm::new();
    let mut bytes = VecDeque::from([0x10u8, 0x00, 0x55, 0x26, 0xff, 0xcc, 0xad, 0xde]);
    // 10: stop
    let instr = next_instr(&mut dasm, &mut bytes);
    assert_eq!(instr.unwrap(), "stop");
    // 55: ld d l
    let instr = next_instr(&mut dasm, &mut bytes);
    assert_eq!(instr.unwrap(), "ld d l");
    // 26: ld h 255
    let instr = next_instr(&mut dasm, &mut bytes);
    assert_eq!(instr.unwrap(), "ld h 255");
    // CC: call z $DEAD
    let instr = next_instr(&mut dasm, &mut bytes);
    assert_eq!(instr.unwrap(), "call z $DEAD");
}

#[test]
fn dasm_negative_offset_and_short_address() {
    let mut dasm = Dasm::new();
    // jr -2, then ldh with an 8-bit address, then add sp +5
    let mut bytes = VecDeque::from([0x18u8, 0xfe, 0xe0, 0x0f, 0xe8, 0x05]);
    assert_eq!(next_instr(&mut dasm, &mut bytes).unwrap(), "jr -2");
    assert_eq!(next_instr(&mut dasm, &mut bytes).unwrap(), "ldh ($0F) a");
    assert_eq!(next_instr(&mut dasm, &mut bytes).unwrap(), "add sp 5");
}

#[test]
fn dasm_bytes_before_the_last_give_nothing() {
    let mut dasm = Dasm::new();
    assert_eq!(dasm.munch(0xc3), None);
    assert_eq!(dasm.munch(0x00), None);
    assert_eq!(dasm.munch(0x01).unwrap(), "jp $0100");
    assert_eq!(dasm.munch(0xcb), None);
    assert_eq!(dasm.munch(0x37).unwrap(), "swap a");
}
