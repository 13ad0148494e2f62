use gameboy::bus::IF_ADDR;
use gameboy::interrupt::{Interrupt, Interrupts};
use gameboy::joypad::{InputBit, Joypad, JoypadInput};

#[test]
fn test_joypad_read_write() {
    let mut ic = Interrupts::new();
    let mut joypad = Joypad::new();

    // Default mode: neither selected. JOYP read should return 0xFF
    assert_eq!(joypad.read(0xff00).unwrap(), 0xff);

    // Select buttons (write bit 5 = 0, bit 4 = 1 => data = 0x10)
    joypad.write(0xff00, 0x10, &mut ic).unwrap();
    // No button pressed, so lower nibble is 0xf. Value should be 0xd0 | 0xf = 0xdf
    assert_eq!(joypad.read(0xff00).unwrap(), 0xdf);

    // Press button A (bit 0 of buttons_state becomes 0)
    joypad.set_input(JoypadInput::A, &mut ic);
    // Now lower nibble is 0xe. Read value should be 0xd0 | 0xe = 0xde
    assert_eq!(joypad.read(0xff00).unwrap(), 0xde);

    // Release button A
    joypad.clear_input(JoypadInput::A);
    assert_eq!(joypad.read(0xff00).unwrap(), 0xdf);
}

#[test]
fn test_joypad_interrupt() {
    let mut ic = Interrupts::new();
    let mut joypad = Joypad::new();
    joypad.connect_ic().unwrap();

    // Select buttons mode
    joypad.write(0xff00, 0x10, &mut ic).unwrap();

    // Check that IF has no joypad interrupt requested
    assert_eq!(ic.read(IF_ADDR).unwrap() & Interrupt::Joypad.mask(), 0);

    // Press button A: transitions button selection from 1 to 0 (High to Low)
    joypad.set_input(JoypadInput::A, &mut ic);

    // Check that Joypad interrupt is now requested
    assert_ne!(ic.read(IF_ADDR).unwrap() & Interrupt::Joypad.mask(), 0);
}

#[test]
fn joypad_without_controller_raises_nothing() {
    let mut ic = Interrupts::new();
    let mut joypad = Joypad::new();
    joypad.write(0xff00, 0x10, &mut ic).unwrap();
    joypad.set_input(JoypadInput::Start, &mut ic);
    assert_eq!(joypad.read(0xff00).unwrap(), 0xdb);
    assert_eq!(ic.read(IF_ADDR).unwrap(), 0);
}

#[test]
fn joypad_dpad_group_and_press_release() {
    let mut ic = Interrupts::new();
    let mut joypad = Joypad::new();
    joypad.connect_ic().unwrap();
    // select the d-pad only
    joypad.write(0xff00, 0x20, &mut ic).unwrap();
    assert_eq!(joypad.read(0xff00).unwrap(), 0xef);
    joypad.set_input(JoypadInput::Down, &mut ic);
    assert_eq!(joypad.read(0xff00).unwrap(), 0xe7);
    assert_ne!(ic.read(IF_ADDR).unwrap() & 0x10, 0);
    // a button press does not show while only the d-pad is selected
    joypad.set_input(JoypadInput::B, &mut ic);
    assert_eq!(joypad.read(0xff00).unwrap(), 0xe7);
    joypad.clear_input(JoypadInput::Down);
    joypad.clear_input(JoypadInput::B);
    assert_eq!(joypad.buttons_state, 0xf);
    assert_eq!(joypad.dpad_state, 0xf);
    assert!(joypad.connect_ic().is_err());
}

#[test]
fn joypad_input_masks() {
    assert_eq!(JoypadInput::Up.as_mask(), InputBit::Dpad(4));
    assert_eq!(JoypadInput::Right.as_mask(), InputBit::Dpad(1));
    assert_eq!(JoypadInput::Select.as_mask(), InputBit::Button(8));
    assert_eq!(JoypadInput::A.as_mask(), InputBit::Button(1));
}
