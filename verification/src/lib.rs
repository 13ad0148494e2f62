//! A Game Boy (DMG) emulator core: CPU, memory bus, cartridge mappers,
//! timer, interrupts, joypad, PPU and a disassembler, with their behaviour
//! stated as contracts and checked by Verus.

pub mod bits;
pub mod err;
pub mod ram;
pub mod text;
pub mod mem;
pub mod cpu;
pub mod ppu;
pub mod cart;
pub mod interrupt;
pub mod timer;
pub mod screen;
pub mod bus;
pub mod joypad;
pub mod dasm;
pub mod keybinds;
pub mod fps;
pub mod ui;
pub mod event;
pub mod debug;
pub mod trace;
pub mod machine;
