use gameboy::bus::{Bus, IE_ADDR, IF_ADDR};
use gameboy::cart::Cartridge;
use gameboy::cpu::{Cpu, CpuRegs};
use gameboy::err::GbErrorType;
use gameboy::interrupt::{Interrupt, Interrupts};
use gameboy::ppu::Ppu;
use gameboy::ram::Ram;
use gameboy::timer::Timer;

/// A bus with everything but a loaded cartridge connected.
fn bus() -> Bus {
    let mut bus = Bus::new();
    bus.connect_wram(Ram::new(8 * 1024)).unwrap();
    bus.connect_hram(Ram::new(127)).unwrap();
    bus.connect_cartridge(Cartridge::new()).unwrap();
    bus.connect_ppu(Ppu::new()).unwrap();
    bus.connect_ic(Interrupts::new()).unwrap();
    bus.connect_timer(Timer::new()).unwrap();
    bus
}

fn load_program(bus: &mut Bus, at: u16, bytes: &[u8]) {
    for (i, b) in bytes.iter().enumerate() {
        bus.write8(at + i as u16, *b).unwrap();
    }
}

#[test]
fn bus_connects_each_part_once() {
    let mut bus = bus();
    assert_eq!(
        bus.connect_wram(Ram::new(8)).unwrap_err().error,
        GbErrorType::AlreadyInitialized
    );
    assert_eq!(
        bus.connect_ppu(Ppu::new()).unwrap_err().error,
        GbErrorType::AlreadyInitialized
    );
    assert_eq!(
        bus.connect_timer(Timer::new()).unwrap_err().error,
        GbErrorType::AlreadyInitialized
    );
}

#[test]
fn bus_readable_follows_what_is_connected() {
    let mut bus = Bus::new();
    assert!(!bus.readable(0xc000));
    assert!(!bus.readable(0xff80));
    // no part answers $FF01: it reads $FF
    assert!(bus.readable(0xff01));
    bus.connect_wram(Ram::new(8 * 1024)).unwrap();
    assert!(bus.readable(0xc000));
    assert!(bus.readable(0xdfff));
    bus.connect_hram(Ram::new(127)).unwrap();
    assert!(bus.readable(0xfffe));
    assert!(!bus.readable(0x8000));
    bus.connect_ppu(Ppu::new()).unwrap();
    assert!(bus.readable(0x8000));
    assert!(bus.readable(0xff44));
    assert!(!bus.readable(0x0000));
    bus.connect_cartridge(Cartridge::new()).unwrap();
    assert!(bus.readable(0x0000));
    assert_eq!(bus.read8(0x0000).unwrap(), 0x31);
}

#[test]
fn bus_wram_and_hram_read_back() {
    let mut bus = bus();
    bus.write8(0xc123, 0x5a).unwrap();
    assert_eq!(bus.read8(0xc123).unwrap(), 0x5a);
    bus.write8(0xff80, 7).unwrap();
    bus.write8(0xfffe, 9).unwrap();
    assert_eq!(bus.read8(0xff80).unwrap(), 7);
    assert_eq!(bus.read8(0xfffe).unwrap(), 9);
    // a word goes in little endian
    bus.write16(0xd000, 0xbeef).unwrap();
    assert_eq!(bus.read8(0xd000).unwrap(), 0xef);
    assert_eq!(bus.read8(0xd001).unwrap(), 0xbe);
    assert_eq!(bus.read16(0xd000).unwrap(), 0xbeef);
}

#[test]
fn bus_unsupported_addresses() {
    let mut bus = bus();
    // serial and audio are not emulated
    assert_eq!(bus.read8(0xff01).unwrap(), 0xff);
    assert_eq!(bus.read8(0xff10).unwrap(), 0xff);
    assert_eq!(bus.read16(0xff10).unwrap(), 0x00ff);
    bus.write8(0xff10, 0x12).unwrap();
    assert_eq!(bus.read8(0xff10).unwrap(), 0xff);
}

#[test]
fn bus_errors_of_the_parts() {
    let mut bus = bus();
    // the timer answers $FF04-$FF07 only: the second byte of a word at $FF07
    // is refused
    assert_eq!(bus.read16(0xff07).unwrap_err().error, GbErrorType::OutOfBounds);
    // IF is at $FF0F; $FF10 is not the interrupt controller's
    assert_eq!(bus.read16(IF_ADDR).unwrap_err().error, GbErrorType::OutOfBounds);
    assert_eq!(bus.write16(IF_ADDR, 0x0101).unwrap_err().error, GbErrorType::OutOfBounds);
    // the first byte of that word was written
    assert_eq!(bus.read8(IF_ADDR).unwrap(), 0x01);
    // the boot rom register answers $FF50 only
    assert_eq!(bus.read8(0xff50).unwrap(), 1);
    // with no cartridge loaded the cartridge space reads $FF
    assert_eq!(bus.read8(0x4000).unwrap(), 0xff);
}

#[test]
fn bus_interrupt_registers() {
    let mut bus = bus();
    bus.write8(IE_ADDR, 0x1f).unwrap();
    bus.write8(IF_ADDR, 0x04).unwrap();
    assert_eq!(bus.read8(IE_ADDR).unwrap(), 0x1f);
    assert_eq!(bus.read8(IF_ADDR).unwrap(), 0x04);
}

#[test]
fn bus_dma_copies_a_page_into_oam() {
    let mut bus = bus();
    for i in 0..0xa0u16 {
        bus.write8(0xc000 + i, (i as u8).wrapping_mul(3)).unwrap();
    }
    bus.write8(0xff46, 0xc0).unwrap();
    for i in 0..0xa0u16 {
        assert_eq!(bus.read8(0xfe00 + i).unwrap(), (i as u8).wrapping_mul(3));
    }
}

#[test]
fn bus_timer_and_ppu_registers() {
    let mut bus = bus();
    bus.write8(0xff06, 0x42).unwrap();
    assert_eq!(bus.read8(0xff06).unwrap(), 0x42);
    bus.write8(0xff07, 0xff).unwrap();
    assert_eq!(bus.read8(0xff07).unwrap(), 0x07);
    bus.write8(0xff47, 0xe4).unwrap();
    assert_eq!(bus.read8(0xff47).unwrap(), 0xe4);
    bus.write8(0x8000, 0x3c).unwrap();
    assert_eq!(bus.read8(0x8000).unwrap(), 0x3c);
}

#[test]
fn cpu_runs_a_program_from_wram() {
    let mut bus = bus();
    // ld a,$42; inc a; ld b,$10; add a,b; ld ($d000),a
    load_program(&mut bus, 0xc000, &[0x3e, 0x42, 0x3c, 0x06, 0x10, 0x80, 0xea, 0x00, 0xd0]);
    let mut cpu = Cpu::new();
    cpu.set_regs(CpuRegs { pc: 0xc000, sp: 0xdff0, ..cpu.get_regs() });
    for _ in 0..5 {
        cpu.step(&mut bus).unwrap();
    }
    let regs = cpu.get_regs();
    assert_eq!(regs.a, 0x53);
    assert_eq!(regs.b, 0x10);
    assert_eq!(regs.f, 0x00);
    assert_eq!(regs.pc, 0xc009);
    assert_eq!(bus.read8(0xd000).unwrap(), 0x53);
    assert_eq!(cpu.history.len(), 5);
}

#[test]
fn cpu_call_and_ret_restore_the_stack() {
    let mut bus = bus();
    // call $c020 ... at $c020: ret
    load_program(&mut bus, 0xc000, &[0xcd, 0x20, 0xc0]);
    load_program(&mut bus, 0xc020, &[0xc9]);
    let mut cpu = Cpu::new();
    cpu.set_regs(CpuRegs { pc: 0xc000, sp: 0xdff0, ..cpu.get_regs() });
    cpu.step(&mut bus).unwrap();
    assert_eq!(cpu.get_regs().pc, 0xc020);
    assert_eq!(cpu.get_regs().sp, 0xdfee);
    assert_eq!(bus.read16(0xdfee).unwrap(), 0xc003);
    cpu.step(&mut bus).unwrap();
    assert_eq!(cpu.get_regs().pc, 0xc003);
    assert_eq!(cpu.get_regs().sp, 0xdff0);
}

#[test]
fn cpu_push_pop_and_flags() {
    let mut bus = bus();
    // ld bc,$1234; push bc; pop de; xor a; sub 1
    load_program(&mut bus, 0xc000, &[0x01, 0x34, 0x12, 0xc5, 0xd1, 0xaf, 0xd6, 0x01]);
    let mut cpu = Cpu::new();
    cpu.set_regs(CpuRegs { pc: 0xc000, sp: 0xdff0, ..cpu.get_regs() });
    for _ in 0..4 {
        cpu.step(&mut bus).unwrap();
    }
    let regs = cpu.get_regs();
    assert_eq!((regs.d, regs.e), (0x12, 0x34));
    assert_eq!(regs.sp, 0xdff0);
    // xor a sets only Z
    assert_eq!(regs.f, 0x80);
    cpu.step(&mut bus).unwrap();
    let regs = cpu.get_regs();
    // 0 - 1: N, H and C set
    assert_eq!(regs.a, 0xff);
    assert_eq!(regs.f, 0x70);
}

#[test]
fn cpu_boot_rom_is_mapped_at_start() {
    let mut bus = bus();
    // the first instruction of the boot rom is ld sp,$fffe
    let mut cpu = Cpu::new();
    cpu.step(&mut bus).unwrap();
    assert_eq!(cpu.get_regs().sp, 0xfffe);
    assert_eq!(cpu.get_regs().pc, 3);
}

#[test]
fn interrupts_pick_the_lowest_enabled_request() {
    let mut ic = Interrupts::new();
    assert_eq!(ic.step(), None);
    ic.raise(Interrupt::Timer);
    ic.raise(Interrupt::Joypad);
    assert_eq!(ic.read(IF_ADDR).unwrap(), 0x14);
    assert_eq!(ic.step(), None);
    ic.write(IE_ADDR, 0x10).unwrap();
    assert_eq!(ic.step(), Some(Interrupt::Joypad));
    ic.write(IE_ADDR, 0x1f).unwrap();
    assert_eq!(ic.step(), Some(Interrupt::Timer));
    ic.raise(Interrupt::Vblank);
    assert_eq!(ic.step(), Some(Interrupt::Vblank));
    assert_eq!(ic.read(0xff00).unwrap_err().error, GbErrorType::OutOfBounds);
    assert_eq!(ic.write(0xff00, 1).unwrap_err().error, GbErrorType::OutOfBounds);
}

#[test]
fn interrupt_masks() {
    assert_eq!(Interrupt::Vblank.mask(), 0x01);
    assert_eq!(Interrupt::Lcd.mask(), 0x02);
    assert_eq!(Interrupt::Serial.mask(), 0x08);
    assert_eq!(Interrupt::try_from_mask(0x04), Ok(Interrupt::Timer));
    assert_eq!(Interrupt::try_from_mask(0x03), Err(GbErrorType::BadValue));
}
