use gameboy::bus::Bus;
use gameboy::cart::Cartridge;
use gameboy::cpu::{Cpu, CpuRegs};
use gameboy::interrupt::{Interrupt, Interrupts};
use gameboy::debug::frame_ppm;
use gameboy::machine::{
    flow_action, run_frames, run_until_boot_exit, step_machine, FlowAction, RunEnd, StepEnd, Stop,
};
use gameboy::screen::{HeadlessScreen, Pos};
use gameboy::ppu::Ppu;
use gameboy::ram::Ram;
use gameboy::timer::Timer;

fn bus() -> Bus {
    let mut bus = Bus::new();
    bus.connect_wram(Ram::new(8 * 1024)).unwrap();
    bus.connect_hram(Ram::new(127)).unwrap();
    bus.connect_cartridge(Cartridge::new()).unwrap();
    bus.connect_ppu(Ppu::new()).unwrap();
    bus.connect_ic(Interrupts::new()).unwrap();
    bus.connect_timer(Timer::new()).unwrap();
    bus
}

fn cpu_at(pc: u16) -> Cpu {
    let mut cpu = Cpu::new();
    cpu.set_regs(CpuRegs { pc, sp: 0xdff0, ..cpu.get_regs() });
    cpu
}

#[test]
fn machine_step_runs_cpu_then_timer() {
    let mut bus = bus();
    // inc a
    bus.write8(0xc000, 0x3c).unwrap();
    let mut cpu = cpu_at(0xc000);
    assert!(cpu.step_defined(&bus));
    assert_eq!(step_machine(&mut cpu, &mut bus).unwrap(), StepEnd::Done(false));
    assert_eq!(cpu.get_regs().a, 1);
    assert_eq!(cpu.get_regs().pc, 0xc001);
    // DIV counts once every 64 steps
    bus.write8(0xc001, 0x18).unwrap();
    bus.write8(0xc002, 0xfe).unwrap();
    for _ in 0..62 {
        assert_eq!(step_machine(&mut cpu, &mut bus).unwrap(), StepEnd::Done(false));
    }
    assert_eq!(bus.read8(0xff04).unwrap(), 0);
    step_machine(&mut cpu, &mut bus).unwrap();
    assert_eq!(bus.read8(0xff04).unwrap(), 1);
}

#[test]
fn machine_step_stops_where_it_cannot_go_on() {
    let mut bus = bus();
    // the boot rom is mapped out and no cartridge is loaded: $0000 is not there
    bus.write8(0xff50, 1).unwrap();
    let mut cpu = cpu_at(0x0000);
    assert!(!cpu.step_defined(&bus));
    assert_eq!(step_machine(&mut cpu, &mut bus).unwrap(), StepEnd::Stuck(Stop::Cpu));
    assert_eq!(cpu.get_regs().pc, 0x0000);
    assert_eq!(cpu.history.len(), 0);

    // an enabled VBlank request has to be served
    let mut bus = bus_with_nop();
    bus.write8(0xffff, 0x01).unwrap();
    bus.write8(0xff0f, 0x01).unwrap();
    let mut cpu = cpu_at(0xc000);
    assert_eq!(
        step_machine(&mut cpu, &mut bus).unwrap(),
        StepEnd::Stuck(Stop::Interrupt(Interrupt::Vblank))
    );
    // the instruction itself ran
    assert_eq!(cpu.get_regs().pc, 0xc001);
}

fn bus_with_nop() -> Bus {
    let mut bus = bus();
    bus.write8(0xc000, 0x00).unwrap();
    bus
}

#[test]
fn machine_runs_frames_with_the_lcd_on() {
    let mut bus = bus();
    // jr -2
    bus.write8(0xc000, 0x18).unwrap();
    bus.write8(0xc001, 0xfe).unwrap();
    bus.write8(0xff40, 0x80).unwrap();
    let mut cpu = cpu_at(0xc000);
    // a frame is 154 lines of 456 dots, 4 dots a step
    match run_frames(&mut cpu, &mut bus, 2, 100_000).unwrap() {
        RunEnd::Reached(k) => assert!(k > 17_556 && k <= 2 * 17_556),
        other => panic!("{:?}", other),
    }
    // with the lcd off no frame ends
    bus.write8(0xff40, 0x00).unwrap();
    assert_eq!(run_frames(&mut cpu, &mut bus, 1, 1000).unwrap(), RunEnd::OutOfSteps);
    assert_eq!(run_frames(&mut cpu, &mut bus, 0, 1000).unwrap(), RunEnd::Reached(0));
}

#[test]
fn machine_runs_until_the_boot_rom_is_out() {
    let mut bus = bus();
    // ld a,1; ldh ($50),a
    for (i, b) in [0x3e, 0x01, 0xe0, 0x50].iter().enumerate() {
        bus.write8(0xc000 + i as u16, *b).unwrap();
    }
    let mut cpu = cpu_at(0xc000);
    assert_eq!(run_until_boot_exit(&mut cpu, &mut bus, 1).unwrap(), RunEnd::OutOfSteps);
    assert!(bus.boot_rom_mapped());
    assert_eq!(run_until_boot_exit(&mut cpu, &mut bus, 10).unwrap(), RunEnd::Reached(1));
    assert!(!bus.boot_rom_mapped());
    assert_eq!(run_until_boot_exit(&mut cpu, &mut bus, 10).unwrap(), RunEnd::Reached(0));
}

#[test]
fn bus_writes_defined_where_the_parts_take_them() {
    let mut bus = bus();
    // the boot rom cannot be written while it is mapped
    assert!(!bus.writable(0x0000, 1));
    assert!(bus.writable(0xc000, 1));
    assert!(bus.writable(0xff46, 0xc0));
    assert!(bus.writable16(0xc000, 0x1234));
    // a word at $FFFF runs past the end of memory
    assert!(!bus.writable16(0xffff, 0x1234));
    assert!(bus.readable16(0xc000));
    bus.write8(0xff50, 1).unwrap();
    assert!(!bus.readable16(0x0000));
}

#[test]
fn flow_actions() {
    assert_eq!(flow_action(true, false), FlowAction::Idle);
    assert_eq!(flow_action(true, true), FlowAction::One);
    assert_eq!(flow_action(false, true), FlowAction::One);
    assert_eq!(flow_action(false, false), FlowAction::Chunk);
}

#[test]
fn frame_ppm_bytes() {
    let mut s = HeadlessScreen::new();
    s.set_pixel(Pos { x: 1, y: 0 }, 1);
    s.set_pixel(Pos { x: 2, y: 0 }, 2);
    s.set_pixel(Pos { x: 0, y: 1 }, 3);
    let ppm = frame_ppm(&s);
    assert_eq!(&ppm[..15], b"P6\n160 144\n255\n");
    assert_eq!(ppm.len(), 15 + 3 * 160 * 144);
    assert_eq!(&ppm[15..24], &[255, 255, 255, 178, 178, 178, 76, 76, 76]);
    assert_eq!(&ppm[15 + 3 * 160..15 + 3 * 161], &[0, 0, 0]);
}
