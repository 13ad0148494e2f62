use gameboy::bus::Bus;
use gameboy::cart::header::{
    get_new_publisher, get_old_publisher, get_ram_banks, get_rom_banks, new_publisher_from_upper,
};
use gameboy::cpu::{Cpu, CpuRegs};
use gameboy::debug::{vram_ppm, vram_tile_sheet};
use gameboy::ram::Ram;
use gameboy::cart::Cartridge;
use gameboy::err::GbErrorType;
use gameboy::fps::Fps;
use gameboy::interrupt::Interrupts;
use gameboy::ppu::Ppu;
use gameboy::screen::{gb_resolution, HeadlessScreen, Pos, NUM_PIXELS};
use gameboy::timer::{ClockRate, Tac, Timer};
use gameboy::ui::UiState;

#[test]
fn timer_rates_in_cpu_ticks() {
    assert_eq!(ClockRate::Div1024.as_cpu_ticks(), 256);
    assert_eq!(ClockRate::Div16.as_cpu_ticks(), 4);
    assert_eq!(ClockRate::Div64.as_cpu_ticks(), 16);
    assert_eq!(ClockRate::Div256.as_cpu_ticks(), 64);
}

#[test]
fn timer_registers() {
    let mut t = Timer::new();
    t.write(0xff05, 0x10).unwrap();
    t.write(0xff06, 0x20).unwrap();
    t.write(0xff07, 0xfd).unwrap();
    assert_eq!(t.read(0xff05).unwrap(), 0x10);
    assert_eq!(t.read(0xff06).unwrap(), 0x20);
    assert_eq!(t.read(0xff07).unwrap(), 0x05);
    assert_eq!(t.tac, Tac { enable: true, clock_rate: ClockRate::Div16 });
    assert_eq!(u8::from(t.tac), 0x05);
    assert_eq!(t.read(0xff08).unwrap_err().error, GbErrorType::OutOfBounds);
    assert_eq!(t.write(0xff03, 0).unwrap_err().error, GbErrorType::OutOfBounds);
}

#[test]
fn timer_div_counts_and_resets() {
    let mut t = Timer::new();
    // DIV counts every 256 clock cycles: 64 cpu ticks
    for _ in 0..63 {
        t.step();
    }
    assert_eq!(t.div, 0);
    t.step();
    assert_eq!(t.div, 1);
    // any write to DIV clears it
    t.write(0xff04, 0x99).unwrap();
    assert_eq!(t.read(0xff04).unwrap(), 0);
}

#[test]
fn timer_tima_overflow_reloads_tma() {
    let mut t = Timer::new();
    t.write(0xff05, 0xff).unwrap();
    t.write(0xff06, 0xab).unwrap();
    // enabled at the Div1024 rate: a count every 1024 clock cycles, 256 cpu
    // ticks
    t.write(0xff07, 0x04).unwrap();
    for _ in 0..255 {
        t.step();
    }
    assert_eq!(t.tima, 0xff);
    t.step();
    assert_eq!(t.tima, 0xab);
    // disabled, TIMA stays
    t.write(0xff07, 0x00).unwrap();
    for _ in 0..2048 {
        t.step();
    }
    assert_eq!(t.tima, 0xab);
}

#[test]
fn ppu_memory_and_registers() {
    let mut ppu = Ppu::new();
    ppu.write(0x8010, 0x11).unwrap();
    ppu.write(0xfe9f, 0x22).unwrap();
    assert_eq!(ppu.read(0x8010).unwrap(), 0x11);
    assert_eq!(ppu.read(0xfe9f).unwrap(), 0x22);
    assert_eq!(ppu.read(0xa000).unwrap_err().error, GbErrorType::BadValue);
    assert_eq!(ppu.write(0xfea0, 1).unwrap_err().error, GbErrorType::BadValue);
    ppu.io_write(0xff47, 0xe4).unwrap();
    ppu.io_write(0xff49, 0x1b).unwrap();
    assert_eq!(ppu.io_read(0xff47).unwrap(), 0xe4);
    assert_eq!(ppu.io_read(0xff49).unwrap(), 0x1b);
    // unsupported registers read 0 and ignore writes
    ppu.io_write(0xff46, 0x12).unwrap();
    assert_eq!(ppu.io_read(0xff46).unwrap(), 0);
    // LY is read only
    ppu.io_write(0xff44, 0x12).unwrap();
    assert_eq!(ppu.io_read(0xff44).unwrap(), 0);
    // STAT keeps its read-only bits: the mode is HBlank while the LCD is off
    ppu.io_write(0xff41, 0xff).unwrap();
    assert_eq!(ppu.io_read(0xff41).unwrap(), 0x78);
}

#[test]
fn ppu_off_does_nothing() {
    let mut ppu = Ppu::new();
    let mut ic = Interrupts::new();
    assert_eq!(ppu.step(1000, &mut ic).unwrap(), false);
    assert_eq!(ppu.io_read(0xff44).unwrap(), 0);
    assert_eq!(ic.read(0xff0f).unwrap(), 0);
}

#[test]
fn ppu_frame_takes_70224_dots() {
    let mut ppu = Ppu::new();
    let mut ic = Interrupts::new();
    ppu.io_write(0xff40, 0x80).unwrap();
    // the first 144 lines, then the vertical blank starts
    assert_eq!(ppu.step(144 * 456, &mut ic).unwrap(), false);
    assert_eq!(ppu.io_read(0xff44).unwrap(), 144);
    assert_eq!(ic.read(0xff0f).unwrap() & 0x01, 0x01);
    assert_eq!(ppu.io_read(0xff41).unwrap() & 0x03, 1);
    assert_eq!(ppu.step(10 * 456 - 1, &mut ic).unwrap(), false);
    assert_eq!(ppu.step(1, &mut ic).unwrap(), true);
    assert_eq!(ppu.io_read(0xff44).unwrap(), 0);
    assert_eq!(ppu.io_read(0xff41).unwrap() & 0x03, 2);
}

#[test]
fn ppu_lyc_interrupt() {
    let mut ppu = Ppu::new();
    let mut ic = Interrupts::new();
    ppu.io_write(0xff45, 3).unwrap();
    ppu.io_write(0xff41, 0x40).unwrap();
    ppu.io_write(0xff40, 0x80).unwrap();
    ppu.step(3 * 456 - 1, &mut ic).unwrap();
    assert_eq!(ic.read(0xff0f).unwrap() & 0x02, 0);
    ppu.step(1, &mut ic).unwrap();
    assert_eq!(ic.read(0xff0f).unwrap() & 0x02, 0x02);
    assert_eq!(ppu.io_read(0xff41).unwrap() & 0x04, 0x04);
}

#[test]
fn ppu_draws_the_background() {
    let mut ppu = Ppu::new();
    let mut ic = Interrupts::new();
    ppu.connect_screen(HeadlessScreen::new()).unwrap();
    assert_eq!(
        ppu.connect_screen(HeadlessScreen::new()).unwrap_err().error,
        GbErrorType::AlreadyInitialized
    );
    // tile 0, row 0: colour number 1 in every column; rows 1-7: colour 3
    ppu.write(0x8000, 0xff).unwrap();
    ppu.write(0x8001, 0x00).unwrap();
    for row in 1..8u16 {
        ppu.write(0x8000 + 2 * row, 0xff).unwrap();
        ppu.write(0x8001 + 2 * row, 0xff).unwrap();
    }
    // palette: colour n is shade n
    ppu.io_write(0xff47, 0xe4).unwrap();
    // LCD on, background on, tile data at $8000
    ppu.io_write(0xff40, 0x91).unwrap();
    ppu.step(2 * 456, &mut ic).unwrap();
    let screen = ppu.screen().unwrap();
    assert_eq!(screen.pixel(Pos { x: 0, y: 0 }), 1);
    assert_eq!(screen.pixel(Pos { x: 159, y: 0 }), 1);
    assert_eq!(screen.pixel(Pos { x: 37, y: 1 }), 3);
    assert_eq!(screen.pixel(Pos { x: 37, y: 2 }), 0);
}

#[test]
fn ppu_object_over_background() {
    let mut ppu = Ppu::new();
    let mut ic = Interrupts::new();
    ppu.connect_screen(HeadlessScreen::new()).unwrap();
    // tile 1: leftmost column colour 3 on every row
    for row in 0..8u16 {
        ppu.write(0x8010 + 2 * row, 0x80).unwrap();
        ppu.write(0x8011 + 2 * row, 0x80).unwrap();
    }
    // object 0 at screen (10, 0): Y = 16, X = 18, tile 1
    ppu.write(0xfe00, 16).unwrap();
    ppu.write(0xfe01, 18).unwrap();
    ppu.write(0xfe02, 1).unwrap();
    ppu.write(0xfe03, 0).unwrap();
    ppu.io_write(0xff47, 0xe4).unwrap();
    ppu.io_write(0xff48, 0xe4).unwrap();
    // LCD on, objects on, background on, tile data at $8000
    ppu.io_write(0xff40, 0x93).unwrap();
    // the object search of line 0 happens at the end of the frame's last
    // line: run a whole frame, then line 0 again
    ppu.step(154 * 456 + 456, &mut ic).unwrap();
    let screen = ppu.screen().unwrap();
    assert_eq!(screen.pixel(Pos { x: 10, y: 0 }), 3);
    assert_eq!(screen.pixel(Pos { x: 11, y: 0 }), 0);
    assert_eq!(screen.pixel(Pos { x: 9, y: 0 }), 0);
}

#[test]
fn screen_set_pixel() {
    let mut s = HeadlessScreen::new();
    assert_eq!(s.pixels().len(), NUM_PIXELS);
    s.set_pixel(Pos { x: 3, y: 2 }, 2);
    assert_eq!(s.pixel(Pos { x: 3, y: 2 }), 2);
    assert_eq!(s.pixels()[2 * 160 + 3], 2);
    // off the screen: ignored
    s.set_pixel(Pos { x: 160, y: 0 }, 3);
    assert_eq!(s.pixel(Pos { x: 0, y: 1 }), 0);
    let r = gb_resolution();
    assert_eq!((r.width, r.height), (160, 144));
}

fn rom_with_type(cart_type: u8, rom_size: u8, len: usize) -> Vec<u8> {
    let mut rom = vec![0u8; len];
    for (i, b) in b"TESTCART".iter().enumerate() {
        rom[0x134 + i] = *b;
    }
    rom[0x147] = cart_type;
    rom[0x148] = rom_size;
    rom[0x149] = 0;
    rom[0x14b] = 0x01;
    rom[0x4000] = 0x77;
    rom
}

#[test]
fn cartridge_load_and_boot_rom() {
    let rom = rom_with_type(0x00, 0x00, 0x8000);
    assert!(Cartridge::rom_supported(&rom));
    let mut cart = Cartridge::new();
    assert_eq!(cart.cart_path(), None);
    assert_eq!(cart.read(0x4000).unwrap(), 0xff);
    cart.load(String::from("game.gb"), Some(rom)).unwrap();
    assert_eq!(cart.cart_path(), Some(String::from("game.gb")));
    assert_eq!(cart.header.publisher, "Nintendo");
    assert!(cart.header.title.starts_with("TESTCART"));
    // the boot rom covers $0000-$00FF until $FF50 is written
    assert_eq!(cart.read(0x0000).unwrap(), 0x31);
    assert_eq!(cart.read(0x4000).unwrap(), 0x77);
    assert_eq!(cart.io_read(0xff50).unwrap(), 1);
    cart.io_write(0xff50, 1).unwrap();
    assert_eq!(cart.io_read(0xff50).unwrap(), 0);
    assert_eq!(cart.read(0x0000).unwrap(), 0x00);
    assert_eq!(cart.io_read(0xff51).unwrap_err().error, GbErrorType::OutOfBounds);
}

#[test]
fn cartridge_load_errors() {
    let mut cart = Cartridge::new();
    assert_eq!(
        cart.load(String::from("missing.gb"), None).unwrap_err().error,
        GbErrorType::FileError
    );
    // an MBC5 cartridge is not supported
    let rom = rom_with_type(0x19, 0x00, 0x8000);
    assert!(Cartridge::rom_supported(&rom));
    assert_eq!(
        cart.load(String::from("mbc5.gb"), Some(rom)).unwrap_err().error,
        GbErrorType::Unsupported
    );
    // too short to hold a header
    assert!(!Cartridge::rom_supported(&vec![0u8; 0x80]));
}

#[test]
fn cartridge_mbc1_banking() {
    // 64 KiB: 4 banks (size code 2)
    let mut rom = rom_with_type(0x01, 0x02, 0x10000);
    rom[0x8000] = 0x22;
    rom[0xc000] = 0x33;
    let mut cart = Cartridge::new();
    cart.load(String::from("mbc1.gb"), Some(rom)).unwrap();
    assert_eq!(cart.read(0x4000).unwrap(), 0x77);
    cart.write(0x2000, 2).unwrap();
    assert_eq!(cart.read(0x4000).unwrap(), 0x22);
    cart.write(0x2000, 3).unwrap();
    assert_eq!(cart.read(0x4000).unwrap(), 0x33);
    // bank 0 selects bank 1
    cart.write(0x2000, 0).unwrap();
    assert_eq!(cart.read(0x4000).unwrap(), 0x77);
}

#[test]
fn cartridge_readable_follows_the_rom() {
    let mut cart = Cartridge::new();
    // before a rom is loaded: the boot rom, and $FF past it
    assert!(cart.readable(0x0000));
    assert!(cart.readable(0x4000));
    let rom = rom_with_type(0x00, 0x00, 0x5000);
    cart.load(String::from("short.gb"), Some(rom)).unwrap();
    cart.io_write(0xff50, 1).unwrap();
    assert!(cart.readable(0x0000));
    assert!(cart.readable(0x4fff));
    // past the end of the rom, and external ram that the cartridge lacks
    assert!(!cart.readable(0x5000));
    assert!(!cart.readable(0xa000));

    let rom = rom_with_type(0x01, 0x02, 0x10000);
    let mut cart = Cartridge::new();
    cart.load(String::from("mbc1.gb"), Some(rom)).unwrap();
    cart.write(0x2000, 3).unwrap();
    assert!(cart.readable(0x7fff));
    // disabled ram reads $FF
    assert!(cart.readable(0xa000));
}

#[test]
fn header_tables() {
    assert_eq!(get_rom_banks(0), 1);
    assert_eq!(get_rom_banks(5), 32);
    assert_eq!(get_rom_banks(8), 256);
    assert_eq!(get_ram_banks(0), 0);
    assert_eq!(get_ram_banks(3), 4);
    assert_eq!(get_ram_banks(4), 16);
    assert_eq!(get_ram_banks(5), 8);
    assert_eq!(get_old_publisher(0x01), "Nintendo");
    assert_eq!(get_old_publisher(0x08), "Capcom");
    assert_eq!(get_new_publisher("01"), "Nintendo R&D1");
    assert_eq!(get_new_publisher("08"), "Capcom");
}

#[test]
fn fps_counts_frames_per_second() {
    let mut fps = Fps::new();
    assert_eq!(fps.fps(), 0);
    assert!(!fps.record_frame(500_000_000));
    assert!(!fps.record_frame(1_000_000_000));
    assert_eq!(fps.fps(), 0);
    assert!(fps.record_frame(1_000_000_001));
    assert_eq!(fps.fps(), 3);
    fps.tick();
    assert!(fps.fps() == 3 || fps.fps() == 1);
}

#[test]
fn ui_state_hide_all() {
    let mut s = UiState::new();
    assert!(s.show_menu_bar);
    s.show_mem_window = true;
    s.show_menu_bar = false;
    s.hide_all();
    assert_eq!(s, UiState::new());
}

#[test]
fn new_publisher_codes_are_case_blind() {
    assert_eq!(get_new_publisher("A4"), "Konami (Yu-Gi-Oh!)");
    assert_eq!(get_new_publisher("a4"), "Konami (Yu-Gi-Oh!)");
    assert_eq!(get_new_publisher("zz"), "Unknown (NEW) [\"zz\"]");
    assert_eq!(new_publisher_from_upper("a4", "A4"), "Konami (Yu-Gi-Oh!)");
    assert_eq!(new_publisher_from_upper("a4", "a4"), "Unknown (NEW) [\"a4\"]");
}

#[test]
fn ppu_object_priority() {
    let mut ppu = Ppu::new();
    let mut ic = Interrupts::new();
    ppu.connect_screen(HeadlessScreen::new()).unwrap();
    // tile 1: colour 1 everywhere; tile 2: colour 2 everywhere
    for row in 0..8u16 {
        ppu.write(0x8010 + 2 * row, 0xff).unwrap();
        ppu.write(0x8011 + 2 * row, 0x00).unwrap();
        ppu.write(0x8020 + 2 * row, 0x00).unwrap();
        ppu.write(0x8021 + 2 * row, 0xff).unwrap();
    }
    let objs: [(u8, u8); 4] = [(20, 2), (16, 1), (40, 1), (40, 2)];
    for (i, (x, tile)) in objs.iter().enumerate() {
        let base = 0xfe00 + 4 * i as u16;
        ppu.write(base, 16).unwrap();
        ppu.write(base + 1, *x).unwrap();
        ppu.write(base + 2, *tile).unwrap();
        ppu.write(base + 3, 0).unwrap();
    }
    ppu.io_write(0xff47, 0xe4).unwrap();
    ppu.io_write(0xff48, 0xe4).unwrap();
    ppu.io_write(0xff40, 0x93).unwrap();
    ppu.step(154 * 456 + 456, &mut ic).unwrap();
    let screen = ppu.screen().unwrap();
    // where the objects at X 16 and 20 overlap, the smaller X is on top
    assert_eq!(screen.pixel(Pos { x: 12, y: 0 }), 1);
    assert_eq!(screen.pixel(Pos { x: 15, y: 0 }), 1);
    assert_eq!(screen.pixel(Pos { x: 16, y: 0 }), 2);
    // with equal X, the earlier in OAM is on top
    assert_eq!(screen.pixel(Pos { x: 32, y: 0 }), 1);
    assert_eq!(screen.pixel(Pos { x: 39, y: 0 }), 1);
}

#[test]
fn cpu_rejects_unknown_opcodes() {
    let mut bus = Bus::new();
    bus.connect_wram(Ram::new(8 * 1024)).unwrap();
    bus.write8(0xc000, 0xd3).unwrap();
    let mut cpu = Cpu::new();
    cpu.set_regs(CpuRegs { pc: 0xc000, ..cpu.get_regs() });
    assert_eq!(cpu.step(&mut bus).unwrap_err().error, GbErrorType::InvalidCpuInstruction);
}

#[test]
fn vram_tile_sheet_layout() {
    let mut vram = vec![0u8; 8192];
    // tile 17 (second row of tiles, second column), row 3: columns 0 and 7
    let base = 17 * 16 + 3 * 2;
    vram[base] = 0x81;
    vram[base + 1] = 0x01;
    let sheet = vram_tile_sheet(&vram);
    assert_eq!(sheet.len(), 128 * 192);
    let y = 8 + 3;
    assert_eq!(sheet[y * 128 + 8], 1);
    assert_eq!(sheet[y * 128 + 15], 3);
    assert_eq!(sheet[y * 128 + 9], 0);
}

#[test]
fn timer_fast_rate_counts_every_four_ticks() {
    let mut t = Timer::new();
    // enabled at the Div16 rate: a count every 16 clock cycles
    t.write(0xff07, 0x05).unwrap();
    for _ in 0..3 {
        t.step();
    }
    assert_eq!(t.tima, 0);
    t.step();
    assert_eq!(t.tima, 1);
    for _ in 0..8 {
        t.step();
    }
    assert_eq!(t.tima, 3);
}

#[test]
fn vram_ppm_bytes() {
    let mut vram = vec![0u8; 8192];
    // tile 0, row 0: colour numbers 3, 2, 1, 0, 0, 0, 0, 0
    vram[0] = 0xa0;
    vram[1] = 0xc0;
    let ppm = vram_ppm(&vram);
    assert_eq!(&ppm[..15], b"P6\n128 192\n255\n");
    assert_eq!(ppm.len(), 15 + 3 * 128 * 192);
    assert_eq!(&ppm[15..30], &[0, 0, 0, 85, 85, 85, 170, 170, 170, 255, 255, 255, 255, 255, 255]);
    assert_eq!(ppm[15 + 3 * 128], 255);
}
