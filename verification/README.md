# gameboy

A Game Boy (DMG) emulator core whose behaviour is stated in Verus contracts
and proved.

## Layout

- `src/` — the library, checked by Verus:
  - `cpu` (registers, `alu`, `decode`, `exec`): the SM83 instruction set,
    each instruction given by a spec function over the registers and the
    memory model;
  - `bus`: the memory map, OAM DMA included, as a `Memory` (`mem`);
  - `cart` (`header`, `no_mbc`, `mbc1`, `mbc3`): cartridge header parsing and
    the memory bank controllers;
  - `ppu` (`regs`, `objs`): the LCD registers and dot-by-dot drawing of the
    background, window and objects into a frame of shades (`screen`);
  - `timer`, `interrupt`, `joypad`, `ram`;
  - `dasm`: a byte-at-a-time disassembler;
  - `machine`: one step of the whole machine (an instruction, four PPU dots,
    the interrupt controller, a timer tick) and runs of steps to a number
    of frames or to the end of the boot rom; `trace`: what the traces
    report and when they stop;
  - `keybinds`, `ui`, `event`, `fps`, `debug`: front-end state and helpers.
- `tests/` — tests run against the compiled library.
- `app/` — a command line front end: reads a rom, runs the machine headless
  for a number of frames or under one of the traces, prints the machine
  state and writes the VRAM tile sheet as a PPM image.

## Running

```
gb --headless --rom <path> [--frames <N>] [--dump-vram <out.ppm>] [--dump-state]
   [--trace | --trace-end | --trace-game] [--trace-steps <N>]
```
