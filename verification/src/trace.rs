//! What the tracing front ends decide at each step: which events to report
//! and when to stop. The printing is left to the caller.

use vstd::prelude::*;

verus! {

/// The start of the last stretch of the boot rom, watched instruction by
/// instruction.
pub const BOOT_END_PHASE_START: u16 = 0x00d0;

/// The last address of the boot rom.
pub const BOOT_END_PHASE_END: u16 = 0x00ff;

/// Where a game lands when it runs into the $FF fill of empty memory: RST
/// $38 calls itself over and over.
pub const RST38_ADDR: u16 = 0x0038;

/// The first address of the game once the boot rom is off.
pub const GAME_START: u16 = 0x0100;

/// The opcode of LDH A,(a8).
pub const LDH_A_OPCODE: u8 = 0xf0;

/// The low byte of LY, $FF44.
pub const LY_LOW_BYTE: u8 = 0x44;

/// LY reads past this many are only reported when they see line 144.
pub const LY_READS_SHOWN: u64 = 30;

/// The first line of the vertical blank.
pub const VBLANK_LINE: u8 = 144;

/// What the LY watch sees before a step: whether LY changed since the last
/// step, and whether the instruction at PC reads LY (LDH A,($44)).
pub fn ly_trace_event(ly: u8, last_ly: u8, op: u8, imm: u8) -> (r: (bool, bool))
    ensures
        r.0 == (ly != last_ly),
        r.1 == (op == LDH_A_OPCODE && imm == LY_LOW_BYTE),
{
    (ly != last_ly, op == LDH_A_OPCODE && imm == LY_LOW_BYTE)
}

/// Whether a read of LY, the `ly_reads`-th, is reported: the first 30 are,
/// and any that sees the vertical blank line.
pub fn ly_read_shown(ly_reads: u64, a: u8) -> (b: bool)
    ensures
        b == (ly_reads <= LY_READS_SHOWN || a == VBLANK_LINE),
{
    ly_reads <= LY_READS_SHOWN || a == VBLANK_LINE
}

/// What the boot-exit watch reports at one step.
#[derive(Copy, Clone, PartialEq, Eq, Structural, Debug)]
pub struct BootEndEvent {
    /// PC is in the last stretch of the boot rom.
    pub in_end_phase: bool,
    /// The boot rom was mapped in or out since the last step.
    pub mode_changed: bool,
    /// PC is the same as at the last step, inside the boot rom.
    pub stuck: bool,
}

/// The boot-exit watch at one step, before the step is made: the events to
/// report and whether to stop. It stops as soon as the boot rom is mapped
/// out; a stuck PC is only looked for when it goes on.
pub fn boot_end_event(pc: u16, prev_pc: u16, boot_mode: bool, last_boot_mode: bool) -> (r: (
    BootEndEvent,
    bool,
))
    ensures
        r.0.in_end_phase == (BOOT_END_PHASE_START <= pc <= BOOT_END_PHASE_END),
        r.0.mode_changed == (boot_mode != last_boot_mode),
        r.1 == (boot_mode != last_boot_mode && !boot_mode),
        r.0.stuck == (!r.1 && pc == prev_pc && pc < GAME_START),
{
    let in_end_phase = BOOT_END_PHASE_START <= pc && pc <= BOOT_END_PHASE_END;
    let mode_changed = boot_mode != last_boot_mode;
    let stop = mode_changed && !boot_mode;
    let stuck = !stop && pc == prev_pc && pc < GAME_START;
    (BootEndEvent { in_end_phase, mode_changed, stuck }, stop)
}

/// How a traced game step is labelled.
#[derive(Copy, Clone, PartialEq, Eq, Structural, Debug)]
pub enum GameTraceEvent {
    /// PC is at $0038: the game is caught in the RST $38 loop.
    Rst38Loop,
    /// PC is back below $0100 a few steps into the game.
    BackInBoot,
    Plain,
}

/// The label of the `i`-th traced game step at `pc`, and whether the trace
/// stops after it (it does at $0038).
pub fn game_trace_event(pc: u16, i: u64) -> (r: (GameTraceEvent, bool))
    ensures
        r.0 == (if pc == RST38_ADDR {
            GameTraceEvent::Rst38Loop
        } else if pc < GAME_START && i > 5 {
            GameTraceEvent::BackInBoot
        } else {
            GameTraceEvent::Plain
        }),
        r.1 == (pc == RST38_ADDR),
{
    let event = if pc == RST38_ADDR {
        GameTraceEvent::Rst38Loop
    } else if pc < GAME_START && i > 5 {
        GameTraceEvent::BackInBoot
    } else {
        GameTraceEvent::Plain
    };
    (event, pc == RST38_ADDR)
}

} // verus!
