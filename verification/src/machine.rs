//! The whole machine stepped together: one instruction, then the PPU,
//! the interrupt controller and the timer, and runs of such steps that end
//! on a goal: a number of frames, or the boot rom mapped out.

use crate::bus::{Bus, BusModel};
use crate::cpu::exec::step_spec;
use crate::cpu::{Cpu, CpuRegs};
use crate::err::{GbErrorType, GbResult, outcome};
use crate::interrupt::Interrupt;
use vstd::prelude::*;

verus! {

/// The PPU dots run after each instruction: one machine cycle of four
/// clock cycles, the unit the timer counts in. The cycles an instruction
/// takes are not counted: every step is one machine cycle long.
pub const DOTS_PER_STEP: u32 = 4;

/// The part of a machine step that could not be carried out.
#[derive(Copy, Clone, PartialEq, Eq, Structural, Debug)]
pub enum Stop {
    /// The instruction reaches memory that does not answer it.
    Cpu,
    /// The PPU or the interrupt controller is missing, or a dot cannot be
    /// drawn.
    Ppu,
    /// IF holds bit 5 or 6, which name no interrupt, or there is no
    /// interrupt controller.
    InterruptFlags,
    /// An interrupt is requested and enabled; the cpu has no way to serve
    /// one.
    Interrupt(Interrupt),
    /// There is no timer, or its tick counters cannot count on.
    Timer,
}

/// How a machine step ended.
#[derive(Copy, Clone, PartialEq, Eq, Structural, Debug)]
pub enum StepEnd {
    /// The step ran to its end; whether the PPU finished a frame in it.
    Done(bool),
    /// The step stopped at the part named.
    Stuck(Stop),
}

/// How a run of machine steps ended.
#[derive(Copy, Clone, PartialEq, Eq, Structural, Debug)]
pub enum RunEnd {
    /// The goal was met after this many steps.
    Reached(u64),
    /// The steps allowed were used up first.
    OutOfSteps,
    /// The step after this many stopped at the part named.
    Stuck(u64, Stop),
}

/// `n` PPU dots: the bus after them, whether one ended a frame, and whether
/// all of them ran. The dots stop at the first that cannot run.
pub open spec fn dots_spec(m: BusModel, n: nat) -> (BusModel, bool, bool)
    decreases n,
{
    if n == 0 {
        (m, false, true)
    } else {
        let (m1, f1, ok1) = dots_spec(m, (n - 1) as nat);
        if !ok1 {
            (m1, f1, false)
        } else {
            match m1.dot_spec() {
                None => (m1, f1, false),
                Some((m2, f2)) => (m2, f1 || f2, true),
            }
        }
    }
}

/// One machine step: the instruction at PC, four PPU dots, the interrupt
/// controller asked for an interrupt to serve, and one timer tick. An
/// error of the instruction ends the step at once; a part that cannot go on
/// ends it where it stands.
pub open spec fn machine_step_spec(r: CpuRegs, m: BusModel) -> (
    CpuRegs,
    BusModel,
    Result<StepEnd, GbErrorType>,
) {
    match step_spec::<Bus>(r, m) {
        None => (r, m, Ok(StepEnd::Stuck(Stop::Cpu))),
        Some((r1, m1, Err(e))) => (r1, m1, Err(e)),
        Some((r1, m1, Ok(()))) => {
            let (m2, frame, ok) = dots_spec(m1, DOTS_PER_STEP as nat);
            if !ok {
                (r1, m2, Ok(StepEnd::Stuck(Stop::Ppu)))
            } else {
                match m2.interrupt_spec() {
                    None => (r1, m2, Ok(StepEnd::Stuck(Stop::InterruptFlags))),
                    Some(Some(i)) => (r1, m2, Ok(StepEnd::Stuck(Stop::Interrupt(i)))),
                    Some(None) => match m2.timer_tick_spec() {
                        None => (r1, m2, Ok(StepEnd::Stuck(Stop::Timer))),
                        Some(m3) => (r1, m3, Ok(StepEnd::Done(frame))),
                    },
                }
            }
        },
    }
}

/// The machine after `k` steps that all ran to their end, with the number
/// of frames they finished; `None` if one of them did not.
pub open spec fn run_spec(r: CpuRegs, m: BusModel, k: nat) -> Option<(CpuRegs, BusModel, nat)>
    decreases k,
{
    if k == 0 {
        Some((r, m, 0))
    } else {
        match run_spec(r, m, (k - 1) as nat) {
            None => None,
            Some((r1, m1, f)) => match machine_step_spec(r1, m1) {
                (r2, m2, Ok(StepEnd::Done(frame))) => Some(
                    (
                        r2,
                        m2,
                        if frame {
                            f + 1
                        } else {
                            f
                        },
                    ),
                ),
                _ => None,
            },
        }
    }
}

/// Whether the boot rom is mapped over the start of the cartridge.
pub open spec fn boot_rom_mapped(m: BusModel) -> bool {
    m.cart matches Some(c) && c.boot_mode
}

proof fn lemma_dots_stuck_stays(m: BusModel, k: nat, n: nat)
    requires
        k <= n,
        !dots_spec(m, k).2,
    ensures
        dots_spec(m, n) == dots_spec(m, k),
    decreases n - k,
{
    if k < n {
        lemma_dots_stuck_stays(m, k, (n - 1) as nat);
    }
}

/// Runs one machine step: the instruction at PC, then four PPU dots, the
/// interrupt controller and one timer tick.
#[verifier::loop_isolation(false)]
pub fn step_machine(cpu: &mut Cpu, bus: &mut Bus) -> (res: GbResult<StepEnd>)
    requires
        old(cpu).wf(),
    ensures
        final(cpu).wf(),
        machine_step_spec(old(cpu).regs(), old(bus)@) == (final(cpu).regs(), final(bus)@, outcome(
            res,
        )),
        final(cpu).history.spec_cap() == old(cpu).history.spec_cap(),
        final(cpu).history@ == (if step_spec::<Bus>(old(cpu).regs(), old(bus)@) is Some {
            Cpu::history_after(old(cpu).history@, old(cpu).history.spec_cap(), old(cpu).pc)
        } else {
            old(cpu).history@
        }),
{
    if !cpu.step_defined(bus) {
        return Ok(StepEnd::Stuck(Stop::Cpu));
    }
    match cpu.step(bus) {
        Ok(()) => {},
        Err(e) => {
            return Err(e);
        },
    }
    let ghost m1 = bus@;
    let mut frame = false;
    let mut i: u32 = 0;
    while i < DOTS_PER_STEP
        invariant
            i <= DOTS_PER_STEP,
            dots_spec(m1, i as nat) == (bus@, frame, true),
        decreases DOTS_PER_STEP - i,
    {
        match bus.dot() {
            None => {
                proof {
                    lemma_dots_stuck_stays(m1, (i + 1) as nat, DOTS_PER_STEP as nat);
                }
                return Ok(StepEnd::Stuck(Stop::Ppu));
            },
            Some(f) => {
                frame = frame || f;
            },
        }
        i = i + 1;
    }
    match bus.interrupt_to_serve() {
        None => Ok(StepEnd::Stuck(Stop::InterruptFlags)),
        Some(Some(pending)) => Ok(StepEnd::Stuck(Stop::Interrupt(pending))),
        Some(None) => if bus.timer_tick() {
            Ok(StepEnd::Done(frame))
        } else {
            Ok(StepEnd::Stuck(Stop::Timer))
        },
    }
}

/// After `k` steps that all ran to their end, the machine is `(r2, m2)`.
pub open spec fn state_after(r: CpuRegs, m: BusModel, k: nat, r2: CpuRegs, m2: BusModel) -> bool {
    match run_spec(r, m, k) {
        Some((r1, m1, _)) => r1 == r2 && m1 == m2,
        None => false,
    }
}

/// After `k` steps that all ran to their end, fewer than `n` frames are
/// finished.
pub open spec fn short_of_frames(r: CpuRegs, m: BusModel, k: nat, n: nat) -> bool {
    match run_spec(r, m, k) {
        Some((_, _, f)) => f < n,
        None => false,
    }
}

/// After `k` steps that all ran to their end, the boot rom is still mapped.
pub open spec fn still_booting(r: CpuRegs, m: BusModel, k: nat) -> bool {
    match run_spec(r, m, k) {
        Some((_, m1, _)) => boot_rom_mapped(m1),
        None => false,
    }
}

/// After `k` steps that all ran to their end, the next step leaves
/// `(r2, m2)` and ends as `end`.
pub open spec fn next_step_is(
    r: CpuRegs,
    m: BusModel,
    k: nat,
    r2: CpuRegs,
    m2: BusModel,
    end: Result<StepEnd, GbErrorType>,
) -> bool {
    match run_spec(r, m, k) {
        Some((r1, m1, _)) => machine_step_spec(r1, m1) == (r2, m2, end),
        None => false,
    }
}

/// Runs machine steps until `n` frames are finished, at most `max_steps`
/// of them. On `Reached(k)` the `k`-th step finished the `n`-th frame.
#[verifier::loop_isolation(false)]
pub fn run_frames(cpu: &mut Cpu, bus: &mut Bus, n: u32, max_steps: u64) -> (res: GbResult<RunEnd>)
    requires
        old(cpu).wf(),
    ensures
        final(cpu).wf(),
        final(cpu).history.spec_cap() == old(cpu).history.spec_cap(),
        match outcome(res) {
            Ok(RunEnd::Reached(k)) => {
                &&& k <= max_steps
                &&& run_spec(old(cpu).regs(), old(bus)@, k as nat) == Some(
                    (final(cpu).regs(), final(bus)@, n as nat),
                )
                &&& forall|j: nat|
                    j < k ==> #[trigger] short_of_frames(old(cpu).regs(), old(bus)@, j, n as nat)
            },
            Ok(RunEnd::OutOfSteps) => {
                &&& state_after(
                    old(cpu).regs(),
                    old(bus)@,
                    max_steps as nat,
                    final(cpu).regs(),
                    final(bus)@,
                )
                &&& short_of_frames(old(cpu).regs(), old(bus)@, max_steps as nat, n as nat)
            },
            Ok(RunEnd::Stuck(k, s)) => {
                &&& k < max_steps
                &&& short_of_frames(old(cpu).regs(), old(bus)@, k as nat, n as nat)
                &&& next_step_is(
                    old(cpu).regs(),
                    old(bus)@,
                    k as nat,
                    final(cpu).regs(),
                    final(bus)@,
                    Ok(StepEnd::Stuck(s)),
                )
            },
            Err(e) => exists|k: nat|
                {
                    &&& k < max_steps
                    &&& short_of_frames(old(cpu).regs(), old(bus)@, k, n as nat)
                    &&& #[trigger] next_step_is(
                        old(cpu).regs(),
                        old(bus)@,
                        k,
                        final(cpu).regs(),
                        final(bus)@,
                        Err(e),
                    )
                },
        },
{
    let ghost r0 = cpu.regs();
    let ghost m0 = bus@;
    let mut k: u64 = 0;
    let mut frames: u32 = 0;
    while frames < n
        invariant
            cpu.wf(),
            cpu.history.spec_cap() == old(cpu).history.spec_cap(),
            k <= max_steps,
            frames <= n,
            run_spec(r0, m0, k as nat) == Some((cpu.regs(), bus@, frames as nat)),
            forall|j: nat| j < k ==> #[trigger] short_of_frames(r0, m0, j, n as nat),
        decreases max_steps - k,
    {
        if k == max_steps {
            return Ok(RunEnd::OutOfSteps);
        }
        match step_machine(cpu, bus) {
            Err(e) => {
                proof {
                    assert(short_of_frames(r0, m0, k as nat, n as nat));
                    assert(next_step_is(r0, m0, k as nat, cpu.regs(), bus@, Err(e.error)));
                }
                return Err(e);
            },
            Ok(StepEnd::Stuck(s)) => {
                return Ok(RunEnd::Stuck(k, s));
            },
            Ok(StepEnd::Done(frame)) => {
                proof {
                    assert(short_of_frames(r0, m0, k as nat, n as nat));
                    assert(run_spec(r0, m0, (k + 1) as nat) == Some(
                        (cpu.regs(), bus@, (if frame { frames + 1 } else { frames as int }) as nat),
                    ));
                }
                if frame {
                    frames = frames + 1;
                }
            },
        }
        k = k + 1;
    }
    Ok(RunEnd::Reached(k))
}

/// Runs machine steps until the boot rom is mapped out, at most
/// `max_steps` of them. On `Reached(k)` the boot rom went out with the
/// `k`-th step (or was out from the start, for `k` = 0).
#[verifier::loop_isolation(false)]
pub fn run_until_boot_exit(cpu: &mut Cpu, bus: &mut Bus, max_steps: u64) -> (res: GbResult<RunEnd>)
    requires
        old(cpu).wf(),
    ensures
        final(cpu).wf(),
        final(cpu).history.spec_cap() == old(cpu).history.spec_cap(),
        match outcome(res) {
            Ok(RunEnd::Reached(k)) => {
                &&& k <= max_steps
                &&& state_after(old(cpu).regs(), old(bus)@, k as nat, final(cpu).regs(), final(bus)@)
                &&& !boot_rom_mapped(final(bus)@)
                &&& forall|j: nat| j < k ==> #[trigger] still_booting(old(cpu).regs(), old(bus)@, j)
            },
            Ok(RunEnd::OutOfSteps) => {
                &&& state_after(
                    old(cpu).regs(),
                    old(bus)@,
                    max_steps as nat,
                    final(cpu).regs(),
                    final(bus)@,
                )
                &&& boot_rom_mapped(final(bus)@)
            },
            Ok(RunEnd::Stuck(k, s)) => {
                &&& k < max_steps
                &&& still_booting(old(cpu).regs(), old(bus)@, k as nat)
                &&& next_step_is(
                    old(cpu).regs(),
                    old(bus)@,
                    k as nat,
                    final(cpu).regs(),
                    final(bus)@,
                    Ok(StepEnd::Stuck(s)),
                )
            },
            Err(e) => exists|k: nat|
                {
                    &&& k < max_steps
                    &&& still_booting(old(cpu).regs(), old(bus)@, k)
                    &&& #[trigger] next_step_is(
                        old(cpu).regs(),
                        old(bus)@,
                        k,
                        final(cpu).regs(),
                        final(bus)@,
                        Err(e),
                    )
                },
        },
{
    let ghost r0 = cpu.regs();
    let ghost m0 = bus@;
    let mut k: u64 = 0;
    while bus.boot_rom_mapped()
        invariant
            cpu.wf(),
            cpu.history.spec_cap() == old(cpu).history.spec_cap(),
            k <= max_steps,
            state_after(r0, m0, k as nat, cpu.regs(), bus@),
            forall|j: nat| j < k ==> #[trigger] still_booting(r0, m0, j),
        decreases max_steps - k,
    {
        if k == max_steps {
            return Ok(RunEnd::OutOfSteps);
        }
        match step_machine(cpu, bus) {
            Err(e) => {
                proof {
                    assert(still_booting(r0, m0, k as nat));
                    assert(next_step_is(r0, m0, k as nat, cpu.regs(), bus@, Err(e.error)));
                }
                return Err(e);
            },
            Ok(StepEnd::Stuck(s)) => {
                return Ok(RunEnd::Stuck(k, s));
            },
            Ok(StepEnd::Done(_)) => {
                proof {
                    assert(still_booting(r0, m0, k as nat));
                }
            },
        }
        k = k + 1;
    }
    Ok(RunEnd::Reached(k))
}

/// Machine steps run together when the front end is not single-stepping.
pub const CHUNK_SIZE: u32 = 4;

/// What the front end runs at one turn of its event loop.
#[derive(Copy, Clone, PartialEq, Eq, Structural, Debug)]
pub enum FlowAction {
    /// Paused: nothing runs.
    Idle,
    /// A single step was asked for: one machine step.
    One,
    /// Running: a chunk of `CHUNK_SIZE` machine steps, unless the machine
    /// is already ahead of its clock.
    Chunk,
}

/// The turn's action for the pause and single-step switches. A single-step
/// request is used up by the turn.
pub fn flow_action(paused: bool, step: bool) -> (r: FlowAction)
    ensures
        r == (if paused && !step {
            FlowAction::Idle
        } else if step {
            FlowAction::One
        } else {
            FlowAction::Chunk
        }),
{
    if paused && !step {
        FlowAction::Idle
    } else if step {
        FlowAction::One
    } else {
        FlowAction::Chunk
    }
}

} // verus!
