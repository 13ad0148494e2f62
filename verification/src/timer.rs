//! The timer: DIV, TIMA, TMA and TAC.

use crate::err::{GbError, GbErrorType, GbResult, outcome};
use vstd::prelude::*;
use vstd::std_specs::convert::FromSpec;
use vstd::std_specs::convert::FromSpecImpl;

verus! {

pub const DIV_ADDR: u16 = 0xff04;

pub const TIMA_ADDR: u16 = 0xff05;

pub const TMA_ADDR: u16 = 0xff06;

pub const TAC_ADDR: u16 = 0xff07;

/// Clock cycles in one cpu tick; the timer steps once per cpu tick.
pub const CYCLES_PER_CPU_TICK: u32 = 4;

/// How fast TIMA counts, as selected by bits 0-1 of TAC.
#[derive(Copy, Clone, PartialEq, Eq, Structural, Debug)]
pub enum ClockRate {
    Div1024,
    Div16,
    Div64,
    Div256,
}

impl ClockRate {
    pub open spec fn spec_bits(self) -> u8 {
        match self {
            ClockRate::Div1024 => 0,
            ClockRate::Div16 => 1,
            ClockRate::Div64 => 2,
            ClockRate::Div256 => 3,
        }
    }

    pub open spec fn spec_from_bits(v: u8) -> ClockRate {
        if v == 0 {
            ClockRate::Div1024
        } else if v == 1 {
            ClockRate::Div16
        } else if v == 2 {
            ClockRate::Div64
        } else {
            ClockRate::Div256
        }
    }

    /// The clock cycles between two counts at this rate.
    pub open spec fn spec_divider(self) -> u32 {
        match self {
            ClockRate::Div1024 => 1024,
            ClockRate::Div16 => 16,
            ClockRate::Div64 => 64,
            ClockRate::Div256 => 256,
        }
    }

    /// The number of cpu ticks (of 4 clock cycles) between two counts.
    pub open spec fn spec_cpu_ticks(self) -> u32 {
        (self.spec_divider() / CYCLES_PER_CPU_TICK) as u32
    }

    pub fn as_cpu_ticks(self) -> (t: u32)
        ensures
            t == self.spec_cpu_ticks(),
            t > 0,
    {
        match self {
            ClockRate::Div1024 => 1024 / CYCLES_PER_CPU_TICK,
            ClockRate::Div16 => 16 / CYCLES_PER_CPU_TICK,
            ClockRate::Div64 => 64 / CYCLES_PER_CPU_TICK,
            ClockRate::Div256 => 256 / CYCLES_PER_CPU_TICK,
        }
    }

    pub fn bits(self) -> (v: u8)
        ensures
            v == self.spec_bits(),
            v < 4,
    {
        match self {
            ClockRate::Div1024 => 0,
            ClockRate::Div16 => 1,
            ClockRate::Div64 => 2,
            ClockRate::Div256 => 3,
        }
    }

    /// The rate with the given number; there is none above 3.
    pub fn from_bits(value: u8) -> (r: ClockRate)
        requires
            value < 4,
        ensures
            r == Self::spec_from_bits(value),
            r.spec_bits() == value,
    {
        if value == 0 {
            ClockRate::Div1024
        } else if value == 1 {
            ClockRate::Div16
        } else if value == 2 {
            ClockRate::Div64
        } else {
            ClockRate::Div256
        }
    }
}

/// TAC, the timer control register.
#[derive(Copy, Clone, PartialEq, Eq, Structural, Debug)]
pub struct Tac {
    pub enable: bool,
    pub clock_rate: ClockRate,
}

impl Tac {
    /// Bit 2 is the enable flag, bits 0-1 the clock rate; the rest read 0.
    pub open spec fn spec_to_u8(self) -> u8 {
        ((if self.enable { 4u8 } else { 0u8 }) + self.clock_rate.spec_bits()) as u8
    }
}

impl FromSpecImpl<u8> for Tac {
    open spec fn obeys_from_spec() -> bool {
        true
    }

    open spec fn from_spec(value: u8) -> Tac {
        Tac { enable: value & 0x4 != 0, clock_rate: ClockRate::spec_from_bits(value & 0x3) }
    }
}

impl From<u8> for Tac {
    fn from(value: u8) -> (r: Tac) {
        proof {
            assert(value & 0x3 < 4) by (bit_vector);
        }
        Tac { enable: value & 0x4 > 0, clock_rate: ClockRate::from_bits(value & 0x3) }
    }
}

impl FromSpecImpl<Tac> for u8 {
    open spec fn obeys_from_spec() -> bool {
        true
    }

    open spec fn from_spec(value: Tac) -> u8 {
        value.spec_to_u8()
    }
}

impl From<Tac> for u8 {
    fn from(value: Tac) -> (r: u8) {
        let ie: u8 = if value.enable { 1 } else { 0 };
        let rate: u8 = value.clock_rate.bits();
        proof {
            assert(ie <= 1 && rate < 4 ==> (ie << 2u8) | rate == ie * 4 + rate) by (bit_vector);
        }
        (ie << 2u8) | rate
    }
}

/// Encoding TAC and decoding it again gives the same register.
pub proof fn lemma_tac_round_trip(t: Tac)
    ensures
        <Tac as FromSpec<u8>>::from_spec(t.spec_to_u8()) == t,
{
    let v = t.spec_to_u8();
    let r = t.clock_rate.spec_bits();
    if t.enable {
        assert(v == 4 + r);
        assert(r < 4 ==> ((4 + r) as u8) & 0x4 != 0 && ((4 + r) as u8) & 0x3 == r) by (bit_vector);
    } else {
        assert(v == r);
        assert(r < 4 ==> r & 0x4 == 0 && r & 0x3 == r) by (bit_vector);
    }
}

/// A byte counted up by one, 255 wrapping to 0.
pub open spec fn wrap_inc(v: u8) -> u8 {
    if v == 255 { 0 } else { (v + 1) as u8 }
}

/// What a timer holds, with the cpu ticks counted since the last count.
pub struct TimerModel {
    pub div: u8,
    pub tima: u8,
    pub tma: u8,
    pub tac: Tac,
    pub tima_cpu_ticks: u32,
    pub div_cpu_ticks: u32,
}

impl TimerModel {
    /// TIMA after one count: it wraps to TMA.
    pub open spec fn tick_spec(self) -> TimerModel {
        TimerModel { tima: if self.tima == 255 { self.tma } else { (self.tima + 1) as u8 }, ..self }
    }

    /// The timer after one cpu tick.
    pub open spec fn step_spec(self) -> TimerModel {
        let tima_ticks = (self.tima_cpu_ticks + 1) as u32;
        let div_ticks = (self.div_cpu_ticks + 1) as u32;
        let s1 = if div_ticks == ClockRate::Div256.spec_cpu_ticks() {
            TimerModel { div: wrap_inc(self.div), div_cpu_ticks: 0, tima_cpu_ticks: tima_ticks, ..self }
        } else {
            TimerModel { div_cpu_ticks: div_ticks, tima_cpu_ticks: tima_ticks, ..self }
        };
        if self.tac.enable && tima_ticks == self.tac.clock_rate.spec_cpu_ticks() {
            TimerModel { tima_cpu_ticks: 0, ..s1.tick_spec() }
        } else {
            s1
        }
    }

    /// The timer after `n` cpu ticks.
    pub open spec fn steps_spec(self, n: nat) -> TimerModel
        decreases n,
    {
        if n == 0 {
            self
        } else {
            self.steps_spec((n - 1) as nat).step_spec()
        }
    }

    pub open spec fn read_spec(self, addr: u16) -> Result<u8, GbErrorType> {
        if addr == DIV_ADDR {
            Ok(self.div)
        } else if addr == TIMA_ADDR {
            Ok(self.tima)
        } else if addr == TMA_ADDR {
            Ok(self.tma)
        } else if addr == TAC_ADDR {
            Ok(self.tac.spec_to_u8())
        } else {
            Err(GbErrorType::OutOfBounds)
        }
    }

    pub open spec fn write_spec(self, addr: u16, data: u8) -> (TimerModel, Result<(), GbErrorType>) {
        if addr == DIV_ADDR {
            (TimerModel { div: 0, ..self }, Ok(()))
        } else if addr == TIMA_ADDR {
            (TimerModel { tima: data, ..self }, Ok(()))
        } else if addr == TMA_ADDR {
            (TimerModel { tma: data, ..self }, Ok(()))
        } else if addr == TAC_ADDR {
            (TimerModel { tac: <Tac as FromSpec<u8>>::from_spec(data), ..self }, Ok(()))
        } else {
            (self, Err(GbErrorType::OutOfBounds))
        }
    }
}

pub struct Timer {
    /// Divider register
    pub div: u8,
    /// Timer Counter
    pub tima: u8,
    /// Timer Modulo
    pub tma: u8,
    /// Timer Control
    pub tac: Tac,
    /// cpu ticks since TIMA last counted
    tima_cpu_ticks: u32,
    /// cpu ticks since DIV last counted
    div_cpu_ticks: u32,
}

impl View for Timer {
    type V = TimerModel;

    closed spec fn view(&self) -> TimerModel {
        TimerModel {
            div: self.div,
            tima: self.tima,
            tma: self.tma,
            tac: self.tac,
            tima_cpu_ticks: self.tima_cpu_ticks,
            div_cpu_ticks: self.div_cpu_ticks,
        }
    }
}

impl Timer {
    pub fn new() -> (t: Timer)
        ensures
            t@ == (TimerModel {
                div: 0,
                tima: 0,
                tma: 0,
                tac: Tac { enable: false, clock_rate: ClockRate::Div1024 },
                tima_cpu_ticks: 0,
                div_cpu_ticks: 0,
            }),
    {
        proof {
            assert(0u8 & 0x4 == 0 && 0u8 & 0x3 == 0) by (bit_vector);
        }
        Timer {
            div: 0,
            tima: 0,
            tma: 0,
            tac: Tac::from(0u8),
            tima_cpu_ticks: 0,
            div_cpu_ticks: 0,
        }
    }

    /// Steps the timer by one cpu tick (4 clock cycles). The tick counters
    /// are 32 bits wide; a counter at its largest value cannot count on.
    pub fn step(&mut self)
        requires
            old(self)@.tima_cpu_ticks < u32::MAX,
            old(self)@.div_cpu_ticks < u32::MAX,
        ensures
            final(self)@ == old(self)@.step_spec(),
    {
        self.tima_cpu_ticks = self.tima_cpu_ticks + 1;
        self.div_cpu_ticks = self.div_cpu_ticks + 1;

        // DIV always counts at the Div256 rate
        if self.div_cpu_ticks == ClockRate::Div256.as_cpu_ticks() {
            self.div = self.div.wrapping_add(1);
            self.div_cpu_ticks = 0;
        }
        if self.tac.enable && self.tima_cpu_ticks == self.tac.clock_rate.as_cpu_ticks() {
            self.tick();
            self.tima_cpu_ticks = 0;
        }
    }

    /// Whether `step` can count on: neither tick counter is at its largest
    /// value.
    pub fn can_step(&self) -> (b: bool)
        ensures
            b == (self@.tima_cpu_ticks < u32::MAX && self@.div_cpu_ticks < u32::MAX),
    {
        self.tima_cpu_ticks < u32::MAX && self.div_cpu_ticks < u32::MAX
    }

    /// Counts TIMA up by one; on overflow it is reloaded from TMA.
    fn tick(&mut self)
        ensures
            final(self)@ == old(self)@.tick_spec(),
    {
        self.tima = self.tima.wrapping_add(1);
        if self.tima == 0 {
            self.tima = self.tma;
        }
    }

    pub fn read(&self, addr: u16) -> (r: GbResult<u8>)
        ensures
            outcome(r) == self@.read_spec(addr),
    {
        if addr == DIV_ADDR {
            Ok(self.div)
        } else if addr == TIMA_ADDR {
            Ok(self.tima)
        } else if addr == TMA_ADDR {
            Ok(self.tma)
        } else if addr == TAC_ADDR {
            Ok(u8::from(self.tac))
        } else {
            Err(GbError::new(GbErrorType::OutOfBounds, "src/timer.rs", 371))
        }
    }

    pub fn write(&mut self, addr: u16, data: u8) -> (r: GbResult<()>)
        ensures
            (final(self)@, outcome(r)) == old(self)@.write_spec(addr, data),
    {
        if addr == DIV_ADDR {
            // writing any value to DIV resets it
            self.div = 0;
        } else if addr == TIMA_ADDR {
            self.tima = data;
        } else if addr == TMA_ADDR {
            self.tma = data;
        } else if addr == TAC_ADDR {
            self.tac = Tac::from(data);
        } else {
            return Err(GbError::new(GbErrorType::OutOfBounds, "src/timer.rs", 389));
        }
        Ok(())
    }
}

/// What a read gives back of a write to a timer register: DIV reads 0
/// whatever was written, TAC keeps its low three bits, TIMA and TMA keep
/// the byte.
pub proof fn lemma_timer_write_read(t: TimerModel, addr: u16, data: u8)
    requires
        addr == DIV_ADDR || addr == TIMA_ADDR || addr == TMA_ADDR || addr == TAC_ADDR,
    ensures
        t.write_spec(addr, data).1 == Ok::<(), GbErrorType>(()),
        t.write_spec(addr, data).0.read_spec(addr) == Ok::<u8, GbErrorType>(
            if addr == DIV_ADDR {
                0u8
            } else if addr == TAC_ADDR {
                data & 0x7
            } else {
                data
            },
        ),
{
    if addr == TAC_ADDR {
        let low = data & 0x3;
        assert(low < 4) by (bit_vector)
            requires
                low == data & 0x3,
        ;
        assert(ClockRate::spec_from_bits(low).spec_bits() == low);
        assert(((if data & 0x4 != 0 { 4u8 } else { 0u8 }) + low) as u8 == data & 0x7) by (bit_vector)
            requires
                low == data & 0x3,
        ;
    }
}

/// DIV counts once every Div256-rate period and the counter before it stays
/// below that period.
pub proof fn lemma_div_counter_bounded(t: TimerModel)
    requires
        t.div_cpu_ticks < ClockRate::Div256.spec_cpu_ticks(),
    ensures
        t.step_spec().div_cpu_ticks < ClockRate::Div256.spec_cpu_ticks(),
        t.step_spec().div == (if t.div_cpu_ticks + 1 == ClockRate::Div256.spec_cpu_ticks() {
            wrap_inc(t.div)
        } else {
            t.div
        }),
{
}

/// DIV counts once every 64 cpu ticks (256 clock cycles): from a fresh
/// period, the `k`-th tick counts it only for `k` = 64.
pub proof fn lemma_div_counts_every_64_ticks(t: TimerModel, k: nat)
    requires
        t.div_cpu_ticks == 0,
        k <= 64,
    ensures
        t.steps_spec(k).div == (if k == 64 {
            wrap_inc(t.div)
        } else {
            t.div
        }),
        t.steps_spec(k).div_cpu_ticks == (if k == 64 {
            0
        } else {
            k
        }),
    decreases k,
{
    if k > 0 {
        lemma_div_counts_every_64_ticks(t, (k - 1) as nat);
    }
}

/// While the timer is enabled, TIMA counts once every `N / 4` cpu ticks for
/// the rate of N clock cycles: from a fresh period, the `k`-th tick counts
/// it only when `k` reaches the rate's tick count, and the control and
/// modulo registers stay as they are.
pub proof fn lemma_tima_counts_at_rate(t: TimerModel, k: nat)
    requires
        t.tac.enable,
        t.tima_cpu_ticks == 0,
        k <= t.tac.clock_rate.spec_cpu_ticks(),
    ensures
        t.steps_spec(k).tac == t.tac,
        t.steps_spec(k).tma == t.tma,
        t.steps_spec(k).tima == (if k == t.tac.clock_rate.spec_cpu_ticks() {
            t.tick_spec().tima
        } else {
            t.tima
        }),
        t.steps_spec(k).tima_cpu_ticks == (if k == t.tac.clock_rate.spec_cpu_ticks() {
            0
        } else {
            k
        }),
    decreases k,
{
    if k > 0 {
        lemma_tima_counts_at_rate(t, (k - 1) as nat);
    }
}

} // verus!
