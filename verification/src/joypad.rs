//! The joypad register (JOYP, $FF00): eight inputs read as two groups of
//! four, where a 0 bit means pressed.

use crate::err::GbResult;
use crate::err::{GbError, GbErrorType, outcome};
use crate::interrupt::{Interrupt, Interrupts};
use vstd::prelude::*;

verus! {

#[derive(Clone, Debug, Copy, PartialEq, Eq, Structural)]
pub enum JoypadInput {
    Up,
    Down,
    Left,
    Right,
    A,
    B,
    Start,
    Select,
}

pub const BUTTON_A_BIT: u8 = 0;

pub const BUTTON_B_BIT: u8 = 1;

pub const BUTTON_START_BIT: u8 = 2;

pub const BUTTON_SELECT_BIT: u8 = 3;

pub const DPAD_RIGHT_BIT: u8 = 0;

pub const DPAD_LEFT_BIT: u8 = 1;

pub const DPAD_UP_BIT: u8 = 2;

pub const DPAD_DOWN_BIT: u8 = 3;

/// The group of an input and its bit in that group, as a mask.
#[derive(Clone, Debug, Copy, PartialEq, Eq, Structural)]
pub enum InputBit {
    Button(u8),
    Dpad(u8),
}

impl JoypadInput {
    pub open spec fn spec_as_mask(self) -> InputBit {
        match self {
            JoypadInput::Up => InputBit::Dpad(4),
            JoypadInput::Down => InputBit::Dpad(8),
            JoypadInput::Left => InputBit::Dpad(2),
            JoypadInput::Right => InputBit::Dpad(1),
            JoypadInput::A => InputBit::Button(1),
            JoypadInput::B => InputBit::Button(2),
            JoypadInput::Start => InputBit::Button(4),
            JoypadInput::Select => InputBit::Button(8),
        }
    }

    pub fn as_mask(self) -> (m: InputBit)
        ensures
            m == self.spec_as_mask(),
    {
        proof {
            assert(1u8 << 0u8 == 1u8 && 1u8 << 1u8 == 2u8 && 1u8 << 2u8 == 4u8 && 1u8 << 3u8 == 8u8)
                by (bit_vector);
        }
        match self {
            JoypadInput::Up => InputBit::Dpad(1 << DPAD_UP_BIT),
            JoypadInput::Down => InputBit::Dpad(1 << DPAD_DOWN_BIT),
            JoypadInput::Left => InputBit::Dpad(1 << DPAD_LEFT_BIT),
            JoypadInput::Right => InputBit::Dpad(1 << DPAD_RIGHT_BIT),
            JoypadInput::A => InputBit::Button(1 << BUTTON_A_BIT),
            JoypadInput::B => InputBit::Button(1 << BUTTON_B_BIT),
            JoypadInput::Start => InputBit::Button(1 << BUTTON_START_BIT),
            JoypadInput::Select => InputBit::Button(1 << BUTTON_SELECT_BIT),
        }
    }
}

/// The state of the inputs and of the group selection.
pub struct JoypadModel {
    pub buttons_state: u8,
    pub dpad_state: u8,
    pub button_mode: bool,
    pub dpad_mode: bool,
    pub ic_connected: bool,
}

impl JoypadModel {
    /// The low nibble of JOYP: the selected groups AND-ed together; with no
    /// group selected, all 1s.
    pub open spec fn nibble(self) -> u8 {
        ((0xfu8 & (if self.button_mode {
            self.buttons_state
        } else {
            0xfu8
        })) & (if self.dpad_mode {
            self.dpad_state
        } else {
            0xfu8
        })) & 0xfu8
    }

    /// JOYP: bits 6-7 read 1, bit 5 is 0 while the buttons are selected,
    /// bit 4 is 0 while the d-pad is selected.
    pub open spec fn read_spec(self) -> u8 {
        0xc0u8 | (if !self.button_mode {
            0x20u8
        } else {
            0u8
        }) | (if !self.dpad_mode {
            0x10u8
        } else {
            0u8
        }) | self.nibble()
    }

    /// Whether going from `self` to `next` takes a bit of the nibble from 1
    /// to 0 with an interrupt controller connected.
    pub open spec fn raises(self, next: JoypadModel) -> bool {
        self.ic_connected && (self.nibble() & !next.nibble()) != 0
    }

    pub open spec fn set_input_spec(self, input: JoypadInput) -> JoypadModel {
        match input.spec_as_mask() {
            InputBit::Button(mask) => JoypadModel { buttons_state: self.buttons_state & !mask, ..self },
            InputBit::Dpad(mask) => JoypadModel { dpad_state: self.dpad_state & !mask, ..self },
        }
    }

    pub open spec fn clear_input_spec(self, input: JoypadInput) -> JoypadModel {
        match input.spec_as_mask() {
            InputBit::Button(mask) => JoypadModel { buttons_state: self.buttons_state | mask, ..self },
            InputBit::Dpad(mask) => JoypadModel { dpad_state: self.dpad_state | mask, ..self },
        }
    }

    /// A write selects the groups: bit 5 clear selects the buttons, bit 4
    /// clear the d-pad.
    pub open spec fn write_spec(self, data: u8) -> JoypadModel {
        JoypadModel {
            button_mode: (data >> 5u8) & 1u8 == 0,
            dpad_mode: (data >> 4u8) & 1u8 == 0,
            ..self
        }
    }
}

/// The IF register after a transition that raises the joypad interrupt or
/// not.
pub open spec fn iflag_after(iflag: u8, raised: bool) -> u8 {
    if raised {
        iflag | Interrupt::Joypad.spec_mask()
    } else {
        iflag
    }
}

pub struct Joypad {
    pub buttons_state: u8,
    pub dpad_state: u8,
    pub button_mode: bool,
    pub dpad_mode: bool,
    /// whether an interrupt controller is connected
    ic_connected: bool,
}

impl View for Joypad {
    type V = JoypadModel;

    closed spec fn view(&self) -> JoypadModel {
        JoypadModel {
            buttons_state: self.buttons_state,
            dpad_state: self.dpad_state,
            button_mode: self.button_mode,
            dpad_mode: self.dpad_mode,
            ic_connected: self.ic_connected,
        }
    }
}

impl Joypad {
    /// Nothing pressed, no group selected, no interrupt controller.
    pub fn new() -> (j: Joypad)
        ensures
            j@ == (JoypadModel {
                buttons_state: 0xf,
                dpad_state: 0xf,
                button_mode: false,
                dpad_mode: false,
                ic_connected: false,
            }),
    {
        // a 1 bit means not pressed
        Joypad {
            buttons_state: 0xf,
            dpad_state: 0xf,
            button_mode: false,
            dpad_mode: false,
            ic_connected: false,
        }
    }

    /// Connects the interrupt controller that later calls hand in; from then
    /// on a press in a selected group raises the joypad interrupt there.
    pub fn connect_ic(&mut self) -> (r: GbResult<()>)
        ensures
            !old(self)@.ic_connected ==> r.is_ok() && final(self)@ == (JoypadModel {
                ic_connected: true,
                ..old(self)@
            }),
            old(self)@.ic_connected ==> final(self)@ == old(self)@ && outcome(r) == Err::<
                (),
                GbErrorType,
            >(GbErrorType::AlreadyInitialized),
    {
        if self.ic_connected {
            return Err(GbError::new(GbErrorType::AlreadyInitialized, "src/joypad.rs", 219));
        }
        self.ic_connected = true;
        Ok(())
    }

    fn get_joyp_nibble(&self) -> (n: u8)
        ensures
            n == self@.nibble(),
    {
        let mut inputs: u8 = 0xf;
        if self.button_mode {
            inputs = inputs & self.buttons_state;
        }
        if self.dpad_mode {
            inputs = inputs & self.dpad_state;
        }
        proof {
            lemma_nibble_bits(self.buttons_state, self.dpad_state);
        }
        inputs & 0xf
    }

    /// Raises the joypad interrupt if a bit of the nibble went from 1 to 0.
    fn check_interrupt(&self, old_nibble: u8, ic: &mut Interrupts)
        ensures
            final(ic)@.ie == old(ic)@.ie,
            final(ic)@.iflag == iflag_after(
                old(ic)@.iflag,
                self@.ic_connected && (old_nibble & !self@.nibble()) != 0,
            ),
    {
        let new_nibble = self.get_joyp_nibble();
        if (old_nibble & !new_nibble) != 0 {
            if self.ic_connected {
                ic.raise(Interrupt::Joypad);
            }
        }
    }

    /// Presses an input.
    pub fn set_input(&mut self, input: JoypadInput, ic: &mut Interrupts)
        ensures
            final(self)@ == old(self)@.set_input_spec(input),
            final(ic)@.ie == old(ic)@.ie,
            final(ic)@.iflag == iflag_after(
                old(ic)@.iflag,
                old(self)@.raises(old(self)@.set_input_spec(input)),
            ),
    {
        let old_nibble = self.get_joyp_nibble();
        // pressing clears the bit
        match input.as_mask() {
            InputBit::Button(mask) => self.buttons_state = self.buttons_state & !mask,
            InputBit::Dpad(mask) => self.dpad_state = self.dpad_state & !mask,
        }
        self.check_interrupt(old_nibble, ic);
    }

    /// Releases an input.
    pub fn clear_input(&mut self, input: JoypadInput)
        ensures
            final(self)@ == old(self)@.clear_input_spec(input),
    {
        // releasing sets the bit
        match input.as_mask() {
            InputBit::Button(mask) => self.buttons_state = self.buttons_state | mask,
            InputBit::Dpad(mask) => self.dpad_state = self.dpad_state | mask,
        }
    }

    pub fn read(&self, _addr: u16) -> (r: GbResult<u8>)
        ensures
            outcome(r) == Ok::<u8, GbErrorType>(self@.read_spec()),
    {
        // bits 6 and 7 always read 1
        let mut val: u8 = 0xc0;
        // bit 5 is 0 while the buttons are selected
        if !self.button_mode {
            val = val | 0x20;
        }
        // bit 4 is 0 while the d-pad is selected
        if !self.dpad_mode {
            val = val | 0x10;
        }
        let nibble = self.get_joyp_nibble();
        proof {
            lemma_nibble_bits(self.buttons_state, self.dpad_state);
        }
        val = val | nibble;
        Ok(val)
    }

    pub fn write(&mut self, _addr: u16, data: u8, ic: &mut Interrupts) -> (r: GbResult<()>)
        ensures
            final(self)@ == old(self)@.write_spec(data),
            final(ic)@.ie == old(ic)@.ie,
            final(ic)@.iflag == iflag_after(
                old(ic)@.iflag,
                old(self)@.raises(old(self)@.write_spec(data)),
            ),
            r.is_ok(),
    {
        let old_nibble = self.get_joyp_nibble();
        self.button_mode = (data >> 5u8) & 0x1 == 0;
        self.dpad_mode = (data >> 4u8) & 0x1 == 0;
        self.check_interrupt(old_nibble, ic);
        Ok(())
    }
}

/// Pressing an input that was released and releasing it again leaves the
/// joypad as it was.
pub proof fn lemma_press_release(j: JoypadModel, input: JoypadInput)
    requires
        match input.spec_as_mask() {
            InputBit::Button(mask) => j.buttons_state & mask == mask,
            InputBit::Dpad(mask) => j.dpad_state & mask == mask,
        },
    ensures
        j.set_input_spec(input).clear_input_spec(input) == j,
{
    match input.spec_as_mask() {
        InputBit::Button(mask) => lemma_clear_restores(j.buttons_state, mask),
        InputBit::Dpad(mask) => lemma_clear_restores(j.dpad_state, mask),
    }
}

/// With the buttons selected (and not the d-pad), pressing a released
/// button clears its bit in JOYP and, with an interrupt controller
/// connected, raises the joypad interrupt.
pub proof fn lemma_press_shows_and_raises(j: JoypadModel, input: JoypadInput, mask: u8)
    requires
        j.button_mode,
        !j.dpad_mode,
        input.spec_as_mask() == InputBit::Button(mask),
        j.buttons_state & mask == mask,
    ensures
        j.set_input_spec(input).read_spec() & mask == 0,
        j.ic_connected ==> j.raises(j.set_input_spec(input)),
{
    assert(mask == 1 || mask == 2 || mask == 4 || mask == 8);
    lemma_press_bits(j.buttons_state, mask);
}

proof fn lemma_press_bits(b: u8, mask: u8)
    by (bit_vector)
    requires
        mask == 1 || mask == 2 || mask == 4 || mask == 8,
        b & mask == mask,
    ensures
        (0xc0u8 | 0u8 | 0x10u8 | (((0xfu8 & (b & !mask)) & 0xfu8) & 0xfu8)) & mask == 0,
        (((0xfu8 & b) & 0xfu8) & 0xfu8) & !(((0xfu8 & (b & !mask)) & 0xfu8) & 0xfu8) != 0,
{
}

proof fn lemma_clear_restores(x: u8, mask: u8)
    by (bit_vector)
    requires
        x & mask == mask,
    ensures
        (x & !mask) | mask == x,
{
}

proof fn lemma_nibble_bits(b: u8, d: u8)
    by (bit_vector)
    ensures
        0xfu8 & 0xfu8 == 0xfu8,
        (0xfu8 & b) & 0xfu8 == 0xfu8 & b,
        0xfu8 & d == (0xfu8 & 0xfu8) & d,
        0xc0u8 | 0u8 == 0xc0u8,
        forall|x: u8| (x | 0u8) == x,
{
}

/// Each input has a line of its own: no two inputs share a group and a
/// bit, each is one bit of the low nibble, and the d-pad group holds
/// exactly the four directions.
pub proof fn lemma_inputs_distinct(i: JoypadInput, j: JoypadInput)
    ensures
        i != j ==> i.spec_as_mask() != j.spec_as_mask(),
        match i.spec_as_mask() {
            InputBit::Button(m) => m == 1 || m == 2 || m == 4 || m == 8,
            InputBit::Dpad(m) => m == 1 || m == 2 || m == 4 || m == 8,
        },
        (i.spec_as_mask() is Dpad) <==> (i == JoypadInput::Up || i == JoypadInput::Down || i
            == JoypadInput::Left || i == JoypadInput::Right),
{
}

/// The JOYP line of each input: whether it is in the d-pad group, and its
/// bit there. Right, Left, Up and Down are bits 0 to 3 of the d-pad; A, B,
/// Start and Select bits 0 to 3 of the buttons.
pub open spec fn joyp_line(i: JoypadInput) -> (bool, u8) {
    match i {
        JoypadInput::Right => (true, 0),
        JoypadInput::Left => (true, 1),
        JoypadInput::Up => (true, 2),
        JoypadInput::Down => (true, 3),
        JoypadInput::A => (false, 0),
        JoypadInput::B => (false, 1),
        JoypadInput::Start => (false, 2),
        JoypadInput::Select => (false, 3),
    }
}

/// With nothing pressed, selecting an input's group alone (writing $20 for
/// the d-pad, $10 for the buttons) and pressing the input reads that
/// selection in bits 4-5 and a low nibble with exactly the input's bit at 0.
pub proof fn lemma_press_reads_its_line(j: JoypadModel, i: JoypadInput)
    requires
        j.buttons_state & 0xf == 0xf,
        j.dpad_state & 0xf == 0xf,
    ensures
        ({
            let (dpad, bit) = joyp_line(i);
            let sel: u8 = if dpad {
                0x20
            } else {
                0x10
            };
            j.write_spec(sel).set_input_spec(i).read_spec() == 0xc0u8 | sel | (0xfu8 & !(1u8
                << bit))
        }),
{
    lemma_select_bits();
    let (dpad, bit) = joyp_line(i);
    lemma_line_reads(j.dpad_state, j.buttons_state, bit);
    let sel: u8 = if dpad {
        0x20
    } else {
        0x10
    };
    let j2 = j.write_spec(sel);
    assert(j2.button_mode == !dpad && j2.dpad_mode == dpad);
    assert(j2.buttons_state == j.buttons_state && j2.dpad_state == j.dpad_state);
    match i.spec_as_mask() {
        InputBit::Dpad(m) => assert(m == 1u8 << bit),
        InputBit::Button(m) => assert(m == 1u8 << bit),
    }
}

proof fn lemma_select_bits()
    by (bit_vector)
    ensures
        (0x20u8 >> 5u8) & 1u8 == 1,
        (0x20u8 >> 4u8) & 1u8 == 0,
        (0x10u8 >> 5u8) & 1u8 == 0,
        (0x10u8 >> 4u8) & 1u8 == 1,
{
}

proof fn lemma_line_reads(d: u8, b: u8, bit: u8)
    by (bit_vector)
    requires
        bit < 4,
        d & 0xf == 0xf,
        b & 0xf == 0xf,
    ensures
        bit == 0 ==> 1u8 << bit == 1,
        bit == 1 ==> 1u8 << bit == 2,
        bit == 2 ==> 1u8 << bit == 4,
        bit == 3 ==> 1u8 << bit == 8,
        0xc0u8 | 0x20u8 | 0u8 | (((0xfu8 & 0xfu8) & (d & !(1u8 << bit))) & 0xfu8) == 0xc0u8
            | 0x20u8 | (0xfu8 & !(1u8 << bit)),
        0xc0u8 | 0u8 | 0x10u8 | (((0xfu8 & (b & !(1u8 << bit))) & 0xfu8) & 0xfu8) == 0xc0u8
            | 0x10u8 | (0xfu8 & !(1u8 << bit)),
{
}

} // verus!
