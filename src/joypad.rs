use vstd::prelude::*;
use crate::memory_controller::MemoryPtr;

verus! {

/// The eight buttons, in the order the pad reports them.
#[allow(non_camel_case_types)]
#[derive(Clone, Copy, PartialEq, Eq, Structural, Debug)]
pub enum Button {
    A,
    B,
    SELECT,
    START,
    UP,
    DOWN,
    LEFT,
    RIGHT,
}

pub open spec fn button_index(b: Button) -> int {
    match b {
        Button::A => 0,
        Button::B => 1,
        Button::SELECT => 2,
        Button::START => 3,
        Button::UP => 4,
        Button::DOWN => 5,
        Button::LEFT => 6,
        Button::RIGHT => 7,
    }
}

/// A standard gamepad behind $4016: a strobe latch and a shift cursor.
pub struct Joypad {
    strobe: bool,
    state: [bool; 8],
    current_button: usize,
}

/// What the pad holds: the strobe, the buttons held, and how many have been
/// shifted out since the last strobe.
pub struct JoypadModel {
    pub strobe: bool,
    pub buttons: Seq<bool>,
    pub cursor: nat,
}

impl View for Joypad {
    type V = JoypadModel;

    closed spec fn view(&self) -> JoypadModel {
        JoypadModel { strobe: self.strobe, buttons: self.state@, cursor: self.current_button as nat }
    }
}

pub open spec fn bit_of(b: bool) -> u8 {
    if b { 1 } else { 0 }
}

/// A read: while strobed, button A; else the button at the cursor, which then
/// moves on. After all eight buttons the pad reads 1.
pub open spec fn joypad_read_spec(m: JoypadModel) -> (JoypadModel, u8) {
    if m.strobe {
        (m, bit_of(m.buttons[0]))
    } else if m.cursor < 8 {
        (JoypadModel { cursor: m.cursor + 1, ..m }, bit_of(m.buttons[m.cursor as int]))
    } else {
        (m, 1)
    }
}

/// A write: bit 0 set strobes the pad and rewinds the cursor; clear, it ends
/// the strobe.
pub open spec fn joypad_write_spec(m: JoypadModel, value: u8) -> JoypadModel {
    if value & 1 != 0 {
        JoypadModel { strobe: true, cursor: 0, ..m }
    } else {
        JoypadModel { strobe: false, ..m }
    }
}

impl Joypad {
    #[verifier::type_invariant]
    closed spec fn inv(&self) -> bool {
        self.current_button <= 8
    }

    pub fn new() -> (r: Joypad)
        ensures
            r@.buttons == Seq::new(8, |i: int| false),
            !r@.strobe && r@.cursor == 0,
    {
        let r = Joypad { state: [false; 8], strobe: false, current_button: 0 };
        assert(r@.buttons =~= Seq::new(8, |i: int| false));
        r
    }

    pub fn set_state(&mut self, b: Button, pressed: bool)
        ensures
            final(self)@ == (JoypadModel { buttons: old(self)@.buttons.update(button_index(b), pressed), ..old(self)@ }),
    {
        proof { use_type_invariant(&*self); }
        let i: usize = match b {
            Button::A => 0,
            Button::B => 1,
            Button::SELECT => 2,
            Button::START => 3,
            Button::UP => 4,
            Button::DOWN => 5,
            Button::LEFT => 6,
            Button::RIGHT => 7,
        };
        self.state[i] = pressed;
    }

    pub fn read(&mut self, addr: MemoryPtr) -> (r: u8)
        ensures
            (final(self)@, r) == joypad_read_spec(old(self)@),
    {
        proof { use_type_invariant(&*self); }
        if self.strobe {
            return if self.state[0] { 1 } else { 0 };
        }
        if self.current_button >= 8 {
            return 1;
        }
        let result = if self.state[self.current_button] { 1 } else { 0 };
        self.current_button = self.current_button + 1;
        result
    }

    pub fn write(&mut self, addr: MemoryPtr, value: u8)
        ensures
            final(self)@ == joypad_write_spec(old(self)@, value),
    {
        proof { use_type_invariant(&*self); }
        if value & 0x1 != 0 {
            self.strobe = true;
            self.current_button = 0;
        } else {
            self.strobe = false;
        }
    }
}

} // verus!
