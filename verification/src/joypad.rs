//! The joypad register P1: two groups of four keys, selected by bits 4
//! and 5, read back active-low in the four low bits.
use vstd::prelude::*;

verus! {

/// A set of the buttons Start (bit 3), Select (bit 2), B (bit 1) and A
/// (bit 0).
#[derive(Debug, Clone, Copy, PartialEq, Eq, Structural)]
pub struct Buttons {
    bits: u8,
}

/// A set of the directions Down (bit 3), Up (bit 2), Left (bit 1) and
/// Right (bit 0).
#[derive(Debug, Clone, Copy, PartialEq, Eq, Structural)]
pub struct Directions {
    bits: u8,
}

impl View for Buttons {
    type V = u8;

    closed spec fn view(&self) -> u8 {
        self.bits
    }
}

impl View for Directions {
    type V = u8;

    closed spec fn view(&self) -> u8 {
        self.bits
    }
}

impl Buttons {
    pub fn empty() -> (r: Self)
        ensures
            r@ == 0,
    {
        Buttons { bits: 0 }
    }

    /// The set whose bits are the four low bits of `bits`.
    pub fn from_bits_truncate(bits: u8) -> (r: Self)
        ensures
            r@ == bits & 0x0F,
    {
        Buttons { bits: bits & 0x0F }
    }

    pub fn start() -> (r: Self)
        ensures
            r@ == 8,
    {
        Buttons { bits: 8 }
    }

    pub fn select() -> (r: Self)
        ensures
            r@ == 4,
    {
        Buttons { bits: 4 }
    }

    pub fn b() -> (r: Self)
        ensures
            r@ == 2,
    {
        Buttons { bits: 2 }
    }

    pub fn a() -> (r: Self)
        ensures
            r@ == 1,
    {
        Buttons { bits: 1 }
    }

    pub fn bits(&self) -> (r: u8)
        ensures
            r == self@,
    {
        self.bits
    }
}

impl Directions {
    pub fn empty() -> (r: Self)
        ensures
            r@ == 0,
    {
        Directions { bits: 0 }
    }

    /// The set whose bits are the four low bits of `bits`.
    pub fn from_bits_truncate(bits: u8) -> (r: Self)
        ensures
            r@ == bits & 0x0F,
    {
        Directions { bits: bits & 0x0F }
    }

    pub fn down() -> (r: Self)
        ensures
            r@ == 8,
    {
        Directions { bits: 8 }
    }

    pub fn up() -> (r: Self)
        ensures
            r@ == 4,
    {
        Directions { bits: 4 }
    }

    pub fn left() -> (r: Self)
        ensures
            r@ == 2,
    {
        Directions { bits: 2 }
    }

    pub fn right() -> (r: Self)
        ensures
            r@ == 1,
    {
        Directions { bits: 1 }
    }

    pub fn bits(&self) -> (r: u8)
        ensures
            r == self@,
    {
        self.bits
    }
}

/// The joypad: which group is selected and which keys are held.
#[derive(Clone, Copy, Debug)]
pub struct Joypad {
    select_buttons: bool,
    select_directions: bool,
    buttons: Buttons,
    directions: Directions,
}

/// What the joypad holds; `buttons` and `directions` are bit sets.
pub struct JoypadView {
    pub select_buttons: bool,
    pub select_directions: bool,
    pub buttons: u8,
    pub directions: u8,
}

impl View for Joypad {
    type V = JoypadView;

    closed spec fn view(&self) -> JoypadView {
        JoypadView {
            select_buttons: self.select_buttons,
            select_directions: self.select_directions,
            buttons: self.buttons.bits,
            directions: self.directions.bits,
        }
    }
}

/// What P1 reads: with the buttons selected, bit 4 and the held buttons as
/// 0 bits; else with the directions selected, bit 5 and the held
/// directions as 0 bits; else 0x3F.
pub open spec fn joypad_read(j: JoypadView) -> u8 {
    if j.select_buttons {
        0x10 | (!j.buttons & 0x0F)
    } else if j.select_directions {
        0x20 | (!j.directions & 0x0F)
    } else {
        0x3F
    }
}

impl Default for Joypad {
    fn default() -> (r: Self)
        ensures
            r@ == (JoypadView { select_buttons: true, select_directions: true, buttons: 0, directions: 0 }),
    {
        Self {
            select_buttons: true,
            select_directions: true,
            buttons: Buttons::empty(),
            directions: Directions::empty(),
        }
    }
}

impl Joypad {
    /// Writes P1: a 0 in bit 5 selects the buttons, in bit 4 the directions.
    pub fn write(&mut self, value: u8)
        ensures
            final(self)@ == (JoypadView {
                select_buttons: value & 0x20 == 0,
                select_directions: value & 0x10 == 0,
                ..old(self)@
            }),
    {
        self.select_buttons = (value & 0b00100000) == 0;
        self.select_directions = (value & 0b00010000) == 0;
    }

    /// Reads P1: a held key of the selected group reads as 0.
    pub fn read(&self) -> (r: u8)
        ensures
            r == joypad_read(self@),
    {
        // In the register a 0 bit means pressed, so the set is inverted.
        if self.select_buttons {
            0x10 | (!self.buttons.bits & 0x0F)
        } else if self.select_directions {
            0x20 | (!self.directions.bits & 0x0F)
        } else {
            0x3F
        }
    }

    pub fn press_button(&mut self, button: Buttons)
        ensures
            final(self)@ == (JoypadView { buttons: old(self)@.buttons | button@, ..old(self)@ }),
    {
        self.buttons = Buttons { bits: self.buttons.bits | button.bits };
    }

    pub fn press_direction(&mut self, direction: Directions)
        ensures
            final(self)@ == (JoypadView { directions: old(self)@.directions | direction@, ..old(self)@ }),
    {
        self.directions = Directions { bits: self.directions.bits | direction.bits };
    }

    pub fn release_button(&mut self, button: Buttons)
        ensures
            final(self)@ == (JoypadView { buttons: old(self)@.buttons & !button@, ..old(self)@ }),
    {
        self.buttons = Buttons { bits: self.buttons.bits & !button.bits };
    }

    pub fn release_direction(&mut self, direction: Directions)
        ensures
            final(self)@ == (JoypadView { directions: old(self)@.directions & !direction@, ..old(self)@ }),
    {
        self.directions = Directions { bits: self.directions.bits & !direction.bits };
    }
}

/// A button pressed and read with the buttons selected reads as 0 in P1;
/// released, as 1.
pub proof fn law_pressed_button_reads_low(j: JoypadView, b: u8)
    requires
        j.select_buttons,
        b < 4,
    ensures
        joypad_read(JoypadView { buttons: j.buttons | (1u8 << b), ..j }) & (1u8 << b) == 0,
        joypad_read(JoypadView { buttons: j.buttons & !(1u8 << b), ..j }) & (1u8 << b) != 0,
{
    let x = j.buttons;
    assert((0x10u8 | (!(x | (1u8 << b)) & 0x0F)) & (1u8 << b) == 0) by (bit_vector)
        requires
            b < 4,
    ;
    assert((0x10u8 | (!(x & !(1u8 << b)) & 0x0F)) & (1u8 << b) != 0) by (bit_vector)
        requires
            b < 4,
    ;
}

} // verus!
