//! The joypad register (P1/JOYP, $FF00).
use vstd::prelude::*;

verus! {

/// Bits of P1: 0 means selected or pressed.
pub const NOT_BUTTONS: u8 = 0x20;
pub const NOT_DPAD: u8 = 0x10;
pub const NOT_START_DOWN: u8 = 0x08;
pub const NOT_SELECT_UP: u8 = 0x04;
pub const NOT_B_LEFT: u8 = 0x02;
pub const NOT_A_RIGHT: u8 = 0x01;

/// Which keys are held.
#[derive(Clone, Copy, PartialEq, Eq, Structural, Debug)]
pub struct JoypadInput {
    pub a: bool,
    pub b: bool,
    pub select: bool,
    pub start: bool,
    pub right: bool,
    pub left: bool,
    pub up: bool,
    pub down: bool,
}

#[derive(Clone, Copy)]
pub struct Joypad {
    pub input: JoypadInput,
    pub is_dpad_selected: bool,
    pub is_buttons_selected: bool,
}

/// `bit` if `b`, else 0.
pub open spec fn bit_if(b: bool, bit: u8) -> u8 {
    if b { bit } else { 0 }
}

impl Joypad {
    /// P1 as read: a line reads 0 when a key on a selected group holds it low.
    pub open spec fn register(self) -> u8 {
        let i = self.input;
        let d = self.is_dpad_selected;
        let b = self.is_buttons_selected;
        bit_if(!(d && i.down || b && i.start), NOT_START_DOWN) | bit_if(!(d && i.up || b && i.select), NOT_SELECT_UP)
            | bit_if(!(d && i.left || b && i.b), NOT_B_LEFT) | bit_if(!(d && i.right || b && i.a), NOT_A_RIGHT)
            | bit_if(!d, NOT_DPAD) | bit_if(!b, NOT_BUTTONS)
    }

    pub fn set_input(&mut self, input: JoypadInput)
        ensures
            *final(self) == (Joypad { input, ..*old(self) }),
    {
        self.input = input;
    }

    pub fn set_register(&mut self, value: u8)
        ensures
            *final(self) == (Joypad {
                is_dpad_selected: value & NOT_DPAD == 0,
                is_buttons_selected: value & NOT_BUTTONS == 0,
                ..*old(self)
            }),
    {
        self.is_dpad_selected = value & NOT_DPAD == 0;
        self.is_buttons_selected = value & NOT_BUTTONS == 0;
    }

    pub fn get_register(&self) -> (r: u8)
        ensures
            r == self.register(),
    {
        let i = self.input;
        let d = self.is_dpad_selected;
        let b = self.is_buttons_selected;
        let start_down: u8 = if d && i.down || b && i.start { 0 } else { NOT_START_DOWN };
        let select_up: u8 = if d && i.up || b && i.select { 0 } else { NOT_SELECT_UP };
        let b_left: u8 = if d && i.left || b && i.b { 0 } else { NOT_B_LEFT };
        let a_right: u8 = if d && i.right || b && i.a { 0 } else { NOT_A_RIGHT };
        let dpad: u8 = if d { 0 } else { NOT_DPAD };
        let buttons: u8 = if b { 0 } else { NOT_BUTTONS };
        start_down | select_up | b_left | a_right | dpad | buttons
    }
}

} // verus!
