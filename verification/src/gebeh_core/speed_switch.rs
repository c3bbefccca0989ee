//! https://gbdev.io/pandocs/CGB_Registers.html#ff4d--key1spd-cgb-mode-only-prepare-speed-switch
use vstd::prelude::*;

verus! {

/// The KEY1 register: `()` on the DMG, which has none.
pub trait SpeedSwitch: Sized {
    spec fn read_spec(&self) -> u8;

    spec fn write_spec(&self, value: u8) -> Self;

    fn write_value(&mut self, value: u8)
        ensures
            *final(self) == old(self).write_spec(value),
    ;

    fn read_value(&self) -> (r: u8)
        ensures
            r == self.read_spec(),
    ;
}

/// KEY1 on the CGB: bit 7 is the current speed, bit 0 arms a switch.
#[derive(Clone, Copy, PartialEq, Eq, Structural, Debug)]
pub struct CgbSpeedSwitch(pub u8);

pub const DOUBLE_SPEED: u8 = 0x80;

pub const ARMED: u8 = 0x01;

impl CgbSpeedSwitch {
    pub fn contains_double_speed(&self) -> (r: bool)
        ensures
            r == (self.0 & DOUBLE_SPEED != 0),
    {
        self.0 & DOUBLE_SPEED != 0
    }
}

impl SpeedSwitch for () {
    open spec fn read_spec(&self) -> u8 {
        0xff
    }

    open spec fn write_spec(&self, value: u8) -> Self {
        ()
    }

    fn write_value(&mut self, value: u8) {
    }

    fn read_value(&self) -> (r: u8) {
        0xff
    }
}

impl SpeedSwitch for CgbSpeedSwitch {
    open spec fn read_spec(&self) -> u8 {
        self.0 | 0b0111_1110
    }

    /// Only the armed bit is writable.
    open spec fn write_spec(&self, value: u8) -> Self {
        if value & 1 != 0 {
            CgbSpeedSwitch(self.0 | ARMED)
        } else {
            CgbSpeedSwitch(self.0 & !ARMED)
        }
    }

    fn write_value(&mut self, value: u8) {
        if value & 1 != 0 {
            self.0 = self.0 | ARMED;
        } else {
            self.0 = self.0 & !ARMED;
        }
    }

    fn read_value(&self) -> (r: u8) {
        self.0 | 0b0111_1110
    }
}

} // verus!
