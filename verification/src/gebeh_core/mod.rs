//! Cartridge controllers, the audio processing unit, joypad, interrupts and the pieces of the
//! console they connect to.
use vstd::prelude::*;

pub mod addresses;
pub mod apu;
pub mod basic_apu;
pub mod cells;
pub mod dma;
pub mod external_bus;
pub mod interrupts;
pub mod joypad;
pub mod mbc;
pub mod speed_switch;

pub use apu::FallingEdge;

verus! {

pub const WIDTH: u8 = 160;

pub const HEIGHT: u8 = 144;

/// https://gbdev.io/pandocs/Specifications.html
pub const SYSTEM_CLOCK_FREQUENCY: u32 = 1048576;

/// Work RAM storage as the host provides it.
pub trait Ram {
    fn read(&self, index: u16) -> u8;

    fn write(&mut self, index: u16, value: u8);
}

/// The first Game Boy model (DMG).
#[derive(Clone, Copy)]
pub struct Dmg;

/// The Game Boy Color.
#[derive(Clone, Copy)]
pub struct Cgb;

} // verus!
