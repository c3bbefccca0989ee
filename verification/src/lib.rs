//! Verified core of a Game Boy emulator: the CPU and its instruction decoder, the memory map,
//! the picture processing unit, the timer and OAM DMA (`gb_core`), and the cartridge
//! controllers, the audio processing unit and its gate-level cells (`gebeh_core`), each with a
//! contract checked by Verus.
pub mod bits;
pub mod gb_core;
pub mod gebeh_core;
