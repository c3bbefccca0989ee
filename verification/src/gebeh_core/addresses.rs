//! The memory map.
use vstd::prelude::*;

verus! {

pub const ROM_BANK: u16 = 0x0000;
pub const SWITCHABLE_ROM_BANK: u16 = 0x4000;
pub const VIDEO_RAM: u16 = 0x8000;
pub const EXTERNAL_RAM: u16 = 0xa000;
pub const WORK_RAM: u16 = 0xc000;
pub const ECHO_RAM: u16 = 0xe000;
pub const OAM: u16 = 0xfe00;
pub const NOT_USABLE: u16 = 0xfea0;
pub const JOYPAD: u16 = 0xff00;
/// Serial transfer data.
pub const SB: u16 = 0xff01;
/// Serial transfer control.
pub const SC: u16 = 0xff02;
/// Divider register (timer).
pub const DIV: u16 = 0xff04;
/// TIMA.
pub const TIMER_COUNTER: u16 = 0xff05;
/// TMA.
pub const TIMER_MODULO: u16 = 0xff06;
/// TAC.
pub const TIMER_CONTROL: u16 = 0xff07;
pub const INTERRUPT_FLAG: u16 = 0xff0f;
pub const CH1_SWEEP: u16 = 0xff10;
pub const CH1_LENGTH_TIMER_AND_DUTY_CYCLE: u16 = 0xff11;
pub const CH1_VOLUME_AND_ENVELOPE: u16 = 0xff12;
pub const CH1_PERIOD_LOW: u16 = 0xff13;
pub const CH1_PERIOD_HIGH_AND_CONTROL: u16 = 0xff14;
pub const CH2_LENGTH_TIMER_AND_DUTY_CYCLE: u16 = 0xff16;
pub const CH2_VOLUME_AND_ENVELOPE: u16 = 0xff17;
pub const CH2_PERIOD_LOW: u16 = 0xff18;
pub const CH2_PERIOD_HIGH_AND_CONTROL: u16 = 0xff19;
pub const CH3_DAC_ENABLE: u16 = 0xff1a;
pub const CH3_LENGTH_TIMER: u16 = 0xff1b;
pub const CH3_OUTPUT_LEVEL: u16 = 0xff1c;
pub const CH3_PERIOD_HIGH_AND_CONTROL: u16 = 0xff1e;
pub const CH3_PERIOD_LOW: u16 = 0xff1d;
pub const CH4_LENGTH_TIMER: u16 = 0xff20;
pub const CH4_VOLUME_AND_ENVELOPE: u16 = 0xff21;
pub const CH4_FREQUENCY_AND_RANDOMNESS: u16 = 0xff22;
pub const CH4_CONTROL: u16 = 0xff23;
pub const MASTER_VOLUME_AND_VIN_PANNING: u16 = 0xff24;
pub const SOUND_PANNING: u16 = 0xff25;
pub const AUDIO_MASTER_CONTROL: u16 = 0xff26;
pub const WAVE: u16 = 0xff30;
pub const LCD_CONTROL: u16 = 0xff40;
pub const LCD_STATUS: u16 = 0xff41;
pub const SCY: u16 = 0xff42;
pub const SCX: u16 = 0xff43;
/// LCD Y.
pub const LY: u16 = 0xff44;
/// LY compare.
pub const LYC: u16 = 0xff45;
pub const DMA: u16 = 0xff46;
pub const BGP: u16 = 0xff47;
pub const OBP0: u16 = 0xff48;
pub const OBP1: u16 = 0xff49;
pub const WY: u16 = 0xff4a;
pub const WX: u16 = 0xff4b;
pub const BOOT_ROM_MAPPING_CONTROL: u16 = 0xff50;
pub const HRAM: u16 = 0xff80;
pub const INTERRUPT_ENABLE: u16 = 0xffff;

} // verus!

verus! {

/// The byte at `index` as the memory map shows it to the DMA: same as the external bus.
pub fn mmu_read<M: crate::gebeh_core::mbc::Mbc>(index: u16, mbc: &M, vram: &[u8], wram: &[u8]) -> (r: u8)
    requires
        vram@.len() >= 0x2000,
        wram@.len() >= 0x2000,
        crate::gebeh_core::external_bus::bus_readable(index, mbc),
    ensures
        r == crate::gebeh_core::external_bus::bus_read(index, mbc, vram@, wram@),
{
    if index < VIDEO_RAM {
        mbc.read(index)
    } else if index < EXTERNAL_RAM {
        vram[(index - VIDEO_RAM) as usize]
    } else if index < WORK_RAM {
        mbc.read(index)
    } else if index < ECHO_RAM {
        wram[(index - WORK_RAM) as usize]
    } else {
        wram[(index - ECHO_RAM) as usize]
    }
}

} // verus!
