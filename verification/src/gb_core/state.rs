//! The shared machine state and the CPU's view of the memory map.
use vstd::prelude::*;

use crate::gb_core::ic::Ints;
use crate::gebeh_core::interrupts::Interrupts;
use crate::gb_core::mbc::Mbc;

verus! {

pub const ROM_BANK: u16 = 0x0000;
pub const SWITCHABLE_ROM_BANK: u16 = 0x4000;
pub const VIDEO_RAM: u16 = 0x8000;
pub const EXTERNAL_RAM: u16 = 0xa000;
pub const WORK_RAM: u16 = 0xc000;
pub const ECHO_RAM: u16 = 0xe000;
pub const OAM: u16 = 0xfe00;
pub const NOT_USABLE: u16 = 0xfea0;
pub const HRAM: u16 = 0xff80;
pub const INTERRUPT_ENABLE: u16 = 0xffff;

/// Serial control bits.
pub const SC_TRANSFER_ENABLE: u8 = 0x80;
pub const SC_CLOCK_SELECT: u8 = 0x01;

/// Joypad select bits.
pub const JOYPAD_NOT_BUTTONS: u8 = 0x20;
pub const JOYPAD_NOT_DPAD: u8 = 0x10;

/// LCD status bits; the low two bits hold the PPU mode.
pub const LYC_INT: u8 = 0x40;
pub const OAM_INT: u8 = 0x20;
pub const VBLANK_INT: u8 = 0x10;
pub const HBLANK_INT: u8 = 0x08;
pub const LYC_EQUAL_TO_LY: u8 = 0x04;
pub const PPU_MASK: u8 = 0x03;
pub const MODE_HBLANK: u8 = 0;
pub const MODE_VBLANK: u8 = 1;
pub const MODE_OAM_SCAN: u8 = 2;
pub const MODE_DRAWING: u8 = 3;
pub const READONLY_MASK: u8 = 0x07;

/// The DMG boot ROM's bytes.
pub open spec fn dmg_boot_bytes() -> Seq<u8> {
    seq![
        49, 254, 255, 33, 255, 159, 175, 50, 203, 124, 32, 250, 14, 17, 33, 38, 255, 62, 128, 50, 226, 12, 62,
        243, 50, 226, 12, 62, 119, 50, 226, 17, 4, 1, 33, 16, 128, 26, 205, 184, 0, 26, 203, 55, 205, 184, 0,
        19, 123, 254, 52, 32, 240, 17, 204, 0, 6, 8, 26, 19, 34, 35, 5, 32, 249, 33, 4, 153, 1, 12, 1, 205,
        177, 0, 62, 25, 119, 33, 36, 153, 14, 12, 205, 177, 0, 62, 145, 224, 64, 6, 16, 17, 212, 0, 120, 224,
        67, 5, 123, 254, 216, 40, 4, 26, 224, 71, 19, 14, 28, 205, 167, 0, 175, 144, 224, 67, 5, 14, 28, 205,
        167, 0, 175, 176, 32, 224, 224, 67, 62, 131, 205, 159, 0, 14, 39, 205, 167, 0, 62, 193, 205, 159, 0,
        17, 138, 1, 240, 68, 254, 144, 32, 250, 27, 122, 179, 32, 245, 24, 73, 14, 19, 226, 12, 62, 135, 226,
        201, 240, 68, 254, 144, 32, 250, 13, 32, 247, 201, 120, 34, 4, 13, 32, 250, 201, 71, 14, 4, 175, 197,
        203, 16, 23, 193, 203, 16, 23, 13, 32, 245, 34, 35, 34, 35, 201, 60, 66, 185, 165, 185, 165, 66, 60,
        0, 84, 168, 252, 66, 79, 79, 84, 73, 88, 46, 68, 77, 71, 32, 118, 49, 46, 50, 0, 62, 255, 198, 1, 11,
        30, 216, 33, 77, 1, 0, 0, 0, 0, 0, 0, 0, 0, 0, 0, 62, 1, 224, 80,
    ]
}

/// The DMG boot ROM.
pub fn dmg_boot() -> (r: [u8; 256])
    ensures
        r@ == dmg_boot_bytes(),
{
    let r = [
        49, 254, 255, 33, 255, 159, 175, 50, 203, 124, 32, 250, 14, 17, 33, 38, 255, 62, 128, 50, 226, 12, 62,
        243, 50, 226, 12, 62, 119, 50, 226, 17, 4, 1, 33, 16, 128, 26, 205, 184, 0, 26, 203, 55, 205, 184, 0,
        19, 123, 254, 52, 32, 240, 17, 204, 0, 6, 8, 26, 19, 34, 35, 5, 32, 249, 33, 4, 153, 1, 12, 1, 205,
        177, 0, 62, 25, 119, 33, 36, 153, 14, 12, 205, 177, 0, 62, 145, 224, 64, 6, 16, 17, 212, 0, 120, 224,
        67, 5, 123, 254, 216, 40, 4, 26, 224, 71, 19, 14, 28, 205, 167, 0, 175, 144, 224, 67, 5, 14, 28, 205,
        167, 0, 175, 176, 32, 224, 224, 67, 62, 131, 205, 159, 0, 14, 39, 205, 167, 0, 62, 193, 205, 159, 0,
        17, 138, 1, 240, 68, 254, 144, 32, 250, 27, 122, 179, 32, 245, 24, 73, 14, 19, 226, 12, 62, 135, 226,
        201, 240, 68, 254, 144, 32, 250, 13, 32, 247, 201, 120, 34, 4, 13, 32, 250, 201, 71, 14, 4, 175, 197,
        203, 16, 23, 193, 203, 16, 23, 13, 32, 245, 34, 35, 34, 35, 201, 60, 66, 185, 165, 185, 165, 66, 60,
        0, 84, 168, 252, 66, 79, 79, 84, 73, 88, 46, 68, 77, 71, 32, 118, 49, 46, 50, 0, 62, 255, 198, 1, 11,
        30, 216, 33, 77, 1, 0, 0, 0, 0, 0, 0, 0, 0, 0, 0, 62, 1, 224, 80,
    ];
    assert(r@ =~= dmg_boot_bytes());
    r
}

/// A fresh vector holding `bytes`.
fn bytes_to_vec(bytes: &[u8]) -> (r: Vec<u8>)
    ensures
        r@ == bytes@,
{
    let mut r: Vec<u8> = Vec::new();
    let mut i: usize = 0;
    while i < bytes.len()
        invariant
            i <= bytes.len(),
            r@ == bytes@.subrange(0, i as int),
        decreases bytes.len() - i,
    {
        r.push(bytes[i]);
        i = i + 1;
    }
    assert(r@ =~= bytes@);
    r
}

/// Every register and memory of the machine outside the CPU.
#[derive(Clone)]
pub struct State {
    pub boot_rom: [u8; 256],
    /// The cartridge, as the CPU and the DMA see it: the ROM bytes themselves, without banking
    /// and without cartridge RAM. Reads at $0000-$7FFF and $A000-$BFFF index this ROM and
    /// writes there change nothing; the bank controllers of `gebeh_core::mbc` are not reached
    /// from this bus.
    pub mbc: Vec<u8>,
    pub video_ram: [u8; 0x2000],
    pub hram: [u8; 0x7f],
    pub wram: [u8; 0x2000],
    pub dma_register: u8,
    pub dma_request: bool,
    pub bgp_register: u8,
    pub obp0: u8,
    pub obp1: u8,
    pub interrupt_enable: Ints,
    pub interrupt_flag: Ints,
    pub sweep: u8,
    pub length_timer_and_duty_cycle: u8,
    pub volume_and_envelope: u8,
    pub channel_1_period_low: u8,
    pub channel_1_period_high_and_control: u8,
    pub channel_3_dac_enable: u8,
    pub channel_3_output_level: u8,
    pub channel_4_length_timer: u8,
    pub channel_4_control: u8,
    pub master_volume_and_vin_panning: u8,
    pub sound_panning: u8,
    pub audio_master_control: u8,
    pub scy: u8,
    pub scx: u8,
    pub lcd_control: u8,
    pub lcd_status: u8,
    pub ly: u8,
    pub lyc: u8,
    pub boot_rom_mapping_control: u8,
    pub sb: u8,
    pub sc: u8,
    pub wy: u8,
    pub wx: u8,
    pub timer_modulo: u8,
    pub timer_control: u8,
    pub timer_counter: u8,
    pub oam: [u8; 0xa0],
    pub joypad: u8,
    pub div: u8,
    pub reset_system_clock: bool,
    /// Incremented every M-cycle; DIV is its upper eight of fourteen bits.
    pub system_counter: u16,
    pub is_dma_active: bool,
}

/// What a write may look at: the state as it was before the cycle's writes.
#[derive(Clone, Copy)]
pub struct DataForWrite {
    pub dma_request: bool,
    pub lcd_status: u8,
}

/// Whether the CPU bus decodes `index` at all.
pub open spec fn decoded(index: u16) -> bool {
    !(0xfea0 <= index < 0xff00) && !(0xff16 <= index <= 0xff19) && index != 0xff1b && index != 0xff1d
        && index != 0xff1e && index != 0xff21 && index != 0xff22
}

/// The status register with its interrupt-select bits from `value` and its read-only bits kept.
pub open spec fn interrupt_part_written(lcd_status: u8, value: u8) -> u8 {
    (lcd_status & READONLY_MASK) | (value & 0x7f & !READONLY_MASK)
}

impl State {
    /// The ROM bytes below $8000 and at $A000-$BFFF come from the cartridge (or the boot
    /// ROM while it is mapped); reading them needs the cartridge to have them.
    pub open spec fn readable(self, index: u16) -> bool {
        &&& decoded(index)
        &&& !(0xff30 <= index < 0xff40)
        &&& (index < 0x8000 && !(self.boot_rom_mapping_control == 0 && index < 256)) || (0xa000 <= index < 0xc000)
            ==> index < self.mbc@.len()
    }

    pub open spec fn read_spec(self, index: u16) -> u8 {
        if index < 0x8000 {
            if self.boot_rom_mapping_control == 0 && index < 256 {
                self.boot_rom@[index as int]
            } else {
                self.mbc@[index as int]
            }
        } else if index < 0xa000 {
            if self.lcd_status & PPU_MASK == MODE_DRAWING { 0xff } else { self.video_ram@[index - 0x8000] }
        } else if index < 0xc000 {
            self.mbc@[index as int]
        } else if index < 0xe000 {
            self.wram@[index - 0xc000]
        } else if index < 0xfe00 {
            self.wram@[index - 0xe000]
        } else if index < 0xfea0 {
            let ppu = self.lcd_status & PPU_MASK;
            if ppu == MODE_DRAWING || ppu == MODE_OAM_SCAN { 0xff } else { self.oam@[index - 0xfe00] }
        } else if index == 0xff00 {
            (if self.joypad & 0x30 == 0x30 { self.joypad | 0xf } else { self.joypad }) | 0b11000000
        } else if index == 0xff01 {
            self.sb
        } else if index == 0xff02 {
            self.sc | 0b01111110
        } else if index == 0xff04 {
            self.div
        } else if index == 0xff05 {
            self.timer_counter
        } else if index == 0xff06 {
            self.timer_modulo
        } else if index == 0xff07 {
            self.timer_control | 0b11111000
        } else if index == 0xff0f {
            self.interrupt_flag.0 | 0b11100000
        } else if index == 0xff10 {
            self.sweep | 0b10000000
        } else if index == 0xff11 {
            self.length_timer_and_duty_cycle
        } else if index == 0xff12 {
            self.volume_and_envelope
        } else if index == 0xff14 {
            self.channel_1_period_high_and_control | 0b10111111
        } else if index == 0xff1a {
            self.channel_3_dac_enable | 0b01111111
        } else if index == 0xff1c {
            self.channel_3_output_level | 0b10011111
        } else if index == 0xff23 {
            self.channel_4_control | 0b10111111
        } else if index == 0xff24 {
            self.master_volume_and_vin_panning
        } else if index == 0xff25 {
            self.sound_panning
        } else if index == 0xff26 {
            self.audio_master_control | 0b01110000
        } else if index == 0xff40 {
            self.lcd_control
        } else if index == 0xff41 {
            (if self.ly == self.lyc { self.lcd_status | LYC_EQUAL_TO_LY } else { self.lcd_status & !LYC_EQUAL_TO_LY })
                | 0b10000000
        } else if index == 0xff42 {
            self.scy
        } else if index == 0xff43 {
            self.scx
        } else if index == 0xff44 {
            self.ly
        } else if index == 0xff45 {
            self.lyc
        } else if index == 0xff46 {
            self.dma_register
        } else if index == 0xff47 {
            self.bgp_register
        } else if index == 0xff48 {
            self.obp0
        } else if index == 0xff49 {
            self.obp1
        } else if index == 0xff4a {
            self.wy
        } else if index == 0xff4b {
            self.wx
        } else if 0xff80 <= index < 0xffff {
            self.hram@[index - 0xff80]
        } else if index == 0xffff {
            self.interrupt_enable.0
        } else {
            // $FF03, $FF08-$FF0E, NR13, $FF15, $FF1F, NR41, $FF27-$FF2F, $FF4C-$FF7F
            0xff
        }
    }

    /// How a CPU write of `value` at `index` changes the state, deciding only on `data`.
    /// While an OAM DMA is requested only HRAM accepts writes; the cartridge is a ROM and
    /// ignores writes.
    pub open spec fn write_post(self, data: DataForWrite, index: u16, value: u8, after: State) -> bool {
        if data.dma_request && !(0xff80 <= index < 0xffff) {
            after == self
        } else if index < 0x8000 || 0xa000 <= index < 0xc000 {
            &&& after == (State { mbc: after.mbc, ..self })
            &&& after.mbc@ == self.mbc@
        } else if index < 0xa000 {
            if data.lcd_status & PPU_MASK != MODE_DRAWING {
                &&& after == (State { video_ram: after.video_ram, ..self })
                &&& after.video_ram@ == self.video_ram@.update(index - 0x8000, value)
            } else {
                after == self
            }
        } else if index < 0xfe00 {
            &&& after == (State { wram: after.wram, ..self })
            &&& after.wram@ == self.wram@.update(if index < 0xe000 { index - 0xc000 } else { index - 0xe000 }, value)
        } else if index < 0xfea0 {
            let ppu = data.lcd_status & PPU_MASK;
            if ppu != MODE_DRAWING && ppu != MODE_OAM_SCAN {
                &&& after == (State { oam: after.oam, ..self })
                &&& after.oam@ == self.oam@.update(index - 0xfe00, value)
            } else {
                after == self
            }
        } else if 0xff80 <= index < 0xffff {
            &&& after == (State { hram: after.hram, ..self })
            &&& after.hram@ == self.hram@.update(index - 0xff80, value)
        } else {
            after == self.register_written(index, value)
        }
    }

    /// The state after a CPU write of `value` at `index`, deciding only on `data`.
    pub open spec fn written(self, data: DataForWrite, index: u16, value: u8) -> State {
        if data.dma_request && !(0xff80 <= index < 0xffff) {
            self
        } else if index < 0x8000 || 0xa000 <= index < 0xc000 {
            self
        } else if index < 0xa000 {
            if data.lcd_status & PPU_MASK != MODE_DRAWING {
                State { video_ram: vstd::array::spec_array_update(self.video_ram, index - 0x8000, value), ..self }
            } else {
                self
            }
        } else if index < 0xfe00 {
            State {
                wram: vstd::array::spec_array_update(self.wram, if index < 0xe000 { index - 0xc000 } else { index - 0xe000 }, value),
                ..self
            }
        } else if index < 0xfea0 {
            let ppu = data.lcd_status & PPU_MASK;
            if ppu != MODE_DRAWING && ppu != MODE_OAM_SCAN {
                State { oam: vstd::array::spec_array_update(self.oam, index - 0xfe00, value), ..self }
            } else {
                self
            }
        } else if 0xff80 <= index < 0xffff {
            State { hram: vstd::array::spec_array_update(self.hram, index - 0xff80, value), ..self }
        } else {
            self.register_written(index, value)
        }
    }

    /// The I/O register writes ($FF00-$FF7F and IE).
    pub open spec fn register_written(self, index: u16, value: u8) -> State {
        if index == 0xff00 {
            State { joypad: (self.joypad & !0x30u8) | (value & 0x30), ..self }
        } else if index == 0xff01 {
            State { sb: value, ..self }
        } else if index == 0xff02 {
            State { sc: value & 0x81, ..self }
        } else if index == 0xff04 {
            // Citation: Writing any value to this register resets it to $00
            State { div: 0, ..self }
        } else if index == 0xff05 {
            State { timer_counter: value, ..self }
        } else if index == 0xff06 {
            State { timer_modulo: value, ..self }
        } else if index == 0xff07 {
            State { timer_control: value, ..self }
        } else if index == 0xff0f {
            State { interrupt_flag: Interrupts(value & 0x1f), ..self }
        } else if index == 0xff10 {
            State { sweep: value, ..self }
        } else if index == 0xff11 {
            State { length_timer_and_duty_cycle: value, ..self }
        } else if index == 0xff12 {
            State { volume_and_envelope: value, ..self }
        } else if index == 0xff13 {
            State { channel_1_period_low: value, ..self }
        } else if index == 0xff14 {
            State { channel_1_period_high_and_control: value, ..self }
        } else if index == 0xff1a {
            State { channel_3_dac_enable: value, ..self }
        } else if index == 0xff1c {
            State { channel_3_output_level: value, ..self }
        } else if index == 0xff20 {
            State { channel_4_length_timer: value, ..self }
        } else if index == 0xff23 {
            State { channel_4_control: value, ..self }
        } else if index == 0xff24 {
            State { master_volume_and_vin_panning: value, ..self }
        } else if index == 0xff25 {
            State { sound_panning: value, ..self }
        } else if index == 0xff26 {
            State { audio_master_control: value, ..self }
        } else if index == 0xff40 {
            State { lcd_control: value, ..self }
        } else if index == 0xff41 {
            State { lcd_status: interrupt_part_written(self.lcd_status, value), ..self }
        } else if index == 0xff42 {
            State { scy: value, ..self }
        } else if index == 0xff43 {
            State { scx: value, ..self }
        } else if index == 0xff45 {
            State { lyc: value, ..self }
        } else if index == 0xff46 {
            State { dma_register: value, dma_request: true, ..self }
        } else if index == 0xff47 {
            State { bgp_register: value, ..self }
        } else if index == 0xff48 {
            State { obp0: value, ..self }
        } else if index == 0xff49 {
            State { obp1: value, ..self }
        } else if index == 0xff4a {
            State { wy: value, ..self }
        } else if index == 0xff4b {
            State { wx: value, ..self }
        } else if index == 0xff50 {
            State { boot_rom_mapping_control: value, ..self }
        } else if index == 0xffff {
            State { interrupt_enable: Interrupts(value), ..self }
        } else {
            // LY is read-only; wave RAM and the unused slots ignore writes
            self
        }
    }

    pub fn mmu(&self) -> (r: MmuRead<'_>)
        ensures
            *r.0 == *self,
    {
        MmuRead(self)
    }

    /// The power-on state with cartridge ROM `rom`, the boot ROM mapped and all else zero.
    pub fn new(rom: &[u8]) -> (r: Self)
        ensures
            r.mbc@ == rom@,
            r.boot_rom@ == dmg_boot_bytes(),
            r.boot_rom_mapping_control == 0,
            r.ly == 0 && r.lyc == 0 && r.lcd_control == 0 && r.lcd_status == 0,
            r.interrupt_flag.0 == 0 && r.interrupt_enable.0 == 0,
            r.timer_control == 0 && r.timer_counter == 0 && r.timer_modulo == 0 && r.system_counter == 0,
            !r.dma_request && !r.is_dma_active,
            r.div == 0 && !r.reset_system_clock,
            r.scx == 0 && r.scy == 0 && r.wx == 0 && r.wy == 0,
            r.bgp_register == 0 && r.obp0 == 0 && r.obp1 == 0,
            r.sb == 0 && r.sc == 0 && r.joypad == 0 && r.dma_register == 0,
            r.sweep == 0 && r.length_timer_and_duty_cycle == 0 && r.volume_and_envelope == 0,
            r.channel_1_period_low == 0 && r.channel_1_period_high_and_control == 0,
            r.channel_3_dac_enable == 0 && r.channel_3_output_level == 0,
            r.channel_4_length_timer == 0 && r.channel_4_control == 0,
            r.master_volume_and_vin_panning == 0 && r.sound_panning == 0 && r.audio_master_control == 0,
            r.video_ram@ == Seq::new(0x2000, |i: int| 0u8),
            r.wram@ == Seq::new(0x2000, |i: int| 0u8),
            r.hram@ == Seq::new(0x7f, |i: int| 0u8),
            r.oam@ == Seq::new(0xa0, |i: int| 0u8),
    {
        let r = State {
            boot_rom: dmg_boot(),
            video_ram: [0u8; 0x2000],
            hram: [0u8; 0x7f],
            wram: [0u8; 0x2000],
            dma_register: 0,
            dma_request: false,
            bgp_register: 0,
            obp0: 0,
            obp1: 0,
            interrupt_enable: Interrupts(0),
            interrupt_flag: Interrupts(0),
            sweep: 0,
            length_timer_and_duty_cycle: 0,
            volume_and_envelope: 0,
            channel_1_period_low: 0,
            channel_1_period_high_and_control: 0,
            channel_3_dac_enable: 0,
            channel_3_output_level: 0,
            channel_4_length_timer: 0,
            channel_4_control: 0,
            master_volume_and_vin_panning: 0,
            sound_panning: 0,
            audio_master_control: 0,
            scx: 0,
            scy: 0,
            lcd_control: 0,
            ly: 0,
            lyc: 0,
            mbc: bytes_to_vec(rom),
            boot_rom_mapping_control: 0,
            sb: 0,
            sc: 0,
            wy: 0,
            wx: 0,
            timer_modulo: 0,
            timer_control: 0,
            timer_counter: 0,
            lcd_status: 0,
            oam: [0u8; 0xa0],
            joypad: 0,
            // https://gbdev.io/pandocs/Timer_and_Divider_Registers.html#ff04--div-divider-register
            div: 0,
            reset_system_clock: false,
            system_counter: 0,
            is_dma_active: false,
        };
        assert(r.video_ram@ =~= Seq::new(0x2000, |i: int| 0u8));
        assert(r.wram@ =~= Seq::new(0x2000, |i: int| 0u8));
        assert(r.hram@ =~= Seq::new(0x7f, |i: int| 0u8));
        assert(r.oam@ =~= Seq::new(0xa0, |i: int| 0u8));
        r
    }

    /// https://gbdev.io/pandocs/STAT.html#ff41--stat-lcd-status: the three low bits are read-only.
    pub fn set_interrupt_part_lcd_status(&mut self, value: u8)
        ensures
            *final(self) == (State { lcd_status: interrupt_part_written(old(self).lcd_status, value), ..*old(self) }),
    {
        self.lcd_status = (self.lcd_status & READONLY_MASK) | (value & 0x7f & !READONLY_MASK);
    }

    pub fn get_data_for_write(&self) -> (r: DataForWrite)
        ensures
            r.dma_request == self.dma_request,
            r.lcd_status == self.lcd_status,
    {
        DataForWrite { dma_request: self.dma_request, lcd_status: self.lcd_status }
    }

    /// Sets the PPU mode bits of the status register.
    pub fn set_ppu_mode(&mut self, mode: u8)
        ensures
            *final(self) == (State { lcd_status: (old(self).lcd_status & !PPU_MASK) | (mode & PPU_MASK), ..*old(self) }),
    {
        self.lcd_status = (self.lcd_status & !PPU_MASK) | (mode & PPU_MASK);
    }
}

/// The CPU's read access to the memory map.
pub struct MmuRead<'a>(pub &'a State);

/// The CPU's reads, which see OAM as $FF while a DMA is requested.
pub struct MmuReadCpu<'a>(pub MmuRead<'a>);

impl MmuRead<'_> {
    pub fn read(&self, index: u16) -> (r: u8)
        requires
            self.0.readable(index),
        ensures
            r == self.0.read_spec(index),
    {
        let s = self.0;
        if index < VIDEO_RAM {
            if s.boot_rom_mapping_control == 0 && index < 256 {
                s.boot_rom[index as usize]
            } else {
                s.mbc.read(index)
            }
        } else if index < EXTERNAL_RAM {
            if (s.lcd_status & PPU_MASK) == MODE_DRAWING {
                0xff
            } else {
                s.video_ram[(index - VIDEO_RAM) as usize]
            }
        } else if index < WORK_RAM {
            s.mbc.read(index)
        } else if index < ECHO_RAM {
            s.wram[(index - WORK_RAM) as usize]
        } else if index < OAM {
            s.wram[(index - ECHO_RAM) as usize]
        } else if index < NOT_USABLE {
            let ppu = s.lcd_status & PPU_MASK;
            if ppu == MODE_DRAWING || ppu == MODE_OAM_SCAN {
                0xff
            } else {
                s.oam[(index - OAM) as usize]
            }
        } else if index == 0xff00 {
            // https://gbdev.io/pandocs/Joypad_Input.html#ff00--p1joyp-joypad
            (if s.joypad & 0x30 == 0x30 { s.joypad | 0xf } else { s.joypad }) | 0b11000000
        } else if index == 0xff01 {
            s.sb
        } else if index == 0xff02 {
            s.sc | 0b01111110
        } else if index == 0xff04 {
            s.div
        } else if index == 0xff05 {
            s.timer_counter
        } else if index == 0xff06 {
            s.timer_modulo
        } else if index == 0xff07 {
            s.timer_control | 0b11111000
        } else if index == 0xff0f {
            s.interrupt_flag.0 | 0b11100000
        } else if index == 0xff10 {
            s.sweep | 0b10000000
        } else if index == 0xff11 {
            s.length_timer_and_duty_cycle
        } else if index == 0xff12 {
            s.volume_and_envelope
        } else if index == 0xff14 {
            s.channel_1_period_high_and_control | 0b10111111
        } else if index == 0xff1a {
            s.channel_3_dac_enable | 0b01111111
        } else if index == 0xff1c {
            s.channel_3_output_level | 0b10011111
        } else if index == 0xff23 {
            s.channel_4_control | 0b10111111
        } else if index == 0xff24 {
            s.master_volume_and_vin_panning
        } else if index == 0xff25 {
            s.sound_panning
        } else if index == 0xff26 {
            s.audio_master_control | 0b01110000
        } else if index == 0xff40 {
            s.lcd_control
        } else if index == 0xff41 {
            (if s.ly == s.lyc { s.lcd_status | LYC_EQUAL_TO_LY } else { s.lcd_status & !LYC_EQUAL_TO_LY }) | 0b10000000
        } else if index == 0xff42 {
            s.scy
        } else if index == 0xff43 {
            s.scx
        } else if index == 0xff44 {
            s.ly
        } else if index == 0xff45 {
            s.lyc
        } else if index == 0xff46 {
            s.dma_register
        } else if index == 0xff47 {
            s.bgp_register
        } else if index == 0xff48 {
            s.obp0
        } else if index == 0xff49 {
            s.obp1
        } else if index == 0xff4a {
            s.wy
        } else if index == 0xff4b {
            s.wx
        } else if HRAM <= index && index < INTERRUPT_ENABLE {
            s.hram[(index - HRAM) as usize]
        } else if index == INTERRUPT_ENABLE {
            s.interrupt_enable.0
        } else {
            0xff
        }
    }
}

impl<'a> MmuReadCpu<'a> {
    pub fn read(&self, index: u16) -> (r: u8)
        requires
            (self.0).0.dma_request && OAM <= index < NOT_USABLE || (self.0).0.readable(index),
        ensures
            r == (if (self.0).0.dma_request && OAM <= index < NOT_USABLE {
                0xffu8
            } else {
                (self.0).0.read_spec(index)
            }),
    {
        if self.0.0.dma_request && OAM <= index && index < NOT_USABLE {
            return 0xff;
        }
        self.0.read(index)
    }
}

/// Write access to the state for the state machines.
pub struct WriteOnlyState<'a>(pub &'a mut State);

/// The CPU's write access, deciding from the state as it was before the cycle's writes.
pub struct MmuWrite<'a>(pub &'a mut State, pub DataForWrite);

impl<'a> WriteOnlyState<'a> {
    pub fn new(state: &'a mut State) -> (r: Self)
        ensures
            *r.0 == *old(state),
            *final(r.0) == *final(state),
    {
        WriteOnlyState(state)
    }

    /// A shorter-lived handle on the same state.
    pub fn reborrow(&mut self) -> (r: WriteOnlyState<'_>)
        ensures
            *r.0 == *old(self).0,
            *final(self).0 == *final(r.0),
            *final(final(self).0) == *final(old(self).0),
    {
        WriteOnlyState(&mut *self.0)
    }

    /// The CPU's write access, deciding on `data_for_write`.
    pub fn mmu(&mut self, data_for_write: DataForWrite) -> (r: MmuWrite<'_>)
        ensures
            *r.0 == *old(self).0,
            r.1 == data_for_write,
            *final(self).0 == *final(r.0),
            *final(final(self).0) == *final(old(self).0),
    {
        MmuWrite(&mut *self.0, data_for_write)
    }

    /// The serial control register, to be changed in place.
    pub fn get_sc_mut(&mut self) -> (r: &mut u8)
        ensures
            *r == old(self).0.sc,
            *final(self).0 == (State { sc: *final(r), ..*old(self).0 }),
            *final(final(self).0) == *final(old(self).0),
    {
        &mut self.0.sc
    }

    pub fn insert_ie(&mut self, flag: Ints)
        ensures
            *final(self).0 == (State { interrupt_enable: Interrupts(old(self).0.interrupt_enable.0 | flag.0), ..*old(self).0 }),
            *final(final(self).0) == *final(old(self).0),
    {
        self.0.interrupt_enable.insert(flag);
    }

    pub fn remove_ie(&mut self, flag: Ints)
        ensures
            *final(self).0 == (State { interrupt_enable: Interrupts(old(self).0.interrupt_enable.0 & !flag.0), ..*old(self).0 }),
            *final(final(self).0) == *final(old(self).0),
    {
        self.0.interrupt_enable.remove(flag);
    }

    pub fn insert_if(&mut self, flag: Ints)
        ensures
            *final(self).0 == (State { interrupt_flag: Interrupts(old(self).0.interrupt_flag.0 | flag.0), ..*old(self).0 }),
            *final(final(self).0) == *final(old(self).0),
    {
        self.0.interrupt_flag.insert(flag);
    }

    pub fn remove_if(&mut self, flag: Ints)
        ensures
            *final(self).0 == (State { interrupt_flag: Interrupts(old(self).0.interrupt_flag.0 & !flag.0), ..*old(self).0 }),
            *final(final(self).0) == *final(old(self).0),
    {
        self.0.interrupt_flag.remove(flag);
    }

    pub fn set_ly(&mut self, value: u8)
        ensures
            *final(self).0 == (State { ly: value, ..*old(self).0 }),
            *final(final(self).0) == *final(old(self).0),
    {
        self.0.ly = value;
    }

    pub fn remove_if_bit(&mut self, bit: Ints)
        ensures
            *final(self).0 == (State { interrupt_flag: Interrupts(old(self).0.interrupt_flag.0 & !bit.0), ..*old(self).0 }),
            *final(final(self).0) == *final(old(self).0),
    {
        self.0.interrupt_flag.remove(bit);
    }

    pub fn set_timer_counter(&mut self, timer_counter: u8)
        ensures
            *final(self).0 == (State { timer_counter, ..*old(self).0 }),
            *final(final(self).0) == *final(old(self).0),
    {
        self.0.timer_counter = timer_counter;
    }

    pub fn set_ppu_mode(&mut self, mode: u8)
        ensures
            *final(self).0 == (State { lcd_status: (old(self).0.lcd_status & !PPU_MASK) | (mode & PPU_MASK), ..*old(self).0 }),
            *final(final(self).0) == *final(old(self).0),
    {
        self.0.set_ppu_mode(mode);
    }

    pub fn set_interrupt_part_lcd_status(&mut self, value: u8)
        ensures
            *final(self).0 == (State { lcd_status: interrupt_part_written(old(self).0.lcd_status, value), ..*old(self).0 }),
            *final(final(self).0) == *final(old(self).0),
    {
        self.0.set_interrupt_part_lcd_status(value);
    }

    pub fn write_to_oam(&mut self, index: u8, value: u8)
        requires
            index < 0xa0,
        ensures
            *final(self).0 == (State { oam: final(self).0.oam, ..*old(self).0 }),
            final(self).0.oam@ == old(self).0.oam@.update(index as int, value),
            *final(final(self).0) == *final(old(self).0),
    {
        self.0.oam[index as usize] = value;
    }

    pub fn set_dma_request_to_false(&mut self)
        ensures
            *final(self).0 == (State { dma_request: false, ..*old(self).0 }),
            *final(final(self).0) == *final(old(self).0),
    {
        self.0.dma_request = false;
    }

    pub fn set_div(&mut self, value: u8)
        ensures
            *final(self).0 == (State { div: value, ..*old(self).0 }),
            *final(final(self).0) == *final(old(self).0),
    {
        self.0.div = value;
    }

    pub fn set_reset_system_clock(&mut self, value: bool)
        ensures
            *final(self).0 == (State { reset_system_clock: value, ..*old(self).0 }),
            *final(final(self).0) == *final(old(self).0),
    {
        self.0.reset_system_clock = value;
    }
}

impl MmuWrite<'_> {
    /// The state machines' write access to the same state.
    pub fn inner(&mut self) -> (r: WriteOnlyState<'_>)
        ensures
            *r.0 == *old(self).0,
            final(self).1 == old(self).1,
            *final(self).0 == *final(r.0),
            *final(final(self).0) == *final(old(self).0),
    {
        WriteOnlyState(&mut *self.0)
    }

    /// Never read the state to take decisions when writing: use `DataForWrite`.
    pub fn write(&mut self, index: u16, value: u8)
        requires
            decoded(index) || (old(self).1.dma_request && !(0xff80 <= index < 0xffff)),
        ensures
            old(self).0.write_post(old(self).1, index, value, *final(self).0),
            *final(self).0 == old(self).0.written(old(self).1, index, value),
            final(self).1 == old(self).1,
            *final(final(self).0) == *final(old(self).0),
    {
        broadcast use vstd::array::group_array_axioms;
        if self.1.dma_request && !(HRAM <= index && index < INTERRUPT_ENABLE) {
            return;
        }
        if index < VIDEO_RAM {
            self.0.mbc.write(index, value);
        } else if index < EXTERNAL_RAM {
            if (self.1.lcd_status & PPU_MASK) != MODE_DRAWING {
                self.0.video_ram[(index - VIDEO_RAM) as usize] = value;
                assert(self.0.video_ram =~= vstd::array::spec_array_update(old(self).0.video_ram, index - 0x8000, value));
            }
        } else if index < WORK_RAM {
            self.0.mbc.write(index, value);
        } else if index < ECHO_RAM {
            self.0.wram[(index - WORK_RAM) as usize] = value;
            assert(self.0.wram =~= vstd::array::spec_array_update(old(self).0.wram, index - 0xc000, value));
        } else if index < OAM {
            self.0.wram[(index - ECHO_RAM) as usize] = value;
            assert(self.0.wram =~= vstd::array::spec_array_update(old(self).0.wram, index - 0xe000, value));
        } else if index < NOT_USABLE {
            let ppu = self.1.lcd_status & PPU_MASK;
            if ppu != MODE_DRAWING && ppu != MODE_OAM_SCAN {
                self.0.oam[(index - OAM) as usize] = value;
                assert(self.0.oam =~= vstd::array::spec_array_update(old(self).0.oam, index - 0xfe00, value));
            }
        } else if HRAM <= index && index < INTERRUPT_ENABLE {
            self.0.hram[(index - HRAM) as usize] = value;
            assert(self.0.hram =~= vstd::array::spec_array_update(old(self).0.hram, index - 0xff80, value));
        } else if index == 0xff00 {
            self.0.joypad = (self.0.joypad & !0x30u8) | (value & 0x30);
        } else if index == 0xff01 {
            self.0.sb = value;
        } else if index == 0xff02 {
            self.0.sc = value & 0x81;
        } else if index == 0xff04 {
            self.0.div = 0;
        } else if index == 0xff05 {
            self.0.timer_counter = value;
        } else if index == 0xff06 {
            self.0.timer_modulo = value;
        } else if index == 0xff07 {
            self.0.timer_control = value;
        } else if index == 0xff0f {
            self.0.interrupt_flag = Ints::from_bits_truncate(value);
        } else if index == 0xff10 {
            self.0.sweep = value;
        } else if index == 0xff11 {
            self.0.length_timer_and_duty_cycle = value;
        } else if index == 0xff12 {
            self.0.volume_and_envelope = value;
        } else if index == 0xff13 {
            self.0.channel_1_period_low = value;
        } else if index == 0xff14 {
            self.0.channel_1_period_high_and_control = value;
        } else if index == 0xff1a {
            self.0.channel_3_dac_enable = value;
        } else if index == 0xff1c {
            self.0.channel_3_output_level = value;
        } else if index == 0xff20 {
            self.0.channel_4_length_timer = value;
        } else if index == 0xff23 {
            self.0.channel_4_control = value;
        } else if index == 0xff24 {
            self.0.master_volume_and_vin_panning = value;
        } else if index == 0xff25 {
            self.0.sound_panning = value;
        } else if index == 0xff26 {
            self.0.audio_master_control = value;
        } else if index == 0xff40 {
            self.0.lcd_control = value;
        } else if index == 0xff41 {
            self.0.set_interrupt_part_lcd_status(value);
        } else if index == 0xff42 {
            self.0.scy = value;
        } else if index == 0xff43 {
            self.0.scx = value;
        } else if index == 0xff45 {
            self.0.lyc = value;
        } else if index == 0xff46 {
            self.0.dma_register = value;
            self.0.dma_request = true;
        } else if index == 0xff47 {
            self.0.bgp_register = value;
        } else if index == 0xff48 {
            self.0.obp0 = value;
        } else if index == 0xff49 {
            self.0.obp1 = value;
        } else if index == 0xff4a {
            self.0.wy = value;
        } else if index == 0xff4b {
            self.0.wx = value;
        } else if index == 0xff50 {
            self.0.boot_rom_mapping_control = value;
        } else if index == INTERRUPT_ENABLE {
            self.0.interrupt_enable = Ints::from_bits_retain(value);
        }
    }
}


/// $E000-$FDFF echoes the work RAM at $C000-$DDFF.
pub proof fn lemma_echo_ram_mirrors_wram(s: State, index: u16)
    requires
        0xe000 <= index < 0xfe00,
    ensures
        s.read_spec(index) == s.read_spec((index - 0x2000) as u16),
{
}

/// Without a DMA request, a byte written to work RAM (or its echo) reads back at the address
/// and at its twin in the other range.
pub proof fn lemma_wram_write_then_read(s: State, data: DataForWrite, index: u16, value: u8, after: State)
    requires
        !data.dma_request,
        0xc000 <= index < 0xfe00,
        s.write_post(data, index, value, after),
    ensures
        after.read_spec(index) == value,
        index < 0xde00 ==> after.read_spec((index + 0x2000) as u16) == value,
        index >= 0xe000 ==> after.read_spec((index - 0x2000) as u16) == value,
{
}

/// Outside mode 3, with no DMA request, a byte written to video RAM reads back.
pub proof fn lemma_vram_write_then_read(s: State, data: DataForWrite, index: u16, value: u8)
    requires
        !data.dma_request,
        data.lcd_status == s.lcd_status,
        s.lcd_status & PPU_MASK != MODE_DRAWING,
        0x8000 <= index < 0xa000,
    ensures
        s.written(data, index, value).read_spec(index) == value,
{
    broadcast use vstd::array::group_array_axioms;

}

/// Outside modes 2 and 3, with no DMA request, a byte written to OAM reads back.
pub proof fn lemma_oam_write_then_read(s: State, data: DataForWrite, index: u16, value: u8)
    requires
        !data.dma_request,
        data.lcd_status == s.lcd_status,
        s.lcd_status & PPU_MASK != MODE_DRAWING && s.lcd_status & PPU_MASK != MODE_OAM_SCAN,
        0xfe00 <= index < 0xfea0,
    ensures
        s.written(data, index, value).read_spec(index) == value,
{
    broadcast use vstd::array::group_array_axioms;

}

/// A byte written to HRAM reads back, a DMA request or not.
pub proof fn lemma_hram_write_then_read(s: State, data: DataForWrite, index: u16, value: u8, after: State)
    requires
        0xff80 <= index < 0xffff,
        s.write_post(data, index, value, after),
    ensures
        after.read_spec(index) == value,
{
}

/// While an OAM DMA is requested the CPU can write only to HRAM: any other write leaves the
/// state as it was.
pub proof fn lemma_dma_blocks_writes(s: State, data: DataForWrite, index: u16, value: u8, after: State)
    requires
        data.dma_request,
        !(0xff80 <= index < 0xffff),
        s.write_post(data, index, value, after),
    ensures
        after == s,
{
}

/// Writing any value to DIV resets it to $00.
pub proof fn lemma_div_write_resets(s: State, data: DataForWrite, value: u8, after: State)
    requires
        !data.dma_request,
        s.write_post(data, 0xff04, value, after),
    ensures
        after.read_spec(0xff04) == 0,
{
}

/// The interrupt enable register reads back what was written to it.
pub proof fn lemma_interrupt_enable_round_trip(s: State, data: DataForWrite, value: u8, after: State)
    requires
        !data.dma_request,
        s.write_post(data, 0xffff, value, after),
    ensures
        after.read_spec(0xffff) == value,
{
}


/// The cartridge is a ROM: CPU writes to $0000-$7FFF and $A000-$BFFF change nothing.
pub proof fn lemma_rom_writes_ignored(s: State, data: DataForWrite, index: u16, value: u8)
    requires
        index < 0x8000 || 0xa000 <= index < 0xc000,
    ensures
        s.written(data, index, value) == s,
{
}

/// A write to STAT sets its interrupt-select bits 3-6 and keeps its read-only bits 0-2 (the PPU
/// mode and the LYC = LY flag).
/// https://gbdev.io/pandocs/STAT.html#ff41--stat-lcd-status
pub proof fn lemma_stat_write_keeps_read_only_bits(s: State, data: DataForWrite, value: u8)
    requires
        !data.dma_request,
    ensures
        s.written(data, 0xff41, value).lcd_status & 0x07 == s.lcd_status & 0x07,
        s.written(data, 0xff41, value).lcd_status & 0x78 == value & 0x78,
{
    let l = s.lcd_status;
    assert(((l & 0x07) | (value & 0x7f & !0x07u8)) & 0x07 == l & 0x07 && ((l & 0x07) | (value & 0x7f
        & !0x07u8)) & 0x78 == value & 0x78) by (bit_vector);
}

/// A CPU write of `value` at `address`, deciding on `data`.
pub fn write_byte(state: &mut State, data: DataForWrite, address: u16, value: u8)
    requires
        decoded(address) || (data.dma_request && !(0xff80 <= address < 0xffff)),
    ensures
        old(state).write_post(data, address, value, *final(state)),
        *final(state) == old(state).written(data, address, value),
{
    let mut mmu = MmuWrite(state, data);
    mmu.write(address, value);
}

} // verus!
