use vstd::prelude::*;

use crate::gebeh_core::apu::length::{Length, MASK_8_BITS};
use crate::gebeh_core::apu::pulse_channel::{extra_length_clock, is_extra_length_clock};

verus! {

/// The wave channel (CH3) with its 16 bytes of wave pattern RAM.
#[derive(Clone, Copy)]
pub struct WaveChannel {
    pub is_enabled: bool,
    pub is_dac_on: bool,
    pub length: Length<MASK_8_BITS>,
    /// Two bits.
    pub output_level: u8,
    pub effective_output_level: u8,
    /// Eleven bits.
    pub period: u16,
    pub ram: [u8; 16],
}

impl Default for WaveChannel {
    fn default() -> (r: Self)
        ensures
            r == WaveChannel::cleared(r.ram),
            forall|i: int| 0 <= i < 16 ==> r.ram@[i] == 0,
    {
        WaveChannel {
            is_enabled: false,
            is_dac_on: false,
            length: Length::default(),
            output_level: 0,
            effective_output_level: 0,
            period: 0,
            ram: [0u8; 16],
        }
    }
}

impl WaveChannel {
    /// The power-on state with wave RAM `ram`.
    pub open spec fn cleared(ram: [u8; 16]) -> WaveChannel {
        WaveChannel {
            is_enabled: false,
            is_dac_on: false,
            length: Length::<MASK_8_BITS>::initial(),
            output_level: 0,
            effective_output_level: 0,
            period: 0,
            ram,
        }
    }

    pub open spec fn tick_length_spec(self) -> WaveChannel {
        let (length, expired) = self.length.tick_spec();
        WaveChannel { length, is_enabled: self.is_enabled && !expired, ..self }
    }

    pub open spec fn trigger_spec(self, div_apu: u8) -> WaveChannel {
        let s = WaveChannel { length: self.length.trigger_spec(extra_length_clock(div_apu)), ..self };
        if !s.is_dac_on {
            s
        } else {
            WaveChannel { is_enabled: true, effective_output_level: s.output_level, ..s }
        }
    }

    pub open spec fn write_nr34_spec(self, value: u8, div_apu: u8) -> WaveChannel {
        let (length, expired) = self.length.set_is_enabled_spec(value & 0x40 != 0, extra_length_clock(div_apu));
        let s = WaveChannel {
            period: (((value & 0x07) as u16) << 8) | (self.period & 0x00ff),
            length,
            is_enabled: self.is_enabled && !expired,
            ..self
        };
        if value & 0x80 != 0 { s.trigger_spec(div_apu) } else { s }
    }

    pub fn tick_length(&mut self)
        ensures
            *final(self) == old(self).tick_length_spec(),
    {
        let expired = self.length.tick();
        self.is_enabled = self.is_enabled && !expired;
    }

    pub fn get_nr30(&self) -> (r: u8)
        ensures
            r == (if self.is_dac_on { 0xffu8 } else { 0x7fu8 }),
    {
        if self.is_dac_on { 0xff } else { 0b01111111 }
    }

    pub fn write_nr30(&mut self, value: u8)
        ensures
            *final(self) == (WaveChannel {
                is_dac_on: value & 0x80 != 0,
                is_enabled: old(self).is_enabled && value & 0x80 != 0,
                ..*old(self)
            }),
    {
        self.is_dac_on = value & 0x80 != 0;
        self.is_enabled = self.is_enabled && self.is_dac_on;
    }

    pub fn get_nr31(&self) -> (r: u8)
        ensures
            r == 0xff,
    {
        0xff
    }

    pub fn write_nr31(&mut self, value: u8)
        ensures
            *final(self) == (WaveChannel { length: old(self).length.with_initial_length(value), ..*old(self) }),
    {
        self.length.set_initial_timer_length(value);
    }

    pub fn get_nr32(&self) -> (r: u8)
        ensures
            r == (self.output_level << 5) | 0b10011111,
    {
        (self.output_level << 5) | 0b10011111
    }

    pub fn write_nr32(&mut self, value: u8)
        ensures
            *final(self) == (WaveChannel { output_level: (value >> 5) & 0b11, ..*old(self) }),
    {
        self.output_level = (value >> 5) & 0b11;
    }

    pub fn get_nr33(&self) -> (r: u8)
        ensures
            r == 0xff,
    {
        0xff
    }

    pub fn write_nr33(&mut self, value: u8)
        ensures
            *final(self) == (WaveChannel { period: (old(self).period & 0xff00) | value as u16, ..*old(self) }),
    {
        self.period = self.period & 0xff00 | (value as u16);
    }

    pub fn get_nr34(&self) -> (r: u8)
        ensures
            r == (if self.length.is_enabled { 0xffu8 } else { 0xbfu8 }),
    {
        if self.length.is_enabled() { 0xff } else { 0b10111111 }
    }

    pub fn write_nr34(&mut self, value: u8, div_apu: u8)
        ensures
            *final(self) == old(self).write_nr34_spec(value, div_apu),
    {
        self.period = (((value & 0x07) as u16) << 8) | self.period & 0x00ff;
        let extra = is_extra_length_clock(div_apu);
        let expired = self.length.set_is_enabled(value & 0x40 != 0, "ch3", extra);
        self.is_enabled = self.is_enabled && !expired;
        if value & 0x80 != 0 {
            self.trigger(div_apu);
        }
    }

    fn trigger(&mut self, div_apu: u8)
        ensures
            *final(self) == old(self).trigger_spec(div_apu),
    {
        self.length.trigger(is_extra_length_clock(div_apu));
        if !self.is_dac_on {
            return;
        }
        self.is_enabled = true;
        self.effective_output_level = self.output_level;
    }

    pub fn is_on(&self) -> (r: bool)
        ensures
            r == self.is_enabled,
    {
        self.is_enabled
    }

    /// Wave RAM is only writable while the channel is off.
    pub fn write_ram(&mut self, index: u8, value: u8)
        requires
            index < 16,
        ensures
            final(self).ram@ == (if old(self).is_enabled { old(self).ram@ } else { old(self).ram@.update(index as int, value) }),
            *final(self) == (WaveChannel { ram: final(self).ram, ..*old(self) }),
    {
        if self.is_on() {
            return;
        }
        self.ram[index as usize] = value;
    }

    /// Wave RAM reads as $FF while the channel is on.
    pub fn read_ram(&self, index: u8) -> (r: u8)
        requires
            index < 16,
        ensures
            r == (if self.is_enabled { 0xffu8 } else { self.ram@[index as int] }),
    {
        if self.is_on() {
            return 0xff;
        }
        self.ram[index as usize]
    }

    /// The channel after the APU is switched off: the length count and wave RAM are kept.
    pub fn reset(&self) -> (r: Self)
        ensures
            r == (WaveChannel { length: self.length.reset_spec(), ..WaveChannel::cleared(self.ram) }),
    {
        let fresh = WaveChannel::default();
        WaveChannel { length: self.length.reset(), ram: self.ram, ..fresh }
    }
}


/// Sample `index` (0 to 31) of the wave RAM: as CH3 plays, it reads wave RAM left to right,
/// upper nibble first; the output level then shifts it right by level - 1.
/// https://gbdev.io/pandocs/Audio_Registers.html#ff30ff3f--wave-pattern-ram
pub open spec fn wave_sample(ram: Seq<u8>, index: int, effective_output_level: u8) -> u8 {
    let two_samples = ram[index / 2];
    let nibble = if index % 2 == 0 { two_samples >> 4u8 } else { two_samples & 0x0f };
    nibble >> ((effective_output_level - 1) as u8)
}

/// The digital value (0 to 15) of sample `index` of the wave RAM at an output level of 1 to 3.
pub fn wave_ram_sample(ram: &[u8; 16], index: usize, effective_output_level: u8) -> (r: u8)
    requires
        index < 32,
        1 <= effective_output_level <= 3,
    ensures
        r == wave_sample(ram@, index as int, effective_output_level),
{
    let two_samples = ram[index / 2];
    let nibble = if index % 2 == 0 { two_samples >> 4u8 } else { two_samples & 0x0f };
    nibble >> (effective_output_level - 1)
}

} // verus!
