//! The audio processing unit: four channels behind the NR10–NR52 registers and wave RAM.
use vstd::prelude::*;

pub mod envelope;
pub mod length;
pub mod noise_channel;
pub mod prout;
pub mod pulse_channel;
pub mod sweep;
pub mod wave_channel;

use crate::gebeh_core::apu::noise_channel::NoiseChannel;
use crate::gebeh_core::apu::pulse_channel::PulseChannel;
use crate::gebeh_core::apu::sweep::Ch1Sweep;
use crate::gebeh_core::apu::wave_channel::WaveChannel;
use crate::gebeh_core::addresses::{
    AUDIO_MASTER_CONTROL, CH1_LENGTH_TIMER_AND_DUTY_CYCLE, CH1_PERIOD_HIGH_AND_CONTROL, CH1_PERIOD_LOW,
    CH1_SWEEP, CH1_VOLUME_AND_ENVELOPE, CH2_LENGTH_TIMER_AND_DUTY_CYCLE, CH2_PERIOD_HIGH_AND_CONTROL,
    CH2_PERIOD_LOW, CH2_VOLUME_AND_ENVELOPE, CH3_DAC_ENABLE, CH3_LENGTH_TIMER, CH3_OUTPUT_LEVEL,
    CH3_PERIOD_HIGH_AND_CONTROL, CH3_PERIOD_LOW, CH4_CONTROL, CH4_FREQUENCY_AND_RANDOMNESS,
    CH4_LENGTH_TIMER, CH4_VOLUME_AND_ENVELOPE, LCD_CONTROL, MASTER_VOLUME_AND_VIN_PANNING,
    SOUND_PANNING, WAVE,
};

verus! {

/// Digital volumes run from 0 to this value.
pub const MAX_VOLUME: u8 = 0x0f;

/// Detects a falling edge between two consecutive samples.
#[derive(Clone, Copy)]
pub struct FallingEdge(pub bool);

impl Default for FallingEdge {
    fn default() -> (r: Self)
        ensures
            !r.0,
    {
        FallingEdge(false)
    }
}

impl FallingEdge {
    /// Remembers `value` and reports whether the previous sample was high and this one is low.
    pub fn update(&mut self, value: bool) -> (r: bool)
        ensures
            r == (old(self).0 && !value),
            final(self).0 == value,
    {
        let previous = self.0;
        self.0 = value;
        previous && !value
    }
}

/// NR52 bits.
pub const NR52_AUDIO_ON_OFF: u8 = 0x80;

pub const NR52_CH4_ON: u8 = 0x08;

pub const NR52_CH3_ON: u8 = 0x04;

pub const NR52_CH2_ON: u8 = 0x02;

pub const NR52_CH1_ON: u8 = 0x01;

/// The audio processing unit.
#[derive(Clone, Copy)]
pub struct Apu {
    pub is_on: bool,
    /// Sound panning.
    pub nr51: u8,
    /// Master volume and VIN panning.
    pub nr50: u8,
    pub ch1: PulseChannel<Ch1Sweep>,
    pub ch2: PulseChannel<()>,
    pub ch3: WaveChannel,
    pub ch4: NoiseChannel,
    /// https://gbdev.io/pandocs/Audio_details.html#div-apu
    pub div_apu: u8,
    pub falling_edge: FallingEdge,
}

impl Default for Apu {
    fn default() -> (r: Self)
        ensures
            r == Apu::initial(r.ch3.ram),
            r.wf(),
    {
        Apu {
            is_on: false,
            nr51: 0,
            nr50: 0,
            ch1: PulseChannel::new(),
            ch2: PulseChannel::new(),
            ch3: WaveChannel::default(),
            ch4: NoiseChannel::default(),
            div_apu: 0,
            falling_edge: FallingEdge::default(),
        }
    }
}

/// The value of bit `bit` set when `b` holds.
pub open spec fn flag(b: bool, bit: u8) -> u8 {
    if b { bit } else { 0 }
}

impl Apu {
    /// The power-on state with wave RAM `ram`.
    pub open spec fn initial(ram: [u8; 16]) -> Apu {
        Apu {
            is_on: false,
            nr51: 0,
            nr50: 0,
            ch1: PulseChannel::<Ch1Sweep>::initial(),
            ch2: PulseChannel::<()>::initial(),
            ch3: WaveChannel::cleared(ram),
            ch4: NoiseChannel::initial(),
            div_apu: 0,
            falling_edge: FallingEdge(false),
        }
    }

    pub open spec fn wf(self) -> bool {
        self.ch1.wf() && self.ch2.wf() && self.ch4.wf()
    }

    pub open spec fn nr52(self) -> u8 {
        flag(self.is_on, 0x80) | flag(self.ch4.on(), 0x08) | flag(self.ch3.is_enabled, 0x04) | flag(
            self.ch2.is_enabled,
            0x02,
        ) | flag(self.ch1.is_enabled, 0x01) | 0b01110000
    }

    /// Writing NR52: switching audio off clears every register but the length counters
    /// and wave RAM; switching it on starts from there.
    pub open spec fn write_nr52_spec(self, value: u8) -> Apu {
        let is_on = value & 0x80 != 0;
        if self.is_on == is_on {
            self
        } else if is_on {
            Apu { is_on, ..self }
        } else {
            Apu {
                ch1: self.ch1.reset_spec(),
                ch2: self.ch2.reset_spec(),
                ch3: WaveChannel { length: self.ch3.length.reset_spec(), ..WaveChannel::cleared(self.ch3.ram) },
                ch4: self.ch4.reset_spec(),
                ..Apu::initial(self.ch3.ram)
            }
        }
    }

    /// One call per system clock step with the DIV register: on each falling edge of DIV
    /// bit 4 the frame sequencer clocks lengths (even steps), the sweep (steps 2 and 6)
    /// and envelopes (step 7).
    pub open spec fn execute_spec(self, div: u8) -> (Apu, bool) {
        if !self.is_on {
            (self, false)
        } else {
            let high = div & 0x10 != 0;
            let edge = self.falling_edge.0 && !high;
            let s0 = Apu { falling_edge: FallingEdge(high), ..self };
            if !edge {
                (s0, false)
            } else {
                let s1 = if self.div_apu % 2 == 0 {
                    Apu {
                        ch1: s0.ch1.tick_length_spec(),
                        ch2: s0.ch2.tick_length_spec(),
                        ch3: s0.ch3.tick_length_spec(),
                        ch4: s0.ch4.tick_length_spec(),
                        ..s0
                    }
                } else {
                    s0
                };
                let s2 = if self.div_apu % 4 == 2 { Apu { ch1: s1.ch1.tick_sweep_spec(), ..s1 } } else { s1 };
                let s3 = if self.div_apu % 8 == 7 {
                    Apu {
                        ch1: s2.ch1.tick_envelope_spec(),
                        ch2: s2.ch2.tick_envelope_spec(),
                        ch4: s2.ch4.tick_envelope_spec(),
                        ..s2
                    }
                } else {
                    s2
                };
                (s3, true)
            }
        }
    }

    pub fn increment_div_apu(&mut self)
        ensures
            *final(self) == (Apu { div_apu: ((old(self).div_apu + 1) % 256) as u8, ..*old(self) }),
    {
        self.div_apu = self.div_apu.wrapping_add(1);
    }

    pub fn get_nr52(&self, cycles: u64) -> (r: u8)
        ensures
            r == self.nr52(),
    {
        let on: u8 = if self.is_on { 0x80 } else { 0 };
        let ch4: u8 = if self.ch4.is_on() { 0x08 } else { 0 };
        let ch3: u8 = if self.ch3.is_on() { 0x04 } else { 0 };
        let ch2: u8 = if self.ch2.is_on() { 0x02 } else { 0 };
        let ch1: u8 = if self.ch1.is_on() { 0x01 } else { 0 };
        on | ch4 | ch3 | ch2 | ch1 | 0b01110000
    }

    pub fn write_nr52(&mut self, value: u8)
        requires
            old(self).wf(),
        ensures
            final(self).wf(),
            *final(self) == old(self).write_nr52_spec(value),
    {
        let is_on = value & NR52_AUDIO_ON_OFF != 0;
        if self.is_on == is_on {
            return;
        }
        self.is_on = is_on;
        if !self.is_on {
            let ch1 = self.ch1.reset();
            let ch2 = self.ch2.reset();
            let ch3 = self.ch3.reset();
            let ch4 = self.ch4.reset();
            *self = Apu {
                is_on: false,
                nr51: 0,
                nr50: 0,
                ch1,
                ch2,
                ch3,
                ch4,
                div_apu: 0,
                falling_edge: FallingEdge::default(),
            };
        }
    }

    pub fn get_nr51(&self) -> (r: u8)
        ensures
            r == self.nr51,
    {
        self.nr51
    }

    pub fn write_nr51(&mut self, value: u8)
        ensures
            *final(self) == (Apu { nr51: value, ..*old(self) }),
    {
        self.nr51 = value;
    }

    pub fn get_nr50(&self) -> (r: u8)
        ensures
            r == self.nr50,
    {
        self.nr50
    }

    pub fn write_nr50(&mut self, value: u8)
        ensures
            *final(self) == (Apu { nr50: value, ..*old(self) }),
    {
        self.nr50 = value;
    }

    /// Returns whether the frame sequencer stepped, in which case the caller increments DIV-APU.
    pub fn execute(&mut self, div: u8) -> (r: bool)
        requires
            old(self).wf(),
        ensures
            final(self).wf(),
            (*final(self), r) == old(self).execute_spec(div),
    {
        if !self.is_on {
            return false;
        }
        if !self.falling_edge.update(div & 0x10 != 0) {
            return false;
        }
        // 512 Hz
        if self.div_apu % 2 == 0 {
            self.ch1.tick_length();
            self.ch2.tick_length();
            self.ch3.tick_length();
            self.ch4.tick_length();
        }
        if self.div_apu % 4 == 2 {
            self.ch1.tick_sweep();
        }
        if self.div_apu % 8 == 7 {
            self.ch1.tick_envelope();
            self.ch2.tick_envelope();
            self.ch4.tick_envelope();
        }
        true
    }

    /// What the CPU reads at an APU address (NR10..NR52, unused slots and wave RAM).
    pub open spec fn read_spec(self, index: u16) -> u8 {
        if index == 0xff10 {
            self.ch1.sweep.nr10 | 0x80
        } else if index == 0xff11 {
            (self.ch1.duty_cycle << 6) | 0b00111111
        } else if index == 0xff12 {
            self.ch1.volume_and_envelope.register
        } else if index == 0xff14 {
            if self.ch1.length.is_enabled { 0xff } else { 0xbf }
        } else if index == 0xff16 {
            (self.ch2.duty_cycle << 6) | 0b00111111
        } else if index == 0xff17 {
            self.ch2.volume_and_envelope.register
        } else if index == 0xff19 {
            if self.ch2.length.is_enabled { 0xff } else { 0xbf }
        } else if index == 0xff1a {
            if self.ch3.is_dac_on { 0xff } else { 0x7f }
        } else if index == 0xff1c {
            (self.ch3.output_level << 5) | 0b10011111
        } else if index == 0xff1e {
            if self.ch3.length.is_enabled { 0xff } else { 0xbf }
        } else if index == 0xff21 {
            self.ch4.volume_and_envelope.register
        } else if index == 0xff22 {
            self.ch4.nr43
        } else if index == 0xff23 {
            if self.ch4.length.is_enabled { 0xff } else { 0xbf }
        } else if index == 0xff24 {
            self.nr50
        } else if index == 0xff25 {
            self.nr51
        } else if index == 0xff26 {
            self.nr52()
        } else if 0xff30 <= index < 0xff40 {
            if self.ch3.is_enabled { 0xff } else { self.ch3.ram@[index - 0xff30] }
        } else {
            // NRx3 period registers, NR31, NR41 and the unused slots
            0xff
        }
    }

    /// Wave RAM after a CPU write: writable only while channel 3 is off.
    pub open spec fn wave_ram_after_write(self, index: u16, value: u8) -> Seq<u8> {
        if 0xff30 <= index < 0xff40 && !self.ch3.is_enabled {
            self.ch3.ram@.update(index - 0xff30, value)
        } else {
            self.ch3.ram@
        }
    }

    pub open spec fn with_wave_ram(self, ram: [u8; 16]) -> Apu {
        Apu { ch3: WaveChannel { ram, ..self.ch3 }, ..self }
    }

    /// What a CPU write at an APU address does to everything but wave RAM. While audio is off, only the length
    /// registers, NR52 and wave RAM accept writes.
    pub open spec fn write_spec(self, index: u16, value: u8) -> Apu {
        if index == 0xff11 {
            Apu { ch1: self.ch1.write_nrx1_spec(value, self.is_on), ..self }
        } else if index == 0xff16 {
            Apu { ch2: self.ch2.write_nrx1_spec(value, self.is_on), ..self }
        } else if index == 0xff1b {
            Apu { ch3: WaveChannel { length: self.ch3.length.with_initial_length(value), ..self.ch3 }, ..self }
        } else if index == 0xff20 {
            Apu { ch4: NoiseChannel { length: self.ch4.length.with_initial_length(value), ..self.ch4 }, ..self }
        } else if index == 0xff26 {
            self.write_nr52_spec(value)
        } else if 0xff30 <= index < 0xff40 || !self.is_on {
            self
        } else if index == 0xff10 {
            Apu { ch1: self.ch1.write_nr10_spec(value), ..self }
        } else if index == 0xff12 {
            Apu { ch1: self.ch1.write_nrx2_spec(value), ..self }
        } else if index == 0xff13 {
            Apu { ch1: PulseChannel { period_low: value, ..self.ch1 }, ..self }
        } else if index == 0xff14 {
            Apu { ch1: self.ch1.write_nrx4_spec(value, self.div_apu), ..self }
        } else if index == 0xff17 {
            Apu { ch2: self.ch2.write_nrx2_spec(value), ..self }
        } else if index == 0xff18 {
            Apu { ch2: PulseChannel { period_low: value, ..self.ch2 }, ..self }
        } else if index == 0xff19 {
            Apu { ch2: self.ch2.write_nrx4_spec(value, self.div_apu), ..self }
        } else if index == 0xff1a {
            Apu {
                ch3: WaveChannel {
                    is_dac_on: value & 0x80 != 0,
                    is_enabled: self.ch3.is_enabled && value & 0x80 != 0,
                    ..self.ch3
                },
                ..self
            }
        } else if index == 0xff1c {
            Apu { ch3: WaveChannel { output_level: (value >> 5) & 0b11, ..self.ch3 }, ..self }
        } else if index == 0xff1d {
            Apu { ch3: WaveChannel { period: (self.ch3.period & 0xff00) | value as u16, ..self.ch3 }, ..self }
        } else if index == 0xff1e {
            Apu { ch3: self.ch3.write_nr34_spec(value, self.div_apu), ..self }
        } else if index == 0xff21 {
            Apu { ch4: self.ch4.write_nr42_spec(value), ..self }
        } else if index == 0xff22 {
            Apu { ch4: NoiseChannel { nr43: value, ..self.ch4 }, ..self }
        } else if index == 0xff23 {
            Apu { ch4: self.ch4.write_nr44_spec(value, self.div_apu), ..self }
        } else if index == 0xff24 {
            Apu { nr50: value, ..self }
        } else if index == 0xff25 {
            Apu { nr51: value, ..self }
        } else {
            self
        }
    }

    pub fn read(&self, index: u16, cycles: u64) -> (r: u8)
        requires
            CH1_SWEEP <= index < LCD_CONTROL,
        ensures
            r == self.read_spec(index),
    {
        if index == CH1_SWEEP {
            self.ch1.get_nr10()
        } else if index == CH1_LENGTH_TIMER_AND_DUTY_CYCLE {
            self.ch1.get_nrx1()
        } else if index == CH1_VOLUME_AND_ENVELOPE {
            self.ch1.get_nrx2()
        } else if index == CH1_PERIOD_LOW {
            self.ch1.get_nrx3()
        } else if index == CH1_PERIOD_HIGH_AND_CONTROL {
            self.ch1.get_nrx4()
        } else if index == 0xff15 {
            0xff
        } else if index == CH2_LENGTH_TIMER_AND_DUTY_CYCLE {
            self.ch2.get_nrx1()
        } else if index == CH2_VOLUME_AND_ENVELOPE {
            self.ch2.get_nrx2()
        } else if index == CH2_PERIOD_LOW {
            self.ch2.get_nrx3()
        } else if index == CH2_PERIOD_HIGH_AND_CONTROL {
            self.ch2.get_nrx4()
        } else if index == CH3_DAC_ENABLE {
            self.ch3.get_nr30()
        } else if index == CH3_LENGTH_TIMER {
            self.ch3.get_nr31()
        } else if index == CH3_OUTPUT_LEVEL {
            self.ch3.get_nr32()
        } else if index == CH3_PERIOD_LOW {
            self.ch3.get_nr33()
        } else if index == CH3_PERIOD_HIGH_AND_CONTROL {
            self.ch3.get_nr34()
        } else if index == 0xff1f {
            0xff
        } else if index == CH4_LENGTH_TIMER {
            self.ch4.read_nr41()
        } else if index == CH4_VOLUME_AND_ENVELOPE {
            self.ch4.read_nr42()
        } else if index == CH4_FREQUENCY_AND_RANDOMNESS {
            self.ch4.read_nr43()
        } else if index == CH4_CONTROL {
            self.ch4.read_nr44()
        } else if index == MASTER_VOLUME_AND_VIN_PANNING {
            self.get_nr50()
        } else if index == SOUND_PANNING {
            self.get_nr51()
        } else if index == AUDIO_MASTER_CONTROL {
            self.get_nr52(cycles)
        } else if index < WAVE {
            0xff
        } else {
            self.ch3.read_ram((index - WAVE) as u8)
        }
    }

    /// According to blargg, the length registers can be written while the APU is off.
    pub fn write(&mut self, index: u16, value: u8)
        requires
            old(self).wf(),
        ensures
            final(self).wf(),
            final(self).ch3.ram@ == old(self).wave_ram_after_write(index, value),
            *final(self) == old(self).write_spec(index, value).with_wave_ram(final(self).ch3.ram),
    {
        let is_on = self.is_on;
        let div_apu = self.div_apu;
        if index == CH1_LENGTH_TIMER_AND_DUTY_CYCLE {
            self.ch1.write_nrx1(value, is_on);
        } else if index == CH2_LENGTH_TIMER_AND_DUTY_CYCLE {
            self.ch2.write_nrx1(value, is_on);
        } else if index == CH3_LENGTH_TIMER {
            self.ch3.write_nr31(value);
        } else if index == CH4_LENGTH_TIMER {
            self.ch4.write_nr41(value);
        } else if index == AUDIO_MASTER_CONTROL {
            self.write_nr52(value);
        } else if WAVE <= index && index < LCD_CONTROL {
            self.ch3.write_ram((index - WAVE) as u8, value);
        } else if !is_on {
        } else if index == CH1_SWEEP {
            self.ch1.write_nr10(value);
        } else if index == CH1_VOLUME_AND_ENVELOPE {
            self.ch1.write_nrx2(value);
        } else if index == CH1_PERIOD_LOW {
            self.ch1.write_nrx3(value);
        } else if index == CH1_PERIOD_HIGH_AND_CONTROL {
            self.ch1.write_nrx4(value, div_apu);
        } else if index == CH2_VOLUME_AND_ENVELOPE {
            self.ch2.write_nrx2(value);
        } else if index == CH2_PERIOD_LOW {
            self.ch2.write_nrx3(value);
        } else if index == CH2_PERIOD_HIGH_AND_CONTROL {
            self.ch2.write_nrx4(value, div_apu);
        } else if index == CH3_DAC_ENABLE {
            self.ch3.write_nr30(value);
        } else if index == CH3_OUTPUT_LEVEL {
            self.ch3.write_nr32(value);
        } else if index == CH3_PERIOD_LOW {
            self.ch3.write_nr33(value);
        } else if index == CH3_PERIOD_HIGH_AND_CONTROL {
            self.ch3.write_nr34(value, div_apu);
        } else if index == CH4_VOLUME_AND_ENVELOPE {
            self.ch4.write_nr42(value);
        } else if index == CH4_FREQUENCY_AND_RANDOMNESS {
            self.ch4.write_nr43(value);
        } else if index == CH4_CONTROL {
            self.ch4.write_nr44(value, div_apu);
        } else if index == MASTER_VOLUME_AND_VIN_PANNING {
            self.write_nr50(value);
        } else if index == SOUND_PANNING {
            self.write_nr51(value);
        }
    }
}

} // verus!
