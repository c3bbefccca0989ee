use vstd::prelude::*;

use crate::gebeh_core::apu::envelope::VolumeAndEnvelope;
use crate::gebeh_core::apu::length::{Length, MASK_6_BITS};
use crate::gebeh_core::apu::sweep::{Ch1Sweep, Sweep};

verus! {

/// Whether a length enabled now gets an extra clock: the next frame-sequencer step
/// (`div_apu`) is one that does not clock lengths.
pub open spec fn extra_length_clock(div_apu: u8) -> bool {
    div_apu % 2 == 1
}

pub fn is_extra_length_clock(div_apu: u8) -> (r: bool)
    ensures
        r == extra_length_clock(div_apu),
{
    div_apu % 2 == 1
}

/// A square wave channel (CH1 with a sweep unit, CH2 with `()`).
#[derive(Clone, Copy)]
pub struct PulseChannel<S: Sweep> {
    pub length: Length<MASK_6_BITS>,
    /// Two bits.
    pub duty_cycle: u8,
    pub volume_and_envelope: VolumeAndEnvelope,
    pub period_low: u8,
    /// Three bits.
    pub period_high: u8,
    pub is_enabled: bool,
    pub sweep: S,
}

/// What the mixer needs to render a pulse channel.
#[derive(Clone, Copy, PartialEq, Eq)]
pub struct PulseSampler {
    pub is_on: bool,
    pub duty_cycle: u8,
    pub period: u16,
    pub volume: u8,
}

impl<S: Sweep> PulseChannel<S> {
    pub open spec fn initial() -> PulseChannel<S> {
        PulseChannel {
            length: Length::<MASK_6_BITS>::initial(),
            duty_cycle: 0,
            volume_and_envelope: VolumeAndEnvelope::initial(),
            period_low: 0,
            period_high: 0,
            is_enabled: false,
            sweep: S::initial_spec(),
        }
    }

    pub open spec fn wf(self) -> bool {
        &&& self.sweep.inv()
        &&& self.volume_and_envelope.wf()
        &&& self.duty_cycle < 4
        &&& self.period_high < 8
    }

    /// The 11-bit period from NRx3 and the low bits of NRx4.
    pub open spec fn period(self) -> u16 {
        ((self.period_high as u16 & 0x07) << 8) | self.period_low as u16
    }

    pub open spec fn trigger_spec(self, div_apu: u8) -> PulseChannel<S> {
        let s = PulseChannel { length: self.length.trigger_spec(extra_length_clock(div_apu)), ..self };
        if s.volume_and_envelope.register & 0xf8 == 0 {
            s
        } else {
            let (sweep, enabled) = s.sweep.trigger_spec(s.period());
            PulseChannel {
                volume_and_envelope: s.volume_and_envelope.trigger_spec(),
                sweep,
                is_enabled: enabled,
                ..s
            }
        }
    }

    pub open spec fn write_nrx4_spec(self, value: u8, div_apu: u8) -> PulseChannel<S> {
        let (length, expired) = self.length.set_is_enabled_spec(value & 0x40 != 0, extra_length_clock(div_apu));
        let s = PulseChannel {
            length,
            is_enabled: self.is_enabled && !expired,
            period_high: value & 0x07,
            ..self
        };
        if value & 0x80 != 0 { s.trigger_spec(div_apu) } else { s }
    }

    pub open spec fn tick_sweep_spec(self) -> PulseChannel<S> {
        if !self.is_enabled {
            self
        } else {
            let (sweep, (enabled, new_period)) = self.sweep.tick_spec();
            let s = PulseChannel { sweep, is_enabled: enabled, ..self };
            match new_period {
                Some(p) => PulseChannel { period_low: p as u8, period_high: ((p >> 8) as u8) & 0x07, ..s },
                None => s,
            }
        }
    }

    pub open spec fn tick_envelope_spec(self) -> PulseChannel<S> {
        if self.is_enabled {
            PulseChannel { volume_and_envelope: self.volume_and_envelope.tick_spec(), ..self }
        } else {
            self
        }
    }

    pub open spec fn tick_length_spec(self) -> PulseChannel<S> {
        let (length, expired) = self.length.tick_spec();
        PulseChannel { length, is_enabled: self.is_enabled && !expired, ..self }
    }

    pub open spec fn write_nrx1_spec(self, value: u8, is_apu_on: bool) -> PulseChannel<S> {
        PulseChannel {
            duty_cycle: if is_apu_on { value >> 6 } else { self.duty_cycle },
            length: self.length.with_initial_length(value),
            ..self
        }
    }

    pub open spec fn write_nrx2_spec(self, value: u8) -> PulseChannel<S> {
        PulseChannel {
            volume_and_envelope: VolumeAndEnvelope { register: value, ..self.volume_and_envelope },
            is_enabled: self.is_enabled && value & 0xf8 != 0,
            ..self
        }
    }

    pub open spec fn with_period(self, value: u16) -> PulseChannel<S> {
        PulseChannel { period_low: value as u8, period_high: ((value >> 8) as u8) & 0x07, ..self }
    }

    pub open spec fn sampler_spec(self) -> PulseSampler {
        PulseSampler {
            is_on: self.is_enabled,
            duty_cycle: self.duty_cycle,
            period: match self.sweep.period_spec() {
                Some(p) => p,
                None => self.period(),
            },
            volume: self.volume_and_envelope.volume,
        }
    }

    pub open spec fn reset_spec(self) -> PulseChannel<S> {
        PulseChannel { length: self.length.reset_spec(), ..Self::initial() }
    }

    pub fn new() -> (r: Self)
        ensures
            r == Self::initial(),
            r.wf(),
    {
        PulseChannel {
            length: Length::default(),
            duty_cycle: 0,
            volume_and_envelope: VolumeAndEnvelope::default(),
            period_low: 0,
            period_high: 0,
            is_enabled: false,
            sweep: S::initial(),
        }
    }

    pub fn tick_envelope(&mut self)
        requires
            old(self).wf(),
        ensures
            final(self).wf(),
            *final(self) == old(self).tick_envelope_spec(),
    {
        if self.is_on() {
            self.volume_and_envelope.tick();
        }
    }

    pub fn tick_length(&mut self)
        ensures
            *final(self) == old(self).tick_length_spec(),
    {
        let expired = self.length.tick();
        self.is_enabled = self.is_enabled && !expired;
    }

    pub fn get_nrx1(&self) -> (r: u8)
        ensures
            r == (self.duty_cycle << 6) | 0b00111111,
    {
        (self.duty_cycle << 6) | 0b00111111
    }

    /// The duty cycle is only written while the APU is on; the length always is.
    pub fn write_nrx1(&mut self, value: u8, is_apu_on: bool)
        requires
            old(self).wf(),
        ensures
            final(self).wf(),
            *final(self) == old(self).write_nrx1_spec(value, is_apu_on),
    {
        if is_apu_on {
            proof {
                crate::bits::lemma_u8_shr_bound(value);
            }
            self.duty_cycle = value >> 6;
        }
        self.length.set_initial_timer_length(value);
    }

    pub fn get_nrx2(&self) -> (r: u8)
        ensures
            r == self.volume_and_envelope.register,
    {
        self.volume_and_envelope.get_register()
    }

    /// Turning the DAC off (upper five bits clear) turns the channel off.
    pub fn write_nrx2(&mut self, value: u8)
        requires
            old(self).wf(),
        ensures
            final(self).wf(),
            *final(self) == old(self).write_nrx2_spec(value),
    {
        self.volume_and_envelope.write_register(value);
        let dac = self.volume_and_envelope.is_dac_on();
        self.is_enabled = self.is_enabled && dac;
    }

    pub fn get_nrx3(&self) -> (r: u8)
        ensures
            r == 0xff,
    {
        0xff
    }

    pub fn write_nrx3(&mut self, value: u8)
        ensures
            final(self).period_low == value,
            *final(self) == (PulseChannel { period_low: value, ..*old(self) }),
    {
        self.period_low = value;
    }

    pub fn get_nrx4(&self) -> (r: u8)
        ensures
            r == (if self.length.is_enabled { 0xffu8 } else { 0xbfu8 }),
    {
        let enabled: u8 = if self.length.is_enabled() { 1 } else { 0 };
        assert((1u8 << 6u8) | 0b10111111u8 == 0xffu8 && (0u8 << 6u8) | 0b10111111u8 == 0xbfu8) by (bit_vector);
        (enabled << 6) | 0b10111111
    }

    pub fn write_nrx4(&mut self, value: u8, div_apu: u8)
        requires
            old(self).wf(),
        ensures
            final(self).wf(),
            *final(self) == old(self).write_nrx4_spec(value, div_apu),
    {
        let extra = is_extra_length_clock(div_apu);
        let expired = self.length.set_is_enabled(value & 0x40 != 0, "pulse", extra);
        self.is_enabled = self.is_enabled && !expired;
        proof {
            crate::bits::lemma_u8_and_bound(value, 0x07);
        }
        self.period_high = value & 0x07;
        if value & 0x80 != 0 {
            self.trigger(div_apu);
        }
    }

    /// According to blargg, a disabled DAC does not stop the other effects of a trigger
    /// but prevents the channel from being enabled.
    pub fn trigger(&mut self, div_apu: u8)
        requires
            old(self).wf(),
        ensures
            final(self).wf(),
            *final(self) == old(self).trigger_spec(div_apu),
    {
        self.length.trigger(is_extra_length_clock(div_apu));
        if !self.volume_and_envelope.is_dac_on() {
            return;
        }
        self.volume_and_envelope.trigger();
        let period = self.get_period_value();
        self.is_enabled = self.sweep.trigger(period);
    }

    pub fn is_on(&self) -> (r: bool)
        ensures
            r == self.is_enabled,
    {
        self.is_enabled
    }

    pub fn tick_sweep(&mut self)
        requires
            old(self).wf(),
        ensures
            final(self).wf(),
            *final(self) == old(self).tick_sweep_spec(),
    {
        if !self.is_on() {
            return;
        }
        let (is_enabled_from_sweep, new_period) = self.sweep.tick();
        if let Some(period) = new_period {
            self.set_period_value(period);
        }
        self.is_enabled = is_enabled_from_sweep;
    }

    fn get_period_value(&self) -> (r: u16)
        ensures
            r == self.period(),
            r <= 0x7ff,
    {
        let high = self.period_high as u16;
        let low = self.period_low as u16;
        assert(((high & 0x07) << 8) | low <= 0x7ff) by (bit_vector)
            requires
                low < 256,
        ;
        ((high & 0x07) << 8) | low
    }

    fn set_period_value(&mut self, value: u16)
        ensures
            *final(self) == old(self).with_period(value),
            final(self).period_high < 8,
    {
        self.period_low = value as u8;
        let high = (value >> 8) as u8;
        proof {
            crate::bits::lemma_u8_and_bound(high, 0x07);
        }
        self.period_high = high & 0x07;
    }

    pub fn get_sampler(&self) -> (r: PulseSampler)
        requires
            self.wf(),
        ensures
            r == self.sampler_spec(),
    {
        let period = match self.sweep.get_period_value() {
            Some(p) => p,
            None => self.get_period_value(),
        };
        PulseSampler {
            is_on: self.is_on(),
            duty_cycle: self.duty_cycle,
            period,
            volume: self.volume_and_envelope.get_volume(),
        }
    }

    /// The channel after the APU is switched off: everything cleared but the length count.
    pub fn reset(&self) -> (r: Self)
        ensures
            r == self.reset_spec(),
            r.wf(),
    {
        let fresh = Self::new();
        PulseChannel { length: self.length.reset(), ..fresh }
    }
}

impl PulseChannel<Ch1Sweep> {
    pub open spec fn write_nr10_spec(self, value: u8) -> PulseChannel<Ch1Sweep> {
        PulseChannel { sweep: Ch1Sweep { nr10: value, ..self.sweep }, ..self }
    }

    pub fn get_nr10(&self) -> (r: u8)
        ensures
            r == self.sweep.nr10 | 0x80,
    {
        self.sweep.get_nr10() | 0x80
    }

    pub fn write_nr10(&mut self, value: u8)
        ensures
            *final(self) == old(self).write_nr10_spec(value),
    {
        self.sweep.set_nr10(value);
    }
}


/// The four duty cycles as eight steps each, high (1) or low (0).
/// https://gbdev.io/pandocs/Audio_Registers.html#ff11--nr11-channel-1-length-timer--duty-cycle
pub open spec fn duty_waves() -> Seq<Seq<u8>> {
    seq![
        seq![1u8, 1, 1, 1, 1, 1, 1, 0],
        seq![0u8, 1, 1, 1, 1, 1, 1, 0],
        seq![0u8, 1, 1, 1, 1, 0, 0, 0],
        seq![1u8, 0, 0, 0, 0, 0, 0, 1],
    ]
}

impl PulseSampler {
    /// The digital level (0 to 15) of step `index` of the wave: the volume where the duty step is
    /// high, 0 where it is low.
    pub fn digital_level(&self, index: usize) -> (r: u8)
        requires
            self.duty_cycle < 4,
            index < 8,
            self.volume <= 15,
        ensures
            r == (if duty_waves()[self.duty_cycle as int][index as int] == 1 { self.volume } else { 0 }),
    {
        let wave: [u8; 8] = if self.duty_cycle == 0 {
            [1, 1, 1, 1, 1, 1, 1, 0]
        } else if self.duty_cycle == 1 {
            [0, 1, 1, 1, 1, 1, 1, 0]
        } else if self.duty_cycle == 2 {
            [0, 1, 1, 1, 1, 0, 0, 0]
        } else {
            [1, 0, 0, 0, 0, 0, 0, 1]
        };
        assert(wave@ =~= duty_waves()[self.duty_cycle as int]);
        let step = wave[index];
        if step == 1 {
            self.volume
        } else {
            0
        }
    }
}

} // verus!
