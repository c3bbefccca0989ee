use vstd::prelude::*;

use crate::gebeh_core::apu::envelope::VolumeAndEnvelope;
use crate::gebeh_core::apu::length::{Length, MASK_6_BITS};
use crate::gebeh_core::apu::pulse_channel::{extra_length_clock, is_extra_length_clock};

verus! {

/// The noise channel (CH4).
#[derive(Clone, Copy)]
pub struct NoiseChannel {
    pub length: Length<MASK_6_BITS>,
    pub volume_and_envelope: VolumeAndEnvelope,
    pub nr43: u8,
    pub is_enabled: bool,
}

/// What the mixer needs to render the noise channel.
#[derive(Clone, Copy, PartialEq, Eq)]
pub struct NoiseSampler {
    pub is_on: bool,
    pub divider: u8,
    pub shift: u8,
    pub is_short_mode: bool,
    pub volume: u8,
    pub is_dac_on: bool,
}

impl Default for NoiseChannel {
    fn default() -> (r: Self)
        ensures
            r == NoiseChannel::initial(),
    {
        NoiseChannel {
            length: Length::default(),
            volume_and_envelope: VolumeAndEnvelope::default(),
            nr43: 0,
            is_enabled: false,
        }
    }
}

impl NoiseChannel {
    pub open spec fn initial() -> NoiseChannel {
        NoiseChannel {
            length: Length::<MASK_6_BITS>::initial(),
            volume_and_envelope: VolumeAndEnvelope::initial(),
            nr43: 0,
            is_enabled: false,
        }
    }

    pub open spec fn wf(self) -> bool {
        self.volume_and_envelope.wf()
    }

    pub open spec fn on(self) -> bool {
        self.volume_and_envelope.register & 0xf8 != 0 && self.is_enabled
    }

    pub open spec fn reset_spec(self) -> NoiseChannel {
        NoiseChannel { length: self.length.reset_spec(), ..NoiseChannel::initial() }
    }

    pub open spec fn tick_envelope_spec(self) -> NoiseChannel {
        if self.on() {
            NoiseChannel { volume_and_envelope: self.volume_and_envelope.tick_spec(), ..self }
        } else {
            self
        }
    }

    pub open spec fn tick_length_spec(self) -> NoiseChannel {
        let (length, expired) = self.length.tick_spec();
        NoiseChannel { length, is_enabled: self.is_enabled && !expired, ..self }
    }

    pub open spec fn write_nr42_spec(self, value: u8) -> NoiseChannel {
        NoiseChannel {
            volume_and_envelope: VolumeAndEnvelope { register: value, ..self.volume_and_envelope },
            is_enabled: self.is_enabled && value & 0xf8 != 0,
            ..self
        }
    }

    pub open spec fn trigger_spec(self, div_apu: u8) -> NoiseChannel {
        let s = NoiseChannel { length: self.length.trigger_spec(extra_length_clock(div_apu)), ..self };
        if s.volume_and_envelope.register & 0xf8 == 0 {
            s
        } else {
            NoiseChannel { is_enabled: true, volume_and_envelope: s.volume_and_envelope.trigger_spec(), ..s }
        }
    }

    pub open spec fn write_nr44_spec(self, value: u8, div_apu: u8) -> NoiseChannel {
        let (length, expired) = self.length.set_is_enabled_spec(value & 0x40 != 0, extra_length_clock(div_apu));
        let s = NoiseChannel { length, is_enabled: self.is_enabled && !expired, ..self };
        if value & 0x80 != 0 { s.trigger_spec(div_apu) } else { s }
    }

    pub open spec fn sampler_spec(self) -> NoiseSampler {
        NoiseSampler {
            is_on: self.on(),
            divider: self.nr43 & 0x7,
            shift: (self.nr43 >> 4) & 0xf,
            is_short_mode: self.nr43 & 0x8 != 0,
            volume: self.volume_and_envelope.volume,
            is_dac_on: self.volume_and_envelope.register & 0xf8 != 0,
        }
    }

    /// The channel after the APU is switched off: everything cleared but the length count.
    pub fn reset(&self) -> (r: Self)
        ensures
            r == self.reset_spec(),
            r.wf(),
    {
        let fresh = NoiseChannel::default();
        NoiseChannel { length: self.length.reset(), ..fresh }
    }

    pub fn tick_envelope(&mut self)
        requires
            old(self).wf(),
        ensures
            final(self).wf(),
            *final(self) == old(self).tick_envelope_spec(),
    {
        if self.is_on() {
            self.volume_and_envelope.tick();
        }
    }

    pub fn tick_length(&mut self)
        ensures
            *final(self) == old(self).tick_length_spec(),
    {
        let expired = self.length.tick();
        self.is_enabled = self.is_enabled && !expired;
    }

    pub fn write_nr41(&mut self, value: u8)
        ensures
            *final(self) == (NoiseChannel { length: old(self).length.with_initial_length(value), ..*old(self) }),
    {
        self.length.set_initial_timer_length(value);
    }

    pub fn read_nr41(&self) -> (r: u8)
        ensures
            r == 0xff,
    {
        0xff
    }

    pub fn write_nr42(&mut self, value: u8)
        requires
            old(self).wf(),
        ensures
            final(self).wf(),
            *final(self) == old(self).write_nr42_spec(value),
    {
        self.volume_and_envelope.write_register(value);
        let dac = self.volume_and_envelope.is_dac_on();
        self.is_enabled = self.is_enabled && dac;
    }

    pub fn read_nr42(&self) -> (r: u8)
        ensures
            r == self.volume_and_envelope.register,
    {
        self.volume_and_envelope.get_register()
    }

    pub fn write_nr43(&mut self, value: u8)
        ensures
            *final(self) == (NoiseChannel { nr43: value, ..*old(self) }),
    {
        self.nr43 = value;
    }

    pub fn read_nr43(&self) -> (r: u8)
        ensures
            r == self.nr43,
    {
        self.nr43
    }

    pub fn write_nr44(&mut self, value: u8, div_apu: u8)
        requires
            old(self).wf(),
        ensures
            final(self).wf(),
            *final(self) == old(self).write_nr44_spec(value, div_apu),
    {
        let extra = is_extra_length_clock(div_apu);
        let expired = self.length.set_is_enabled(value & 0x40 != 0, "ch4", extra);
        self.is_enabled = self.is_enabled && !expired;
        if value & 0x80 != 0 {
            self.trigger(div_apu);
        }
    }

    pub fn read_nr44(&self) -> (r: u8)
        ensures
            r == (if self.length.is_enabled { 0xffu8 } else { 0xbfu8 }),
    {
        if self.length.is_enabled() { 0xff } else { 0b10111111 }
    }

    /// According to blargg, a disabled DAC does not stop the other effects of a trigger
    /// but prevents the channel from being enabled.
    fn trigger(&mut self, div_apu: u8)
        requires
            old(self).wf(),
        ensures
            final(self).wf(),
            *final(self) == old(self).trigger_spec(div_apu),
    {
        self.length.trigger(is_extra_length_clock(div_apu));
        if !self.volume_and_envelope.is_dac_on() {
            return;
        }
        self.is_enabled = true;
        self.volume_and_envelope.trigger();
    }

    pub fn is_on(&self) -> (r: bool)
        ensures
            r == self.on(),
    {
        self.volume_and_envelope.is_dac_on() && self.is_enabled
    }

    pub fn get_sampler(&self) -> (r: NoiseSampler)
        ensures
            r == self.sampler_spec(),
    {
        NoiseSampler {
            is_on: self.is_on(),
            divider: self.nr43 & 0x7,
            shift: (self.nr43 >> 4) & 0xf,
            is_short_mode: self.nr43 & 0x8 != 0,
            volume: self.volume_and_envelope.get_volume(),
            is_dac_on: self.volume_and_envelope.is_dac_on(),
        }
    }
}


impl NoiseSampler {
    /// The LFSR output (0 or 1) for tick `index` of a precomputed noise sequence: the sequences
    /// repeat, so the tick wraps around the one that the width mode selects.
    pub fn noise_bit(&self, index: usize, noise: &[u8], short_noise: &[u8]) -> (r: u8)
        requires
            noise@.len() > 0,
            short_noise@.len() > 0,
        ensures
            r == (if self.is_short_mode {
                short_noise@[(index as int) % (short_noise@.len() as int)]
            } else {
                noise@[(index as int) % (noise@.len() as int)]
            }),
    {
        if self.is_short_mode {
            short_noise[index % short_noise.len()]
        } else {
            noise[index % noise.len()]
        }
    }
}

} // verus!
