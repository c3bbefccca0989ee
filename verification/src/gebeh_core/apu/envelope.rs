use vstd::prelude::*;

use crate::gebeh_core::cells::{Dffr, DffrToggle, NegativeEdge, NorLatch, Tffnl};
use crate::gebeh_core::cells::tffnl::bit_of;

verus! {

/// A counter of `SIZE` bits kept in a byte; only the low `SIZE` bits are observable.
#[derive(Clone, Copy)]
pub struct SmallByte<const SIZE: u8>(pub u8);

impl<const SIZE: u8> Default for SmallByte<SIZE> {
    fn default() -> (r: Self)
        ensures
            r.0 == 0,
    {
        SmallByte(0)
    }
}

impl<const SIZE: u8> SmallByte<SIZE> {
    /// The observable value: the low `SIZE` bits.
    pub open spec fn value(self) -> u8 {
        self.0 & (((1u8 << SIZE) - 1) as u8)
    }

    pub fn get(self) -> (r: u8)
        requires
            SIZE < 8,
        ensures
            r == self.value(),
    {
        let size: u8 = SIZE;
        assert(1u8 << size >= 1) by (bit_vector)
            requires
                size < 8,
        ;
        self.0 & ((1u8 << size) - 1)
    }

    pub fn increment(self) -> (r: Self)
        ensures
            r.0 == (self.0 + 1) % 256,
    {
        SmallByte(self.0.wrapping_add(1))
    }

    pub fn decrement(self) -> (r: Self)
        ensures
            r.0 == (self.0 + 255) % 256,
    {
        SmallByte(self.0.wrapping_sub(1))
    }
}

/// Whether the envelope has reached its end (zero when decreasing, fifteen when increasing).
#[derive(Clone, Copy)]
pub struct EnvelopeIsStopped {
    pub dffr: Dffr,
    pub nor_latch: NorLatch,
}

impl Default for EnvelopeIsStopped {
    fn default() -> (r: Self)
        ensures
            r == EnvelopeIsStopped::initial(),
    {
        EnvelopeIsStopped { dffr: Dffr::default(), nor_latch: NorLatch::default() }
    }
}

impl EnvelopeIsStopped {
    pub open spec fn initial() -> EnvelopeIsStopped {
        EnvelopeIsStopped { dffr: Dffr { clk: false, state: false }, nor_latch: NorLatch(false) }
    }

    pub open spec fn next(
        self,
        channel_restart: bool,
        channel_env: u8,
        is_increasing: bool,
        apu_reset: bool,
        pace_finished_synced: bool,
    ) -> EnvelopeIsStopped {
        let should_reset = apu_reset || channel_restart;
        let should_stop = !is_increasing && channel_env == 0 || is_increasing && channel_env == 0x0f;
        let dffr = self.dffr.next(should_stop, pace_finished_synced, !should_reset);
        EnvelopeIsStopped { dffr, nor_latch: self.nor_latch.next(dffr.state, should_reset) }
    }

    /// `channel_env` is the current four-bit envelope value.
    pub fn update(
        &mut self,
        channel_restart: bool,
        channel_env: SmallByte<4>,
        is_increasing: bool,
        apu_reset: bool,
        pace_finished_synced: bool,
    ) -> (r: bool)
        ensures
            *final(self) == old(self).next(
                channel_restart,
                channel_env.value(),
                is_increasing,
                apu_reset,
                pace_finished_synced,
            ),
            r == final(self).nor_latch.0,
    {
        let should_reset = apu_reset || channel_restart;
        let env = channel_env.get();
        let should_stop = !is_increasing && env == 0 || is_increasing && env == 0x0f;
        let is_stopped = self.dffr.update(should_stop, pace_finished_synced, !should_reset);
        self.nor_latch.update(is_stopped, should_reset)
    }
}

/// Counts envelope pace periods and reports when the pace counter reaches seven.
#[derive(Clone, Copy)]
pub struct PaceIsFinished {
    pub clock_divider: DffrToggle,
    pub pace_counter: SmallByte<3>,
    pub counter_clk_edge: NegativeEdge,
}

impl Default for PaceIsFinished {
    fn default() -> (r: Self)
        ensures
            r == PaceIsFinished::initial(),
    {
        PaceIsFinished {
            clock_divider: DffrToggle::default(),
            pace_counter: SmallByte::default(),
            counter_clk_edge: NegativeEdge::default(),
        }
    }
}

impl PaceIsFinished {
    pub open spec fn initial() -> PaceIsFinished {
        PaceIsFinished {
            clock_divider: DffrToggle { clk: false, state: false },
            pace_counter: SmallByte(0),
            counter_clk_edge: NegativeEdge(false),
        }
    }

    pub open spec fn next(
        self,
        clock_128hz: bool,
        apu_reset: bool,
        ch2_restart: bool,
        pace_finished_synced: bool,
        pace_reg: SmallByte<3>,
    ) -> PaceIsFinished {
        let should_load = ch2_restart || pace_finished_synced;
        let clock_divider = self.clock_divider.next(!clock_128hz, !apu_reset);
        let loaded = if should_load { pace_reg } else { self.pace_counter };
        let edge = self.counter_clk_edge.0 && !clock_divider.state;
        PaceIsFinished {
            clock_divider,
            pace_counter: if edge { SmallByte(((loaded.0 + 1) % 256) as u8) } else { loaded },
            counter_clk_edge: self.counter_clk_edge.next(clock_divider.state),
        }
    }

    pub fn update(
        &mut self,
        clock_128hz: bool,
        apu_reset: bool,
        ch2_restart: bool,
        pace_finished_synced: bool,
        pace_reg: SmallByte<3>,
    ) -> (r: bool)
        ensures
            *final(self) == old(self).next(clock_128hz, apu_reset, ch2_restart, pace_finished_synced, pace_reg),
            r == (final(self).pace_counter.value() == 7),
    {
        let should_load = ch2_restart || pace_finished_synced;
        let counter_clk = self.clock_divider.update(!clock_128hz, !apu_reset);
        if should_load {
            self.pace_counter = pace_reg;
        }
        if self.counter_clk_edge.update(counter_clk) {
            self.pace_counter = self.pace_counter.increment();
        }
        self.pace_counter.get() == 0x07
    }
}

/// The pace counter result synchronised on the 512 Hz clock.
#[derive(Clone, Copy)]
pub struct PaceIsFinishedSynced {
    pub syncer_512hz: Dffr,
    pub pace_is_finished: PaceIsFinished,
}

impl Default for PaceIsFinishedSynced {
    fn default() -> (r: Self)
        ensures
            r == PaceIsFinishedSynced::initial(),
    {
        PaceIsFinishedSynced { syncer_512hz: Dffr::default(), pace_is_finished: PaceIsFinished::default() }
    }
}

impl PaceIsFinishedSynced {
    pub open spec fn initial() -> PaceIsFinishedSynced {
        PaceIsFinishedSynced {
            syncer_512hz: Dffr { clk: false, state: false },
            pace_is_finished: PaceIsFinished::initial(),
        }
    }

    pub open spec fn next(
        self,
        clock_512hz: bool,
        clock_128hz: bool,
        apu_reset: bool,
        ch2_restart: bool,
        pace_reg: SmallByte<3>,
    ) -> PaceIsFinishedSynced {
        let pace_is_finished = self.pace_is_finished.next(
            clock_128hz,
            apu_reset,
            ch2_restart,
            self.syncer_512hz.state,
            pace_reg,
        );
        let finished = pace_is_finished.pace_counter.value() == 7;
        let should_reset = !clock_512hz && self.syncer_512hz.state || pace_reg.value() == 0
            || ch2_restart || apu_reset;
        PaceIsFinishedSynced {
            syncer_512hz: self.syncer_512hz.next(finished, clock_512hz, !should_reset),
            pace_is_finished,
        }
    }

    pub fn update(
        &mut self,
        clock_512hz: bool,
        clock_128hz: bool,
        apu_reset: bool,
        ch2_restart: bool,
        pace_reg: SmallByte<3>,
    ) -> (r: bool)
        ensures
            *final(self) == old(self).next(clock_512hz, clock_128hz, apu_reset, ch2_restart, pace_reg),
            r == final(self).syncer_512hz.state,
    {
        let synced = self.syncer_512hz.state;
        let pace_is_finished = self.pace_is_finished.update(
            clock_128hz,
            apu_reset,
            ch2_restart,
            synced,
            pace_reg,
        );
        let should_reset = !clock_512hz && self.syncer_512hz.state || pace_reg.get() == 0
            || ch2_restart || apu_reset;
        self.syncer_512hz.update(pace_is_finished, clock_512hz, !should_reset)
    }
}

/// The four-bit envelope volume, kept as toggle cells so the hardware's glitches carry over.
#[derive(Clone, Copy)]
pub struct EnvelopeValue {
    pub state: Tffnl,
}

/// One envelope bit: cell `index` loads bit `index` of `volume` on restart and toggles on `tclk_n`.
pub open spec fn envelope_bit_step(t: Tffnl, index: u8, volume: u8, restart: bool, tclk_n: bool) -> Tffnl {
    t.next(index, volume & (1u8 << index) != 0, restart, tclk_n)
}

impl Default for EnvelopeValue {
    fn default() -> (r: Self)
        ensures
            r.state == (Tffnl { state: 0, tclk_n: 0 }),
    {
        EnvelopeValue { state: Tffnl::default() }
    }
}

impl EnvelopeValue {
    pub open spec fn next(
        self,
        pace_reg: u8,
        pace_finished_synced: bool,
        is_envelope_stopped: bool,
        is_increasing: bool,
        ch2_restart: bool,
        volume_reg: u8,
    ) -> EnvelopeValue {
        let t0 = envelope_bit_step(
            self.state,
            0,
            volume_reg,
            ch2_restart,
            pace_finished_synced || pace_reg == 0 || is_envelope_stopped,
        );
        let t1 = envelope_bit_step(t0, 1, volume_reg, ch2_restart, is_increasing == bit_of(t0.state, 0));
        let t2 = envelope_bit_step(t1, 2, volume_reg, ch2_restart, is_increasing == bit_of(t1.state, 1));
        let t3 = envelope_bit_step(t2, 3, volume_reg, ch2_restart, is_increasing == bit_of(t2.state, 2));
        EnvelopeValue { state: t3 }
    }

    pub fn update(
        &mut self,
        pace_reg: SmallByte<3>,
        pace_finished_synced: bool,
        is_envelope_stopped: bool,
        is_increasing: bool,
        ch2_restart: bool,
        volume_reg: SmallByte<4>,
    )
        ensures
            *final(self) == old(self).next(
                pace_reg.value(),
                pace_finished_synced,
                is_envelope_stopped,
                is_increasing,
                ch2_restart,
                volume_reg.value(),
            ),
    {
        let volume = volume_reg.get();
        assert(1u8 << 0u8 == 1u8 && 1u8 << 1u8 == 2u8 && 1u8 << 2u8 == 4u8 && 1u8 << 3u8 == 8u8)
            by (bit_vector);
        let ch2_env0 = self.state.update(
            0,
            volume & 1 != 0,
            ch2_restart,
            pace_finished_synced || pace_reg.get() == 0 || is_envelope_stopped,
        );
        let ch2_env1 = self.state.update(1, volume & 0b10 != 0, ch2_restart, is_increasing == ch2_env0);
        let ch2_env2 = self.state.update(2, volume & 0b100 != 0, ch2_restart, is_increasing == ch2_env1);
        self.state.update(3, volume & 0b1000 != 0, ch2_restart, is_increasing == ch2_env2);
    }

    pub fn get_value(&self) -> (r: SmallByte<4>)
        ensures
            r.0 == self.state.state,
    {
        SmallByte(self.state.get_state())
    }
}

/// Volume envelope of one channel, driven by the APU's 512 Hz and 128 Hz clocks.
#[derive(Clone, Copy)]
pub struct EnvelopeComponent {
    pub register: u8,
    pub envelope_value: EnvelopeValue,
    pub pace_is_finished_synced: PaceIsFinishedSynced,
    pub envelope_is_stopped: EnvelopeIsStopped,
}

impl Default for EnvelopeComponent {
    fn default() -> (r: Self)
        ensures
            r == EnvelopeComponent::initial(),
    {
        EnvelopeComponent {
            register: 0,
            envelope_value: EnvelopeValue::default(),
            pace_is_finished_synced: PaceIsFinishedSynced::default(),
            envelope_is_stopped: EnvelopeIsStopped::default(),
        }
    }
}

impl EnvelopeComponent {
    pub open spec fn initial() -> EnvelopeComponent {
        EnvelopeComponent {
            register: 0,
            envelope_value: EnvelopeValue { state: Tffnl { state: 0, tclk_n: 0 } },
            pace_is_finished_synced: PaceIsFinishedSynced::initial(),
            envelope_is_stopped: EnvelopeIsStopped::initial(),
        }
    }

    pub open spec fn next(self, horu_512hz: bool, byfe_128hz: bool, apu_reset: bool, channel_restart: bool) -> EnvelopeComponent {
        let pace_reg = SmallByte::<3>(self.register);
        let pace = self.pace_is_finished_synced.next(horu_512hz, byfe_128hz, apu_reset, channel_restart, pace_reg);
        let pace_is_finished_synced = pace.syncer_512hz.state;
        let is_increasing = self.register & 0b1000 != 0;
        let stopped = self.envelope_is_stopped.next(
            channel_restart,
            SmallByte::<4>(self.envelope_value.state.state).value(),
            is_increasing,
            apu_reset,
            pace_is_finished_synced,
        );
        EnvelopeComponent {
            register: self.register,
            envelope_value: self.envelope_value.next(
                pace_reg.value(),
                pace_is_finished_synced,
                stopped.nor_latch.0,
                is_increasing,
                channel_restart,
                SmallByte::<4>(self.register >> 4).value(),
            ),
            pace_is_finished_synced: pace,
            envelope_is_stopped: stopped,
        }
    }

    pub fn update(&mut self, horu_512hz: bool, byfe_128hz: bool, apu_reset: bool, channel_restart: bool)
        ensures
            *final(self) == old(self).next(horu_512hz, byfe_128hz, apu_reset, channel_restart),
    {
        let pace_is_finished_synced = self.pace_is_finished_synced.update(
            horu_512hz,
            byfe_128hz,
            apu_reset,
            channel_restart,
            SmallByte(self.register),
        );
        let is_increasing = self.register & 0b1000 != 0;
        let value = self.envelope_value.get_value();
        let is_envelope_stopped = self.envelope_is_stopped.update(
            channel_restart,
            value,
            is_increasing,
            apu_reset,
            pace_is_finished_synced,
        );
        self.envelope_value.update(
            SmallByte(self.register),
            pace_is_finished_synced,
            is_envelope_stopped,
            is_increasing,
            channel_restart,
            SmallByte(self.register >> 4),
        );
    }

    /// https://gbdev.io/pandocs/Audio_details.html#dacs
    pub fn is_dac_on(&self) -> (r: bool)
        ensures
            r == (self.register & 0xf8 != 0),
    {
        self.register & 0xf8 != 0
    }

    pub fn get_volume(&self) -> (r: u8)
        ensures
            r == self.envelope_value.state.state,
    {
        self.envelope_value.get_value().0
    }

    pub fn get_register(&self) -> (r: u8)
        ensures
            r == self.register,
    {
        self.register
    }

    pub fn write_register(&mut self, value: u8)
        ensures
            *final(self) == (EnvelopeComponent { register: value, ..*old(self) }),
    {
        self.register = value;
    }
}

} // verus!

verus! {

/// Volume envelope as the channels see it: NRx2 and the running volume, stepped at 64 Hz.
#[derive(Clone, Copy)]
pub struct VolumeAndEnvelope {
    pub register: u8,
    /// Four bits.
    pub volume: u8,
    pub is_increasing: bool,
    /// Three bits, latched at trigger; zero disables the envelope.
    pub pace: u8,
    pub pace_count: u8,
}

impl Default for VolumeAndEnvelope {
    fn default() -> (r: Self)
        ensures
            r == VolumeAndEnvelope::initial(),
    {
        VolumeAndEnvelope { register: 0, volume: 0, is_increasing: false, pace: 0, pace_count: 0 }
    }
}

impl VolumeAndEnvelope {
    pub open spec fn initial() -> VolumeAndEnvelope {
        VolumeAndEnvelope { register: 0, volume: 0, is_increasing: false, pace: 0, pace_count: 0 }
    }

    pub open spec fn wf(self) -> bool {
        &&& self.volume <= 0x0f
        &&& self.pace <= 7
        &&& if self.pace == 0 { self.pace_count == 0 } else { self.pace_count < self.pace }
    }

    /// One 64 Hz step: every `pace` steps the volume moves one unit up or down, within 0..=15.
    pub open spec fn tick_spec(self) -> VolumeAndEnvelope {
        if self.pace == 0 {
            self
        } else if self.pace_count + 1 != self.pace {
            VolumeAndEnvelope { pace_count: (self.pace_count + 1) as u8, ..self }
        } else {
            VolumeAndEnvelope {
                pace_count: 0,
                volume: if self.is_increasing && self.volume < 0x0f {
                    (self.volume + 1) as u8
                } else if !self.is_increasing && self.volume > 0 {
                    (self.volume - 1) as u8
                } else {
                    self.volume
                },
                ..self
            }
        }
    }

    /// A trigger reloads volume, direction and pace from the register.
    pub open spec fn trigger_spec(self) -> VolumeAndEnvelope {
        VolumeAndEnvelope {
            volume: self.register >> 4,
            is_increasing: self.register & 0x08 != 0,
            pace: self.register & 0x07,
            pace_count: 0,
            ..self
        }
    }

    pub fn tick(&mut self)
        requires
            old(self).wf(),
        ensures
            *final(self) == old(self).tick_spec(),
            final(self).wf(),
    {
        if self.pace == 0 {
            return;
        }
        self.pace_count = self.pace_count + 1;
        if self.pace_count != self.pace {
            return;
        }
        self.pace_count = 0;
        if self.is_increasing && self.volume < 0x0f {
            self.volume = self.volume + 1;
        } else if !self.is_increasing && self.volume > 0 {
            self.volume = self.volume - 1;
        }
    }

    pub fn trigger(&mut self)
        ensures
            *final(self) == old(self).trigger_spec(),
            final(self).wf(),
    {
        let register = self.register;
        proof {
            crate::bits::lemma_u8_shr_bound(register);
            crate::bits::lemma_u8_and_bound(register, 0x07);
        }
        self.volume = register >> 4;
        self.is_increasing = register & 0x08 != 0;
        self.pace = register & 0x07;
        self.pace_count = 0;
    }

    pub fn is_dac_on(&self) -> (r: bool)
        ensures
            r == (self.register & 0xf8 != 0),
    {
        self.register & 0xf8 != 0
    }

    pub fn get_volume(&self) -> (r: u8)
        ensures
            r == self.volume,
    {
        self.volume
    }

    pub fn get_register(&self) -> (r: u8)
        ensures
            r == self.register,
    {
        self.register
    }

    pub fn write_register(&mut self, value: u8)
        ensures
            *final(self) == (VolumeAndEnvelope { register: value, ..*old(self) }),
    {
        self.register = value;
    }
}

} // verus!
