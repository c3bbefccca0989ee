//! A two-channel APU model whose timers run directly off the DIV register's falling edges.
use vstd::prelude::*;

use crate::gebeh_core::apu::flag;

verus! {

/// Frequency sweep of channel 1 (NR10).
#[derive(Clone, Copy)]
pub struct Ch1Sweep {
    pub nr10: u8,
    pub pace_count: u8,
    pub falling_edge: bool,
    pub period_value: u16,
    /// Citation: the value written to this field is not re-read by the hardware until a
    /// sweep iteration completes, or the channel is (re)triggered.
    pub pace: u8,
    /// Set if either the sweep pace or the individual step is non-zero.
    pub is_enabled: bool,
}

impl Default for Ch1Sweep {
    fn default() -> (r: Self)
        ensures
            r == Ch1Sweep::initial(),
    {
        Ch1Sweep { nr10: 0, pace_count: 0, falling_edge: false, period_value: 0, pace: 0, is_enabled: false }
    }
}

impl Ch1Sweep {
    pub open spec fn initial() -> Ch1Sweep {
        Ch1Sweep { nr10: 0, pace_count: 0, falling_edge: false, period_value: 0, pace: 0, is_enabled: false }
    }

    pub open spec fn decreasing(self) -> bool {
        self.nr10 & 0x08 != 0
    }

    pub open spec fn step(self) -> u8 {
        self.nr10 & 0x07
    }

    /// The next period of the sweep, `None` when adding would exceed $7FF.
    pub open spec fn next_period(self) -> Option<u16> {
        let shifted = self.period_value >> self.step();
        if self.decreasing() {
            Some((self.period_value - shifted) as u16)
        } else if self.period_value + shifted > 0x7ff {
            None
        } else {
            Some((self.period_value + shifted) as u16)
        }
    }

    fn is_decreasing(&self) -> (r: bool)
        ensures
            r == self.decreasing(),
    {
        self.nr10 & 0x08 != 0
    }

    fn individual_step(&self) -> (r: u8)
        ensures
            r == self.step(),
            r < 8,
    {
        let v = self.nr10;
        proof {
            crate::bits::lemma_u8_and_bound(v, 0x07);
        }
        v & 0x07
    }

    fn compute_next_value_and_check_overflow(&self) -> (r: Option<u16>)
        requires
            self.period_value <= 0x7ff,
        ensures
            r == self.next_period(),
            r matches Some(p) ==> p <= 0x7ff,
    {
        let step = self.individual_step();
        let pv = self.period_value;
        assert(pv >> step <= pv) by (bit_vector);
        let shifted = pv >> step;
        if self.is_decreasing() {
            return Some(pv - shifted);
        }
        let new_period = pv + shifted;
        if new_period > 0x7ff {
            return None;
        }
        Some(new_period)
    }
}

/// The sweep unit of a pulse channel; the unit type stands for a channel without one.
pub trait Sweep: Sized {
    spec fn initial_spec() -> Self;

    spec fn inv(self) -> bool;

    /// The unit after a trigger with `period`, and the new period if one is computed at once.
    spec fn trigger_spec(self, period: u16) -> (Self, Option<u16>);

    /// The unit after a tick with DIV `div`, whether the channel stays on, and a new period.
    spec fn tick_spec(self, div: u8) -> (Self, (bool, Option<u16>));

    spec fn period_spec(self) -> Option<u16>;

    fn initial() -> (r: Self)
        ensures
            r == Self::initial_spec(),
            r.inv(),
    ;

    fn trigger(&mut self, period: u16) -> (r: Option<u16>)
        requires
            old(self).inv(),
            period <= 0x7ff,
        ensures
            (*final(self), r) == old(self).trigger_spec(period),
            final(self).inv(),
    ;

    fn tick(&mut self, div: u8) -> (r: (bool, Option<u16>))
        requires
            old(self).inv(),
        ensures
            (*final(self), r) == old(self).tick_spec(div),
            final(self).inv(),
    ;

    fn get_period_value(&self) -> (r: Option<u16>)
        ensures
            r == self.period_spec(),
    ;
}

impl Sweep for Ch1Sweep {
    open spec fn initial_spec() -> Self {
        Ch1Sweep::initial()
    }

    open spec fn inv(self) -> bool {
        self.period_value <= 0x7ff
    }

    /// Citation: If the individual step is non-zero, frequency calculation and overflow
    /// check are performed immediately.
    open spec fn trigger_spec(self, period: u16) -> (Self, Option<u16>) {
        let pace = (self.nr10 >> 4) & 0x07;
        let s = Ch1Sweep {
            period_value: period,
            pace_count: 0,
            pace,
            is_enabled: pace != 0 || self.step() != 0,
            ..self
        };
        if s.step() != 0 {
            match s.next_period() {
                Some(p) => (Ch1Sweep { period_value: p, ..s }, Some(p)),
                None => (s, None),
            }
        } else {
            (s, None)
        }
    }

    /// The sweep is clocked on each change of DIV bit 4 (128 Hz); every `pace` clocks the
    /// period moves. An overflowing addition turns the channel off even when the pace is 0.
    open spec fn tick_spec(self, div: u8) -> (Self, (bool, Option<u16>)) {
        if !self.is_enabled {
            (self, (true, None))
        } else {
            match self.next_period() {
                None => (self, (false, None)),
                Some(new_period) => {
                    let has_ticked = div & 0x10 != 0;
                    if self.pace == 0 || self.falling_edge == has_ticked {
                        (self, (true, None))
                    } else {
                        let count = ((self.pace_count + 1) % 256) as u8;
                        let s = Ch1Sweep { falling_edge: has_ticked, pace_count: count, ..self };
                        if count != self.pace {
                            (s, (true, None))
                        } else {
                            let t = Ch1Sweep {
                                pace_count: 0,
                                period_value: new_period,
                                pace: if new_period == 0 { (self.nr10 >> 4) & 0x07 } else { self.pace },
                                ..s
                            };
                            (t, (t.next_period() is Some, Some(new_period)))
                        }
                    }
                },
            }
        }
    }

    open spec fn period_spec(self) -> Option<u16> {
        if self.pace == 0 && self.step() == 0 {
            None
        } else {
            Some(self.period_value)
        }
    }

    fn initial() -> (r: Self) {
        Ch1Sweep::default()
    }

    fn trigger(&mut self, period: u16) -> (r: Option<u16>) {
        self.period_value = period;
        self.pace_count = 0;
        self.pace = (self.nr10 >> 4) & 0x07;
        self.is_enabled = self.pace != 0 || self.individual_step() != 0;
        if self.individual_step() != 0 {
            if let Some(new_period) = self.compute_next_value_and_check_overflow() {
                self.period_value = new_period;
                return Some(new_period);
            }
        }
        None
    }

    fn tick(&mut self, div: u8) -> (r: (bool, Option<u16>)) {
        if !self.is_enabled {
            return (true, None);
        }
        // Citation: In addition mode, if the period value would overflow, the channel is
        // turned off instead. This occurs even if sweep iterations are disabled by the pace being 0.
        let new_period_value = match self.compute_next_value_and_check_overflow() {
            Some(p) => p,
            None => {
                return (false, None);
            },
        };
        if self.pace == 0 {
            return (true, None);
        }
        // 128 Hz
        let has_ticked = div & 0x10 != 0;
        if self.falling_edge == has_ticked {
            return (true, None);
        }
        self.falling_edge = has_ticked;
        self.pace_count = self.pace_count.wrapping_add(1);
        if self.pace_count != self.pace {
            return (true, None);
        }
        self.pace_count = 0;
        self.period_value = new_period_value;
        if new_period_value == 0 {
            self.pace = (self.nr10 >> 4) & 0x07;
        }
        // Citation: then frequency calculation and overflow check are run again immediately
        // using this new value, but this second new frequency is not written back
        if self.compute_next_value_and_check_overflow().is_none() {
            return (false, Some(new_period_value));
        }
        (true, Some(new_period_value))
    }

    fn get_period_value(&self) -> (r: Option<u16>) {
        if self.pace == 0 && self.individual_step() == 0 {
            None
        } else {
            Some(self.period_value)
        }
    }
}

impl Sweep for () {
    open spec fn initial_spec() -> Self {
        ()
    }

    open spec fn inv(self) -> bool {
        true
    }

    open spec fn trigger_spec(self, period: u16) -> (Self, Option<u16>) {
        ((), None)
    }

    open spec fn tick_spec(self, div: u8) -> (Self, (bool, Option<u16>)) {
        ((), (true, None))
    }

    open spec fn period_spec(self) -> Option<u16> {
        None
    }

    fn initial() -> (r: Self) {
        ()
    }

    fn trigger(&mut self, period: u16) -> (r: Option<u16>) {
        None
    }

    fn tick(&mut self, div: u8) -> (r: (bool, Option<u16>)) {
        (true, None)
    }

    fn get_period_value(&self) -> (r: Option<u16>) {
        None
    }
}

/// Length timer counting up to 64 on falling edges of DIV bit 5 (256 Hz).
#[derive(Clone, Copy)]
pub struct LengthTimer {
    pub falling_edge: bool,
    pub value: u8,
}

impl LengthTimer {
    /// The timer after one call with DIV `div`, and whether it has not expired.
    pub open spec fn tick_spec(self, div: u8) -> (LengthTimer, bool) {
        let has_ticked = div & 0x20 != 0;
        if self.falling_edge == has_ticked {
            (self, true)
        } else if has_ticked {
            (LengthTimer { falling_edge: true, ..self }, true)
        } else {
            let value = (self.value + 1) as u8;
            (LengthTimer { falling_edge: false, value }, value != 64)
        }
    }

    fn tick(&mut self, div: u8) -> (r: bool)
        requires
            old(self).value < 64,
        ensures
            (*final(self), r) == old(self).tick_spec(div),
            final(self).value <= 64,
    {
        let has_ticked = div & 0x20 != 0;
        if self.falling_edge == has_ticked {
            return true;
        }
        self.falling_edge = has_ticked;
        if !self.falling_edge {
            self.value = self.value + 1;
            return self.value != 64;
        }
        true
    }

    fn is_expired(&self) -> (r: bool)
        ensures
            r == (self.value == 64),
    {
        self.value == 64
    }

    fn reload(&mut self, value: u8)
        ensures
            *final(self) == (LengthTimer { value, ..*old(self) }),
    {
        self.value = value;
    }
}

/// Volume envelope stepping on falling edges of DIV bit 7 (64 Hz).
#[derive(Clone, Copy)]
pub struct EnvelopeTimer {
    pub falling_edge: bool,
    /// Four bits.
    pub value: u8,
    pub is_increasing: bool,
    /// Three bits; zero disables the envelope.
    pub sweep_pace: u8,
    pub pace_count: u8,
}

impl EnvelopeTimer {
    pub open spec fn wf(self) -> bool {
        &&& self.value <= 0x0f
        &&& if self.sweep_pace == 0 { self.pace_count == 0 } else { self.pace_count < self.sweep_pace }
    }

    pub open spec fn tick_spec(self, div: u8) -> EnvelopeTimer {
        let has_ticked = div & 0x80 != 0;
        if self.sweep_pace == 0 || self.falling_edge == has_ticked {
            self
        } else if has_ticked {
            EnvelopeTimer { falling_edge: true, ..self }
        } else if self.pace_count + 1 != self.sweep_pace {
            EnvelopeTimer { falling_edge: false, pace_count: (self.pace_count + 1) as u8, ..self }
        } else {
            EnvelopeTimer {
                falling_edge: false,
                pace_count: 0,
                value: if self.is_increasing && self.value != 0x0f {
                    (self.value + 1) as u8
                } else if !self.is_increasing && self.value != 0 {
                    (self.value - 1) as u8
                } else {
                    self.value
                },
                ..self
            }
        }
    }

    fn tick(&mut self, div: u8)
        requires
            old(self).wf(),
        ensures
            *final(self) == old(self).tick_spec(div),
            final(self).wf(),
    {
        // A setting of 0 disables the envelope.
        if self.sweep_pace == 0 {
            return;
        }
        // 64 Hz
        let has_ticked = div & 0x80 != 0;
        if self.falling_edge == has_ticked {
            return;
        }
        self.falling_edge = has_ticked;
        if self.falling_edge {
            return;
        }
        self.pace_count = self.pace_count + 1;
        if self.pace_count != self.sweep_pace {
            return;
        }
        self.pace_count = 0;
        if self.is_increasing && self.value != 0x0f {
            self.value = self.value + 1;
        } else if !self.is_increasing && self.value != 0 {
            self.value = self.value - 1;
        }
    }
}

/// A square wave channel.
#[derive(Clone, Copy)]
pub struct PulseChannel<S: Sweep> {
    pub length_timer_and_duty_cycle: u8,
    pub volume_and_envelope: u8,
    pub period_low: u8,
    pub period_high_and_control: u8,
    pub is_enabled: bool,
    pub sweep: S,
    pub length_timer: LengthTimer,
    pub envelope_timer: EnvelopeTimer,
}

impl<S: Sweep> PulseChannel<S> {
    pub open spec fn initial() -> PulseChannel<S> {
        PulseChannel {
            length_timer_and_duty_cycle: 0,
            volume_and_envelope: 0,
            period_low: 0,
            period_high_and_control: 0,
            is_enabled: false,
            sweep: S::initial_spec(),
            length_timer: LengthTimer { falling_edge: false, value: 0 },
            envelope_timer: EnvelopeTimer { falling_edge: false, value: 0, is_increasing: false, sweep_pace: 0, pace_count: 0 },
        }
    }

    pub open spec fn wf(self) -> bool {
        &&& self.sweep.inv()
        &&& self.envelope_timer.wf()
        &&& self.length_timer.value <= 64
        &&& self.is_enabled ==> self.length_timer.value < 64
    }

    pub open spec fn on(self) -> bool {
        self.volume_and_envelope & 0xf8 != 0 && self.is_enabled
    }

    pub open spec fn period(self) -> u16 {
        ((self.period_high_and_control as u16 & 0x07) << 8) | self.period_low as u16
    }

    /// Note the shift by four, not eight, of the period's high bits.
    pub open spec fn with_period(self, value: u16) -> PulseChannel<S> {
        PulseChannel {
            period_low: value as u8,
            period_high_and_control: (self.period_high_and_control & 0b11000000) | (((value >> 4) as u8) & 0x07),
            ..self
        }
    }

    pub open spec fn reloaded_envelope(self) -> EnvelopeTimer {
        EnvelopeTimer {
            is_increasing: self.volume_and_envelope & 0x08 != 0,
            value: (self.volume_and_envelope >> 4) & 0x0f,
            sweep_pace: self.volume_and_envelope & 0x07,
            pace_count: 0,
            ..self.envelope_timer
        }
    }

    pub open spec fn trigger_spec(self) -> PulseChannel<S> {
        let length_timer = if self.length_timer.value == 64 {
            LengthTimer { value: self.length_timer_and_duty_cycle & 0x3f, ..self.length_timer }
        } else {
            self.length_timer
        };
        let s = PulseChannel { is_enabled: true, length_timer, envelope_timer: self.reloaded_envelope(), ..self };
        let (sweep, new_period) = s.sweep.trigger_spec(s.period());
        let t = PulseChannel { sweep, ..s };
        match new_period {
            Some(p) => t.with_period(p),
            None => t,
        }
    }

    pub open spec fn write_nrx4_spec(self, value: u8) -> PulseChannel<S> {
        let s = PulseChannel { period_high_and_control: value, ..self };
        if value & 0x80 != 0 { s.trigger_spec() } else { s }
    }

    /// Must be called once per four dots with DIV.
    pub open spec fn tick_spec(self, div: u8) -> PulseChannel<S> {
        if !self.on() {
            self
        } else {
            let (sweep, (enabled_by_sweep, new_period)) = self.sweep.tick_spec(div);
            let s = PulseChannel { sweep, ..self };
            let s = match new_period {
                Some(p) => s.with_period(p),
                None => s,
            };
            let length_enabled = s.period_high_and_control & 0x40 != 0;
            let (length_timer, running) = if length_enabled {
                s.length_timer.tick_spec(div)
            } else {
                (s.length_timer, true)
            };
            PulseChannel {
                length_timer,
                is_enabled: enabled_by_sweep && running,
                envelope_timer: s.envelope_timer.tick_spec(div),
                ..s
            }
        }
    }

    pub fn new() -> (r: Self)
        ensures
            r == Self::initial(),
            r.wf(),
    {
        PulseChannel {
            length_timer_and_duty_cycle: 0,
            volume_and_envelope: 0,
            period_low: 0,
            period_high_and_control: 0,
            is_enabled: false,
            sweep: S::initial(),
            length_timer: LengthTimer { falling_edge: false, value: 0 },
            envelope_timer: EnvelopeTimer { falling_edge: false, value: 0, is_increasing: false, sweep_pace: 0, pace_count: 0 },
        }
    }

    pub fn get_nrx1(&self) -> (r: u8)
        ensures
            r == self.length_timer_and_duty_cycle | 0b00111111,
    {
        self.length_timer_and_duty_cycle | 0b00111111
    }

    pub fn write_nrx1(&mut self, value: u8)
        ensures
            *final(self) == (PulseChannel { length_timer_and_duty_cycle: value, ..*old(self) }),
    {
        self.length_timer_and_duty_cycle = value;
    }

    pub fn get_nrx2(&self) -> (r: u8)
        ensures
            r == self.volume_and_envelope,
    {
        self.volume_and_envelope
    }

    pub fn write_nrx2(&mut self, value: u8)
        ensures
            *final(self) == (PulseChannel { volume_and_envelope: value, ..*old(self) }),
    {
        self.volume_and_envelope = value;
    }

    pub fn get_nrx3(&self) -> (r: u8)
        ensures
            r == 0xff,
    {
        0xff
    }

    pub fn write_nrx3(&mut self, value: u8)
        ensures
            *final(self) == (PulseChannel { period_low: value, ..*old(self) }),
    {
        self.period_low = value;
    }

    pub fn get_nrx4(&self) -> (r: u8)
        ensures
            r == self.period_high_and_control | 0b10111111,
    {
        self.period_high_and_control | 0b10111111
    }

    pub fn write_nrx4(&mut self, value: u8)
        requires
            old(self).wf(),
        ensures
            final(self).wf(),
            *final(self) == old(self).write_nrx4_spec(value),
    {
        self.set_period_high_and_control(value);
    }

    fn set_period_high_and_control(&mut self, value: u8)
        requires
            old(self).wf(),
        ensures
            final(self).wf(),
            *final(self) == old(self).write_nrx4_spec(value),
    {
        self.period_high_and_control = value;
        if value & 0x80 != 0 {
            self.trigger();
        }
    }

    fn trigger(&mut self)
        requires
            old(self).wf(),
        ensures
            final(self).wf(),
            *final(self) == old(self).trigger_spec(),
    {
        self.is_enabled = true;
        if self.length_timer.is_expired() {
            let v = self.length_timer_and_duty_cycle;
            proof {
                crate::bits::lemma_u8_and_bound(v, 0x3f);
            }
            self.length_timer.reload(v & 0x3f);
        }
        self.reload_envelope_timer();
        let period = self.get_period_value();
        if let Some(new_period) = self.sweep.trigger(period) {
            self.set_period_value(new_period);
        }
    }

    pub fn is_on(&self) -> (r: bool)
        ensures
            r == self.on(),
    {
        self.is_dac_on() && self.is_enabled
    }

    /// https://gbdev.io/pandocs/Audio_details.html#dacs
    fn is_dac_on(&self) -> (r: bool)
        ensures
            r == (self.volume_and_envelope & 0xf8 != 0),
    {
        self.volume_and_envelope & 0xf8 != 0
    }

    fn reload_envelope_timer(&mut self)
        ensures
            *final(self) == (PulseChannel { envelope_timer: old(self).reloaded_envelope(), ..*old(self) }),
            final(self).envelope_timer.wf(),
    {
        let v = self.volume_and_envelope;
        proof {
            crate::bits::lemma_u8_and_bound(v >> 4u8, 0x0f);
            crate::bits::lemma_u8_and_bound(v, 0x07);
        }
        self.envelope_timer.is_increasing = v & 0x08 != 0;
        self.envelope_timer.value = (v >> 4) & 0x0f;
        self.envelope_timer.sweep_pace = v & 0x07;
        self.envelope_timer.pace_count = 0;
    }

    fn is_length_enable(&self) -> (r: bool)
        ensures
            r == (self.period_high_and_control & 0x40 != 0),
    {
        self.period_high_and_control & 0x40 != 0
    }

    /// Must be called at 1048576 Hz (once per four dots).
    pub fn tick(&mut self, div: u8)
        requires
            old(self).wf(),
        ensures
            final(self).wf(),
            *final(self) == old(self).tick_spec(div),
    {
        if !self.is_on() {
            return;
        }
        let (is_enabled_from_sweep, new_period) = self.sweep.tick(div);
        if let Some(period) = new_period {
            self.set_period_value(period);
        }
        let running = if self.is_length_enable() { self.length_timer.tick(div) } else { true };
        self.is_enabled = is_enabled_from_sweep && running;
        self.envelope_timer.tick(div);
    }

    fn get_period_value(&self) -> (r: u16)
        ensures
            r == self.period(),
            r <= 0x7ff,
    {
        let high = self.period_high_and_control as u16;
        let low = self.period_low as u16;
        assert(((high & 0x07) << 8) | low <= 0x7ff) by (bit_vector)
            requires
                low < 256,
        ;
        ((high & 0x07) << 8) | low
    }

    fn set_period_value(&mut self, value: u16)
        ensures
            *final(self) == old(self).with_period(value),
    {
        self.period_low = value as u8;
        self.period_high_and_control = self.period_high_and_control & 0b11000000 | ((value >> 4) as u8) & 0x07;
    }

    pub fn get_duty_cycle(&self) -> (r: u8)
        ensures
            r == (self.length_timer_and_duty_cycle >> 6) & 0x3,
    {
        (self.length_timer_and_duty_cycle >> 6) & 0x3
    }

    /// The period the tone plays at, 131072 / (2048 - period) Hz: the sweep's while it is
    /// active, else the channel's own.
    pub fn get_tone_period(&self) -> (r: u16)
        ensures
            r == match self.sweep.period_spec() {
                Some(p) => p,
                None => self.period(),
            },
    {
        match self.sweep.get_period_value() {
            Some(p) => p,
            None => self.get_period_value(),
        }
    }
}

impl PulseChannel<Ch1Sweep> {
    /// Citation: if 0 is written to the pace field, iterations are instantly disabled, and
    /// it is reloaded as soon as it is set to something else.
    pub open spec fn write_nr10_spec(self, value: u8) -> PulseChannel<Ch1Sweep> {
        let new_pace = (value >> 4) & 0x07;
        let pace = if new_pace == 0 || (self.sweep.nr10 >> 4) & 0x07 == 0 { new_pace } else { self.sweep.pace };
        PulseChannel { sweep: Ch1Sweep { pace, nr10: value, ..self.sweep }, ..self }
    }

    pub fn get_nr10(&self) -> (r: u8)
        ensures
            r == self.sweep.nr10 | 0x80,
    {
        self.sweep.nr10 | 0x80
    }

    pub fn write_nr10(&mut self, value: u8)
        ensures
            *final(self) == old(self).write_nr10_spec(value),
    {
        let new_pace = (value >> 4) & 0x07;
        if new_pace == 0 {
            self.sweep.pace = new_pace;
        }
        if (self.sweep.nr10 >> 4) & 0x07 == 0 {
            self.sweep.pace = new_pace;
        }
        self.sweep.nr10 = value;
    }
}

/// The APU: two pulse channels, panning and master volume.
#[derive(Clone, Copy)]
pub struct Apu {
    pub is_on: bool,
    pub nr51: u8,
    pub nr50: u8,
    pub ch1: PulseChannel<Ch1Sweep>,
    pub ch2: PulseChannel<()>,
}

impl Default for Apu {
    fn default() -> (r: Self)
        ensures
            r == Apu::initial(),
            r.wf(),
    {
        Apu { is_on: false, nr51: 0, nr50: 0, ch1: PulseChannel::new(), ch2: PulseChannel::new() }
    }
}

impl Apu {
    pub open spec fn initial() -> Apu {
        Apu {
            is_on: false,
            nr51: 0,
            nr50: 0,
            ch1: PulseChannel::<Ch1Sweep>::initial(),
            ch2: PulseChannel::<()>::initial(),
        }
    }

    pub open spec fn wf(self) -> bool {
        self.ch1.wf() && self.ch2.wf()
    }

    /// Channels 3 and 4 do not exist in this model and always read as off.
    pub open spec fn nr52(self) -> u8 {
        flag(self.is_on, 0x80) | flag(false, 0x08) | flag(false, 0x04) | flag(self.ch2.on(), 0x02) | flag(
            self.ch1.on(),
            0x01,
        ) | 0b01110000
    }

    pub fn get_nr52(&self) -> (r: u8)
        ensures
            r == self.nr52(),
    {
        let on: u8 = if self.is_on { 0x80 } else { 0 };
        let ch4: u8 = if self.is_ch4_on() { 0x08 } else { 0 };
        let ch3: u8 = if self.is_ch3_on() { 0x04 } else { 0 };
        let ch2: u8 = if self.is_ch2_on() { 0x02 } else { 0 };
        let ch1: u8 = if self.is_ch1_on() { 0x01 } else { 0 };
        on | ch4 | ch3 | ch2 | ch1 | 0b01110000
    }

    /// Switching audio off returns every register to its power-on value.
    pub fn write_nr52(&mut self, value: u8)
        ensures
            *final(self) == (if (value & 0x80 != 0) == old(self).is_on {
                *old(self)
            } else if value & 0x80 != 0 {
                Apu { is_on: true, ..*old(self) }
            } else {
                Apu::initial()
            }),
            old(self).wf() ==> final(self).wf(),
    {
        let is_on = value & 0x80 != 0;
        if self.is_on == is_on {
            return;
        }
        self.is_on = is_on;
        if !self.is_on {
            *self = Apu::default();
        }
    }

    pub fn get_nr51(&self) -> (r: u8)
        ensures
            r == self.nr51,
    {
        self.nr51
    }

    pub fn write_nr51(&mut self, value: u8)
        ensures
            *final(self) == (Apu { nr51: value, ..*old(self) }),
    {
        self.nr51 = value;
    }

    pub fn get_nr50(&self) -> (r: u8)
        ensures
            r == self.nr50,
    {
        self.nr50
    }

    pub fn write_nr50(&mut self, value: u8)
        ensures
            *final(self) == (Apu { nr50: value, ..*old(self) }),
    {
        self.nr50 = value;
    }

    fn is_ch1_on(&self) -> (r: bool)
        ensures
            r == self.ch1.on(),
    {
        self.ch1.is_on()
    }

    fn is_ch2_on(&self) -> (r: bool)
        ensures
            r == self.ch2.on(),
    {
        self.ch2.is_on()
    }

    fn is_ch3_on(&self) -> (r: bool)
        ensures
            !r,
    {
        false
    }

    fn is_ch4_on(&self) -> (r: bool)
        ensures
            !r,
    {
        false
    }

    pub fn execute(&mut self, div: u8)
        requires
            old(self).wf(),
        ensures
            final(self).wf(),
            *final(self) == (if old(self).is_on {
                Apu { ch1: old(self).ch1.tick_spec(div), ch2: old(self).ch2.tick_spec(div), ..*old(self) }
            } else {
                *old(self)
            }),
    {
        if !self.is_on {
            return;
        }
        self.ch1.tick(div);
        self.ch2.tick(div);
    }
}

} // verus!
