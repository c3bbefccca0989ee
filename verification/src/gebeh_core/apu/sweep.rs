use vstd::prelude::*;

verus! {

/// Frequency sweep of channel 1 (NR10).
#[derive(Clone, Copy)]
pub struct Ch1Sweep {
    pub nr10: u8,
    /// Never zero: a pace of 0 counts as 8.
    pub pace_countdown: u8,
    pub period_value: u16,
    /// Set if either the sweep pace or the individual step is non-zero.
    pub is_enabled: bool,
}

/// According to blargg, the sweep timer treats a period of 0 as 8.
pub const DEFAULT_PACE_COUTDOWN: u8 = 8;

impl Default for Ch1Sweep {
    fn default() -> (r: Self)
        ensures
            r == Ch1Sweep::initial(),
    {
        Ch1Sweep { nr10: 0, pace_countdown: DEFAULT_PACE_COUTDOWN, period_value: 0, is_enabled: false }
    }
}

impl Ch1Sweep {
    pub open spec fn initial() -> Ch1Sweep {
        Ch1Sweep { nr10: 0, pace_countdown: 8, period_value: 0, is_enabled: false }
    }

    pub open spec fn decreasing(self) -> bool {
        self.nr10 & 0x08 != 0
    }

    pub open spec fn step(self) -> u8 {
        self.nr10 & 0x07
    }

    pub open spec fn pace_of(self) -> u8 {
        (self.nr10 >> 4) & 0x07
    }

    /// The pace countdown reloaded from NR10.
    pub open spec fn reloaded_countdown(self) -> u8 {
        if self.pace_of() == 0 { 8 } else { self.pace_of() }
    }

    /// The next period of the sweep, `None` when adding would exceed $7FF.
    pub open spec fn next_period(self) -> Option<u16> {
        let shifted = self.period_value >> self.step();
        if self.decreasing() {
            Some((self.period_value - shifted) as u16)
        } else if self.period_value + shifted > 0x7ff {
            None
        } else {
            Some((self.period_value + shifted) as u16)
        }
    }

    pub open spec fn wf(self) -> bool {
        self.pace_countdown != 0 && self.period_value <= 0x7ff
    }

    pub fn set_nr10(&mut self, value: u8)
        ensures
            *final(self) == (Ch1Sweep { nr10: value, ..*old(self) }),
    {
        self.nr10 = value;
    }

    pub fn get_nr10(&self) -> (r: u8)
        ensures
            r == self.nr10,
    {
        self.nr10
    }

    fn is_decreasing(&self) -> (r: bool)
        ensures
            r == self.decreasing(),
    {
        self.nr10 & 0x08 != 0
    }

    fn individual_step(&self) -> (r: u8)
        ensures
            r == self.step(),
            r < 8,
    {
        let v = self.nr10;
        proof {
            crate::bits::lemma_u8_and_bound(v, 0x07);
        }
        v & 0x07
    }

    fn pace(&self) -> (r: u8)
        ensures
            r == self.pace_of(),
    {
        (self.nr10 >> 4) & 0x07
    }

    fn compute_next_value_and_check_overflow(&self) -> (r: Option<u16>)
        requires
            self.period_value <= 0x7ff,
        ensures
            r == self.next_period(),
            r matches Some(p) ==> p <= 0x7ff,
    {
        let step = self.individual_step();
        let pv = self.period_value;
        assert(pv >> step <= pv) by (bit_vector);
        let shifted = pv >> step;
        if self.is_decreasing() {
            return Some(pv - shifted);
        }
        let new_period = pv + shifted;
        if new_period > 0x7ff {
            return None;
        }
        Some(new_period)
    }
}

/// The sweep unit of a pulse channel; the unit type stands for a channel without one.
pub trait Sweep: Sized {
    /// The state the unit is in after power-on.
    spec fn initial_spec() -> Self;

    /// The unit's internal invariant.
    spec fn inv(self) -> bool;

    /// The unit after a trigger with `period`, and whether the channel stays enabled.
    spec fn trigger_spec(self, period: u16) -> (Self, bool);

    /// The unit after a tick, whether the channel stays enabled, and a new period if any.
    spec fn tick_spec(self) -> (Self, (bool, Option<u16>));

    /// The period the sweep shadows, if the sweep is active.
    spec fn period_spec(self) -> Option<u16>;

    fn initial() -> (r: Self)
        ensures
            r == Self::initial_spec(),
            r.inv(),
    ;

    fn trigger(&mut self, period: u16) -> (r: bool)
        requires
            old(self).inv(),
            period <= 0x7ff,
        ensures
            (*final(self), r) == old(self).trigger_spec(period),
            final(self).inv(),
    ;

    fn tick(&mut self) -> (r: (bool, Option<u16>))
        requires
            old(self).inv(),
        ensures
            (*final(self), r) == old(self).tick_spec(),
            final(self).inv(),
            r.1 matches Some(p) ==> p <= 0x7ff,
    ;

    fn get_period_value(&self) -> (r: Option<u16>)
        requires
            self.inv(),
        ensures
            r == self.period_spec(),
            r matches Some(p) ==> p <= 0x7ff,
    ;
}

impl Sweep for Ch1Sweep {
    open spec fn initial_spec() -> Self {
        Ch1Sweep::initial()
    }

    open spec fn inv(self) -> bool {
        self.wf()
    }

    /// Citation: If the individual step is non-zero, frequency calculation and overflow
    /// check are performed immediately.
    open spec fn trigger_spec(self, period: u16) -> (Self, bool) {
        let s = Ch1Sweep {
            period_value: period,
            pace_countdown: self.reloaded_countdown(),
            is_enabled: self.pace_of() != 0 || self.step() != 0,
            ..self
        };
        (s, s.step() == 0 || s.next_period() is Some)
    }

    open spec fn tick_spec(self) -> (Self, (bool, Option<u16>)) {
        if !self.is_enabled {
            (self, (true, None))
        } else if self.pace_countdown > 1 {
            (Ch1Sweep { pace_countdown: (self.pace_countdown - 1) as u8, ..self }, (true, None))
        } else {
            let reloaded = Ch1Sweep { pace_countdown: self.reloaded_countdown(), ..self };
            if self.pace_of() == 0 {
                (reloaded, (true, None))
            } else {
                match reloaded.next_period() {
                    None => (reloaded, (false, None)),
                    Some(p) => if self.step() == 0 {
                        (reloaded, (true, None))
                    } else {
                        let updated = Ch1Sweep { period_value: p, ..reloaded };
                        (updated, (updated.next_period() is Some, Some(p)))
                    },
                }
            }
        }
    }

    open spec fn period_spec(self) -> Option<u16> {
        if self.pace_of() == 0 && self.step() == 0 {
            None
        } else {
            Some(self.period_value)
        }
    }

    fn initial() -> (r: Self) {
        Ch1Sweep::default()
    }

    fn trigger(&mut self, period: u16) -> (r: bool) {
        self.period_value = period;
        let pace = self.pace();
        self.pace_countdown = if pace == 0 { DEFAULT_PACE_COUTDOWN } else { pace };
        self.is_enabled = pace != 0 || self.individual_step() != 0;
        self.individual_step() == 0 || self.compute_next_value_and_check_overflow().is_some()
    }

    fn tick(&mut self) -> (r: (bool, Option<u16>)) {
        if !self.is_enabled {
            return (true, None);
        }
        if self.pace_countdown > 1 {
            self.pace_countdown = self.pace_countdown - 1;
            return (true, None);
        }
        // Citation: the value written to this field is not re-read by the hardware
        // until a sweep iteration completes
        let pace = self.pace();
        self.pace_countdown = if pace == 0 { DEFAULT_PACE_COUTDOWN } else { pace };
        if pace == 0 {
            return (true, None);
        }
        // Citation: In addition mode, if the period value would overflow, the channel is
        // turned off instead.
        let new_period_value = match self.compute_next_value_and_check_overflow() {
            Some(p) => p,
            None => {
                return (false, None);
            },
        };
        // Citation: If the new frequency is 2047 or less and the individual step is not
        // zero, this new frequency is written back to the shadow register
        if self.individual_step() == 0 {
            return (true, None);
        }
        self.period_value = new_period_value;
        // Citation: then frequency calculation and overflow check are run again
        // immediately using this new value, but this second new frequency is not written back
        (self.compute_next_value_and_check_overflow().is_some(), Some(new_period_value))
    }

    fn get_period_value(&self) -> (r: Option<u16>) {
        if self.pace() == 0 && self.individual_step() == 0 {
            None
        } else {
            Some(self.period_value)
        }
    }
}

/// The sweep iteration of channel 1, read off NR10 itself: with bit 3 clear the period rises
/// by `period >> step` and an overflow past $7FF turns the channel off; with bit 3 set it falls
/// by the same amount. Here the pace countdown has run out, the pace (bits 4-6) and the step
/// (bits 0-2) are non-zero, and the sweep is enabled.
/// https://gbdev.io/pandocs/Audio_Registers.html#ff10--nr10-channel-1-sweep
pub proof fn lemma_sweep_direction(s: Ch1Sweep)
    requires
        s.wf(),
        s.is_enabled,
        s.pace_countdown <= 1,
        (s.nr10 >> 4) & 0x07 != 0,
        s.nr10 & 0x07 != 0,
    ensures
        s.nr10 & 0x08 == 0 ==> s.tick_spec().1.1 == (if s.period_value + (s.period_value >> (s.nr10 & 0x07))
            <= 0x7ff {
            Some((s.period_value + (s.period_value >> (s.nr10 & 0x07))) as u16)
        } else {
            None::<u16>
        }),
        s.nr10 & 0x08 == 0 && s.period_value + (s.period_value >> (s.nr10 & 0x07)) > 0x7ff ==> !s.tick_spec().1.0,
        s.nr10 & 0x08 != 0 ==> s.tick_spec().1.1 == Some((s.period_value - (s.period_value >> (s.nr10 & 0x07))) as u16),
        s.tick_spec().1.1 matches Some(p) ==> s.tick_spec().0.period_value == p,
{
}

/// On a trigger with a non-zero step, the channel stays on unless the first addition would
/// pass $7FF: in subtraction mode (NR10 bit 3 set) it always stays on.
pub proof fn lemma_sweep_trigger_overflow(s: Ch1Sweep, period: u16)
    requires
        period <= 0x7ff,
    ensures
        s.trigger_spec(period).1 == (s.nr10 & 0x07 == 0 || s.nr10 & 0x08 != 0 || period + (period >> (s.nr10
            & 0x07)) <= 0x7ff),
        s.trigger_spec(period).0.period_value == period,
        s.trigger_spec(period).0.is_enabled == ((s.nr10 >> 4) & 0x07 != 0 || s.nr10 & 0x07 != 0),
        s.trigger_spec(period).0.pace_countdown == (if (s.nr10 >> 4) & 0x07 == 0 {
            8
        } else {
            (s.nr10 >> 4) & 0x07
        }),
{
}

/// The sweep clock: a disabled sweep ignores it; otherwise it counts the pace down, and when the
/// count runs out it reloads it from NR10 bits 4-6 (0 counting as 8), and with a pace of 0 changes
/// nothing else. A clock that reports no new period keeps the period.
pub proof fn lemma_sweep_pace(s: Ch1Sweep)
    ensures
        !s.is_enabled ==> s.tick_spec() == (s, (true, None::<u16>)),
        s.is_enabled && s.pace_countdown > 1 ==> s.tick_spec() == (Ch1Sweep {
            pace_countdown: (s.pace_countdown - 1) as u8,
            ..s
        }, (true, None::<u16>)),
        s.is_enabled && s.pace_countdown <= 1 ==> s.tick_spec().0.pace_countdown == (if (s.nr10 >> 4) & 0x07
            == 0 {
            8
        } else {
            (s.nr10 >> 4) & 0x07
        }),
        s.is_enabled && s.pace_countdown <= 1 && (s.nr10 >> 4) & 0x07 == 0 ==> s.tick_spec().1 == (
            true,
            None::<u16>,
        ),
        s.tick_spec().1.1 is None ==> s.tick_spec().0.period_value == s.period_value,
{
}

impl Sweep for () {
    open spec fn initial_spec() -> Self {
        ()
    }

    open spec fn inv(self) -> bool {
        true
    }

    open spec fn trigger_spec(self, period: u16) -> (Self, bool) {
        ((), true)
    }

    open spec fn tick_spec(self) -> (Self, (bool, Option<u16>)) {
        ((), (true, None))
    }

    open spec fn period_spec(self) -> Option<u16> {
        None
    }

    fn initial() -> (r: Self) {
        ()
    }

    fn trigger(&mut self, period: u16) -> (r: bool) {
        true
    }

    fn tick(&mut self) -> (r: (bool, Option<u16>)) {
        (true, None)
    }

    fn get_period_value(&self) -> (r: Option<u16>) {
        None
    }
}

} // verus!
