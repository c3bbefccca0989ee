use vstd::prelude::*;

verus! {

pub const MASK_8_BITS: u8 = 0xff;

pub const MASK_6_BITS: u8 = 0x3f;

/// Length timer of a channel; `MASK` is the width of the initial length field.
#[derive(Clone, Copy)]
pub struct Length<const MASK: u8> {
    pub is_enabled: bool,
    /// `None` once the timer has run out.
    pub current_timer_value: Option<u8>,
}

impl<const MASK: u8> Default for Length<MASK> {
    fn default() -> (r: Self)
        ensures
            r == Length::<MASK>::initial(),
    {
        Length { is_enabled: false, current_timer_value: None }
    }
}

impl<const MASK: u8> Length<MASK> {
    pub open spec fn initial() -> Length<MASK> {
        Length { is_enabled: false, current_timer_value: None }
    }

    /// Clocking the timer: an enabled, running timer counts down and runs out after zero.
    /// The flag tells whether it ran out on this clock.
    pub open spec fn tick_spec(self) -> (Length<MASK>, bool) {
        match self.current_timer_value {
            Some(v) if self.is_enabled => if v == 0 {
                (Length { current_timer_value: None, ..self }, true)
            } else {
                (Length { current_timer_value: Some((v - 1) as u8), ..self }, false)
            },
            _ => (self, false),
        }
    }

    /// Setting the enable flag; enabling with `extra_clock` clocks the timer at once.
    pub open spec fn set_is_enabled_spec(self, is_enabled: bool, extra_clock: bool) -> (Length<MASK>, bool) {
        let enabled = Length { is_enabled, ..self };
        if !self.is_enabled && is_enabled && extra_clock {
            enabled.tick_spec()
        } else {
            (enabled, false)
        }
    }

    /// The timer after `n` clocks.
    pub open spec fn ticked(self, n: nat) -> Length<MASK>
        decreases n,
    {
        if n == 0 {
            self
        } else {
            self.ticked((n - 1) as nat).tick_spec().0
        }
    }

    pub open spec fn with_initial_length(self, value: u8) -> Length<MASK> {
        Length { current_timer_value: Some((MASK - (value & MASK)) as u8), ..self }
    }

    /// A trigger restarts a timer that ran out, at its longest length less one clock
    /// when `extra_clock` holds and the timer is enabled.
    pub open spec fn trigger_spec(self, extra_clock: bool) -> Length<MASK> {
        match self.current_timer_value {
            None => Length {
                current_timer_value: Some(
                    (if extra_clock && self.is_enabled {
                        MASK - 1
                    } else {
                        MASK as int
                    }) as u8,
                ),
                ..self
            },
            Some(_) => self,
        }
    }

    pub open spec fn reset_spec(self) -> Length<MASK> {
        Length { is_enabled: false, current_timer_value: self.current_timer_value }
    }

    /// Enables or disables the timer. Enabling it while `extra_clock` holds (the next
    /// frame-sequencer step does not clock lengths) clocks it once at once. Returns whether
    /// that clock made the timer run out. `ch` names the channel for diagnostics.
    pub fn set_is_enabled(&mut self, is_enabled: bool, ch: &str, extra_clock: bool) -> (r: bool)
        ensures
            (*final(self), r) == old(self).set_is_enabled_spec(is_enabled, extra_clock),
    {
        let previous_is_length_enabled = self.is_enabled;
        self.is_enabled = is_enabled;
        if !previous_is_length_enabled && self.is_enabled {
            if extra_clock {
                return self.tick();
            }
        }
        false
    }

    pub fn is_enabled(&self) -> (r: bool)
        ensures
            r == self.is_enabled,
    {
        self.is_enabled
    }

    /// Loads the counter with `MASK - (value & MASK)`; allowed at any time.
    pub fn set_initial_timer_length(&mut self, value: u8)
        ensures
            *final(self) == old(self).with_initial_length(value),
    {
        let mask: u8 = MASK;
        proof {
            crate::bits::lemma_u8_and_bound(value, mask);
        }
        self.current_timer_value = Some(mask - (value & mask));
    }

    pub fn trigger(&mut self, extra_clock: bool)
        requires
            MASK > 0,
        ensures
            *final(self) == old(self).trigger_spec(extra_clock),
    {
        if self.current_timer_value.is_none() {
            let mask: u8 = MASK;
            let extra: u8 = if extra_clock && self.is_enabled { 1 } else { 0 };
            self.current_timer_value = Some(mask - extra);
        }
    }

    /// Clocks the timer; returns whether it ran out on this clock.
    pub fn tick(&mut self) -> (r: bool)
        ensures
            (*final(self), r) == old(self).tick_spec(),
    {
        if !self.is_enabled {
            return false;
        }
        match self.current_timer_value {
            Some(v) => {
                self.current_timer_value = if v == 0 { None } else { Some(v - 1) };
                self.current_timer_value.is_none()
            },
            None => false,
        }
    }

    /// The timer after the APU is switched off: the count is kept, the enable bit cleared.
    pub fn reset(&self) -> (r: Self)
        ensures
            r == self.reset_spec(),
    {
        Length { is_enabled: false, current_timer_value: self.current_timer_value }
    }
}

/// An enabled timer holding `c` runs its count down by one per clock and has run out after
/// more than `c` clocks.
proof fn lemma_ticked<const MASK: u8>(l: Length<MASK>, c: u8, n: nat)
    requires
        l.is_enabled,
        l.current_timer_value == Some(c),
    ensures
        n <= c ==> l.ticked(n) == (Length::<MASK> { current_timer_value: Some((c - n) as u8), ..l }),
        n > c ==> l.ticked(n) == (Length::<MASK> { current_timer_value: None, ..l }),
    decreases n,
{
    if n > 0 {
        lemma_ticked(l, c, (n - 1) as nat);
    }
}

/// Once `set_initial_timer_length(v)` has loaded an enabled timer, the next `MASK - (v & MASK)`
/// clocks report nothing, the clock after them reports that the length ran out, and every later
/// clock reports nothing until the timer is loaded again.
pub proof fn lemma_length_expiry<const MASK: u8>(l: Length<MASK>, v: u8)
    requires
        l.is_enabled,
    ensures
        forall|k: nat| k < MASK - (v & MASK) ==> !(#[trigger] l.with_initial_length(v).ticked(k)).tick_spec().1,
        l.with_initial_length(v).ticked((MASK - (v & MASK)) as nat).tick_spec().1,
        forall|k: nat| k > MASK - (v & MASK) ==> !(#[trigger] l.with_initial_length(v).ticked(k)).tick_spec().1,
        forall|k: nat| (#[trigger] l.with_initial_length(v).ticked(k)).is_enabled,
{
    crate::bits::lemma_u8_and_bound(v, MASK);
    let s = l.with_initial_length(v);
    let c = (MASK - (v & MASK)) as u8;
    assert forall|k: nat| #[trigger] s.ticked(k) == (if k <= c {
        Length::<MASK> { current_timer_value: Some((c - k) as u8), ..s }
    } else {
        Length::<MASK> { current_timer_value: None, ..s }
    }) by {
        lemma_ticked(s, c, k);
    }
}

/// A disabled timer ignores its clock: it reports nothing and keeps its count.
pub proof fn lemma_length_disabled_tick<const MASK: u8>(l: Length<MASK>)
    requires
        !l.is_enabled,
    ensures
        l.tick_spec() == (l, false),
{
}

} // verus!
