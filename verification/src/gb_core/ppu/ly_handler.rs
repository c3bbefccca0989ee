//! LY and the LY=LYC comparison, as "The cycle accurate gameboy docs" describe them on the DMG:
//! LY is 153 only during the first M-cycle of line 153 and 0 after it, and the comparison is
//! off during the first M-cycle of each line (but line 0) and the third M-cycle of line 153.
use vstd::prelude::*;

use crate::gb_core::ic::Ints;
use crate::gb_core::state::{State, LYC_EQUAL_TO_LY, LYC_INT};
use crate::gb_core::StateMachine;
use crate::gebeh_core::interrupts::Interrupts;

verus! {

pub const LINE_DURATION_M_CYCLE: u8 = 114;

#[derive(Clone)]
pub struct LyHandler {
    /// The line being scanned, 0 to 153; LY leaves line 153 early.
    pub logical_ly: u8,
    /// M-cycles elapsed in the line, 0 to 114.
    pub clock_count_in_line: u8,
    /// LY as the comparison sees it, one step late.
    pub delayed_ly: u8,
    /// Whether the LYC interrupt was raised for `delayed_ly`.
    pub already_checked: bool,
}

/// Whether the LY=LYC comparison is off at this point of the line.
pub open spec fn ly_check_disabled(logical_ly: u8, clock_count_in_line: u8) -> bool {
    logical_ly > 0 && clock_count_in_line == 0 || logical_ly == 153 && clock_count_in_line == 2
}

/// LY as the line counter gives it: the line itself, but 0 from the second M-cycle of line 153.
pub open spec fn ly_of_line(logical_ly: u8, clock_count_in_line: u8) -> u8 {
    if logical_ly == 153 && clock_count_in_line >= 2 { 0 } else { logical_ly }
}

impl Default for LyHandler {
    fn default() -> (r: Self)
        ensures
            r.logical_ly == 0 && r.clock_count_in_line == 0 && r.delayed_ly == 0 && !r.already_checked,
    {
        LyHandler { logical_ly: 0, clock_count_in_line: 0, delayed_ly: 0, already_checked: false }
    }
}

impl LyHandler {
    fn is_ly_check_disabled(&self) -> (r: bool)
        ensures
            r == ly_check_disabled(self.logical_ly, self.clock_count_in_line),
    {
        self.logical_ly > 0 && self.clock_count_in_line == 0
            || self.logical_ly == 153 && self.clock_count_in_line == 2
    }

    /// The handler's line counters and LY after the line logic of one step.
    pub open spec fn advanced(self, ly: u8) -> (LyHandler, u8) {
        if self.clock_count_in_line == LINE_DURATION_M_CYCLE {
            (
                LyHandler {
                    clock_count_in_line: 0,
                    logical_ly: ((self.logical_ly + 1) % 154) as u8,
                    ..self
                },
                if self.logical_ly != 153 { (ly + 1) as u8 } else { ly },
            )
        } else if self.clock_count_in_line == 1 && ly == 153 {
            (self, 0)
        } else {
            (self, ly)
        }
    }

    /// One M-cycle: the line logic, then the LY=LYC comparison on the delayed LY.
    pub open spec fn step_spec(self, s: State) -> (LyHandler, State) {
        let (h, ly) = self.advanced(s.ly);
        let equal = s.lyc == h.delayed_ly && !ly_check_disabled(h.logical_ly, h.clock_count_in_line);
        let raise = equal && !h.already_checked && s.lcd_status & LYC_INT != 0;
        let interrupt_flag = if raise { Interrupts(s.interrupt_flag.0 | 0x02) } else { s.interrupt_flag };
        let checked = h.already_checked || raise;
        let lcd_status = if equal { s.lcd_status | LYC_EQUAL_TO_LY } else { s.lcd_status & !LYC_EQUAL_TO_LY };
        let (delayed_ly, already_checked) = if ly != h.delayed_ly { (ly, false) } else { (h.delayed_ly, checked) };
        (
            LyHandler {
                delayed_ly,
                already_checked,
                clock_count_in_line: (h.clock_count_in_line + 1) as u8,
                ..h
            },
            State { ly, interrupt_flag, lcd_status, ..s },
        )
    }
}

impl StateMachine for LyHandler {
    open spec fn wf(&self) -> bool {
        self.clock_count_in_line <= LINE_DURATION_M_CYCLE && self.logical_ly < 154
    }

    /// LY must not wrap when a line ends.
    open spec fn can_step(&self, state: State) -> bool {
        self.clock_count_in_line == LINE_DURATION_M_CYCLE && self.logical_ly != 153 ==> state.ly < 255
    }

    open spec fn step(&self, state: State) -> (Self, State) {
        self.step_spec(state)
    }

    fn execute(&mut self, state: &mut State, cycle_count: u64) {
        if self.clock_count_in_line == LINE_DURATION_M_CYCLE {
            self.clock_count_in_line = 0;
            if self.logical_ly != 153 {
                state.ly = state.ly + 1;
            }
            self.logical_ly = (self.logical_ly + 1) % 154;
        } else if self.clock_count_in_line == 1 && state.ly == 153 {
            state.ly = 0;
        }
        if state.lyc == self.delayed_ly && !self.is_ly_check_disabled() {
            if !self.already_checked && state.lcd_status & LYC_INT != 0 {
                state.interrupt_flag.insert(Ints::lcd());
                self.already_checked = true;
            }
            state.lcd_status = state.lcd_status | LYC_EQUAL_TO_LY;
        } else {
            state.lcd_status = state.lcd_status & !LYC_EQUAL_TO_LY;
        }
        if state.ly != self.delayed_ly {
            self.delayed_ly = state.ly;
            self.already_checked = false;
        }
        self.clock_count_in_line = self.clock_count_in_line + 1;
    }
}

/// LY always equals what the line counter gives, so it never leaves 0..=153 and a step from
/// such a state is always allowed.
pub proof fn lemma_ly_follows_line(h: LyHandler, s: State)
    requires
        h.wf(),
        s.ly == ly_of_line(h.logical_ly, h.clock_count_in_line),
    ensures
        h.can_step(s),
        h.step(s).0.wf(),
        h.step(s).1.ly == ly_of_line(h.step(s).0.logical_ly, h.step(s).0.clock_count_in_line),
{
}

/// A line lasts 114 M-cycles: the line counter moves on exactly on the step that follows the
/// 114th, and otherwise only the cycle count moves.
pub proof fn lemma_line_duration(h: LyHandler, s: State)
    requires
        h.wf(),
    ensures
        h.clock_count_in_line == LINE_DURATION_M_CYCLE ==> h.step(s).0.logical_ly == (h.logical_ly + 1) % 154
            && h.step(s).0.clock_count_in_line == 1,
        h.clock_count_in_line < LINE_DURATION_M_CYCLE ==> h.step(s).0.logical_ly == h.logical_ly
            && h.step(s).0.clock_count_in_line == h.clock_count_in_line + 1,
{
}

} // verus!
