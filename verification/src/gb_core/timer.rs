//! DIV and TIMA.
//!
//! A 14-bit system counter is incremented every M-cycle and DIV is its upper eight bits, so DIV
//! runs at 4.194304 MHz / 4 / 2^6 = 16384 Hz. TIMA is incremented on every multiple of the
//! period that TAC selects, and reloads from TMA with a timer interrupt when it overflows.
use vstd::prelude::*;

use crate::gb_core::ic::Ints;
use crate::gb_core::state::State;
use crate::gb_core::StateMachine;
use crate::gebeh_core::interrupts::Interrupts;

verus! {

/// The number of M-cycles between two increments of TIMA for the clock select bits of TAC.
pub open spec fn timer_period(timer_control: u8) -> u16 {
    let select = timer_control & 0b11;
    if select == 0 {
        256
    } else if select == 1 {
        4
    } else if select == 2 {
        16
    } else {
        64
    }
}

/// The state after one M-cycle of the timer.
pub open spec fn timer_step(s: State) -> State {
    let counter = (s.system_counter + 1) % 0x10000;
    let ticked = State { system_counter: counter as u16, ..s };
    if s.timer_control & 0b100 == 0 || counter % (timer_period(s.timer_control) as int) != 0 {
        ticked
    } else if s.timer_counter == 0xff {
        State {
            timer_counter: s.timer_modulo,
            interrupt_flag: Interrupts(s.interrupt_flag.0 | 0x04),
            ..ticked
        }
    } else {
        State { timer_counter: (s.timer_counter + 1) as u8, ..ticked }
    }
}

/// The rate at which TIMA counts for the clock select bits of TAC, in Hz.
/// https://gbdev.io/pandocs/Timer_and_Divider_Registers.html#ff07--tac-timer-control
pub open spec fn tima_frequency_hz(timer_control: u8) -> int {
    let select = timer_control & 0b11;
    if select == 0 {
        4096
    } else if select == 1 {
        262144
    } else if select == 2 {
        65536
    } else {
        16384
    }
}

/// The M-cycle rate: 4.194304 MHz / 4.
pub open spec fn m_cycle_hz() -> int {
    1048576
}

/// The period of TIMA in M-cycles gives the documented rates: 4096, 262144, 65536 and
/// 16384 Hz for clock selects 0 to 3.
pub proof fn lemma_timer_period_rates(timer_control: u8)
    ensures
        timer_period(timer_control) as int * tima_frequency_hz(timer_control) == m_cycle_hz(),
{
}

/// One M-cycle of an enabled timer: TIMA counts up exactly when the system counter reaches a
/// multiple of the M-cycle rate divided by the rate that TAC selects, and on overflow reloads
/// from TMA and requests the timer interrupt. A disabled timer leaves TIMA alone. DIV's system
/// counter always counts, wrapping at 16 bits.
pub proof fn lemma_tima_counts(s: State)
    ensures
        timer_step(s).system_counter == (s.system_counter + 1) % 0x10000,
        ({
            let due = ((s.system_counter + 1) % 0x10000) % (m_cycle_hz() / tima_frequency_hz(s.timer_control))
                == 0;
            &&& s.timer_control & 0b100 == 0 || !due ==> timer_step(s).timer_counter == s.timer_counter
                && timer_step(s).interrupt_flag == s.interrupt_flag
            &&& s.timer_control & 0b100 != 0 && due && s.timer_counter < 0xff ==> timer_step(s).timer_counter
                == s.timer_counter + 1 && timer_step(s).interrupt_flag == s.interrupt_flag
            &&& s.timer_control & 0b100 != 0 && due && s.timer_counter == 0xff ==> timer_step(s).timer_counter
                == s.timer_modulo && timer_step(s).interrupt_flag.0 == s.interrupt_flag.0 | 0x04
        }),
{
    lemma_timer_period_rates(s.timer_control);
}

#[derive(Clone)]
pub struct Timer;

impl Timer {
    fn period(timer_control: u8) -> (r: u16)
        ensures
            r == timer_period(timer_control),
    {
        let select = timer_control & 0b11;
        if select == 0 {
            256
        } else if select == 1 {
            4
        } else if select == 2 {
            16
        } else {
            64
        }
    }
}

impl StateMachine for Timer {
    open spec fn wf(&self) -> bool {
        true
    }

    open spec fn can_step(&self, state: State) -> bool {
        true
    }

    open spec fn step(&self, state: State) -> (Self, State) {
        (Timer, timer_step(state))
    }

    fn execute(&mut self, state: &mut State, cycle_count: u64) {
        let increment_frequency = Timer::period(state.timer_control);
        let tac = state.timer_control;
        proof {
            crate::bits::lemma_u8_low_bits(tac);
        }
        state.system_counter = state.system_counter.wrapping_add(1);
        if tac & 0b100 != 0b100 || state.system_counter % increment_frequency != 0 {
            return;
        }
        if state.timer_counter == 0xff {
            state.interrupt_flag.insert(Ints::timer());
            state.timer_counter = state.timer_modulo;
        } else {
            state.timer_counter = state.timer_counter + 1;
        }
    }
}

} // verus!
