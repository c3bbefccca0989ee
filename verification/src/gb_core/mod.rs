//! A DMG core driven by state machines over one shared `State`.
use vstd::prelude::*;

use crate::gb_core::cpu::cycle::{cpu_can_step, cpu_cycle, queued};
use crate::gb_core::cpu::Cpu;
use crate::gb_core::instructions::{Instruction, NoReadInstruction};
use crate::gb_core::dma::Dma;
use crate::gb_core::ppu::{ppu_initial, LyHandler, Ppu, Speeder};
use crate::gb_core::state::{dmg_boot_bytes, State};
use crate::gb_core::timer::Timer;

pub mod array_vec;
pub mod cartridge;
pub mod cpu;
pub mod dma;
pub mod ic;
pub mod instructions;
pub mod mbc;
pub mod ppu;
pub mod state;
pub mod timer;

verus! {

/// A component that advances by one step of its clock against the shared state.
pub trait StateMachine: Sized {
    /// The component's own invariant.
    spec fn wf(&self) -> bool;

    /// Whether a step from `state` stays within what the component may touch.
    spec fn can_step(&self, state: State) -> bool;

    /// The component and the state after one step.
    spec fn step(&self, state: State) -> (Self, State);

    fn execute(&mut self, state: &mut State, cycle_count: u64)
        requires
            old(self).wf(),
            old(self).can_step(*old(state)),
        ensures
            final(self).wf(),
            (*final(self), *final(state)) == old(self).step(*old(state)),
    ;
}

pub const WIDTH: u8 = 160;

pub const HEIGHT: u8 = 144;

/// The ROM size in units of 32 KiB, from header byte $0148.
pub fn get_factor_32_kib_rom(rom: &[u8]) -> (r: u16)
    requires
        rom@.len() > 0x148,
        rom@[0x148] < 16,
    ensures
        r == crate::gebeh_core::mbc::rom_factor(rom@[0x148]),
{
    1u16 << rom[0x148]
}

/// https://gbdev.io/pandocs/The_Cartridge_Header.html#0149--ram-size
pub fn get_factor_8_kib_ram(rom: &[u8]) -> (r: u8)
    requires
        rom@.len() > 0x149,
        crate::gebeh_core::mbc::valid_ram_code(rom@[0x149]),
    ensures
        r == crate::gebeh_core::mbc::ram_factor(rom@[0x149]),
{
    match rom[0x149] {
        0 => 0,
        2 => 1,
        3 => 4,
        4 => 16,
        _ => 8,
    }
}


/// The machines of the console, each run once per M-cycle against the shared state, in the
/// order DMA, LY, PPU (four dots), timer, CPU. The cartridge they see is the bank-less ROM held
/// in `State::mbc`; no bank controller of `gebeh_core::mbc` takes part in a cycle.
pub struct Emulator {
    pub ly_handler: LyHandler,
    pub ppu: Speeder<Ppu>,
    pub dma: Dma,
    pub cpu: Cpu,
    pub state: State,
}

/// The state as each machine leaves it during an M-cycle: after the DMA, after LY, after the
/// PPU and after the timer.
pub open spec fn emulator_states(e: Emulator) -> (State, State, State, State) {
    let s1 = e.dma.step(e.state).1;
    let s2 = e.ly_handler.step(s1).1;
    let s3 = e.ppu.step(s2).1;
    let s4 = Timer.step(s3).1;
    (s1, s2, s3, s4)
}

impl Emulator {
    /// The machines' own invariants.
    pub open spec fn wf(self) -> bool {
        self.dma.wf() && self.ly_handler.wf() && self.ppu.wf()
    }

    /// Whether each machine can run its step of the M-cycle.
    pub open spec fn can_step(self) -> bool {
        let s = emulator_states(self);
        &&& self.dma.can_step(self.state)
        &&& self.ly_handler.can_step(s.0)
        &&& self.ppu.can_step(s.1)
        &&& Timer.can_step(s.2)
        &&& cpu_can_step(self.cpu, s.3)
    }

    /// The console at power-on with the cartridge ROM `rom`: the boot ROM mapped, the PPU at the
    /// start of a frame, four dots per M-cycle.
    pub fn new(rom: &[u8]) -> (r: Emulator)
        ensures
            r.wf(),
            r.dma.start == 0 && r.dma.end == 0,
            r.ly_handler.logical_ly == 0 && r.ly_handler.clock_count_in_line == 0,
            r.ppu.0 == ppu_initial() && r.ppu.1 == 4,
            r.cpu.pc == 0 && queued(r.cpu) == seq![Instruction::NoRead(NoReadInstruction::Nop)],
            r.state.mbc@ == rom@,
            r.state.boot_rom@ == dmg_boot_bytes(),
            r.state.boot_rom_mapping_control == 0,
    {
        Emulator {
            ly_handler: LyHandler::default(),
            ppu: Speeder(Ppu::default(), 4),
            dma: Dma::default(),
            cpu: Cpu::default(),
            state: State::new(rom),
        }
    }

    pub fn get_ppu(&self) -> (r: &Ppu)
        ensures
            *r == self.ppu.0,
    {
        &self.ppu.0
    }

    pub fn get_cpu(&self) -> (r: &Cpu)
        ensures
            *r == self.cpu,
    {
        &self.cpu
    }

    /// One M-cycle: the DMA, LY, the PPU, the timer and the CPU each take their step in turn.
    pub fn execute(&mut self, cycle_count: u64)
        requires
            old(self).wf(),
            old(self).can_step(),
        ensures
            final(self).wf(),
            final(self).dma == old(self).dma.step(old(self).state).0,
            final(self).ly_handler == old(self).ly_handler.step(emulator_states(*old(self)).0).0,
            final(self).ppu == old(self).ppu.step(emulator_states(*old(self)).1).0,
            cpu_cycle(old(self).cpu, emulator_states(*old(self)).3, final(self).cpu, final(self).state),
    {
        self.dma.execute(&mut self.state, cycle_count);
        self.ly_handler.execute(&mut self.state, cycle_count);
        self.ppu.execute(&mut self.state, cycle_count);
        let mut timer = Timer;
        timer.execute(&mut self.state, cycle_count);
        self.cpu.execute(&mut self.state, cycle_count);
    }
}

} // verus!
