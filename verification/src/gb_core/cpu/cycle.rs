//! One M-cycle of the CPU: taking the next micro-operation, fetching, reading, running.
use vstd::prelude::*;

use crate::gb_core::array_vec::{
    instruction_buffer_is_empty, instruction_buffer_pop, instruction_items,
};
use crate::gb_core::cpu::{Cpu, PcFetch, Prefetch, reg16, reg8, with_reg16};
use crate::gb_core::cpu::micro_op::{
    control_registers, op_queue, op_registers, op_runnable, op_write, op_write_served, write_address,
};
use crate::gb_core::ic::Ints;
use crate::gb_core::instructions::{
    AfterReadInstruction, Instruction, InstructionsAndSetPc, NoReadInstruction, OpAfterRead,
    Program, ReadAddress, Register16Bit, Register8Bit, get_instructions, is_illegal_opcode,
    micro_op_sound,
};
use crate::gb_core::state::{DataForWrite, MmuReadCpu, State};
use crate::gebeh_core::interrupts::Interrupts;

verus! {

/// The interrupts both requested (IF, as the CPU holds it) and enabled (IE).
pub open spec fn pending(c: Cpu, s: State) -> Ints {
    Interrupts((s.interrupt_enable.0 & 0x1f) & c.interrupt_flag.0)
}

/// The micro-operations queued, the next one last.
pub open spec fn queued(c: Cpu) -> Seq<Instruction> {
    instruction_items(c.instruction_register.0)
}

/// `c` has the registers and the prefetch of `m.0` and holds the micro-operations `m.1` (the
/// storage of the queue aside).
pub open spec fn holds(c: Cpu, m: (Cpu, Seq<Instruction>)) -> bool {
    &&& c == (Cpu { instruction_register: (c.instruction_register.0, m.0.instruction_register.1), ..m.0 })
    &&& queued(c) == m.1
}

/// The fetch that follows an instruction by default: interrupts checked, the opcode read at PC.
pub open spec fn default_prefetch() -> Prefetch {
    Prefetch { check_interrupts: true, set_pc: PcFetch::WithIncrement(Register16Bit::PC) }
}

/// Leaving HALT: a NOP is queued, during which the next opcode is fetched.
/// https://gbdev.io/pandocs/halt.html#halt
pub open spec fn woken(c: Cpu) -> (Cpu, Seq<Instruction>) {
    if c.is_halted {
        (
            Cpu { is_halted: false, instruction_register: (c.instruction_register.0, default_prefetch()), ..c },
            seq![Instruction::NoRead(NoReadInstruction::Nop)],
        )
    } else {
        (c, queued(c))
    }
}

/// What an interrupt dispatch queues after decrementing PC: two pushes of PC and the jump to
/// the vector (the last one runs first).
pub open spec fn dispatch_queue() -> Seq<Instruction> {
    seq![
        Instruction::NoRead(NoReadInstruction::Nop),
        Instruction::NoRead(NoReadInstruction::FinalStepInterruptDispatch),
        Instruction::NoRead(NoReadInstruction::WriteMsbOfRegisterWhereSpPointsAndDecSp(Register16Bit::PC)),
        Instruction::NoRead(NoReadInstruction::DecStackPointer),
    ]
}

/// The micro-operations of an opcode and the register the next fetch reads at (see
/// `instructions::decoded`).
#[verifier::opaque]
pub open spec fn decoded_program(opcode: u8, is_cb_mode: bool) -> (Program, Register16Bit) {
    crate::gb_core::instructions::decoded(opcode, is_cb_mode)
}

/// The next micro-operation: the last one queued; else the start of an interrupt dispatch
/// (which clears IME); else the first micro-operation of the opcode fetched, the others queued.
pub open spec fn taken(m: (Cpu, Seq<Instruction>)) -> ((Cpu, Seq<Instruction>), Instruction) {
    let c = m.0;
    let q = m.1;
    if q.len() > 0 {
        ((c, q.drop_last()), q.last())
    } else if c.is_dispatching_interrupt {
        (
            (
                Cpu { ime: false, instruction_register: (c.instruction_register.0, default_prefetch()), ..c },
                dispatch_queue(),
            ),
            Instruction::NoRead(NoReadInstruction::DecPc),
        )
    } else {
        let d = decoded_program(c.current_opcode, c.is_cb_mode);
        let prefetch = Prefetch { check_interrupts: true, set_pc: PcFetch::WithIncrement(d.1) };
        ((Cpu { is_cb_mode: false, instruction_register: (c.instruction_register.0, prefetch), ..c }, d.0.1), d.0.0)
    }
}

/// A byte as the CPU reads it: OAM reads $FF while a DMA is requested.
pub open spec fn cpu_read(s: State, address: u16) -> u8 {
    if s.dma_request && 0xfe00 <= address < 0xfea0 {
        0xff
    } else {
        s.read_spec(address)
    }
}

/// Whether the CPU can read at `address`.
pub open spec fn cpu_can_read(s: State, address: u16) -> bool {
    s.dma_request && 0xfe00 <= address < 0xfea0 || s.readable(address)
}

/// Where the next opcode is read.
pub open spec fn fetch_address(c: Cpu) -> u16 {
    match c.instruction_register.1.set_pc {
        PcFetch::WithIncrement(r) => reg16(c, r),
        PcFetch::NoIncrement => c.pc,
    }
}

/// Once the queue has run out, the next opcode is fetched while the last micro-operation runs,
/// and whether an interrupt is dispatched next is decided.
pub open spec fn fetched(m: (Cpu, Seq<Instruction>), s: State, ints: Ints) -> (Cpu, Seq<Instruction>) {
    let c = m.0;
    if m.1.len() == 0 {
        let address = fetch_address(c);
        (
            Cpu {
                is_dispatching_interrupt: c.ime && c.instruction_register.1.check_interrupts && ints.0 != 0,
                pc: match c.instruction_register.1.set_pc {
                    PcFetch::WithIncrement(_) => address.wrapping_add(1),
                    PcFetch::NoIncrement => c.pc,
                },
                current_opcode: cpu_read(s, address),
                ..c
            },
            m.1,
        )
    } else {
        m
    }
}

/// Where a micro-operation reads.
pub open spec fn read_address(c: Cpu, a: ReadAddress) -> u16 {
    match a {
        ReadAddress::Accumulator => 0xff00u16 | (c.lsb as u16),
        ReadAddress::Accumulator8Bit(r) => 0xff00u16 | (reg8(c, r) as u16),
        ReadAddress::Register { register, .. } => reg16(c, register),
    }
}

/// The CPU once a read has stepped its address register.
pub open spec fn address_stepped(c: Cpu, a: ReadAddress) -> Cpu {
    match a {
        ReadAddress::Register { register, op } => match op {
            OpAfterRead::Unchanged => c,
            OpAfterRead::Inc => with_reg16(c, register, reg16(c, register).wrapping_add(1)),
            OpAfterRead::Dec => with_reg16(c, register, reg16(c, register).wrapping_sub(1)),
        },
        _ => c,
    }
}

/// A micro-operation with its read done, and the CPU after the read.
pub open spec fn resolved(c: Cpu, s: State, inst: Instruction) -> (Cpu, AfterReadInstruction) {
    match inst {
        Instruction::NoRead(op) => (c, AfterReadInstruction::NoRead(op)),
        Instruction::Read(a, r) => (address_stepped(c, a), AfterReadInstruction::Read(cpu_read(s, read_address(c, a)), r)),
    }
}

/// A micro-operation run on `c`: the registers, the queue (replaced when a branch is taken) and
/// the state (written through the memory map, deciding on the state before the write).
pub open spec fn executed(c: Cpu, s: State, inst: AfterReadInstruction, ints: Ints) -> (
    (Cpu, Seq<Instruction>),
    State,
) {
    let regs = op_registers(c, inst, ints);
    let next = match op_queue(c, inst) {
        Some((items, prefetch)) => (Cpu { instruction_register: (c.instruction_register.0, prefetch), ..regs }, items),
        None => (Cpu { instruction_register: c.instruction_register, ..regs }, queued(c)),
    };
    let data = DataForWrite { dma_request: s.dma_request, lcd_status: s.lcd_status };
    let after = match op_write(c, inst) {
        Some((address, value)) => s.written(data, address, value),
        None => s,
    };
    (next, after)
}

/// The interrupts requested during the cycle move from the state to the CPU.
pub open spec fn flags_collected(m: (Cpu, Seq<Instruction>), s: State) -> ((Cpu, Seq<Instruction>), State) {
    (
        (Cpu { interrupt_flag: Interrupts(m.0.interrupt_flag.0 | s.interrupt_flag.0), ..m.0 }, m.1),
        State { interrupt_flag: Interrupts(0), ..s },
    )
}

/// From `c3`, the CPU once the micro-operation's read is done, the micro-operation runs and the
/// requests are collected, ending in `c2` and `s2`.
pub open spec fn ran(c3: Cpu, s: State, inst: AfterReadInstruction, ints: Ints, c2: Cpu, s2: State) -> bool {
    let e = executed(c3, s, inst, ints);
    let f = flags_collected(e.0, e.1);
    holds(c2, f.0) && s2 == f.1
}

/// One M-cycle of the CPU from `c` and `s` ends in `c2` and `s2`. Halted with nothing pending,
/// it only collects the requests. Else it takes the next micro-operation, fetches the next opcode
/// if the queue has run out and does the micro-operation's read; the CPU is then the one that
/// `resolved` and `fetched` describe (its registers, prefetch and queue: only where the queue is
/// stored is not fixed, and no micro-operation reads that), and from it the micro-operation runs.
pub open spec fn cpu_cycle(c: Cpu, s: State, c2: Cpu, s2: State) -> bool {
    let ints = pending(c, s);
    if c.is_halted && ints.0 == 0 {
        let f = flags_collected((c, queued(c)), s);
        c2 == f.0.0 && s2 == f.1
    } else {
        let t = taken(woken(c));
        let m = fetched(t.0, s, ints);
        let r = resolved(m.0, s, t.1);
        exists|c3: Cpu| #[trigger] holds(c3, (r.0, m.1)) && ran(c3, s, r.1, ints, c2, s2)
    }
}

/// Whether the CPU can run a cycle: not stopped (STOP is not implemented), the opcode it decodes
/// exists, it reads at addresses the bus serves and the micro-operation can run.
pub open spec fn cpu_can_step(c: Cpu, s: State) -> bool {
    let ints = pending(c, s);
    let w = woken(c);
    let t = taken(w);
    let m = fetched(t.0, s, ints);
    let r = resolved(m.0, s, t.1);
    &&& !c.stop_mode
    &&& !(c.is_halted && ints.0 == 0) ==> {
        &&& w.1.len() == 0 && !w.0.is_dispatching_interrupt ==> w.0.is_cb_mode || !is_illegal_opcode(w.0.current_opcode)
        &&& t.0.1.len() == 0 ==> cpu_can_read(s, fetch_address(t.0.0))
        &&& t.1 matches Instruction::Read(a, _) ==> cpu_can_read(s, read_address(m.0, a))
        &&& op_runnable(r.0, r.1)
        &&& op_write_served(r.0, r.1, s.dma_request)
    }
}

/// Where a micro-operation writes does not depend on where the queue is stored.
proof fn lemma_write_address_queue_unread(c1: Cpu, c2: Cpu, op: NoReadInstruction)
    requires
        c1 == (Cpu { instruction_register: c1.instruction_register, ..c2 }),
    ensures
        write_address(c1, op) == write_address(c2, op),
{
    reveal(write_address);
}

/// A CPU and the model it holds read their registers alike, and stay so when a register pair is
/// written.
proof fn lemma_holds_registers(c: Cpu, m: (Cpu, Seq<Instruction>), r: Register16Bit, r8: Register8Bit, v: u16)
    requires
        holds(c, m),
    ensures
        reg8(c, r8) == reg8(m.0, r8),
        reg16(c, r) == reg16(m.0, r),
        holds(with_reg16(c, r, v), (with_reg16(m.0, r, v), m.1)),
{
    match r {
        Register16Bit::AF => {},
        Register16Bit::BC => {},
        Register16Bit::DE => {},
        Register16Bit::SP => {},
        Register16Bit::HL => {},
        Register16Bit::PC => {},
        Register16Bit::WZ => {},
    }
}

impl Cpu {
    /// Takes the next micro-operation (see `taken`).
    fn take_instruction(&mut self, Ghost(m): Ghost<(Cpu, Seq<Instruction>)>) -> (r: Instruction)
        requires
            holds(*old(self), m),
            m.1.len() == 0 && !m.0.is_dispatching_interrupt ==> m.0.is_cb_mode || !is_illegal_opcode(m.0.current_opcode),
        ensures
            holds(*final(self), taken(m).0),
            r == taken(m).1,
    {
        match instruction_buffer_pop(&mut self.instruction_register.0) {
            Some(inst) => inst,
            None => if self.is_dispatching_interrupt {
                self.ime = false;
                self.instruction_register.0 = crate::gb_core::instructions::vec(
                    [
                        Instruction::NoRead(NoReadInstruction::Nop),
                        Instruction::NoRead(NoReadInstruction::FinalStepInterruptDispatch),
                        Instruction::NoRead(NoReadInstruction::WriteMsbOfRegisterWhereSpPointsAndDecSp(Register16Bit::PC)),
                        Instruction::NoRead(NoReadInstruction::DecStackPointer),
                    ],
                );
                self.instruction_register.1 = Prefetch::default();
                Instruction::NoRead(NoReadInstruction::DecPc)
            } else {
                proof {
                    reveal(decoded_program);
                }
                let InstructionsAndSetPc((head, tail), set_pc) = get_instructions(self.current_opcode, self.is_cb_mode);
                self.is_cb_mode = false;
                self.instruction_register.0 = tail;
                self.instruction_register.1 = Prefetch { check_interrupts: true, set_pc: PcFetch::WithIncrement(set_pc.0) };
                head
            },
        }
    }

    /// Once the queue has run out, fetches the next opcode and decides on a dispatch (see
    /// `fetched`).
    fn fetch(&mut self, state: &State, interrupts_to_execute: Ints, Ghost(m): Ghost<(Cpu, Seq<Instruction>)>)
        requires
            holds(*old(self), m),
            m.1.len() == 0 ==> cpu_can_read(*state, fetch_address(m.0)),
        ensures
            holds(*final(self), fetched(m, *state, interrupts_to_execute)),
    {
        if instruction_buffer_is_empty(&self.instruction_register.0) {
            self.is_dispatching_interrupt = self.ime && self.instruction_register.1.check_interrupts
                && interrupts_to_execute.bits() != 0;
            let mmu = MmuReadCpu(state.mmu());
            match self.instruction_register.1.set_pc {
                PcFetch::WithIncrement(register) => {
                    let address = self.get_16bit_register(register);
                    let opcode = mmu.read(address);
                    self.pc = address.wrapping_add(1);
                    self.current_opcode = opcode;
                },
                PcFetch::NoIncrement => {
                    self.current_opcode = mmu.read(self.pc);
                },
            }
        }
    }

    /// Does a micro-operation's read, stepping its address register (see `resolved`).
    fn resolve_read(&mut self, state: &State, inst: Instruction, Ghost(m): Ghost<(Cpu, Seq<Instruction>)>) -> (r: AfterReadInstruction)
        requires
            holds(*old(self), m),
            inst matches Instruction::Read(a, _) ==> cpu_can_read(*state, read_address(m.0, a)),
        ensures
            holds(*final(self), (resolved(m.0, *state, inst).0, m.1)),
            r == resolved(m.0, *state, inst).1,
    {
        let mmu = MmuReadCpu(state.mmu());
        proof {
            if let Instruction::Read(a, _) = inst {
                match a {
                    ReadAddress::Register { register, op } => {
                        let v = match op {
                            OpAfterRead::Unchanged => 0u16,
                            OpAfterRead::Inc => reg16(m.0, register).wrapping_add(1),
                            OpAfterRead::Dec => reg16(m.0, register).wrapping_sub(1),
                        };
                        lemma_holds_registers(*old(self), m, register, Register8Bit::A, v);
                    },
                    ReadAddress::Accumulator8Bit(r8) => lemma_holds_registers(*old(self), m, Register16Bit::PC, r8, 0),
                    ReadAddress::Accumulator => {},
                }
            }
        }
        match inst {
            Instruction::NoRead(op) => AfterReadInstruction::NoRead(op),
            Instruction::Read(ReadAddress::Accumulator, read) => {
                AfterReadInstruction::Read(mmu.read(0xff00u16 | self.lsb as u16), read)
            },
            Instruction::Read(ReadAddress::Accumulator8Bit(register), read) => {
                let low = self.get_8bit_register(register);
                AfterReadInstruction::Read(mmu.read(0xff00u16 | low as u16), read)
            },
            Instruction::Read(ReadAddress::Register { register, op }, read) => {
                let address = self.get_16bit_register(register);
                match op {
                    OpAfterRead::Unchanged => {},
                    OpAfterRead::Inc => self.set_16bit_register(register, address.wrapping_add(1)),
                    OpAfterRead::Dec => self.set_16bit_register(register, address.wrapping_sub(1)),
                }
                AfterReadInstruction::Read(mmu.read(address), read)
            },
        }
    }

    /// Runs a micro-operation whose read is done and collects the interrupts requested.
    fn run(&mut self, state: &mut State, inst: AfterReadInstruction, interrupts_to_execute: Ints, cycle_count: u64)
        requires
            op_runnable(*old(self), inst),
            op_write_served(*old(self), inst, old(state).dma_request),
        ensures
            ran(*old(self), *old(state), inst, interrupts_to_execute, *final(self), *final(state)),
    {
        let data = state.get_data_for_write();
        self.execute_instruction(state, data, inst, interrupts_to_execute, cycle_count);
        self.interrupt_flag.insert(state.interrupt_flag);
        state.interrupt_flag = Ints::empty();
    }

    /// One M-cycle of the CPU, as `cpu_cycle` says.
    /// https://gist.github.com/SonoSooS/c0055300670d678b5ae8433e20bea595
    #[verifier::rlimit(100)]
    pub fn execute(&mut self, state: &mut State, cycle_count: u64)
        requires
            cpu_can_step(*old(self), *old(state)),
        ensures
            cpu_cycle(*old(self), *old(state), *final(self), *final(state)),
    {
        let interrupts_to_execute = Interrupts(
            Ints::from_bits_truncate(state.interrupt_enable.bits()).bits() & self.interrupt_flag.bits(),
        );
        if self.is_halted {
            if interrupts_to_execute.bits() == 0 {
                self.interrupt_flag.insert(state.interrupt_flag);
                state.interrupt_flag = Ints::empty();
                return;
            }
            self.is_halted = false;
            let queue = crate::gb_core::instructions::vec([Instruction::NoRead(NoReadInstruction::Nop)]);
            assert(instruction_items(queue) =~= seq![Instruction::NoRead(NoReadInstruction::Nop)]);
            self.instruction_register = (queue, Prefetch::default());
        }
        assert(holds(*self, woken(*old(self))));
        let ghost w = woken(*old(self));
        let ghost t = taken(w);
        let ghost m = fetched(t.0, *old(state), interrupts_to_execute);
        let inst = self.take_instruction(Ghost(w));
        self.fetch(state, interrupts_to_execute, Ghost(t.0));
        let inst = self.resolve_read(state, inst, Ghost(m));
        let ghost c3 = *self;
        let ghost s0 = *state;
        let ghost r = resolved(m.0, *old(state), t.1);
        proof {
            if let AfterReadInstruction::NoRead(op) = inst {
                lemma_write_address_queue_unread(c3, r.0, op);
            }
        }
        self.run(state, inst, interrupts_to_execute, cycle_count);
        assert(holds(c3, (r.0, m.1)) && ran(c3, s0, inst, interrupts_to_execute, *self, *state));
    }
}


/// Halted with no enabled interrupt requested, a cycle only moves the requests from the state to
/// the CPU: the registers, the queue and the rest of the state stay.
/// https://gbdev.io/pandocs/halt.html#halt
pub proof fn lemma_halt_waits(c: Cpu, s: State, c2: Cpu, s2: State)
    requires
        c.is_halted,
        pending(c, s).0 == 0,
        cpu_cycle(c, s, c2, s2),
    ensures
        c2 == (Cpu { interrupt_flag: Interrupts(c.interrupt_flag.0 | s.interrupt_flag.0), ..c }),
        s2 == (State { interrupt_flag: Interrupts(0), ..s }),
{
}

/// EI takes effect one instruction late: the cycle that runs it (EI is a one-cycle instruction,
/// so the next opcode is fetched meanwhile) has already decided, with IME still off, that no
/// interrupt is dispatched after it.
/// https://gbdev.io/pandocs/Interrupts.html#ime-interrupt-master-enable-flag-write-only
pub proof fn lemma_ei_takes_effect_late(c: Cpu, s: State, c2: Cpu, s2: State)
    requires
        !c.ime,
        !(c.is_halted && pending(c, s).0 == 0),
        taken(woken(c)).1 == Instruction::NoRead(NoReadInstruction::Ei),
        taken(woken(c)).0.1.len() == 0,
        cpu_cycle(c, s, c2, s2),
    ensures
        c2.ime,
        !c2.is_dispatching_interrupt,
{
    reveal(control_registers);
    let t = taken(woken(c));
    let m = fetched(t.0, s, pending(c, s));
    let r = resolved(m.0, s, t.1);
    let c3 = choose|c3: Cpu| #[trigger] holds(c3, (r.0, m.1)) && ran(c3, s, r.1, pending(c, s), c2, s2);
    assert(holds(c3, (r.0, m.1)));
}

/// A sound micro-operation is runnable but for the CPU's state: STOP and DEC PC at PC 0.
pub proof fn lemma_sound_micro_op_runnable(c: Cpu, op: NoReadInstruction)
    requires
        micro_op_sound(Instruction::NoRead(op)),
        op != NoReadInstruction::Stop,
        op == NoReadInstruction::DecPc ==> c.pc > 0,
    ensures
        op_runnable(c, AfterReadInstruction::NoRead(op)),
{
}

} // verus!
