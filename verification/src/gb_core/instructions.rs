//! The SM83 instruction set as micro-operations, one per M-cycle.
//!
//! An opcode becomes a first micro-operation and the rest, held in a bounded vector in reverse
//! order (the next one last). The next opcode is fetched during the last M-cycle of an
//! instruction (https://gist.github.com/SonoSooS/c0055300670d678b5ae8433e20bea595#fetch-and-stuff).
use vstd::prelude::*;

use arrayvec::ArrayVec;

use crate::gb_core::array_vec::{instruction_buffer_new, instruction_buffer_push, instruction_items};
use crate::gb_core::cpu::writable_reg8;

verus! {

#[derive(Clone, Copy, Debug, PartialEq, Eq, Structural)]
pub enum Register8Bit {
    A,
    B,
    C,
    D,
    E,
    H,
    L,
    F,
    LsbSp,
    MsbSp,
    W,
    Z,
}

#[derive(Clone, Copy, Debug, PartialEq, Eq, Structural)]
pub enum Register16Bit {
    AF,
    BC,
    DE,
    SP,
    HL,
    PC,
    WZ,
}

/// The high half of a register pair.
pub open spec fn msb_of(r: Register16Bit) -> Register8Bit {
    match r {
        Register16Bit::AF => Register8Bit::A,
        Register16Bit::BC => Register8Bit::B,
        Register16Bit::DE => Register8Bit::D,
        Register16Bit::HL => Register8Bit::H,
        Register16Bit::SP => Register8Bit::MsbSp,
        _ => Register8Bit::W,
    }
}

/// The low half of a register pair.
pub open spec fn lsb_of(r: Register16Bit) -> Register8Bit {
    match r {
        Register16Bit::AF => Register8Bit::F,
        Register16Bit::BC => Register8Bit::C,
        Register16Bit::DE => Register8Bit::E,
        Register16Bit::HL => Register8Bit::L,
        Register16Bit::SP => Register8Bit::LsbSp,
        _ => Register8Bit::Z,
    }
}

impl Register16Bit {
    /// PC has no halves.
    pub fn get_msb(self) -> (r: Register8Bit)
        requires
            self != Register16Bit::PC,
        ensures
            r == msb_of(self),
    {
        match self {
            Register16Bit::AF => Register8Bit::A,
            Register16Bit::BC => Register8Bit::B,
            Register16Bit::DE => Register8Bit::D,
            Register16Bit::HL => Register8Bit::H,
            Register16Bit::SP => Register8Bit::MsbSp,
            _ => Register8Bit::W,
        }
    }

    /// PC has no halves.
    pub fn get_lsb(self) -> (r: Register8Bit)
        requires
            self != Register16Bit::PC,
        ensures
            r == lsb_of(self),
    {
        match self {
            Register16Bit::AF => Register8Bit::F,
            Register16Bit::BC => Register8Bit::C,
            Register16Bit::DE => Register8Bit::E,
            Register16Bit::HL => Register8Bit::L,
            Register16Bit::SP => Register8Bit::LsbSp,
            _ => Register8Bit::Z,
        }
    }
}

#[derive(Clone, Copy, Debug, PartialEq, Eq, Structural)]
pub enum Flag {
    Z,
    C,
}

/// A branch condition: the flag, or (with `not`) its negation.
#[derive(Clone, Copy, Debug, PartialEq, Eq, Structural)]
pub struct Condition {
    pub flag: Flag,
    pub not: bool,
}

/// A micro-operation that reads no memory.
#[derive(Clone, Copy, Debug, PartialEq, Eq, Structural)]
pub enum NoReadInstruction {
    Nop,
    Store8Bit(Register8Bit),
    Store16Bit(Register16Bit),
    Xor8Bit(Register8Bit),
    /// LD (HL-), A
    LoadToAddressHlFromADec,
    /// LD (HL+), A
    LoadToAddressHlFromAInc,
    Bit8Bit(u8, Register8Bit),
    OffsetPc,
    /// A write at $FF00 plus the register (or the cached byte).
    LoadFromAccumulator(Option<Register8Bit>),
    Inc(Register8Bit),
    Inc16Bit(Register16Bit),
    LoadToAddressFromRegister { address: Register16Bit, value: Register8Bit },
    LoadToAddressHlN,
    DecStackPointer,
    WriteMsbOfRegisterWhereSpPointsAndDecSp(Register16Bit),
    WriteLsbPcWhereSpPointsAndLoadCacheToPc,
    WriteLsbPcWhereSpPointsAndLoadAbsoluteAddressToPc(u8),
    Load { to: Register8Bit, from: Register8Bit },
    Rl(Register8Bit),
    Srl(Register8Bit),
    Rr(Register8Bit),
    Rra,
    Rla,
    Dec8Bit(Register8Bit),
    Dec16Bit(Register16Bit),
    DecHl,
    Cp8Bit(Register8Bit),
    LoadToCachedAddressFromA,
    Sub8Bit(Register8Bit),
    Di,
    Add8Bit(Register8Bit),
    AddHlFirst(Register8Bit),
    AddHlSecond(Register8Bit),
    DecPc,
    /// The last step of an interrupt dispatch: push PC's low byte and jump to the vector.
    FinalStepInterruptDispatch,
    Res(u8, Register8Bit),
    ResHl(u8),
    Or8Bit(Register8Bit),
    ConditionalReturn(Condition),
    SetHl(u8),
    Ei,
    Halt,
    Swap8Bit(Register8Bit),
    LoadHlFromAdjustedStackPointerFirst,
    LoadHlFromAdjustedStackPointerSecond,
    LdSpHl,
    Rlca,
    /// https://gist.github.com/SonoSooS/c0055300670d678b5ae8433e20bea595#nop-and-stop
    Stop,
    WriteLsbSpToCachedAddressAndIncCachedAddress,
    WriteMsbSpToCachedAddress,
    AddSpE,
    Reti,
    Cpl,
    Scf,
    Ccf,
    Adc8Bit(Register8Bit),
    Sbc8Bit(Register8Bit),
    And8Bit(Register8Bit),
    Rrca,
    Rlc8Bit(Register8Bit),
    Rrc8Bit(Register8Bit),
    Sla8Bit(Register8Bit),
    Sra8Bit(Register8Bit),
    Set8Bit(u8, Register8Bit),
    RlcHl,
    RrcHl,
    RlHl,
    RrHl,
    SlaHl,
    SraHl,
    SwapHl,
    SrlHl,
    IncHl,
    Daa,
    CbMode,
}

impl Default for NoReadInstruction {
    fn default() -> (r: Self)
        ensures
            r == NoReadInstruction::Nop,
    {
        NoReadInstruction::Nop
    }
}

/// What a micro-operation does with the byte it read.
#[derive(Clone, Copy, Debug, PartialEq, Eq, Structural)]
pub enum ReadInstruction {
    ReadIntoLsb,
    ReadIntoMsb,
    ConditionalRelativeJump(Condition),
    ConditionalCall(Condition),
    ConditionalJump(Condition),
}

/// How the address register changes after the read.
#[derive(Clone, Copy, Debug, PartialEq, Eq, Structural)]
pub enum OpAfterRead {
    Unchanged,
    Inc,
    Dec,
}

/// Where a micro-operation reads.
#[derive(Clone, Copy, Debug, PartialEq, Eq, Structural)]
pub enum ReadAddress {
    Register { register: Register16Bit, op: OpAfterRead },
    /// LDH A, (n): $FF00 plus the cached byte.
    Accumulator,
    /// $FF00 plus the register.
    Accumulator8Bit(Register8Bit),
}

impl From<Register16Bit> for ReadAddress {
    fn from(value: Register16Bit) -> (r: Self) {
        ReadAddress::Register { register: value, op: OpAfterRead::Unchanged }
    }
}

impl vstd::std_specs::convert::FromSpecImpl<Register16Bit> for ReadAddress {
    open spec fn obeys_from_spec() -> bool {
        true
    }

    open spec fn from_spec(v: Register16Bit) -> ReadAddress {
        ReadAddress::Register { register: v, op: OpAfterRead::Unchanged }
    }
}

/// The next byte of the program: read at PC, then PC incremented.
pub open spec fn consume_pc_spec() -> ReadAddress {
    ReadAddress::Register { register: Register16Bit::PC, op: OpAfterRead::Inc }
}

/// The top of the stack: read at SP, then SP incremented.
pub open spec fn pop_sp_spec() -> ReadAddress {
    ReadAddress::Register { register: Register16Bit::SP, op: OpAfterRead::Inc }
}

pub fn consume_pc() -> (r: ReadAddress)
    ensures
        r == consume_pc_spec(),
{
    ReadAddress::Register { register: Register16Bit::PC, op: OpAfterRead::Inc }
}

pub fn pop_sp() -> (r: ReadAddress)
    ensures
        r == pop_sp_spec(),
{
    ReadAddress::Register { register: Register16Bit::SP, op: OpAfterRead::Inc }
}

/// A micro-operation.
#[derive(Clone, Copy, Debug, PartialEq, Eq, Structural)]
pub enum Instruction {
    NoRead(NoReadInstruction),
    Read(ReadAddress, ReadInstruction),
}

impl From<NoReadInstruction> for Instruction {
    fn from(value: NoReadInstruction) -> (r: Self) {
        Instruction::NoRead(value)
    }
}

impl vstd::std_specs::convert::FromSpecImpl<NoReadInstruction> for Instruction {
    open spec fn obeys_from_spec() -> bool {
        true
    }

    open spec fn from_spec(v: NoReadInstruction) -> Instruction {
        Instruction::NoRead(v)
    }
}

impl Default for Instruction {
    fn default() -> (r: Self)
        ensures
            r == Instruction::NoRead(NoReadInstruction::Nop),
    {
        Instruction::NoRead(NoReadInstruction::Nop)
    }
}

/// A micro-operation with its read done.
#[derive(Clone, Copy, Debug, PartialEq, Eq, Structural)]
pub enum AfterReadInstruction {
    NoRead(NoReadInstruction),
    Read(u8, ReadInstruction),
}

/// The first micro-operation of an opcode and the others, reversed.
pub type Instructions = (Instruction, ArrayVec<Instruction, 5>);

/// An opcode's micro-operations as values: the first one and the others, reversed.
pub type Program = (Instruction, Seq<Instruction>);

/// The program that `i` holds.
pub open spec fn program_of(i: Instructions) -> Program {
    (i.0, instruction_items(i.1))
}

/// A bounded vector holding `insts` in order.
pub fn vec<const N: usize>(insts: [Instruction; N]) -> (r: ArrayVec<Instruction, 5>)
    requires
        N <= 5,
    ensures
        instruction_items(r) == insts@,
{
    let mut r = instruction_buffer_new();
    let mut i: usize = 0;
    while i < N
        invariant
            i <= N <= 5,
            insts@.len() == N,
            instruction_items(r) == insts@.subrange(0, i as int),
        decreases N - i,
    {
        instruction_buffer_push(&mut r, insts[i]);
        assert(instruction_items(r) =~= insts@.subrange(0, i + 1));
        i = i + 1;
    }
    assert(insts@.subrange(0, N as int) =~= insts@);
    r
}

/// The register whose value PC takes for the next fetch.
#[derive(Clone, Copy, Debug, PartialEq, Eq, Structural)]
pub struct SetPc(pub Register16Bit);

impl Default for SetPc {
    fn default() -> (r: Self)
        ensures
            r.0 == Register16Bit::PC,
    {
        SetPc(Register16Bit::PC)
    }
}

/// An opcode's micro-operations and where the next fetch reads.
pub struct InstructionsAndSetPc(pub Instructions, pub SetPc);

impl From<Instructions> for InstructionsAndSetPc {
    fn from(value: Instructions) -> (r: Self) {
        InstructionsAndSetPc(value, SetPc(Register16Bit::PC))
    }
}

impl vstd::std_specs::convert::FromSpecImpl<Instructions> for InstructionsAndSetPc {
    open spec fn obeys_from_spec() -> bool {
        true
    }

    open spec fn from_spec(v: Instructions) -> InstructionsAndSetPc {
        InstructionsAndSetPc(v, SetPc(Register16Bit::PC))
    }
}

// Opcode building blocks.

pub open spec fn ld_r_n_program(register: Register8Bit) -> Program {
    (Instruction::Read(consume_pc_spec(), ReadInstruction::ReadIntoLsb), seq![Instruction::NoRead(NoReadInstruction::Store8Bit(register))])
}

pub fn ld_r_n(register: Register8Bit) -> (r: Instructions)
    ensures
        program_of(r) == ld_r_n_program(register),
{
    let tail = vec([Instruction::NoRead(NoReadInstruction::Store8Bit(register))]);
    proof {
        assert(instruction_items(tail) =~= ld_r_n_program(register).1);
    }
    (Instruction::Read(consume_pc(), ReadInstruction::ReadIntoLsb), tail)
}

pub open spec fn ld_r_r_program(to: Register8Bit, from: Register8Bit) -> Program {
    (Instruction::NoRead(NoReadInstruction::Load { to, from }), Seq::empty())
}

pub fn ld_r_r(to: Register8Bit, from: Register8Bit) -> (r: Instructions)
    ensures
        program_of(r) == ld_r_r_program(to, from),
{
    let tail = instruction_buffer_new();
    proof {
        assert(instruction_items(tail) =~= ld_r_r_program(to, from).1);
    }
    (Instruction::NoRead(NoReadInstruction::Load { to, from }), tail)
}

pub open spec fn ld_rr_n_program(register: Register16Bit) -> Program {
    (Instruction::Read(consume_pc_spec(), ReadInstruction::ReadIntoLsb), seq![Instruction::NoRead(NoReadInstruction::Store16Bit(register)), Instruction::Read(consume_pc_spec(), ReadInstruction::ReadIntoMsb)])
}

pub fn ld_rr_n(register: Register16Bit) -> (r: Instructions)
    ensures
        program_of(r) == ld_rr_n_program(register),
{
    let tail = vec([Instruction::NoRead(NoReadInstruction::Store16Bit(register)), Instruction::Read(consume_pc(), ReadInstruction::ReadIntoMsb)]);
    proof {
        assert(instruction_items(tail) =~= ld_rr_n_program(register).1);
    }
    (Instruction::Read(consume_pc(), ReadInstruction::ReadIntoLsb), tail)
}

pub open spec fn ld_r_hl_program(register: Register8Bit) -> Program {
    (Instruction::Read(ReadAddress::Register { register: Register16Bit::HL, op: OpAfterRead::Unchanged }, ReadInstruction::ReadIntoLsb), seq![Instruction::NoRead(NoReadInstruction::Store8Bit(register))])
}

pub fn ld_r_hl(register: Register8Bit) -> (r: Instructions)
    ensures
        program_of(r) == ld_r_hl_program(register),
{
    let tail = vec([Instruction::NoRead(NoReadInstruction::Store8Bit(register))]);
    proof {
        assert(instruction_items(tail) =~= ld_r_hl_program(register).1);
    }
    (Instruction::Read(ReadAddress::Register { register: Register16Bit::HL, op: OpAfterRead::Unchanged }, ReadInstruction::ReadIntoLsb), tail)
}

pub open spec fn push_rr_program(register: Register16Bit) -> Program {
    (Instruction::NoRead(NoReadInstruction::DecStackPointer), seq![Instruction::NoRead(NoReadInstruction::Nop), Instruction::NoRead(NoReadInstruction::LoadToAddressFromRegister { address: Register16Bit::SP, value: lsb_of(register) }), Instruction::NoRead(NoReadInstruction::WriteMsbOfRegisterWhereSpPointsAndDecSp(register))])
}

pub fn push_rr(register: Register16Bit) -> (r: Instructions)
    requires
        register != Register16Bit::PC,
    ensures
        program_of(r) == push_rr_program(register),
{
    let tail = vec([Instruction::NoRead(NoReadInstruction::Nop), Instruction::NoRead(NoReadInstruction::LoadToAddressFromRegister { address: Register16Bit::SP, value: register.get_lsb() }), Instruction::NoRead(NoReadInstruction::WriteMsbOfRegisterWhereSpPointsAndDecSp(register))]);
    proof {
        assert(instruction_items(tail) =~= push_rr_program(register).1);
    }
    (Instruction::NoRead(NoReadInstruction::DecStackPointer), tail)
}

pub open spec fn bit_b_r_program(bit: u8, register: Register8Bit) -> Program {
    (Instruction::NoRead(NoReadInstruction::Bit8Bit(bit, register)), Seq::empty())
}

pub fn bit_b_r(bit: u8, register: Register8Bit) -> (r: Instructions)
    ensures
        program_of(r) == bit_b_r_program(bit, register),
{
    let tail = instruction_buffer_new();
    proof {
        assert(instruction_items(tail) =~= bit_b_r_program(bit, register).1);
    }
    (Instruction::NoRead(NoReadInstruction::Bit8Bit(bit, register)), tail)
}

pub open spec fn rl_r_program(register: Register8Bit) -> Program {
    (Instruction::NoRead(NoReadInstruction::Rl(register)), Seq::empty())
}

pub fn rl_r(register: Register8Bit) -> (r: Instructions)
    ensures
        program_of(r) == rl_r_program(register),
{
    let tail = instruction_buffer_new();
    proof {
        assert(instruction_items(tail) =~= rl_r_program(register).1);
    }
    (Instruction::NoRead(NoReadInstruction::Rl(register)), tail)
}

pub open spec fn rr_r_program(register: Register8Bit) -> Program {
    (Instruction::NoRead(NoReadInstruction::Rr(register)), Seq::empty())
}

pub fn rr_r(register: Register8Bit) -> (r: Instructions)
    ensures
        program_of(r) == rr_r_program(register),
{
    let tail = instruction_buffer_new();
    proof {
        assert(instruction_items(tail) =~= rr_r_program(register).1);
    }
    (Instruction::NoRead(NoReadInstruction::Rr(register)), tail)
}

pub open spec fn srl_r_program(register: Register8Bit) -> Program {
    (Instruction::NoRead(NoReadInstruction::Srl(register)), Seq::empty())
}

pub fn srl_r(register: Register8Bit) -> (r: Instructions)
    ensures
        program_of(r) == srl_r_program(register),
{
    let tail = instruction_buffer_new();
    proof {
        assert(instruction_items(tail) =~= srl_r_program(register).1);
    }
    (Instruction::NoRead(NoReadInstruction::Srl(register)), tail)
}

pub open spec fn res_b_r_program(bit: u8, register: Register8Bit) -> Program {
    (Instruction::NoRead(NoReadInstruction::Res(bit, register)), Seq::empty())
}

pub fn res_b_r(bit: u8, register: Register8Bit) -> (r: Instructions)
    ensures
        program_of(r) == res_b_r_program(bit, register),
{
    let tail = instruction_buffer_new();
    proof {
        assert(instruction_items(tail) =~= res_b_r_program(bit, register).1);
    }
    (Instruction::NoRead(NoReadInstruction::Res(bit, register)), tail)
}

pub open spec fn pop_rr_program(register: Register16Bit) -> Program {
    (Instruction::Read(pop_sp_spec(), ReadInstruction::ReadIntoLsb), seq![Instruction::NoRead(NoReadInstruction::Store16Bit(register)), Instruction::Read(pop_sp_spec(), ReadInstruction::ReadIntoMsb)])
}

pub fn pop_rr(register: Register16Bit) -> (r: Instructions)
    ensures
        program_of(r) == pop_rr_program(register),
{
    let tail = vec([Instruction::NoRead(NoReadInstruction::Store16Bit(register)), Instruction::Read(pop_sp(), ReadInstruction::ReadIntoMsb)]);
    proof {
        assert(instruction_items(tail) =~= pop_rr_program(register).1);
    }
    (Instruction::Read(pop_sp(), ReadInstruction::ReadIntoLsb), tail)
}

pub open spec fn inc_r_program(register: Register8Bit) -> Program {
    (Instruction::NoRead(NoReadInstruction::Inc(register)), Seq::empty())
}

pub fn inc_r(register: Register8Bit) -> (r: Instructions)
    ensures
        program_of(r) == inc_r_program(register),
{
    let tail = instruction_buffer_new();
    proof {
        assert(instruction_items(tail) =~= inc_r_program(register).1);
    }
    (Instruction::NoRead(NoReadInstruction::Inc(register)), tail)
}

pub open spec fn inc_rr_program(register: Register16Bit) -> Program {
    (Instruction::NoRead(NoReadInstruction::Inc16Bit(register)), seq![Instruction::NoRead(NoReadInstruction::Nop)])
}

pub fn inc_rr(register: Register16Bit) -> (r: Instructions)
    ensures
        program_of(r) == inc_rr_program(register),
{
    let tail = vec([Instruction::NoRead(NoReadInstruction::Nop)]);
    proof {
        assert(instruction_items(tail) =~= inc_rr_program(register).1);
    }
    (Instruction::NoRead(NoReadInstruction::Inc16Bit(register)), tail)
}

pub open spec fn dec_r_program(register: Register8Bit) -> Program {
    (Instruction::NoRead(NoReadInstruction::Dec8Bit(register)), Seq::empty())
}

pub fn dec_r(register: Register8Bit) -> (r: Instructions)
    ensures
        program_of(r) == dec_r_program(register),
{
    let tail = instruction_buffer_new();
    proof {
        assert(instruction_items(tail) =~= dec_r_program(register).1);
    }
    (Instruction::NoRead(NoReadInstruction::Dec8Bit(register)), tail)
}

pub open spec fn dec_rr_program(register: Register16Bit) -> Program {
    (Instruction::NoRead(NoReadInstruction::Dec16Bit(register)), seq![Instruction::NoRead(NoReadInstruction::Nop)])
}

pub fn dec_rr(register: Register16Bit) -> (r: Instructions)
    ensures
        program_of(r) == dec_rr_program(register),
{
    let tail = vec([Instruction::NoRead(NoReadInstruction::Nop)]);
    proof {
        assert(instruction_items(tail) =~= dec_rr_program(register).1);
    }
    (Instruction::NoRead(NoReadInstruction::Dec16Bit(register)), tail)
}

pub open spec fn sub_r_program(register: Register8Bit) -> Program {
    (Instruction::NoRead(NoReadInstruction::Sub8Bit(register)), Seq::empty())
}

pub fn sub_r(register: Register8Bit) -> (r: Instructions)
    ensures
        program_of(r) == sub_r_program(register),
{
    let tail = instruction_buffer_new();
    proof {
        assert(instruction_items(tail) =~= sub_r_program(register).1);
    }
    (Instruction::NoRead(NoReadInstruction::Sub8Bit(register)), tail)
}

pub open spec fn jr_cc_e_program(condition: Condition) -> Program {
    (Instruction::Read(consume_pc_spec(), ReadInstruction::ConditionalRelativeJump(condition)), seq![Instruction::NoRead(NoReadInstruction::Nop)])
}

pub fn jr_cc_e(condition: Condition) -> (r: Instructions)
    ensures
        program_of(r) == jr_cc_e_program(condition),
{
    let tail = vec([Instruction::NoRead(NoReadInstruction::Nop)]);
    proof {
        assert(instruction_items(tail) =~= jr_cc_e_program(condition).1);
    }
    (Instruction::Read(consume_pc(), ReadInstruction::ConditionalRelativeJump(condition)), tail)
}

pub open spec fn add_r_program(register: Register8Bit) -> Program {
    (Instruction::NoRead(NoReadInstruction::Add8Bit(register)), Seq::empty())
}

pub fn add_r(register: Register8Bit) -> (r: Instructions)
    ensures
        program_of(r) == add_r_program(register),
{
    let tail = instruction_buffer_new();
    proof {
        assert(instruction_items(tail) =~= add_r_program(register).1);
    }
    (Instruction::NoRead(NoReadInstruction::Add8Bit(register)), tail)
}

pub open spec fn or_r_program(register: Register8Bit) -> Program {
    (Instruction::NoRead(NoReadInstruction::Or8Bit(register)), Seq::empty())
}

pub fn or_r(register: Register8Bit) -> (r: Instructions)
    ensures
        program_of(r) == or_r_program(register),
{
    let tail = instruction_buffer_new();
    proof {
        assert(instruction_items(tail) =~= or_r_program(register).1);
    }
    (Instruction::NoRead(NoReadInstruction::Or8Bit(register)), tail)
}

pub open spec fn ld_rr_r_program(address: Register16Bit, value: Register8Bit) -> Program {
    (Instruction::NoRead(NoReadInstruction::LoadToAddressFromRegister { address, value }), seq![Instruction::NoRead(NoReadInstruction::Nop)])
}

pub fn ld_rr_r(address: Register16Bit, value: Register8Bit) -> (r: Instructions)
    ensures
        program_of(r) == ld_rr_r_program(address, value),
{
    let tail = vec([Instruction::NoRead(NoReadInstruction::Nop)]);
    proof {
        assert(instruction_items(tail) =~= ld_rr_r_program(address, value).1);
    }
    (Instruction::NoRead(NoReadInstruction::LoadToAddressFromRegister { address, value }), tail)
}

pub open spec fn call_cc_nn_program(condition: Condition) -> Program {
    (Instruction::Read(consume_pc_spec(), ReadInstruction::ReadIntoLsb), seq![Instruction::NoRead(NoReadInstruction::Nop), Instruction::Read(consume_pc_spec(), ReadInstruction::ConditionalCall(condition))])
}

pub fn call_cc_nn(condition: Condition) -> (r: Instructions)
    ensures
        program_of(r) == call_cc_nn_program(condition),
{
    let tail = vec([Instruction::NoRead(NoReadInstruction::Nop), Instruction::Read(consume_pc(), ReadInstruction::ConditionalCall(condition))]);
    proof {
        assert(instruction_items(tail) =~= call_cc_nn_program(condition).1);
    }
    (Instruction::Read(consume_pc(), ReadInstruction::ReadIntoLsb), tail)
}

pub open spec fn xor_r_program(register: Register8Bit) -> Program {
    (Instruction::NoRead(NoReadInstruction::Xor8Bit(register)), Seq::empty())
}

pub fn xor_r(register: Register8Bit) -> (r: Instructions)
    ensures
        program_of(r) == xor_r_program(register),
{
    let tail = instruction_buffer_new();
    proof {
        assert(instruction_items(tail) =~= xor_r_program(register).1);
    }
    (Instruction::NoRead(NoReadInstruction::Xor8Bit(register)), tail)
}

pub open spec fn add_hl_rr_program(register: Register16Bit) -> Program {
    (Instruction::NoRead(NoReadInstruction::AddHlFirst(lsb_of(register))), seq![Instruction::NoRead(NoReadInstruction::AddHlSecond(msb_of(register)))])
}

pub fn add_hl_rr(register: Register16Bit) -> (r: Instructions)
    requires
        register != Register16Bit::PC,
    ensures
        program_of(r) == add_hl_rr_program(register),
{
    let tail = vec([Instruction::NoRead(NoReadInstruction::AddHlSecond(register.get_msb()))]);
    proof {
        assert(instruction_items(tail) =~= add_hl_rr_program(register).1);
    }
    (Instruction::NoRead(NoReadInstruction::AddHlFirst(register.get_lsb())), tail)
}

pub open spec fn ret_cc_program(condition: Condition) -> Program {
    (Instruction::NoRead(NoReadInstruction::ConditionalReturn(condition)), seq![Instruction::NoRead(NoReadInstruction::Nop)])
}

pub fn ret_cc(condition: Condition) -> (r: Instructions)
    ensures
        program_of(r) == ret_cc_program(condition),
{
    let tail = vec([Instruction::NoRead(NoReadInstruction::Nop)]);
    proof {
        assert(instruction_items(tail) =~= ret_cc_program(condition).1);
    }
    (Instruction::NoRead(NoReadInstruction::ConditionalReturn(condition)), tail)
}

pub open spec fn jp_cc_nn_program(condition: Condition) -> Program {
    (Instruction::Read(consume_pc_spec(), ReadInstruction::ReadIntoLsb), seq![Instruction::NoRead(NoReadInstruction::Nop), Instruction::Read(consume_pc_spec(), ReadInstruction::ConditionalJump(condition))])
}

pub fn jp_cc_nn(condition: Condition) -> (r: Instructions)
    ensures
        program_of(r) == jp_cc_nn_program(condition),
{
    let tail = vec([Instruction::NoRead(NoReadInstruction::Nop), Instruction::Read(consume_pc(), ReadInstruction::ConditionalJump(condition))]);
    proof {
        assert(instruction_items(tail) =~= jp_cc_nn_program(condition).1);
    }
    (Instruction::Read(consume_pc(), ReadInstruction::ReadIntoLsb), tail)
}

pub open spec fn bit_b_hl_program(bit: u8) -> Program {
    (Instruction::Read(ReadAddress::Register { register: Register16Bit::HL, op: OpAfterRead::Unchanged }, ReadInstruction::ReadIntoLsb), seq![Instruction::NoRead(NoReadInstruction::Bit8Bit(bit, Register8Bit::Z))])
}

pub fn bit_b_hl(bit: u8) -> (r: Instructions)
    ensures
        program_of(r) == bit_b_hl_program(bit),
{
    let tail = vec([Instruction::NoRead(NoReadInstruction::Bit8Bit(bit, Register8Bit::Z))]);
    proof {
        assert(instruction_items(tail) =~= bit_b_hl_program(bit).1);
    }
    (Instruction::Read(ReadAddress::Register { register: Register16Bit::HL, op: OpAfterRead::Unchanged }, ReadInstruction::ReadIntoLsb), tail)
}

pub open spec fn byte_op_hl_program(inst: NoReadInstruction) -> Program {
    (Instruction::Read(ReadAddress::Register { register: Register16Bit::HL, op: OpAfterRead::Unchanged }, ReadInstruction::ReadIntoLsb), seq![Instruction::NoRead(NoReadInstruction::Nop), Instruction::NoRead(inst)])
}

fn byte_op_hl(inst: NoReadInstruction) -> (r: Instructions)
    ensures
        program_of(r) == byte_op_hl_program(inst),
{
    let tail = vec([Instruction::NoRead(NoReadInstruction::Nop), Instruction::NoRead(inst)]);
    proof {
        assert(instruction_items(tail) =~= byte_op_hl_program(inst).1);
    }
    (Instruction::Read(ReadAddress::Register { register: Register16Bit::HL, op: OpAfterRead::Unchanged }, ReadInstruction::ReadIntoLsb), tail)
}

pub open spec fn swap_r_program(register: Register8Bit) -> Program {
    (Instruction::NoRead(NoReadInstruction::Swap8Bit(register)), Seq::empty())
}

pub fn swap_r(register: Register8Bit) -> (r: Instructions)
    ensures
        program_of(r) == swap_r_program(register),
{
    let tail = instruction_buffer_new();
    proof {
        assert(instruction_items(tail) =~= swap_r_program(register).1);
    }
    (Instruction::NoRead(NoReadInstruction::Swap8Bit(register)), tail)
}

pub open spec fn cp_r_program(register: Register8Bit) -> Program {
    (Instruction::NoRead(NoReadInstruction::Cp8Bit(register)), Seq::empty())
}

pub fn cp_r(register: Register8Bit) -> (r: Instructions)
    ensures
        program_of(r) == cp_r_program(register),
{
    let tail = instruction_buffer_new();
    proof {
        assert(instruction_items(tail) =~= cp_r_program(register).1);
    }
    (Instruction::NoRead(NoReadInstruction::Cp8Bit(register)), tail)
}

pub open spec fn rst_n_program(value: u8) -> Program {
    (Instruction::NoRead(NoReadInstruction::DecStackPointer), seq![Instruction::NoRead(NoReadInstruction::Nop), Instruction::NoRead(NoReadInstruction::WriteLsbPcWhereSpPointsAndLoadAbsoluteAddressToPc(value)), Instruction::NoRead(NoReadInstruction::WriteMsbOfRegisterWhereSpPointsAndDecSp(Register16Bit::PC))])
}

pub fn rst_n(value: u8) -> (r: Instructions)
    ensures
        program_of(r) == rst_n_program(value),
{
    let tail = vec([Instruction::NoRead(NoReadInstruction::Nop), Instruction::NoRead(NoReadInstruction::WriteLsbPcWhereSpPointsAndLoadAbsoluteAddressToPc(value)), Instruction::NoRead(NoReadInstruction::WriteMsbOfRegisterWhereSpPointsAndDecSp(Register16Bit::PC))]);
    proof {
        assert(instruction_items(tail) =~= rst_n_program(value).1);
    }
    (Instruction::NoRead(NoReadInstruction::DecStackPointer), tail)
}

pub open spec fn adc_r_program(register: Register8Bit) -> Program {
    (Instruction::NoRead(NoReadInstruction::Adc8Bit(register)), Seq::empty())
}

pub fn adc_r(register: Register8Bit) -> (r: Instructions)
    ensures
        program_of(r) == adc_r_program(register),
{
    let tail = instruction_buffer_new();
    proof {
        assert(instruction_items(tail) =~= adc_r_program(register).1);
    }
    (Instruction::NoRead(NoReadInstruction::Adc8Bit(register)), tail)
}

pub open spec fn sbc_r_program(register: Register8Bit) -> Program {
    (Instruction::NoRead(NoReadInstruction::Sbc8Bit(register)), Seq::empty())
}

pub fn sbc_r(register: Register8Bit) -> (r: Instructions)
    ensures
        program_of(r) == sbc_r_program(register),
{
    let tail = instruction_buffer_new();
    proof {
        assert(instruction_items(tail) =~= sbc_r_program(register).1);
    }
    (Instruction::NoRead(NoReadInstruction::Sbc8Bit(register)), tail)
}

pub open spec fn and_r_program(register: Register8Bit) -> Program {
    (Instruction::NoRead(NoReadInstruction::And8Bit(register)), Seq::empty())
}

pub fn and_r(register: Register8Bit) -> (r: Instructions)
    ensures
        program_of(r) == and_r_program(register),
{
    let tail = instruction_buffer_new();
    proof {
        assert(instruction_items(tail) =~= and_r_program(register).1);
    }
    (Instruction::NoRead(NoReadInstruction::And8Bit(register)), tail)
}

pub open spec fn rlc_r_program(register: Register8Bit) -> Program {
    (Instruction::NoRead(NoReadInstruction::Rlc8Bit(register)), Seq::empty())
}

pub fn rlc_r(register: Register8Bit) -> (r: Instructions)
    ensures
        program_of(r) == rlc_r_program(register),
{
    let tail = instruction_buffer_new();
    proof {
        assert(instruction_items(tail) =~= rlc_r_program(register).1);
    }
    (Instruction::NoRead(NoReadInstruction::Rlc8Bit(register)), tail)
}

pub open spec fn rrc_r_program(register: Register8Bit) -> Program {
    (Instruction::NoRead(NoReadInstruction::Rrc8Bit(register)), Seq::empty())
}

pub fn rrc_r(register: Register8Bit) -> (r: Instructions)
    ensures
        program_of(r) == rrc_r_program(register),
{
    let tail = instruction_buffer_new();
    proof {
        assert(instruction_items(tail) =~= rrc_r_program(register).1);
    }
    (Instruction::NoRead(NoReadInstruction::Rrc8Bit(register)), tail)
}

pub open spec fn sla_r_program(register: Register8Bit) -> Program {
    (Instruction::NoRead(NoReadInstruction::Sla8Bit(register)), Seq::empty())
}

pub fn sla_r(register: Register8Bit) -> (r: Instructions)
    ensures
        program_of(r) == sla_r_program(register),
{
    let tail = instruction_buffer_new();
    proof {
        assert(instruction_items(tail) =~= sla_r_program(register).1);
    }
    (Instruction::NoRead(NoReadInstruction::Sla8Bit(register)), tail)
}

pub open spec fn sra_r_program(register: Register8Bit) -> Program {
    (Instruction::NoRead(NoReadInstruction::Sra8Bit(register)), Seq::empty())
}

pub fn sra_r(register: Register8Bit) -> (r: Instructions)
    ensures
        program_of(r) == sra_r_program(register),
{
    let tail = instruction_buffer_new();
    proof {
        assert(instruction_items(tail) =~= sra_r_program(register).1);
    }
    (Instruction::NoRead(NoReadInstruction::Sra8Bit(register)), tail)
}

pub open spec fn set_b_r_program(bit: u8, register: Register8Bit) -> Program {
    (Instruction::NoRead(NoReadInstruction::Set8Bit(bit, register)), Seq::empty())
}

pub fn set_b_r(bit: u8, register: Register8Bit) -> (r: Instructions)
    ensures
        program_of(r) == set_b_r_program(bit, register),
{
    let tail = instruction_buffer_new();
    proof {
        assert(instruction_items(tail) =~= set_b_r_program(bit, register).1);
    }
    (Instruction::NoRead(NoReadInstruction::Set8Bit(bit, register)), tail)
}

pub open spec fn res_b_hl_program(bit: u8) -> Program {
    byte_op_hl_program(NoReadInstruction::ResHl(bit))
}

pub fn res_b_hl(bit: u8) -> (r: Instructions)
    ensures
        program_of(r) == res_b_hl_program(bit),
{
    byte_op_hl(NoReadInstruction::ResHl(bit))
}

pub open spec fn set_b_hl_program(bit: u8) -> Program {
    byte_op_hl_program(NoReadInstruction::SetHl(bit))
}

pub fn set_b_hl(bit: u8) -> (r: Instructions)
    ensures
        program_of(r) == set_b_hl_program(bit),
{
    byte_op_hl(NoReadInstruction::SetHl(bit))
}

pub open spec fn rlc_hl_program() -> Program {
    byte_op_hl_program(NoReadInstruction::RlcHl)
}

pub fn rlc_hl() -> (r: Instructions)
    ensures
        program_of(r) == rlc_hl_program(),
{
    byte_op_hl(NoReadInstruction::RlcHl)
}

pub open spec fn rrc_hl_program() -> Program {
    byte_op_hl_program(NoReadInstruction::RrcHl)
}

pub fn rrc_hl() -> (r: Instructions)
    ensures
        program_of(r) == rrc_hl_program(),
{
    byte_op_hl(NoReadInstruction::RrcHl)
}

pub open spec fn rl_hl_program() -> Program {
    byte_op_hl_program(NoReadInstruction::RlHl)
}

pub fn rl_hl() -> (r: Instructions)
    ensures
        program_of(r) == rl_hl_program(),
{
    byte_op_hl(NoReadInstruction::RlHl)
}

pub open spec fn rr_hl_program() -> Program {
    byte_op_hl_program(NoReadInstruction::RrHl)
}

pub fn rr_hl() -> (r: Instructions)
    ensures
        program_of(r) == rr_hl_program(),
{
    byte_op_hl(NoReadInstruction::RrHl)
}

pub open spec fn sla_hl_program() -> Program {
    byte_op_hl_program(NoReadInstruction::SlaHl)
}

pub fn sla_hl() -> (r: Instructions)
    ensures
        program_of(r) == sla_hl_program(),
{
    byte_op_hl(NoReadInstruction::SlaHl)
}

pub open spec fn sra_hl_program() -> Program {
    byte_op_hl_program(NoReadInstruction::SraHl)
}

pub fn sra_hl() -> (r: Instructions)
    ensures
        program_of(r) == sra_hl_program(),
{
    byte_op_hl(NoReadInstruction::SraHl)
}

pub open spec fn swap_hl_program() -> Program {
    byte_op_hl_program(NoReadInstruction::SwapHl)
}

pub fn swap_hl() -> (r: Instructions)
    ensures
        program_of(r) == swap_hl_program(),
{
    byte_op_hl(NoReadInstruction::SwapHl)
}

pub open spec fn srl_hl_program() -> Program {
    byte_op_hl_program(NoReadInstruction::SrlHl)
}

pub fn srl_hl() -> (r: Instructions)
    ensures
        program_of(r) == srl_hl_program(),
{
    byte_op_hl(NoReadInstruction::SrlHl)
}

/// The opcodes that the SM83 does not have.
pub open spec fn is_illegal_opcode(opcode: u8) -> bool {
    opcode == 0xd3 || opcode == 0xdb || opcode == 0xdd || opcode == 0xe3 || opcode == 0xe4 || opcode == 0xeb || opcode == 0xec || opcode == 0xed || opcode == 0xf4 || opcode == 0xfc || opcode == 0xfd
}

/// The micro-operations of an opcode (the branches' untaken path) and the register whose value
/// the next fetch reads: PC but for JR e (the computed target) and JP HL.
/// https://gbdev.io/pandocs/CPU_Instruction_Set.html
pub open spec fn opcode_program(opcode: u8) -> (Program, Register16Bit) {
    match opcode {
        0x00u8 => ((Instruction::NoRead(NoReadInstruction::Nop), Seq::empty()), Register16Bit::PC),
        0x01u8 => (ld_rr_n_program(Register16Bit::BC), Register16Bit::PC),
        0x02u8 => ((Instruction::NoRead(NoReadInstruction::LoadToAddressFromRegister { address: Register16Bit::BC, value: Register8Bit::A }), seq![Instruction::NoRead(NoReadInstruction::Nop)]), Register16Bit::PC),
        0x03u8 => (inc_rr_program(Register16Bit::BC), Register16Bit::PC),
        0x04u8 => (inc_r_program(Register8Bit::B), Register16Bit::PC),
        0x05u8 => (dec_r_program(Register8Bit::B), Register16Bit::PC),
        0x06u8 => (ld_r_n_program(Register8Bit::B), Register16Bit::PC),
        0x07u8 => ((Instruction::NoRead(NoReadInstruction::Rlca), Seq::empty()), Register16Bit::PC),
        0x08u8 => ((Instruction::Read(consume_pc_spec(), ReadInstruction::ReadIntoLsb), seq![Instruction::NoRead(NoReadInstruction::Nop), Instruction::NoRead(NoReadInstruction::WriteMsbSpToCachedAddress), Instruction::NoRead(NoReadInstruction::WriteLsbSpToCachedAddressAndIncCachedAddress), Instruction::Read(consume_pc_spec(), ReadInstruction::ReadIntoMsb)]), Register16Bit::PC),
        0x09u8 => (add_hl_rr_program(Register16Bit::BC), Register16Bit::PC),
        0x0au8 => ((Instruction::Read(ReadAddress::Register { register: Register16Bit::BC, op: OpAfterRead::Unchanged }, ReadInstruction::ReadIntoLsb), seq![Instruction::NoRead(NoReadInstruction::Store8Bit(Register8Bit::A))]), Register16Bit::PC),
        0x0bu8 => (dec_rr_program(Register16Bit::BC), Register16Bit::PC),
        0x0cu8 => (inc_r_program(Register8Bit::C), Register16Bit::PC),
        0x0du8 => (dec_r_program(Register8Bit::C), Register16Bit::PC),
        0x0eu8 => (ld_r_n_program(Register8Bit::C), Register16Bit::PC),
        0x0fu8 => ((Instruction::NoRead(NoReadInstruction::Rrca), Seq::empty()), Register16Bit::PC),
        0x10u8 => ((Instruction::NoRead(NoReadInstruction::Stop), Seq::empty()), Register16Bit::PC),
        0x11u8 => (ld_rr_n_program(Register16Bit::DE), Register16Bit::PC),
        0x12u8 => (ld_rr_r_program(Register16Bit::DE, Register8Bit::A), Register16Bit::PC),
        0x13u8 => (inc_rr_program(Register16Bit::DE), Register16Bit::PC),
        0x14u8 => (inc_r_program(Register8Bit::D), Register16Bit::PC),
        0x15u8 => (dec_r_program(Register8Bit::D), Register16Bit::PC),
        0x16u8 => (ld_r_n_program(Register8Bit::D), Register16Bit::PC),
        0x17u8 => ((Instruction::NoRead(NoReadInstruction::Rla), Seq::empty()), Register16Bit::PC),
        0x18u8 => ((Instruction::Read(consume_pc_spec(), ReadInstruction::ReadIntoLsb), seq![Instruction::NoRead(NoReadInstruction::Nop), Instruction::NoRead(NoReadInstruction::OffsetPc)]), Register16Bit::WZ),
        0x19u8 => (add_hl_rr_program(Register16Bit::DE), Register16Bit::PC),
        0x1au8 => ((Instruction::Read(ReadAddress::Register { register: Register16Bit::DE, op: OpAfterRead::Unchanged }, ReadInstruction::ReadIntoLsb), seq![Instruction::NoRead(NoReadInstruction::Store8Bit(Register8Bit::A))]), Register16Bit::PC),
        0x1bu8 => (dec_rr_program(Register16Bit::DE), Register16Bit::PC),
        0x1cu8 => (inc_r_program(Register8Bit::E), Register16Bit::PC),
        0x1du8 => (dec_r_program(Register8Bit::E), Register16Bit::PC),
        0x1eu8 => (ld_r_n_program(Register8Bit::E), Register16Bit::PC),
        0x1fu8 => ((Instruction::NoRead(NoReadInstruction::Rra), Seq::empty()), Register16Bit::PC),
        0x20u8 => (jr_cc_e_program(Condition { flag: Flag::Z, not: true }), Register16Bit::PC),
        0x21u8 => (ld_rr_n_program(Register16Bit::HL), Register16Bit::PC),
        0x22u8 => ((Instruction::NoRead(NoReadInstruction::LoadToAddressHlFromAInc), seq![Instruction::NoRead(NoReadInstruction::Nop)]), Register16Bit::PC),
        0x23u8 => (inc_rr_program(Register16Bit::HL), Register16Bit::PC),
        0x24u8 => (inc_r_program(Register8Bit::H), Register16Bit::PC),
        0x25u8 => (dec_r_program(Register8Bit::H), Register16Bit::PC),
        0x26u8 => (ld_r_n_program(Register8Bit::H), Register16Bit::PC),
        0x27u8 => ((Instruction::NoRead(NoReadInstruction::Daa), Seq::empty()), Register16Bit::PC),
        0x28u8 => (jr_cc_e_program(Condition { flag: Flag::Z, not: false }), Register16Bit::PC),
        0x29u8 => (add_hl_rr_program(Register16Bit::HL), Register16Bit::PC),
        0x2au8 => ((Instruction::Read(ReadAddress::Register { register: Register16Bit::HL, op: OpAfterRead::Inc }, ReadInstruction::ReadIntoLsb), seq![Instruction::NoRead(NoReadInstruction::Store8Bit(Register8Bit::A))]), Register16Bit::PC),
        0x2bu8 => (dec_rr_program(Register16Bit::HL), Register16Bit::PC),
        0x2cu8 => (inc_r_program(Register8Bit::L), Register16Bit::PC),
        0x2du8 => (dec_r_program(Register8Bit::L), Register16Bit::PC),
        0x2eu8 => (ld_r_n_program(Register8Bit::L), Register16Bit::PC),
        0x2fu8 => ((Instruction::NoRead(NoReadInstruction::Cpl), Seq::empty()), Register16Bit::PC),
        0x30u8 => (jr_cc_e_program(Condition { flag: Flag::C, not: true }), Register16Bit::PC),
        0x31u8 => (ld_rr_n_program(Register16Bit::SP), Register16Bit::PC),
        0x32u8 => ((Instruction::NoRead(NoReadInstruction::LoadToAddressHlFromADec), seq![Instruction::NoRead(NoReadInstruction::Nop)]), Register16Bit::PC),
        0x33u8 => (inc_rr_program(Register16Bit::SP), Register16Bit::PC),
        0x34u8 => ((Instruction::Read(ReadAddress::Register { register: Register16Bit::HL, op: OpAfterRead::Unchanged }, ReadInstruction::ReadIntoLsb), seq![Instruction::NoRead(NoReadInstruction::Nop), Instruction::NoRead(NoReadInstruction::IncHl)]), Register16Bit::PC),
        0x35u8 => ((Instruction::Read(ReadAddress::Register { register: Register16Bit::HL, op: OpAfterRead::Unchanged }, ReadInstruction::ReadIntoLsb), seq![Instruction::NoRead(NoReadInstruction::Nop), Instruction::NoRead(NoReadInstruction::DecHl)]), Register16Bit::PC),
        0x36u8 => ((Instruction::Read(consume_pc_spec(), ReadInstruction::ReadIntoLsb), seq![Instruction::NoRead(NoReadInstruction::Nop), Instruction::NoRead(NoReadInstruction::LoadToAddressHlN)]), Register16Bit::PC),
        0x37u8 => ((Instruction::NoRead(NoReadInstruction::Scf), Seq::empty()), Register16Bit::PC),
        0x38u8 => (jr_cc_e_program(Condition { flag: Flag::C, not: false }), Register16Bit::PC),
        0x39u8 => (add_hl_rr_program(Register16Bit::SP), Register16Bit::PC),
        0x3au8 => ((Instruction::Read(ReadAddress::Register { register: Register16Bit::HL, op: OpAfterRead::Dec }, ReadInstruction::ReadIntoLsb), seq![Instruction::NoRead(NoReadInstruction::Store8Bit(Register8Bit::A))]), Register16Bit::PC),
        0x3bu8 => (dec_rr_program(Register16Bit::SP), Register16Bit::PC),
        0x3cu8 => (inc_r_program(Register8Bit::A), Register16Bit::PC),
        0x3du8 => (dec_r_program(Register8Bit::A), Register16Bit::PC),
        0x3eu8 => (ld_r_n_program(Register8Bit::A), Register16Bit::PC),
        0x3fu8 => ((Instruction::NoRead(NoReadInstruction::Ccf), Seq::empty()), Register16Bit::PC),
        0x40u8 => (ld_r_r_program(Register8Bit::B, Register8Bit::B), Register16Bit::PC),
        0x41u8 => (ld_r_r_program(Register8Bit::B, Register8Bit::C), Register16Bit::PC),
        0x42u8 => (ld_r_r_program(Register8Bit::B, Register8Bit::D), Register16Bit::PC),
        0x43u8 => (ld_r_r_program(Register8Bit::B, Register8Bit::E), Register16Bit::PC),
        0x44u8 => (ld_r_r_program(Register8Bit::B, Register8Bit::H), Register16Bit::PC),
        0x45u8 => (ld_r_r_program(Register8Bit::B, Register8Bit::L), Register16Bit::PC),
        0x46u8 => (ld_r_hl_program(Register8Bit::B), Register16Bit::PC),
        0x47u8 => (ld_r_r_program(Register8Bit::B, Register8Bit::A), Register16Bit::PC),
        0x48u8 => (ld_r_r_program(Register8Bit::C, Register8Bit::B), Register16Bit::PC),
        0x49u8 => (ld_r_r_program(Register8Bit::C, Register8Bit::C), Register16Bit::PC),
        0x4au8 => (ld_r_r_program(Register8Bit::C, Register8Bit::D), Register16Bit::PC),
        0x4bu8 => (ld_r_r_program(Register8Bit::C, Register8Bit::E), Register16Bit::PC),
        0x4cu8 => (ld_r_r_program(Register8Bit::C, Register8Bit::H), Register16Bit::PC),
        0x4du8 => (ld_r_r_program(Register8Bit::C, Register8Bit::L), Register16Bit::PC),
        0x4eu8 => (ld_r_hl_program(Register8Bit::C), Register16Bit::PC),
        0x4fu8 => (ld_r_r_program(Register8Bit::C, Register8Bit::A), Register16Bit::PC),
        0x50u8 => (ld_r_r_program(Register8Bit::D, Register8Bit::B), Register16Bit::PC),
        0x51u8 => (ld_r_r_program(Register8Bit::D, Register8Bit::C), Register16Bit::PC),
        0x52u8 => (ld_r_r_program(Register8Bit::D, Register8Bit::D), Register16Bit::PC),
        0x53u8 => (ld_r_r_program(Register8Bit::D, Register8Bit::E), Register16Bit::PC),
        0x54u8 => (ld_r_r_program(Register8Bit::D, Register8Bit::H), Register16Bit::PC),
        0x55u8 => (ld_r_r_program(Register8Bit::D, Register8Bit::L), Register16Bit::PC),
        0x56u8 => (ld_r_hl_program(Register8Bit::D), Register16Bit::PC),
        0x57u8 => (ld_r_r_program(Register8Bit::D, Register8Bit::A), Register16Bit::PC),
        0x58u8 => (ld_r_r_program(Register8Bit::E, Register8Bit::B), Register16Bit::PC),
        0x59u8 => (ld_r_r_program(Register8Bit::E, Register8Bit::C), Register16Bit::PC),
        0x5au8 => (ld_r_r_program(Register8Bit::E, Register8Bit::D), Register16Bit::PC),
        0x5bu8 => (ld_r_r_program(Register8Bit::E, Register8Bit::E), Register16Bit::PC),
        0x5cu8 => (ld_r_r_program(Register8Bit::E, Register8Bit::H), Register16Bit::PC),
        0x5du8 => (ld_r_r_program(Register8Bit::E, Register8Bit::L), Register16Bit::PC),
        0x5eu8 => (ld_r_hl_program(Register8Bit::E), Register16Bit::PC),
        0x5fu8 => (ld_r_r_program(Register8Bit::E, Register8Bit::A), Register16Bit::PC),
        0x60u8 => (ld_r_r_program(Register8Bit::H, Register8Bit::B), Register16Bit::PC),
        0x61u8 => (ld_r_r_program(Register8Bit::H, Register8Bit::C), Register16Bit::PC),
        0x62u8 => (ld_r_r_program(Register8Bit::H, Register8Bit::D), Register16Bit::PC),
        0x63u8 => (ld_r_r_program(Register8Bit::H, Register8Bit::E), Register16Bit::PC),
        0x64u8 => (ld_r_r_program(Register8Bit::H, Register8Bit::H), Register16Bit::PC),
        0x65u8 => (ld_r_r_program(Register8Bit::H, Register8Bit::L), Register16Bit::PC),
        0x66u8 => (ld_r_hl_program(Register8Bit::H), Register16Bit::PC),
        0x67u8 => (ld_r_r_program(Register8Bit::H, Register8Bit::A), Register16Bit::PC),
        0x68u8 => (ld_r_r_program(Register8Bit::L, Register8Bit::B), Register16Bit::PC),
        0x69u8 => (ld_r_r_program(Register8Bit::L, Register8Bit::C), Register16Bit::PC),
        0x6au8 => (ld_r_r_program(Register8Bit::L, Register8Bit::D), Register16Bit::PC),
        0x6bu8 => (ld_r_r_program(Register8Bit::L, Register8Bit::E), Register16Bit::PC),
        0x6cu8 => (ld_r_r_program(Register8Bit::L, Register8Bit::H), Register16Bit::PC),
        0x6du8 => (ld_r_r_program(Register8Bit::L, Register8Bit::L), Register16Bit::PC),
        0x6eu8 => (ld_r_hl_program(Register8Bit::L), Register16Bit::PC),
        0x6fu8 => (ld_r_r_program(Register8Bit::L, Register8Bit::A), Register16Bit::PC),
        0x70u8 => (ld_rr_r_program(Register16Bit::HL, Register8Bit::B), Register16Bit::PC),
        0x71u8 => (ld_rr_r_program(Register16Bit::HL, Register8Bit::C), Register16Bit::PC),
        0x72u8 => (ld_rr_r_program(Register16Bit::HL, Register8Bit::D), Register16Bit::PC),
        0x73u8 => (ld_rr_r_program(Register16Bit::HL, Register8Bit::E), Register16Bit::PC),
        0x74u8 => (ld_rr_r_program(Register16Bit::HL, Register8Bit::H), Register16Bit::PC),
        0x75u8 => (ld_rr_r_program(Register16Bit::HL, Register8Bit::L), Register16Bit::PC),
        0x76u8 => ((Instruction::NoRead(NoReadInstruction::Halt), Seq::empty()), Register16Bit::PC),
        0x77u8 => (ld_rr_r_program(Register16Bit::HL, Register8Bit::A), Register16Bit::PC),
        0x78u8 => (ld_r_r_program(Register8Bit::A, Register8Bit::B), Register16Bit::PC),
        0x79u8 => (ld_r_r_program(Register8Bit::A, Register8Bit::C), Register16Bit::PC),
        0x7au8 => (ld_r_r_program(Register8Bit::A, Register8Bit::D), Register16Bit::PC),
        0x7bu8 => (ld_r_r_program(Register8Bit::A, Register8Bit::E), Register16Bit::PC),
        0x7cu8 => (ld_r_r_program(Register8Bit::A, Register8Bit::H), Register16Bit::PC),
        0x7du8 => (ld_r_r_program(Register8Bit::A, Register8Bit::L), Register16Bit::PC),
        0x7eu8 => (ld_r_hl_program(Register8Bit::A), Register16Bit::PC),
        0x7fu8 => (ld_r_r_program(Register8Bit::A, Register8Bit::A), Register16Bit::PC),
        0x80u8 => (add_r_program(Register8Bit::B), Register16Bit::PC),
        0x81u8 => (add_r_program(Register8Bit::C), Register16Bit::PC),
        0x82u8 => (add_r_program(Register8Bit::D), Register16Bit::PC),
        0x83u8 => (add_r_program(Register8Bit::E), Register16Bit::PC),
        0x84u8 => (add_r_program(Register8Bit::H), Register16Bit::PC),
        0x85u8 => (add_r_program(Register8Bit::L), Register16Bit::PC),
        0x86u8 => ((Instruction::Read(ReadAddress::Register { register: Register16Bit::HL, op: OpAfterRead::Unchanged }, ReadInstruction::ReadIntoLsb), seq![Instruction::NoRead(NoReadInstruction::Add8Bit(Register8Bit::Z))]), Register16Bit::PC),
        0x87u8 => (add_r_program(Register8Bit::A), Register16Bit::PC),
        0x88u8 => (adc_r_program(Register8Bit::B), Register16Bit::PC),
        0x89u8 => (adc_r_program(Register8Bit::C), Register16Bit::PC),
        0x8au8 => (adc_r_program(Register8Bit::D), Register16Bit::PC),
        0x8bu8 => (adc_r_program(Register8Bit::E), Register16Bit::PC),
        0x8cu8 => (adc_r_program(Register8Bit::H), Register16Bit::PC),
        0x8du8 => (adc_r_program(Register8Bit::L), Register16Bit::PC),
        0x8eu8 => ((Instruction::Read(ReadAddress::Register { register: Register16Bit::HL, op: OpAfterRead::Unchanged }, ReadInstruction::ReadIntoLsb), seq![Instruction::NoRead(NoReadInstruction::Adc8Bit(Register8Bit::Z))]), Register16Bit::PC),
        0x8fu8 => (adc_r_program(Register8Bit::A), Register16Bit::PC),
        0x90u8 => (sub_r_program(Register8Bit::B), Register16Bit::PC),
        0x91u8 => (sub_r_program(Register8Bit::C), Register16Bit::PC),
        0x92u8 => (sub_r_program(Register8Bit::D), Register16Bit::PC),
        0x93u8 => (sub_r_program(Register8Bit::E), Register16Bit::PC),
        0x94u8 => (sub_r_program(Register8Bit::H), Register16Bit::PC),
        0x95u8 => (sub_r_program(Register8Bit::L), Register16Bit::PC),
        0x96u8 => ((Instruction::Read(ReadAddress::Register { register: Register16Bit::HL, op: OpAfterRead::Unchanged }, ReadInstruction::ReadIntoLsb), seq![Instruction::NoRead(NoReadInstruction::Sub8Bit(Register8Bit::Z))]), Register16Bit::PC),
        0x97u8 => (sub_r_program(Register8Bit::A), Register16Bit::PC),
        0x98u8 => (sbc_r_program(Register8Bit::B), Register16Bit::PC),
        0x99u8 => (sbc_r_program(Register8Bit::C), Register16Bit::PC),
        0x9au8 => (sbc_r_program(Register8Bit::D), Register16Bit::PC),
        0x9bu8 => (sbc_r_program(Register8Bit::E), Register16Bit::PC),
        0x9cu8 => (sbc_r_program(Register8Bit::H), Register16Bit::PC),
        0x9du8 => (sbc_r_program(Register8Bit::L), Register16Bit::PC),
        0x9eu8 => ((Instruction::Read(ReadAddress::Register { register: Register16Bit::HL, op: OpAfterRead::Unchanged }, ReadInstruction::ReadIntoLsb), seq![Instruction::NoRead(NoReadInstruction::Sbc8Bit(Register8Bit::Z))]), Register16Bit::PC),
        0x9fu8 => (sbc_r_program(Register8Bit::A), Register16Bit::PC),
        0xa0u8 => (and_r_program(Register8Bit::B), Register16Bit::PC),
        0xa1u8 => (and_r_program(Register8Bit::C), Register16Bit::PC),
        0xa2u8 => (and_r_program(Register8Bit::D), Register16Bit::PC),
        0xa3u8 => (and_r_program(Register8Bit::E), Register16Bit::PC),
        0xa4u8 => (and_r_program(Register8Bit::H), Register16Bit::PC),
        0xa5u8 => (and_r_program(Register8Bit::L), Register16Bit::PC),
        0xa6u8 => ((Instruction::Read(ReadAddress::Register { register: Register16Bit::HL, op: OpAfterRead::Unchanged }, ReadInstruction::ReadIntoLsb), seq![Instruction::NoRead(NoReadInstruction::And8Bit(Register8Bit::Z))]), Register16Bit::PC),
        0xa7u8 => (and_r_program(Register8Bit::A), Register16Bit::PC),
        0xa8u8 => (xor_r_program(Register8Bit::B), Register16Bit::PC),
        0xa9u8 => (xor_r_program(Register8Bit::C), Register16Bit::PC),
        0xaau8 => (xor_r_program(Register8Bit::D), Register16Bit::PC),
        0xabu8 => (xor_r_program(Register8Bit::E), Register16Bit::PC),
        0xacu8 => (xor_r_program(Register8Bit::H), Register16Bit::PC),
        0xadu8 => (xor_r_program(Register8Bit::L), Register16Bit::PC),
        0xaeu8 => ((Instruction::Read(ReadAddress::Register { register: Register16Bit::HL, op: OpAfterRead::Unchanged }, ReadInstruction::ReadIntoLsb), seq![Instruction::NoRead(NoReadInstruction::Xor8Bit(Register8Bit::Z))]), Register16Bit::PC),
        0xafu8 => (xor_r_program(Register8Bit::A), Register16Bit::PC),
        0xb0u8 => (or_r_program(Register8Bit::B), Register16Bit::PC),
        0xb1u8 => (or_r_program(Register8Bit::C), Register16Bit::PC),
        0xb2u8 => (or_r_program(Register8Bit::D), Register16Bit::PC),
        0xb3u8 => (or_r_program(Register8Bit::E), Register16Bit::PC),
        0xb4u8 => (or_r_program(Register8Bit::H), Register16Bit::PC),
        0xb5u8 => (or_r_program(Register8Bit::L), Register16Bit::PC),
        0xb6u8 => ((Instruction::Read(ReadAddress::Register { register: Register16Bit::HL, op: OpAfterRead::Unchanged }, ReadInstruction::ReadIntoLsb), seq![Instruction::NoRead(NoReadInstruction::Or8Bit(Register8Bit::Z))]), Register16Bit::PC),
        0xb7u8 => (or_r_program(Register8Bit::A), Register16Bit::PC),
        0xb8u8 => (cp_r_program(Register8Bit::B), Register16Bit::PC),
        0xb9u8 => (cp_r_program(Register8Bit::C), Register16Bit::PC),
        0xbau8 => (cp_r_program(Register8Bit::D), Register16Bit::PC),
        0xbbu8 => (cp_r_program(Register8Bit::E), Register16Bit::PC),
        0xbcu8 => (cp_r_program(Register8Bit::H), Register16Bit::PC),
        0xbdu8 => (cp_r_program(Register8Bit::L), Register16Bit::PC),
        0xbeu8 => ((Instruction::Read(ReadAddress::Register { register: Register16Bit::HL, op: OpAfterRead::Unchanged }, ReadInstruction::ReadIntoLsb), seq![Instruction::NoRead(NoReadInstruction::Cp8Bit(Register8Bit::Z))]), Register16Bit::PC),
        0xbfu8 => (cp_r_program(Register8Bit::A), Register16Bit::PC),
        0xc0u8 => (ret_cc_program(Condition { flag: Flag::Z, not: true }), Register16Bit::PC),
        0xc1u8 => (pop_rr_program(Register16Bit::BC), Register16Bit::PC),
        0xc2u8 => (jp_cc_nn_program(Condition { flag: Flag::Z, not: true }), Register16Bit::PC),
        0xc3u8 => ((Instruction::Read(consume_pc_spec(), ReadInstruction::ReadIntoLsb), seq![Instruction::NoRead(NoReadInstruction::Nop), Instruction::NoRead(NoReadInstruction::Store16Bit(Register16Bit::PC)), Instruction::Read(consume_pc_spec(), ReadInstruction::ReadIntoMsb)]), Register16Bit::PC),
        0xc4u8 => (call_cc_nn_program(Condition { flag: Flag::Z, not: true }), Register16Bit::PC),
        0xc5u8 => (push_rr_program(Register16Bit::BC), Register16Bit::PC),
        0xc6u8 => ((Instruction::Read(consume_pc_spec(), ReadInstruction::ReadIntoLsb), seq![Instruction::NoRead(NoReadInstruction::Add8Bit(Register8Bit::Z))]), Register16Bit::PC),
        0xc7u8 => (rst_n_program(0), Register16Bit::PC),
        0xc8u8 => (ret_cc_program(Condition { flag: Flag::Z, not: false }), Register16Bit::PC),
        0xc9u8 => ((Instruction::Read(pop_sp_spec(), ReadInstruction::ReadIntoLsb), seq![Instruction::NoRead(NoReadInstruction::Nop), Instruction::NoRead(NoReadInstruction::Store16Bit(Register16Bit::PC)), Instruction::Read(pop_sp_spec(), ReadInstruction::ReadIntoMsb)]), Register16Bit::PC),
        0xcau8 => (jp_cc_nn_program(Condition { flag: Flag::Z, not: false }), Register16Bit::PC),
        0xcbu8 => ((Instruction::NoRead(NoReadInstruction::CbMode), Seq::empty()), Register16Bit::PC),
        0xccu8 => (call_cc_nn_program(Condition { flag: Flag::Z, not: false }), Register16Bit::PC),
        0xcdu8 => ((Instruction::Read(consume_pc_spec(), ReadInstruction::ReadIntoLsb), seq![Instruction::NoRead(NoReadInstruction::Nop), Instruction::NoRead(NoReadInstruction::WriteLsbPcWhereSpPointsAndLoadCacheToPc), Instruction::NoRead(NoReadInstruction::WriteMsbOfRegisterWhereSpPointsAndDecSp(Register16Bit::PC)), Instruction::NoRead(NoReadInstruction::DecStackPointer), Instruction::Read(consume_pc_spec(), ReadInstruction::ReadIntoMsb)]), Register16Bit::PC),
        0xceu8 => ((Instruction::Read(consume_pc_spec(), ReadInstruction::ReadIntoLsb), seq![Instruction::NoRead(NoReadInstruction::Adc8Bit(Register8Bit::Z))]), Register16Bit::PC),
        0xcfu8 => (rst_n_program(0x08), Register16Bit::PC),
        0xd0u8 => (ret_cc_program(Condition { flag: Flag::C, not: true }), Register16Bit::PC),
        0xd1u8 => (pop_rr_program(Register16Bit::DE), Register16Bit::PC),
        0xd2u8 => (jp_cc_nn_program(Condition { flag: Flag::C, not: true }), Register16Bit::PC),
        0xd4u8 => (call_cc_nn_program(Condition { flag: Flag::C, not: true }), Register16Bit::PC),
        0xd5u8 => (push_rr_program(Register16Bit::DE), Register16Bit::PC),
        0xd6u8 => ((Instruction::Read(consume_pc_spec(), ReadInstruction::ReadIntoLsb), seq![Instruction::NoRead(NoReadInstruction::Sub8Bit(Register8Bit::Z))]), Register16Bit::PC),
        0xd7u8 => (rst_n_program(0x10), Register16Bit::PC),
        0xd8u8 => (ret_cc_program(Condition { flag: Flag::C, not: false }), Register16Bit::PC),
        0xd9u8 => ((Instruction::Read(pop_sp_spec(), ReadInstruction::ReadIntoLsb), seq![Instruction::NoRead(NoReadInstruction::Nop), Instruction::NoRead(NoReadInstruction::Reti), Instruction::Read(pop_sp_spec(), ReadInstruction::ReadIntoMsb)]), Register16Bit::PC),
        0xdau8 => (jp_cc_nn_program(Condition { flag: Flag::C, not: false }), Register16Bit::PC),
        0xdcu8 => (call_cc_nn_program(Condition { flag: Flag::C, not: false }), Register16Bit::PC),
        0xdeu8 => ((Instruction::Read(consume_pc_spec(), ReadInstruction::ReadIntoLsb), seq![Instruction::NoRead(NoReadInstruction::Sbc8Bit(Register8Bit::Z))]), Register16Bit::PC),
        0xdfu8 => (rst_n_program(0x18), Register16Bit::PC),
        0xe0u8 => ((Instruction::Read(consume_pc_spec(), ReadInstruction::ReadIntoLsb), seq![Instruction::NoRead(NoReadInstruction::Nop), Instruction::NoRead(NoReadInstruction::LoadFromAccumulator(None))]), Register16Bit::PC),
        0xe1u8 => (pop_rr_program(Register16Bit::HL), Register16Bit::PC),
        0xe2u8 => ((Instruction::NoRead(NoReadInstruction::LoadFromAccumulator(Some(Register8Bit::C))), seq![Instruction::NoRead(NoReadInstruction::Nop)]), Register16Bit::PC),
        0xe5u8 => (push_rr_program(Register16Bit::HL), Register16Bit::PC),
        0xe6u8 => ((Instruction::Read(consume_pc_spec(), ReadInstruction::ReadIntoLsb), seq![Instruction::NoRead(NoReadInstruction::And8Bit(Register8Bit::Z))]), Register16Bit::PC),
        0xe7u8 => (rst_n_program(0x20), Register16Bit::PC),
        0xe8u8 => ((Instruction::Read(consume_pc_spec(), ReadInstruction::ReadIntoLsb), seq![Instruction::NoRead(NoReadInstruction::Nop), Instruction::NoRead(NoReadInstruction::Nop), Instruction::NoRead(NoReadInstruction::AddSpE)]), Register16Bit::PC),
        0xe9u8 => ((Instruction::NoRead(NoReadInstruction::Nop), Seq::empty()), Register16Bit::HL),
        0xeau8 => ((Instruction::Read(consume_pc_spec(), ReadInstruction::ReadIntoLsb), seq![Instruction::NoRead(NoReadInstruction::Nop), Instruction::NoRead(NoReadInstruction::LoadToCachedAddressFromA), Instruction::Read(consume_pc_spec(), ReadInstruction::ReadIntoMsb)]), Register16Bit::PC),
        0xeeu8 => ((Instruction::Read(consume_pc_spec(), ReadInstruction::ReadIntoLsb), seq![Instruction::NoRead(NoReadInstruction::Xor8Bit(Register8Bit::Z))]), Register16Bit::PC),
        0xefu8 => (rst_n_program(0x28), Register16Bit::PC),
        0xf0u8 => ((Instruction::Read(consume_pc_spec(), ReadInstruction::ReadIntoLsb), seq![Instruction::NoRead(NoReadInstruction::Store8Bit(Register8Bit::A)), Instruction::Read(ReadAddress::Accumulator, ReadInstruction::ReadIntoLsb)]), Register16Bit::PC),
        0xf1u8 => (pop_rr_program(Register16Bit::AF), Register16Bit::PC),
        0xf2u8 => ((Instruction::Read(ReadAddress::Accumulator8Bit(Register8Bit::C), ReadInstruction::ReadIntoLsb), seq![Instruction::NoRead(NoReadInstruction::Store8Bit(Register8Bit::A))]), Register16Bit::PC),
        0xf3u8 => ((Instruction::NoRead(NoReadInstruction::Di), Seq::empty()), Register16Bit::PC),
        0xf5u8 => (push_rr_program(Register16Bit::AF), Register16Bit::PC),
        0xf6u8 => ((Instruction::Read(consume_pc_spec(), ReadInstruction::ReadIntoLsb), seq![Instruction::NoRead(NoReadInstruction::Or8Bit(Register8Bit::Z))]), Register16Bit::PC),
        0xf7u8 => (rst_n_program(0x30), Register16Bit::PC),
        0xf8u8 => ((Instruction::Read(consume_pc_spec(), ReadInstruction::ReadIntoLsb), seq![Instruction::NoRead(NoReadInstruction::LoadHlFromAdjustedStackPointerSecond), Instruction::NoRead(NoReadInstruction::LoadHlFromAdjustedStackPointerFirst)]), Register16Bit::PC),
        0xf9u8 => ((Instruction::NoRead(NoReadInstruction::LdSpHl), seq![Instruction::NoRead(NoReadInstruction::Nop)]), Register16Bit::PC),
        0xfau8 => ((Instruction::Read(consume_pc_spec(), ReadInstruction::ReadIntoLsb), seq![Instruction::NoRead(NoReadInstruction::Store8Bit(Register8Bit::A)), Instruction::Read(ReadAddress::Register { register: Register16Bit::WZ, op: OpAfterRead::Unchanged }, ReadInstruction::ReadIntoLsb), Instruction::Read(consume_pc_spec(), ReadInstruction::ReadIntoMsb)]), Register16Bit::PC),
        0xfbu8 => ((Instruction::NoRead(NoReadInstruction::Ei), Seq::empty()), Register16Bit::PC),
        0xfeu8 => ((Instruction::Read(consume_pc_spec(), ReadInstruction::ReadIntoLsb), seq![Instruction::NoRead(NoReadInstruction::Cp8Bit(Register8Bit::Z))]), Register16Bit::PC),
        0xffu8 => (rst_n_program(0x38), Register16Bit::PC),
        _ => ((Instruction::NoRead(NoReadInstruction::Nop), Seq::empty()), Register16Bit::PC),
    }
}

#[verifier::rlimit(40)]
fn get_instructions_00_3f(opcode: u8) -> (r: InstructionsAndSetPc)
    requires
        0x00 <= opcode <= 0x3f,
        !is_illegal_opcode(opcode),
    ensures
        (program_of(r.0), r.1.0) == opcode_program(opcode),
{
    let instructions = match opcode {
        0x00 => (Instruction::NoRead(NoReadInstruction::Nop), instruction_buffer_new()),
        0x01 => ld_rr_n(Register16Bit::BC),
        0x02 => (Instruction::NoRead(NoReadInstruction::LoadToAddressFromRegister { address: Register16Bit::BC, value: Register8Bit::A }), vec([Instruction::NoRead(NoReadInstruction::Nop)])),
        0x03 => inc_rr(Register16Bit::BC),
        0x04 => inc_r(Register8Bit::B),
        0x05 => dec_r(Register8Bit::B),
        0x06 => ld_r_n(Register8Bit::B),
        0x07 => (Instruction::NoRead(NoReadInstruction::Rlca), instruction_buffer_new()),
        0x08 => (Instruction::Read(consume_pc(), ReadInstruction::ReadIntoLsb), vec([Instruction::NoRead(NoReadInstruction::Nop), Instruction::NoRead(NoReadInstruction::WriteMsbSpToCachedAddress), Instruction::NoRead(NoReadInstruction::WriteLsbSpToCachedAddressAndIncCachedAddress), Instruction::Read(consume_pc(), ReadInstruction::ReadIntoMsb)])),
        0x09 => add_hl_rr(Register16Bit::BC),
        0x0a => (Instruction::Read(ReadAddress::Register { register: Register16Bit::BC, op: OpAfterRead::Unchanged }, ReadInstruction::ReadIntoLsb), vec([Instruction::NoRead(NoReadInstruction::Store8Bit(Register8Bit::A))])),
        0x0b => dec_rr(Register16Bit::BC),
        0x0c => inc_r(Register8Bit::C),
        0x0d => dec_r(Register8Bit::C),
        0x0e => ld_r_n(Register8Bit::C),
        0x0f => (Instruction::NoRead(NoReadInstruction::Rrca), instruction_buffer_new()),
        0x10 => (Instruction::NoRead(NoReadInstruction::Stop), instruction_buffer_new()),
        0x11 => ld_rr_n(Register16Bit::DE),
        0x12 => ld_rr_r(Register16Bit::DE, Register8Bit::A),
        0x13 => inc_rr(Register16Bit::DE),
        0x14 => inc_r(Register8Bit::D),
        0x15 => dec_r(Register8Bit::D),
        0x16 => ld_r_n(Register8Bit::D),
        0x17 => (Instruction::NoRead(NoReadInstruction::Rla), instruction_buffer_new()),
        0x18 => {
            return InstructionsAndSetPc((Instruction::Read(consume_pc(), ReadInstruction::ReadIntoLsb), vec([Instruction::NoRead(NoReadInstruction::Nop), Instruction::NoRead(NoReadInstruction::OffsetPc)])), SetPc(Register16Bit::WZ));
        },
        0x19 => add_hl_rr(Register16Bit::DE),
        0x1a => (Instruction::Read(ReadAddress::Register { register: Register16Bit::DE, op: OpAfterRead::Unchanged }, ReadInstruction::ReadIntoLsb), vec([Instruction::NoRead(NoReadInstruction::Store8Bit(Register8Bit::A))])),
        0x1b => dec_rr(Register16Bit::DE),
        0x1c => inc_r(Register8Bit::E),
        0x1d => dec_r(Register8Bit::E),
        0x1e => ld_r_n(Register8Bit::E),
        0x1f => (Instruction::NoRead(NoReadInstruction::Rra), instruction_buffer_new()),
        0x20 => jr_cc_e(Condition { flag: Flag::Z, not: true }),
        0x21 => ld_rr_n(Register16Bit::HL),
        0x22 => (Instruction::NoRead(NoReadInstruction::LoadToAddressHlFromAInc), vec([Instruction::NoRead(NoReadInstruction::Nop)])),
        0x23 => inc_rr(Register16Bit::HL),
        0x24 => inc_r(Register8Bit::H),
        0x25 => dec_r(Register8Bit::H),
        0x26 => ld_r_n(Register8Bit::H),
        0x27 => (Instruction::NoRead(NoReadInstruction::Daa), instruction_buffer_new()),
        0x28 => jr_cc_e(Condition { flag: Flag::Z, not: false }),
        0x29 => add_hl_rr(Register16Bit::HL),
        0x2a => (Instruction::Read(ReadAddress::Register { register: Register16Bit::HL, op: OpAfterRead::Inc }, ReadInstruction::ReadIntoLsb), vec([Instruction::NoRead(NoReadInstruction::Store8Bit(Register8Bit::A))])),
        0x2b => dec_rr(Register16Bit::HL),
        0x2c => inc_r(Register8Bit::L),
        0x2d => dec_r(Register8Bit::L),
        0x2e => ld_r_n(Register8Bit::L),
        0x2f => (Instruction::NoRead(NoReadInstruction::Cpl), instruction_buffer_new()),
        0x30 => jr_cc_e(Condition { flag: Flag::C, not: true }),
        0x31 => ld_rr_n(Register16Bit::SP),
        0x32 => (Instruction::NoRead(NoReadInstruction::LoadToAddressHlFromADec), vec([Instruction::NoRead(NoReadInstruction::Nop)])),
        0x33 => inc_rr(Register16Bit::SP),
        0x34 => (Instruction::Read(ReadAddress::Register { register: Register16Bit::HL, op: OpAfterRead::Unchanged }, ReadInstruction::ReadIntoLsb), vec([Instruction::NoRead(NoReadInstruction::Nop), Instruction::NoRead(NoReadInstruction::IncHl)])),
        0x35 => (Instruction::Read(ReadAddress::Register { register: Register16Bit::HL, op: OpAfterRead::Unchanged }, ReadInstruction::ReadIntoLsb), vec([Instruction::NoRead(NoReadInstruction::Nop), Instruction::NoRead(NoReadInstruction::DecHl)])),
        0x36 => (Instruction::Read(consume_pc(), ReadInstruction::ReadIntoLsb), vec([Instruction::NoRead(NoReadInstruction::Nop), Instruction::NoRead(NoReadInstruction::LoadToAddressHlN)])),
        0x37 => (Instruction::NoRead(NoReadInstruction::Scf), instruction_buffer_new()),
        0x38 => jr_cc_e(Condition { flag: Flag::C, not: false }),
        0x39 => add_hl_rr(Register16Bit::SP),
        0x3a => (Instruction::Read(ReadAddress::Register { register: Register16Bit::HL, op: OpAfterRead::Dec }, ReadInstruction::ReadIntoLsb), vec([Instruction::NoRead(NoReadInstruction::Store8Bit(Register8Bit::A))])),
        0x3b => dec_rr(Register16Bit::SP),
        0x3c => inc_r(Register8Bit::A),
        0x3d => dec_r(Register8Bit::A),
        0x3e => ld_r_n(Register8Bit::A),
        0x3f => (Instruction::NoRead(NoReadInstruction::Ccf), instruction_buffer_new()),
        _ => (Instruction::NoRead(NoReadInstruction::Nop), instruction_buffer_new()),
    };
    InstructionsAndSetPc(instructions, SetPc(Register16Bit::PC))
}

#[verifier::rlimit(40)]
fn get_instructions_40_7f(opcode: u8) -> (r: InstructionsAndSetPc)
    requires
        0x40 <= opcode <= 0x7f,
        !is_illegal_opcode(opcode),
    ensures
        (program_of(r.0), r.1.0) == opcode_program(opcode),
{
    let instructions = match opcode {
        0x40 => ld_r_r(Register8Bit::B, Register8Bit::B),
        0x41 => ld_r_r(Register8Bit::B, Register8Bit::C),
        0x42 => ld_r_r(Register8Bit::B, Register8Bit::D),
        0x43 => ld_r_r(Register8Bit::B, Register8Bit::E),
        0x44 => ld_r_r(Register8Bit::B, Register8Bit::H),
        0x45 => ld_r_r(Register8Bit::B, Register8Bit::L),
        0x46 => ld_r_hl(Register8Bit::B),
        0x47 => ld_r_r(Register8Bit::B, Register8Bit::A),
        0x48 => ld_r_r(Register8Bit::C, Register8Bit::B),
        0x49 => ld_r_r(Register8Bit::C, Register8Bit::C),
        0x4a => ld_r_r(Register8Bit::C, Register8Bit::D),
        0x4b => ld_r_r(Register8Bit::C, Register8Bit::E),
        0x4c => ld_r_r(Register8Bit::C, Register8Bit::H),
        0x4d => ld_r_r(Register8Bit::C, Register8Bit::L),
        0x4e => ld_r_hl(Register8Bit::C),
        0x4f => ld_r_r(Register8Bit::C, Register8Bit::A),
        0x50 => ld_r_r(Register8Bit::D, Register8Bit::B),
        0x51 => ld_r_r(Register8Bit::D, Register8Bit::C),
        0x52 => ld_r_r(Register8Bit::D, Register8Bit::D),
        0x53 => ld_r_r(Register8Bit::D, Register8Bit::E),
        0x54 => ld_r_r(Register8Bit::D, Register8Bit::H),
        0x55 => ld_r_r(Register8Bit::D, Register8Bit::L),
        0x56 => ld_r_hl(Register8Bit::D),
        0x57 => ld_r_r(Register8Bit::D, Register8Bit::A),
        0x58 => ld_r_r(Register8Bit::E, Register8Bit::B),
        0x59 => ld_r_r(Register8Bit::E, Register8Bit::C),
        0x5a => ld_r_r(Register8Bit::E, Register8Bit::D),
        0x5b => ld_r_r(Register8Bit::E, Register8Bit::E),
        0x5c => ld_r_r(Register8Bit::E, Register8Bit::H),
        0x5d => ld_r_r(Register8Bit::E, Register8Bit::L),
        0x5e => ld_r_hl(Register8Bit::E),
        0x5f => ld_r_r(Register8Bit::E, Register8Bit::A),
        0x60 => ld_r_r(Register8Bit::H, Register8Bit::B),
        0x61 => ld_r_r(Register8Bit::H, Register8Bit::C),
        0x62 => ld_r_r(Register8Bit::H, Register8Bit::D),
        0x63 => ld_r_r(Register8Bit::H, Register8Bit::E),
        0x64 => ld_r_r(Register8Bit::H, Register8Bit::H),
        0x65 => ld_r_r(Register8Bit::H, Register8Bit::L),
        0x66 => ld_r_hl(Register8Bit::H),
        0x67 => ld_r_r(Register8Bit::H, Register8Bit::A),
        0x68 => ld_r_r(Register8Bit::L, Register8Bit::B),
        0x69 => ld_r_r(Register8Bit::L, Register8Bit::C),
        0x6a => ld_r_r(Register8Bit::L, Register8Bit::D),
        0x6b => ld_r_r(Register8Bit::L, Register8Bit::E),
        0x6c => ld_r_r(Register8Bit::L, Register8Bit::H),
        0x6d => ld_r_r(Register8Bit::L, Register8Bit::L),
        0x6e => ld_r_hl(Register8Bit::L),
        0x6f => ld_r_r(Register8Bit::L, Register8Bit::A),
        0x70 => ld_rr_r(Register16Bit::HL, Register8Bit::B),
        0x71 => ld_rr_r(Register16Bit::HL, Register8Bit::C),
        0x72 => ld_rr_r(Register16Bit::HL, Register8Bit::D),
        0x73 => ld_rr_r(Register16Bit::HL, Register8Bit::E),
        0x74 => ld_rr_r(Register16Bit::HL, Register8Bit::H),
        0x75 => ld_rr_r(Register16Bit::HL, Register8Bit::L),
        0x76 => (Instruction::NoRead(NoReadInstruction::Halt), instruction_buffer_new()),
        0x77 => ld_rr_r(Register16Bit::HL, Register8Bit::A),
        0x78 => ld_r_r(Register8Bit::A, Register8Bit::B),
        0x79 => ld_r_r(Register8Bit::A, Register8Bit::C),
        0x7a => ld_r_r(Register8Bit::A, Register8Bit::D),
        0x7b => ld_r_r(Register8Bit::A, Register8Bit::E),
        0x7c => ld_r_r(Register8Bit::A, Register8Bit::H),
        0x7d => ld_r_r(Register8Bit::A, Register8Bit::L),
        0x7e => ld_r_hl(Register8Bit::A),
        0x7f => ld_r_r(Register8Bit::A, Register8Bit::A),
        _ => (Instruction::NoRead(NoReadInstruction::Nop), instruction_buffer_new()),
    };
    InstructionsAndSetPc(instructions, SetPc(Register16Bit::PC))
}

#[verifier::rlimit(40)]
fn get_instructions_80_bf(opcode: u8) -> (r: InstructionsAndSetPc)
    requires
        0x80 <= opcode <= 0xbf,
        !is_illegal_opcode(opcode),
    ensures
        (program_of(r.0), r.1.0) == opcode_program(opcode),
{
    let instructions = match opcode {
        0x80 => add_r(Register8Bit::B),
        0x81 => add_r(Register8Bit::C),
        0x82 => add_r(Register8Bit::D),
        0x83 => add_r(Register8Bit::E),
        0x84 => add_r(Register8Bit::H),
        0x85 => add_r(Register8Bit::L),
        0x86 => (Instruction::Read(ReadAddress::Register { register: Register16Bit::HL, op: OpAfterRead::Unchanged }, ReadInstruction::ReadIntoLsb), vec([Instruction::NoRead(NoReadInstruction::Add8Bit(Register8Bit::Z))])),
        0x87 => add_r(Register8Bit::A),
        0x88 => adc_r(Register8Bit::B),
        0x89 => adc_r(Register8Bit::C),
        0x8a => adc_r(Register8Bit::D),
        0x8b => adc_r(Register8Bit::E),
        0x8c => adc_r(Register8Bit::H),
        0x8d => adc_r(Register8Bit::L),
        0x8e => (Instruction::Read(ReadAddress::Register { register: Register16Bit::HL, op: OpAfterRead::Unchanged }, ReadInstruction::ReadIntoLsb), vec([Instruction::NoRead(NoReadInstruction::Adc8Bit(Register8Bit::Z))])),
        0x8f => adc_r(Register8Bit::A),
        0x90 => sub_r(Register8Bit::B),
        0x91 => sub_r(Register8Bit::C),
        0x92 => sub_r(Register8Bit::D),
        0x93 => sub_r(Register8Bit::E),
        0x94 => sub_r(Register8Bit::H),
        0x95 => sub_r(Register8Bit::L),
        0x96 => (Instruction::Read(ReadAddress::Register { register: Register16Bit::HL, op: OpAfterRead::Unchanged }, ReadInstruction::ReadIntoLsb), vec([Instruction::NoRead(NoReadInstruction::Sub8Bit(Register8Bit::Z))])),
        0x97 => sub_r(Register8Bit::A),
        0x98 => sbc_r(Register8Bit::B),
        0x99 => sbc_r(Register8Bit::C),
        0x9a => sbc_r(Register8Bit::D),
        0x9b => sbc_r(Register8Bit::E),
        0x9c => sbc_r(Register8Bit::H),
        0x9d => sbc_r(Register8Bit::L),
        0x9e => (Instruction::Read(ReadAddress::Register { register: Register16Bit::HL, op: OpAfterRead::Unchanged }, ReadInstruction::ReadIntoLsb), vec([Instruction::NoRead(NoReadInstruction::Sbc8Bit(Register8Bit::Z))])),
        0x9f => sbc_r(Register8Bit::A),
        0xa0 => and_r(Register8Bit::B),
        0xa1 => and_r(Register8Bit::C),
        0xa2 => and_r(Register8Bit::D),
        0xa3 => and_r(Register8Bit::E),
        0xa4 => and_r(Register8Bit::H),
        0xa5 => and_r(Register8Bit::L),
        0xa6 => (Instruction::Read(ReadAddress::Register { register: Register16Bit::HL, op: OpAfterRead::Unchanged }, ReadInstruction::ReadIntoLsb), vec([Instruction::NoRead(NoReadInstruction::And8Bit(Register8Bit::Z))])),
        0xa7 => and_r(Register8Bit::A),
        0xa8 => xor_r(Register8Bit::B),
        0xa9 => xor_r(Register8Bit::C),
        0xaa => xor_r(Register8Bit::D),
        0xab => xor_r(Register8Bit::E),
        0xac => xor_r(Register8Bit::H),
        0xad => xor_r(Register8Bit::L),
        0xae => (Instruction::Read(ReadAddress::Register { register: Register16Bit::HL, op: OpAfterRead::Unchanged }, ReadInstruction::ReadIntoLsb), vec([Instruction::NoRead(NoReadInstruction::Xor8Bit(Register8Bit::Z))])),
        0xaf => xor_r(Register8Bit::A),
        0xb0 => or_r(Register8Bit::B),
        0xb1 => or_r(Register8Bit::C),
        0xb2 => or_r(Register8Bit::D),
        0xb3 => or_r(Register8Bit::E),
        0xb4 => or_r(Register8Bit::H),
        0xb5 => or_r(Register8Bit::L),
        0xb6 => (Instruction::Read(ReadAddress::Register { register: Register16Bit::HL, op: OpAfterRead::Unchanged }, ReadInstruction::ReadIntoLsb), vec([Instruction::NoRead(NoReadInstruction::Or8Bit(Register8Bit::Z))])),
        0xb7 => or_r(Register8Bit::A),
        0xb8 => cp_r(Register8Bit::B),
        0xb9 => cp_r(Register8Bit::C),
        0xba => cp_r(Register8Bit::D),
        0xbb => cp_r(Register8Bit::E),
        0xbc => cp_r(Register8Bit::H),
        0xbd => cp_r(Register8Bit::L),
        0xbe => (Instruction::Read(ReadAddress::Register { register: Register16Bit::HL, op: OpAfterRead::Unchanged }, ReadInstruction::ReadIntoLsb), vec([Instruction::NoRead(NoReadInstruction::Cp8Bit(Register8Bit::Z))])),
        0xbf => cp_r(Register8Bit::A),
        _ => (Instruction::NoRead(NoReadInstruction::Nop), instruction_buffer_new()),
    };
    InstructionsAndSetPc(instructions, SetPc(Register16Bit::PC))
}

#[verifier::rlimit(40)]
fn get_instructions_c0_ff(opcode: u8) -> (r: InstructionsAndSetPc)
    requires
        0xc0 <= opcode <= 0xff,
        !is_illegal_opcode(opcode),
    ensures
        (program_of(r.0), r.1.0) == opcode_program(opcode),
{
    let instructions = match opcode {
        0xc0 => ret_cc(Condition { flag: Flag::Z, not: true }),
        0xc1 => pop_rr(Register16Bit::BC),
        0xc2 => jp_cc_nn(Condition { flag: Flag::Z, not: true }),
        0xc3 => (Instruction::Read(consume_pc(), ReadInstruction::ReadIntoLsb), vec([Instruction::NoRead(NoReadInstruction::Nop), Instruction::NoRead(NoReadInstruction::Store16Bit(Register16Bit::PC)), Instruction::Read(consume_pc(), ReadInstruction::ReadIntoMsb)])),
        0xc4 => call_cc_nn(Condition { flag: Flag::Z, not: true }),
        0xc5 => push_rr(Register16Bit::BC),
        0xc6 => (Instruction::Read(consume_pc(), ReadInstruction::ReadIntoLsb), vec([Instruction::NoRead(NoReadInstruction::Add8Bit(Register8Bit::Z))])),
        0xc7 => rst_n(0),
        0xc8 => ret_cc(Condition { flag: Flag::Z, not: false }),
        0xc9 => (Instruction::Read(pop_sp(), ReadInstruction::ReadIntoLsb), vec([Instruction::NoRead(NoReadInstruction::Nop), Instruction::NoRead(NoReadInstruction::Store16Bit(Register16Bit::PC)), Instruction::Read(pop_sp(), ReadInstruction::ReadIntoMsb)])),
        0xca => jp_cc_nn(Condition { flag: Flag::Z, not: false }),
        0xcb => (Instruction::NoRead(NoReadInstruction::CbMode), instruction_buffer_new()),
        0xcc => call_cc_nn(Condition { flag: Flag::Z, not: false }),
        0xcd => (Instruction::Read(consume_pc(), ReadInstruction::ReadIntoLsb), vec([Instruction::NoRead(NoReadInstruction::Nop), Instruction::NoRead(NoReadInstruction::WriteLsbPcWhereSpPointsAndLoadCacheToPc), Instruction::NoRead(NoReadInstruction::WriteMsbOfRegisterWhereSpPointsAndDecSp(Register16Bit::PC)), Instruction::NoRead(NoReadInstruction::DecStackPointer), Instruction::Read(consume_pc(), ReadInstruction::ReadIntoMsb)])),
        0xce => (Instruction::Read(consume_pc(), ReadInstruction::ReadIntoLsb), vec([Instruction::NoRead(NoReadInstruction::Adc8Bit(Register8Bit::Z))])),
        0xcf => rst_n(0x08),
        0xd0 => ret_cc(Condition { flag: Flag::C, not: true }),
        0xd1 => pop_rr(Register16Bit::DE),
        0xd2 => jp_cc_nn(Condition { flag: Flag::C, not: true }),
        0xd4 => call_cc_nn(Condition { flag: Flag::C, not: true }),
        0xd5 => push_rr(Register16Bit::DE),
        0xd6 => (Instruction::Read(consume_pc(), ReadInstruction::ReadIntoLsb), vec([Instruction::NoRead(NoReadInstruction::Sub8Bit(Register8Bit::Z))])),
        0xd7 => rst_n(0x10),
        0xd8 => ret_cc(Condition { flag: Flag::C, not: false }),
        0xd9 => (Instruction::Read(pop_sp(), ReadInstruction::ReadIntoLsb), vec([Instruction::NoRead(NoReadInstruction::Nop), Instruction::NoRead(NoReadInstruction::Reti), Instruction::Read(pop_sp(), ReadInstruction::ReadIntoMsb)])),
        0xda => jp_cc_nn(Condition { flag: Flag::C, not: false }),
        0xdc => call_cc_nn(Condition { flag: Flag::C, not: false }),
        0xde => (Instruction::Read(consume_pc(), ReadInstruction::ReadIntoLsb), vec([Instruction::NoRead(NoReadInstruction::Sbc8Bit(Register8Bit::Z))])),
        0xdf => rst_n(0x18),
        0xe0 => (Instruction::Read(consume_pc(), ReadInstruction::ReadIntoLsb), vec([Instruction::NoRead(NoReadInstruction::Nop), Instruction::NoRead(NoReadInstruction::LoadFromAccumulator(None))])),
        0xe1 => pop_rr(Register16Bit::HL),
        0xe2 => (Instruction::NoRead(NoReadInstruction::LoadFromAccumulator(Some(Register8Bit::C))), vec([Instruction::NoRead(NoReadInstruction::Nop)])),
        0xe5 => push_rr(Register16Bit::HL),
        0xe6 => (Instruction::Read(consume_pc(), ReadInstruction::ReadIntoLsb), vec([Instruction::NoRead(NoReadInstruction::And8Bit(Register8Bit::Z))])),
        0xe7 => rst_n(0x20),
        0xe8 => (Instruction::Read(consume_pc(), ReadInstruction::ReadIntoLsb), vec([Instruction::NoRead(NoReadInstruction::Nop), Instruction::NoRead(NoReadInstruction::Nop), Instruction::NoRead(NoReadInstruction::AddSpE)])),
        0xe9 => {
            return InstructionsAndSetPc((Instruction::NoRead(NoReadInstruction::Nop), instruction_buffer_new()), SetPc(Register16Bit::HL));
        },
        0xea => (Instruction::Read(consume_pc(), ReadInstruction::ReadIntoLsb), vec([Instruction::NoRead(NoReadInstruction::Nop), Instruction::NoRead(NoReadInstruction::LoadToCachedAddressFromA), Instruction::Read(consume_pc(), ReadInstruction::ReadIntoMsb)])),
        0xee => (Instruction::Read(consume_pc(), ReadInstruction::ReadIntoLsb), vec([Instruction::NoRead(NoReadInstruction::Xor8Bit(Register8Bit::Z))])),
        0xef => rst_n(0x28),
        0xf0 => (Instruction::Read(consume_pc(), ReadInstruction::ReadIntoLsb), vec([Instruction::NoRead(NoReadInstruction::Store8Bit(Register8Bit::A)), Instruction::Read(ReadAddress::Accumulator, ReadInstruction::ReadIntoLsb)])),
        0xf1 => pop_rr(Register16Bit::AF),
        0xf2 => (Instruction::Read(ReadAddress::Accumulator8Bit(Register8Bit::C), ReadInstruction::ReadIntoLsb), vec([Instruction::NoRead(NoReadInstruction::Store8Bit(Register8Bit::A))])),
        0xf3 => (Instruction::NoRead(NoReadInstruction::Di), instruction_buffer_new()),
        0xf5 => push_rr(Register16Bit::AF),
        0xf6 => (Instruction::Read(consume_pc(), ReadInstruction::ReadIntoLsb), vec([Instruction::NoRead(NoReadInstruction::Or8Bit(Register8Bit::Z))])),
        0xf7 => rst_n(0x30),
        0xf8 => (Instruction::Read(consume_pc(), ReadInstruction::ReadIntoLsb), vec([Instruction::NoRead(NoReadInstruction::LoadHlFromAdjustedStackPointerSecond), Instruction::NoRead(NoReadInstruction::LoadHlFromAdjustedStackPointerFirst)])),
        0xf9 => (Instruction::NoRead(NoReadInstruction::LdSpHl), vec([Instruction::NoRead(NoReadInstruction::Nop)])),
        0xfa => (Instruction::Read(consume_pc(), ReadInstruction::ReadIntoLsb), vec([Instruction::NoRead(NoReadInstruction::Store8Bit(Register8Bit::A)), Instruction::Read(ReadAddress::Register { register: Register16Bit::WZ, op: OpAfterRead::Unchanged }, ReadInstruction::ReadIntoLsb), Instruction::Read(consume_pc(), ReadInstruction::ReadIntoMsb)])),
        0xfb => (Instruction::NoRead(NoReadInstruction::Ei), instruction_buffer_new()),
        0xfe => (Instruction::Read(consume_pc(), ReadInstruction::ReadIntoLsb), vec([Instruction::NoRead(NoReadInstruction::Cp8Bit(Register8Bit::Z))])),
        0xff => rst_n(0x38),
        _ => (Instruction::NoRead(NoReadInstruction::Nop), instruction_buffer_new()),
    };
    InstructionsAndSetPc(instructions, SetPc(Register16Bit::PC))
}

fn get_instructions_no_cb(opcode: u8) -> (r: InstructionsAndSetPc)
    requires
        !is_illegal_opcode(opcode),
    ensures
        (program_of(r.0), r.1.0) == opcode_program(opcode),
{
    if opcode < 0x40 {
        get_instructions_00_3f(opcode)
    } else if opcode < 0x80 {
        get_instructions_40_7f(opcode)
    } else if opcode < 0xc0 {
        get_instructions_80_bf(opcode)
    } else {
        get_instructions_c0_ff(opcode)
    }
}

/// The register that the low three bits of a CB opcode name; 6 is (HL).
pub open spec fn cb_register(code: u8) -> Register8Bit {
    if code == 0 {
        Register8Bit::B
    } else if code == 1 {
        Register8Bit::C
    } else if code == 2 {
        Register8Bit::D
    } else if code == 3 {
        Register8Bit::E
    } else if code == 4 {
        Register8Bit::H
    } else if code == 5 {
        Register8Bit::L
    } else {
        Register8Bit::A
    }
}

/// The shifts and rotations of the CB page by bits 3 to 5 of the opcode, on a register.
pub open spec fn cb_shift_program(kind: u8, register: Register8Bit) -> Program {
    if kind == 0 {
        rlc_r_program(register)
    } else if kind == 1 {
        rrc_r_program(register)
    } else if kind == 2 {
        rl_r_program(register)
    } else if kind == 3 {
        rr_r_program(register)
    } else if kind == 4 {
        sla_r_program(register)
    } else if kind == 5 {
        sra_r_program(register)
    } else if kind == 6 {
        swap_r_program(register)
    } else {
        srl_r_program(register)
    }
}

/// The same on (HL).
pub open spec fn cb_shift_hl_program(kind: u8) -> Program {
    if kind == 0 {
        rlc_hl_program()
    } else if kind == 1 {
        rrc_hl_program()
    } else if kind == 2 {
        rl_hl_program()
    } else if kind == 3 {
        rr_hl_program()
    } else if kind == 4 {
        sla_hl_program()
    } else if kind == 5 {
        sra_hl_program()
    } else if kind == 6 {
        swap_hl_program()
    } else {
        srl_hl_program()
    }
}

/// The micro-operations of a CB-prefixed opcode: bits 6 and 7 select shift, BIT, RES or SET,
/// bits 3 to 5 the shift or the bit, bits 0 to 2 the register, 6 meaning (HL).
pub open spec fn cb_program(opcode: u8) -> Program {
    let code = opcode % 8;
    let middle = (opcode / 8) % 8;
    let group = opcode / 64;
    if code == 6 {
        if group == 0 {
            cb_shift_hl_program(middle)
        } else if group == 1 {
            bit_b_hl_program(middle)
        } else if group == 2 {
            res_b_hl_program(middle)
        } else {
            set_b_hl_program(middle)
        }
    } else {
        let register = cb_register(code);
        if group == 0 {
            cb_shift_program(middle, register)
        } else if group == 1 {
            bit_b_r_program(middle, register)
        } else if group == 2 {
            res_b_r_program(middle, register)
        } else {
            set_b_r_program(middle, register)
        }
    }
}

fn get_instructions_cb_mode(opcode: u8) -> (r: Instructions)
    ensures
        program_of(r) == cb_program(opcode),
{
    let code = opcode % 8;
    let middle = (opcode / 8) % 8;
    let group = opcode / 64;
    if code == 6 {
        if group == 0 {
            if middle == 0 {
                rlc_hl()
            } else if middle == 1 {
                rrc_hl()
            } else if middle == 2 {
                rl_hl()
            } else if middle == 3 {
                rr_hl()
            } else if middle == 4 {
                sla_hl()
            } else if middle == 5 {
                sra_hl()
            } else if middle == 6 {
                swap_hl()
            } else {
                srl_hl()
            }
        } else if group == 1 {
            bit_b_hl(middle)
        } else if group == 2 {
            res_b_hl(middle)
        } else {
            set_b_hl(middle)
        }
    } else {
        let register = if code == 0 {
            Register8Bit::B
        } else if code == 1 {
            Register8Bit::C
        } else if code == 2 {
            Register8Bit::D
        } else if code == 3 {
            Register8Bit::E
        } else if code == 4 {
            Register8Bit::H
        } else if code == 5 {
            Register8Bit::L
        } else {
            Register8Bit::A
        };
        if group == 0 {
            if middle == 0 {
                rlc_r(register)
            } else if middle == 1 {
                rrc_r(register)
            } else if middle == 2 {
                rl_r(register)
            } else if middle == 3 {
                rr_r(register)
            } else if middle == 4 {
                sla_r(register)
            } else if middle == 5 {
                sra_r(register)
            } else if middle == 6 {
                swap_r(register)
            } else {
                srl_r(register)
            }
        } else if group == 1 {
            bit_b_r(middle, register)
        } else if group == 2 {
            res_b_r(middle, register)
        } else {
            set_b_r(middle, register)
        }
    }
}

/// The program of an opcode, from the CB page when the previous opcode was $CB.
pub open spec fn decoded(opcode: u8, is_cb_mode: bool) -> (Program, Register16Bit) {
    if is_cb_mode {
        (cb_program(opcode), Register16Bit::PC)
    } else {
        opcode_program(opcode)
    }
}

/// The micro-operations of an opcode. The eleven opcodes that the SM83 lacks are not accepted.
pub fn get_instructions(opcode: u8, is_cb_mode: bool) -> (r: InstructionsAndSetPc)
    requires
        is_cb_mode || !is_illegal_opcode(opcode),
    ensures
        (program_of(r.0), r.1.0) == decoded(opcode, is_cb_mode),
{
    if is_cb_mode {
        return InstructionsAndSetPc(get_instructions_cb_mode(opcode), SetPc(Register16Bit::PC));
    }
    get_instructions_no_cb(opcode)
}

/// M-cycles of each opcode of $00-$3F and $C0-$FF as Pan Docs lists them, a branch not taken
/// (0 for the opcodes the SM83 lacks).
/// https://gbdev.io/pandocs/CPU_Instruction_Set.html
pub open spec fn irregular_opcode_cycles() -> Seq<nat> {
    seq![
        1, 3, 2, 2, 1, 1, 2, 1, 5, 2, 2, 2, 1, 1, 2, 1,
        1, 3, 2, 2, 1, 1, 2, 1, 3, 2, 2, 2, 1, 1, 2, 1,
        2, 3, 2, 2, 1, 1, 2, 1, 2, 2, 2, 2, 1, 1, 2, 1,
        2, 3, 2, 2, 3, 3, 3, 1, 2, 2, 2, 2, 1, 1, 2, 1,
        2, 3, 3, 4, 3, 4, 2, 4, 2, 4, 3, 1, 3, 6, 2, 4,
        2, 3, 3, 0, 3, 4, 2, 4, 2, 4, 3, 0, 3, 0, 2, 4,
        3, 3, 2, 0, 0, 4, 2, 4, 4, 1, 4, 0, 0, 0, 2, 4,
        3, 3, 2, 1, 0, 4, 2, 4, 3, 2, 4, 1, 0, 0, 2, 4
    ]
}

/// The M-cycles an unprefixed opcode takes when no branch is taken: loads between registers
/// and arithmetic on a register take one, those that go through (HL) two.
pub open spec fn opcode_m_cycles(opcode: u8) -> nat {
    if 0x40 <= opcode < 0x80 {
        if opcode == 0x76 {
            1
        } else if opcode % 8 == 6 || (opcode / 8) % 8 == 6 {
            2
        } else {
            1
        }
    } else if 0x80 <= opcode < 0xc0 {
        if opcode % 8 == 6 { 2 } else { 1 }
    } else if opcode < 0x40 {
        irregular_opcode_cycles()[opcode as int]
    } else {
        irregular_opcode_cycles()[opcode - 0x80]
    }
}

/// The M-cycles a CB-prefixed opcode takes, the prefix included: two on a register, three for
/// BIT on (HL), four for the others on (HL).
pub open spec fn cb_m_cycles(opcode: u8) -> nat {
    if opcode % 8 != 6 {
        2
    } else if opcode / 64 == 1 {
        3
    } else {
        4
    }
}

/// Every opcode takes as many M-cycles as Pan Docs gives it: one per micro-operation, the
/// next opcode being fetched during the last one.
#[verifier::rlimit(60)]
pub proof fn lemma_opcode_timing(opcode: u8)
    requires
        !is_illegal_opcode(opcode),
    ensures
        1 + decoded(opcode, false).0.1.len() == opcode_m_cycles(opcode),
{
}

/// Every CB-prefixed opcode takes as many M-cycles as Pan Docs gives it, the prefix's included.
pub proof fn lemma_cb_opcode_timing(opcode: u8)
    ensures
        1 + 1 + decoded(opcode, true).0.1.len() == cb_m_cycles(opcode),
{
}

/// Whether a micro-operation writes only 8-bit registers that can be written alone and names
/// bits 0 to 7: what `op_runnable` asks of it, the CPU's state aside.
pub open spec fn micro_op_sound(i: Instruction) -> bool {
    match i {
        Instruction::NoRead(op) => match op {
            NoReadInstruction::Store8Bit(r) | NoReadInstruction::Inc(r) | NoReadInstruction::Rl(r)
            | NoReadInstruction::Srl(r) | NoReadInstruction::Rr(r) | NoReadInstruction::Dec8Bit(r)
            | NoReadInstruction::Swap8Bit(r) | NoReadInstruction::Rlc8Bit(r) | NoReadInstruction::Rrc8Bit(r)
            | NoReadInstruction::Sla8Bit(r) | NoReadInstruction::Sra8Bit(r) => writable_reg8(r),
            NoReadInstruction::Load { to, .. } => writable_reg8(to),
            NoReadInstruction::Res(bit, r) | NoReadInstruction::Set8Bit(bit, r) => writable_reg8(r) && bit < 8,
            NoReadInstruction::Bit8Bit(bit, _) | NoReadInstruction::ResHl(bit) | NoReadInstruction::SetHl(bit) => bit < 8,
            _ => true,
        },
        _ => true,
    }
}

/// Whether every micro-operation of a program is sound.
pub open spec fn program_sound(p: Program) -> bool {
    &&& micro_op_sound(p.0)
    &&& forall|k: int| 0 <= k < p.1.len() ==> micro_op_sound(#[trigger] p.1[k])
}

/// The decoder emits only sound micro-operations: the registers it writes one by one are never
/// the halves of SP, and its bit numbers are below 8.
pub proof fn lemma_decoded_programs_sound(opcode: u8, is_cb_mode: bool)
    requires
        is_cb_mode || !is_illegal_opcode(opcode),
    ensures
        program_sound(decoded(opcode, is_cb_mode).0),
{
    if is_cb_mode {
        lemma_cb_programs_sound(opcode);
    } else if opcode < 0x40 {
        lemma_programs_sound_00_3f(opcode);
    } else if opcode < 0x80 {
        lemma_programs_sound_40_7f(opcode);
    } else if opcode < 0xc0 {
        lemma_programs_sound_80_bf(opcode);
    } else {
        lemma_programs_sound_c0_ff(opcode);
    }
}

#[verifier::rlimit(100)]
proof fn lemma_programs_sound_00_3f(opcode: u8)
    requires
        opcode < 0x40,
    ensures
        program_sound(opcode_program(opcode).0),
{
}

#[verifier::rlimit(100)]
proof fn lemma_programs_sound_40_7f(opcode: u8)
    requires
        0x40 <= opcode < 0x80,
    ensures
        program_sound(opcode_program(opcode).0),
{
}

#[verifier::rlimit(100)]
proof fn lemma_programs_sound_80_bf(opcode: u8)
    requires
        0x80 <= opcode < 0xc0,
    ensures
        program_sound(opcode_program(opcode).0),
{
}

#[verifier::rlimit(100)]
proof fn lemma_programs_sound_c0_ff(opcode: u8)
    requires
        0xc0 <= opcode,
        !is_illegal_opcode(opcode),
    ensures
        program_sound(opcode_program(opcode).0),
{
}

#[verifier::rlimit(100)]
proof fn lemma_cb_programs_sound(opcode: u8)
    ensures
        program_sound(cb_program(opcode)),
{
}

/// The operand that bits 0-2 of a CB opcode name: B, C, D, E, H, L, (HL), A (6 is (HL)).
/// https://gbdev.io/gb-opcodes/optables/
pub open spec fn cb_table_operand(opcode: u8) -> Register8Bit {
    let code = opcode % 8;
    if code == 0 {
        Register8Bit::B
    } else if code == 1 {
        Register8Bit::C
    } else if code == 2 {
        Register8Bit::D
    } else if code == 3 {
        Register8Bit::E
    } else if code == 4 {
        Register8Bit::H
    } else if code == 5 {
        Register8Bit::L
    } else {
        Register8Bit::A
    }
}

/// A CB opcode on a register, by the opcode tables: $00-$3F are RLC, RRC, RL, RR, SLA, SRA,
/// SWAP, SRL in rows of eight; $40-$7F BIT, $80-$BF RES, $C0-$FF SET, with the bit number in
/// bits 3-5.
pub open spec fn cb_table_register_op(opcode: u8) -> NoReadInstruction {
    let r = cb_table_operand(opcode);
    let n = (opcode / 8) % 8;
    if opcode < 0x08 {
        NoReadInstruction::Rlc8Bit(r)
    } else if opcode < 0x10 {
        NoReadInstruction::Rrc8Bit(r)
    } else if opcode < 0x18 {
        NoReadInstruction::Rl(r)
    } else if opcode < 0x20 {
        NoReadInstruction::Rr(r)
    } else if opcode < 0x28 {
        NoReadInstruction::Sla8Bit(r)
    } else if opcode < 0x30 {
        NoReadInstruction::Sra8Bit(r)
    } else if opcode < 0x38 {
        NoReadInstruction::Swap8Bit(r)
    } else if opcode < 0x40 {
        NoReadInstruction::Srl(r)
    } else if opcode < 0x80 {
        NoReadInstruction::Bit8Bit(n, r)
    } else if opcode < 0xc0 {
        NoReadInstruction::Res(n, r)
    } else {
        NoReadInstruction::Set8Bit(n, r)
    }
}

/// The same on (HL), for the opcodes that write the byte back (all but BIT).
pub open spec fn cb_table_memory_op(opcode: u8) -> NoReadInstruction {
    let n = (opcode / 8) % 8;
    if opcode < 0x08 {
        NoReadInstruction::RlcHl
    } else if opcode < 0x10 {
        NoReadInstruction::RrcHl
    } else if opcode < 0x18 {
        NoReadInstruction::RlHl
    } else if opcode < 0x20 {
        NoReadInstruction::RrHl
    } else if opcode < 0x28 {
        NoReadInstruction::SlaHl
    } else if opcode < 0x30 {
        NoReadInstruction::SraHl
    } else if opcode < 0x38 {
        NoReadInstruction::SwapHl
    } else if opcode < 0x40 {
        NoReadInstruction::SrlHl
    } else if opcode < 0xc0 {
        NoReadInstruction::ResHl(n)
    } else {
        NoReadInstruction::SetHl(n)
    }
}

/// The CB page decodes as the opcode tables say. On a register the opcode is one
/// micro-operation, so $28-$2F (except $2E) are SRA of B, C, D, E, H, L, A. On (HL) the byte at
/// HL is read first; BIT then tests it, the others compute and write it back one M-cycle later.
pub proof fn lemma_cb_page(opcode: u8)
    ensures
        opcode % 8 != 6 ==> decoded(opcode, true).0 == (
            Instruction::NoRead(cb_table_register_op(opcode)),
            Seq::<Instruction>::empty(),
        ),
        opcode % 8 == 6 && 0x40 <= opcode < 0x80 ==> decoded(opcode, true).0 == (
            Instruction::Read(
                ReadAddress::Register { register: Register16Bit::HL, op: OpAfterRead::Unchanged },
                ReadInstruction::ReadIntoLsb,
            ),
            seq![Instruction::NoRead(NoReadInstruction::Bit8Bit((opcode / 8) % 8, Register8Bit::Z))],
        ),
        opcode % 8 == 6 && !(0x40 <= opcode < 0x80) ==> decoded(opcode, true).0 == (
            Instruction::Read(
                ReadAddress::Register { register: Register16Bit::HL, op: OpAfterRead::Unchanged },
                ReadInstruction::ReadIntoLsb,
            ),
            seq![Instruction::NoRead(NoReadInstruction::Nop), Instruction::NoRead(cb_table_memory_op(opcode))],
        ),
        decoded(opcode, true).1 == Register16Bit::PC,
{
}

} // verus!
