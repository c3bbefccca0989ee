//! The SM83 CPU: registers, flags, the arithmetic and logic unit and the micro-operations.
use vstd::prelude::*;

use arrayvec::ArrayVec;
use crate::gb_core::array_vec::instruction_items;
use crate::gb_core::ic::Ints;
use crate::gb_core::instructions::{
    Flag, Instruction, NoReadInstruction, Register16Bit, Register8Bit, lsb_of, msb_of,
};

pub mod cycle;
pub mod micro_op;

verus! {

/// The interrupt master enable; EI takes effect one instruction late.
/// https://gbdev.io/pandocs/Interrupts.html#ime-interrupt-master-enable-flag-write-only
#[derive(Clone, PartialEq, Eq, Structural, Debug)]
pub enum Ime {
    Off,
    On,
    Delay,
}

/// Whether adding `arg1` and `arg2` carries out of bit 3.
pub fn set_h_add(arg1: u8, arg2: u8) -> (r: bool)
    ensures
        r == (arg1 % 16 + arg2 % 16 >= 16),
{
    let lo1 = arg1 & 0x0f;
    let lo2 = arg2 & 0x0f;
    proof {
        crate::bits::lemma_u8_low_bits(arg1);
        crate::bits::lemma_u8_low_bits(arg2);
        assert(lo1 < 16 && lo2 < 16 ==> (((lo1 + lo2) as u8 & 0x10) == 0x10 <==> lo1 + lo2 >= 16)) by (bit_vector);
    }
    ((lo1 + lo2) & 0x10) == 0x10
}

/// Whether adding `arg1`, `arg2` and the carry carries out of bit 3.
pub fn set_h_add_with_carry(arg1: u8, arg2: u8, carry: bool) -> (r: bool)
    ensures
        r == (arg1 % 16 + arg2 % 16 + (if carry { 1int } else { 0int }) >= 16),
{
    let lo1 = arg1 & 0x0f;
    let lo2 = arg2 & 0x0f;
    let c: u8 = if carry { 1 } else { 0 };
    proof {
        crate::bits::lemma_u8_low_bits(arg1);
        crate::bits::lemma_u8_low_bits(arg2);
        assert(lo1 < 16 && lo2 < 16 && c < 2 ==> (((lo1 + lo2 + c) as u8 & 0x10) == 0x10 <==> lo1 + lo2 + c >= 16))
            by (bit_vector);
    }
    ((lo1 + lo2 + c) & 0x10) == 0x10
}

/// Whether subtracting `arg2` from `arg1` borrows from bit 4.
pub fn set_h_sub(arg1: u8, arg2: u8) -> (r: bool)
    ensures
        r == (arg1 % 16 < arg2 % 16),
{
    let lo1 = arg1 & 0x0f;
    let lo2 = arg2 & 0x0f;
    proof {
        crate::bits::lemma_u8_low_bits(arg1);
        crate::bits::lemma_u8_low_bits(arg2);
        assert(lo1 < 16 && lo2 < 16 ==> ((lo1.wrapping_sub(lo2) & 0x10) == 0x10 <==> lo1 < lo2)) by (bit_vector);
    }
    (lo1.wrapping_sub(lo2) & 0x10) == 0x10
}


/// The flag register F: zero, subtract, half carry and carry in bits 7 to 4; the low nibble
/// reads 0.
#[derive(Clone, Copy, PartialEq, Eq, Structural, Debug)]
pub struct Flags {
    pub z: bool,
    pub n: bool,
    pub h: bool,
    pub c: bool,
}

/// F as a byte.
pub open spec fn flags_byte(f: Flags) -> u8 {
    (if f.z { 0x80u8 } else { 0u8 }) | (if f.n { 0x40u8 } else { 0u8 }) | (if f.h { 0x20u8 } else { 0u8 }) | (if f.c {
        0x10u8
    } else {
        0u8
    })
}

/// The flags a byte written to F sets; its low nibble is dropped.
pub open spec fn flags_of(byte: u8) -> Flags {
    Flags { z: byte & 0x80 != 0, n: byte & 0x40 != 0, h: byte & 0x20 != 0, c: byte & 0x10 != 0 }
}

impl Default for Flags {
    fn default() -> (r: Self)
        ensures
            !r.z && !r.n && !r.h && !r.c,
    {
        Flags { z: false, n: false, h: false, c: false }
    }
}

impl Flags {
    pub fn bits(&self) -> (r: u8)
        ensures
            r == flags_byte(*self),
    {
        (if self.z { 0x80u8 } else { 0u8 }) | (if self.n { 0x40u8 } else { 0u8 }) | (if self.h { 0x20u8 } else { 0u8 }) | (
        if self.c {
            0x10u8
        } else {
            0u8
        })
    }

    pub fn from_bits_truncate(byte: u8) -> (r: Flags)
        ensures
            r == flags_of(byte),
    {
        Flags { z: byte & 0x80 != 0, n: byte & 0x40 != 0, h: byte & 0x20 != 0, c: byte & 0x10 != 0 }
    }
}

/// Reading back what a byte wrote to F gives its high nibble.
pub proof fn lemma_flags_round_trip(byte: u8)
    ensures
        flags_byte(flags_of(byte)) == byte & 0xf0,
{
    assert(((if byte & 0x80 != 0 { 0x80u8 } else { 0u8 }) | (if byte & 0x40 != 0 { 0x40u8 } else { 0u8 }) | (if byte
        & 0x20 != 0 { 0x20u8 } else { 0u8 }) | (if byte & 0x10 != 0 { 0x10u8 } else { 0u8 })) == byte & 0xf0)
        by (bit_vector);
}

/// ADD: the sum's low byte; Z if it is 0, half carry out of bit 3, carry out of bit 7.
pub open spec fn alu_add(a: u8, b: u8) -> (u8, Flags) {
    let sum = a + b;
    ((sum % 256) as u8, Flags { z: sum % 256 == 0, n: false, h: a % 16 + b % 16 >= 16, c: sum >= 256 })
}

/// ADC: ADD with the carry added in.
pub open spec fn alu_adc(a: u8, b: u8, carry: bool) -> (u8, Flags) {
    let c: int = if carry { 1 } else { 0 };
    let sum = a + b + c;
    ((sum % 256) as u8, Flags { z: sum % 256 == 0, n: false, h: a % 16 + b % 16 + c >= 16, c: sum >= 256 })
}

/// SUB and CP: the difference's low byte; Z if it is 0, N set, half borrow from bit 4, borrow.
pub open spec fn alu_sub(a: u8, b: u8) -> (u8, Flags) {
    let diff = a - b;
    (((diff + 256) % 256) as u8, Flags { z: a == b, n: true, h: a % 16 < b % 16, c: a < b })
}

/// SBC: SUB with the carry subtracted too.
pub open spec fn alu_sbc(a: u8, b: u8, carry: bool) -> (u8, Flags) {
    let c: int = if carry { 1 } else { 0 };
    let diff = a - b - c;
    (((diff + 512) % 256) as u8, Flags { z: (diff + 512) % 256 == 0, n: true, h: a % 16 < b % 16 + c, c: a < b + c })
}

/// INC on a byte: the carry flag is left alone.
pub open spec fn alu_inc(v: u8, f: Flags) -> (u8, Flags) {
    (((v + 1) % 256) as u8, Flags { z: v == 255, n: false, h: v % 16 == 15, c: f.c })
}

/// DEC on a byte: the carry flag is left alone.
pub open spec fn alu_dec(v: u8, f: Flags) -> (u8, Flags) {
    (((v + 255) % 256) as u8, Flags { z: v == 1, n: true, h: v % 16 == 0, c: f.c })
}

/// The flags of AND, OR and XOR: Z if the result is 0, H set for AND only.
pub open spec fn logic_flags(result: u8, is_and: bool) -> Flags {
    Flags { z: result == 0, n: false, h: is_and, c: false }
}

/// The flags of the CB shifts and rotations: Z if the result is 0, C the bit shifted out.
pub open spec fn shift_flags(result: u8, carry: bool) -> Flags {
    Flags { z: result == 0, n: false, h: false, c: carry }
}

/// RLC: rotate left, bit 7 into carry and bit 0.
pub open spec fn alu_rlc(v: u8) -> (u8, Flags) {
    let r = (v << 1u8) | (v >> 7u8);
    (r, shift_flags(r, v & 0x80 != 0))
}

/// RRC: rotate right, bit 0 into carry and bit 7.
pub open spec fn alu_rrc(v: u8) -> (u8, Flags) {
    ((v >> 1u8) | (v << 7u8), Flags { z: v == 0, n: false, h: false, c: v & 1 != 0 })
}

/// RL: rotate left through the carry.
pub open spec fn alu_rl(v: u8, f: Flags) -> (u8, Flags) {
    let r = (v << 1u8) | (if f.c { 1u8 } else { 0u8 });
    (r, shift_flags(r, v & 0x80 != 0))
}

/// RR: rotate right through the carry.
pub open spec fn alu_rr(v: u8, f: Flags) -> (u8, Flags) {
    let r = (v >> 1u8) | (if f.c { 0x80u8 } else { 0u8 });
    (r, shift_flags(r, v & 1 != 0))
}

/// SLA: shift left, bit 7 into carry.
pub open spec fn alu_sla(v: u8) -> (u8, Flags) {
    let r = v << 1u8;
    (r, shift_flags(r, v & 0x80 != 0))
}

/// SRA: shift right keeping bit 7, bit 0 into carry.
pub open spec fn alu_sra(v: u8) -> (u8, Flags) {
    let r = (v >> 1u8) | (v & 0x80);
    (r, shift_flags(r, v & 1 != 0))
}

/// SRL: shift right, bit 0 into carry.
pub open spec fn alu_srl(v: u8) -> (u8, Flags) {
    let r = v >> 1u8;
    (r, shift_flags(r, v & 1 != 0))
}

/// SWAP: the two nibbles exchanged.
pub open spec fn alu_swap(v: u8) -> (u8, Flags) {
    let r = ((v >> 4u8) & 0x0f) | ((v << 4u8) & 0xf0);
    (r, shift_flags(r, false))
}

/// The half carry and carry of ADC and SBC as the XOR of operands and result gives them.
proof fn lemma_carry_arithmetic(a: u32, b: u32, c: u32)
    by (bit_vector)
    requires
        a < 256,
        b < 256,
        c <= 1,
    ensures
        ((a ^ b ^ ((a + b + c) as u32)) & 0x10 == 0x10) == (a % 16 + b % 16 + c >= 16),
        (((a + b + c) as u32) & 0x100 == 0x100) == (a + b + c >= 256),
        ((a ^ b ^ a.wrapping_sub(b).wrapping_sub(c)) & 0x10 == 0x10) == (a % 16 < b % 16 + c),
        (a.wrapping_sub(b).wrapping_sub(c) & 0x100 == 0x100) == (a < b + c),
{
}

/// Where the next opcode is read once an instruction's micro-operations run out.
#[derive(Clone, Copy, PartialEq, Eq, Structural, Debug)]
pub enum PcFetch {
    /// At the register's value, PC becoming that value plus one.
    WithIncrement(Register16Bit),
    /// At PC, which stays.
    NoIncrement,
}

/// What follows the last micro-operation: whether interrupts are checked and where the fetch
/// reads.
#[derive(Clone, Copy, PartialEq, Eq, Structural, Debug)]
pub struct Prefetch {
    pub check_interrupts: bool,
    pub set_pc: PcFetch,
}

impl Default for Prefetch {
    fn default() -> (r: Self)
        ensures
            r.check_interrupts && r.set_pc == PcFetch::WithIncrement(Register16Bit::PC),
    {
        Prefetch { check_interrupts: true, set_pc: PcFetch::WithIncrement(Register16Bit::PC) }
    }
}

/// The CPU's registers and the micro-operations still to run.
pub struct Cpu {
    pub sp: u16,
    /// Z, the low cached byte.
    pub lsb: u8,
    /// W, the high cached byte.
    pub msb: u8,
    pub a: u8,
    pub b: u8,
    pub c: u8,
    pub d: u8,
    pub e: u8,
    pub h: u8,
    pub l: u8,
    pub f: Flags,
    pub is_cb_mode: bool,
    pub pc: u16,
    pub instruction_register: (ArrayVec<Instruction, 5>, Prefetch),
    pub ime: bool,
    pub is_halted: bool,
    pub stop_mode: bool,
    pub current_opcode: u8,
    pub is_dispatching_interrupt: bool,
    pub interrupt_flag: Ints,
}

/// The value of an 8-bit register (the halves of SP included).
pub open spec fn reg8(c: Cpu, r: Register8Bit) -> u8 {
    match r {
        Register8Bit::A => c.a,
        Register8Bit::B => c.b,
        Register8Bit::C => c.c,
        Register8Bit::D => c.d,
        Register8Bit::E => c.e,
        Register8Bit::H => c.h,
        Register8Bit::L => c.l,
        Register8Bit::F => flags_byte(c.f),
        Register8Bit::MsbSp => (c.sp / 256) as u8,
        Register8Bit::LsbSp => (c.sp % 256) as u8,
        Register8Bit::W => c.msb,
        Register8Bit::Z => c.lsb,
    }
}

/// The CPU with an 8-bit register set; the halves of SP are not written one by one.
pub open spec fn with_reg8(c: Cpu, r: Register8Bit, v: u8) -> Cpu {
    match r {
        Register8Bit::A => Cpu { a: v, ..c },
        Register8Bit::B => Cpu { b: v, ..c },
        Register8Bit::C => Cpu { c: v, ..c },
        Register8Bit::D => Cpu { d: v, ..c },
        Register8Bit::E => Cpu { e: v, ..c },
        Register8Bit::H => Cpu { h: v, ..c },
        Register8Bit::L => Cpu { l: v, ..c },
        Register8Bit::F => Cpu { f: flags_of(v), ..c },
        Register8Bit::W => Cpu { msb: v, ..c },
        Register8Bit::Z => Cpu { lsb: v, ..c },
        _ => c,
    }
}

/// Whether an 8-bit register can be written on its own.
pub open spec fn writable_reg8(r: Register8Bit) -> bool {
    r != Register8Bit::MsbSp && r != Register8Bit::LsbSp
}

/// The value of a register pair, high byte first.
pub open spec fn reg16(c: Cpu, r: Register16Bit) -> u16 {
    match r {
        Register16Bit::SP => c.sp,
        Register16Bit::PC => c.pc,
        _ => (reg8(c, msb_of(r)) * 256 + reg8(c, lsb_of(r))) as u16,
    }
}

/// The CPU with a register pair set (F keeping only its high nibble).
pub open spec fn with_reg16(c: Cpu, r: Register16Bit, v: u16) -> Cpu {
    match r {
        Register16Bit::SP => Cpu { sp: v, ..c },
        Register16Bit::PC => Cpu { pc: v, ..c },
        _ => with_reg8(with_reg8(c, msb_of(r), (v / 256) as u8), lsb_of(r), (v % 256) as u8),
    }
}

/// Whether a flag condition holds.
pub open spec fn flag_value(f: Flags, flag: Flag) -> bool {
    match flag {
        Flag::Z => f.z,
        Flag::C => f.c,
    }
}

impl Default for Cpu {
    /// The CPU at power-on: all zero, one NOP queued so that the first opcode is fetched while it
    /// runs.
    fn default() -> (r: Self)
        ensures
            r.sp == 0 && r.pc == 0 && r.a == 0 && r.b == 0 && r.c == 0 && r.d == 0 && r.e == 0 && r.h == 0 && r.l == 0,
            r.lsb == 0 && r.msb == 0 && r.f == flags_of(0),
            instruction_items(r.instruction_register.0) == seq![Instruction::NoRead(NoReadInstruction::Nop)],
            r.instruction_register.1 == (Prefetch { check_interrupts: true, set_pc: PcFetch::WithIncrement(Register16Bit::PC) }),
            !r.ime && !r.is_halted && !r.stop_mode && !r.is_cb_mode && !r.is_dispatching_interrupt,
            r.current_opcode == 0,
            r.interrupt_flag.0 == 0,
    {
        let queue = crate::gb_core::instructions::vec([Instruction::NoRead(NoReadInstruction::Nop)]);
        assert(instruction_items(queue) =~= seq![Instruction::NoRead(NoReadInstruction::Nop)]);
        Cpu {
            sp: 0,
            lsb: 0,
            msb: 0,
            a: 0,
            b: 0,
            c: 0,
            d: 0,
            e: 0,
            h: 0,
            l: 0,
            f: Flags::from_bits_truncate(0),
            is_cb_mode: false,
            pc: 0,
            instruction_register: (queue, Prefetch::default()),
            ime: false,
            is_halted: false,
            stop_mode: false,
            current_opcode: 0,
            is_dispatching_interrupt: false,
            interrupt_flag: Ints::empty(),
        }
    }
}

impl Cpu {
    fn get_8bit_register(&self, register: Register8Bit) -> (r: u8)
        ensures
            r == reg8(*self, register),
    {
        match register {
            Register8Bit::A => self.a,
            Register8Bit::B => self.b,
            Register8Bit::C => self.c,
            Register8Bit::D => self.d,
            Register8Bit::E => self.e,
            Register8Bit::H => self.h,
            Register8Bit::L => self.l,
            Register8Bit::F => self.f.bits(),
            Register8Bit::MsbSp => (self.sp / 256) as u8,
            Register8Bit::LsbSp => (self.sp % 256) as u8,
            Register8Bit::W => self.msb,
            Register8Bit::Z => self.lsb,
        }
    }

    fn set_8bit_register(&mut self, register: Register8Bit, value: u8)
        requires
            writable_reg8(register),
        ensures
            *final(self) == with_reg8(*old(self), register, value),
    {
        match register {
            Register8Bit::A => self.a = value,
            Register8Bit::B => self.b = value,
            Register8Bit::C => self.c = value,
            Register8Bit::D => self.d = value,
            Register8Bit::E => self.e = value,
            Register8Bit::H => self.h = value,
            Register8Bit::L => self.l = value,
            Register8Bit::F => self.f = Flags::from_bits_truncate(value),
            Register8Bit::W => self.msb = value,
            Register8Bit::Z => self.lsb = value,
            _ => {},
        }
    }

    fn get_16bit_register(&self, register: Register16Bit) -> (r: u16)
        ensures
            r == reg16(*self, register),
    {
        match register {
            Register16Bit::SP => self.sp,
            Register16Bit::PC => self.pc,
            _ => {
                let hi = self.get_8bit_register(register.get_msb());
                let lo = self.get_8bit_register(register.get_lsb());
                hi as u16 * 256 + lo as u16
            },
        }
    }

    fn set_16bit_register(&mut self, register: Register16Bit, value: u16)
        ensures
            *final(self) == with_reg16(*old(self), register, value),
    {
        match register {
            Register16Bit::SP => {
                self.sp = value;
            },
            Register16Bit::PC => {
                self.pc = value;
            },
            _ => {
                self.set_8bit_register(register.get_msb(), (value / 256) as u8);
                self.set_8bit_register(register.get_lsb(), (value % 256) as u8);
            },
        }
    }

    fn get_flag(&self, flag: Flag) -> (r: bool)
        ensures
            r == flag_value(self.f, flag),
    {
        match flag {
            Flag::Z => self.f.z,
            Flag::C => self.f.c,
        }
    }

    fn enable_ime(&mut self)
        ensures
            *final(self) == (Cpu { ime: true, ..*old(self) }),
    {
        self.ime = true;
    }

    fn adc(&mut self, second: u8)
        ensures
            *final(self) == (Cpu { a: alu_adc(old(self).a, second, old(self).f.c).0, f: alu_adc(old(self).a, second, old(self).f.c).1, ..*old(self) }),
    {
        let first = self.a as u32;
        let second = second as u32;
        let carry: u32 = if self.f.c { 1 } else { 0 };
        proof {
            lemma_carry_arithmetic(first, second, carry);
        }
        let result = first + second + carry;
        let result_b = (result % 256) as u8;
        self.f.n = false;
        self.f.z = result_b == 0;
        self.f.h = (first ^ second ^ result) & 0x10 == 0x10;
        self.f.c = (result & 0x100) == 0x100;
        self.a = result_b;
    }

    fn sbc(&mut self, second: u8)
        ensures
            *final(self) == (Cpu { a: alu_sbc(old(self).a, second, old(self).f.c).0, f: alu_sbc(old(self).a, second, old(self).f.c).1, ..*old(self) }),
    {
        let first = self.a as u32;
        let second = second as u32;
        let carry: u32 = if self.f.c { 1 } else { 0 };
        proof {
            lemma_carry_arithmetic(first, second, carry);
        }
        let result = first.wrapping_sub(second).wrapping_sub(carry);
        let result_b = ((first + 512 - second - carry) % 256) as u8;
        self.f.n = true;
        self.f.z = result_b == 0;
        self.f.h = (first ^ second ^ result) & 0x10 == 0x10;
        self.f.c = (result & 0x100) == 0x100;
        self.a = result_b;
    }

    fn sla(&mut self, value: u8) -> (r: u8)
        ensures
            (r, final(self).f) == alu_sla(value),
            *final(self) == (Cpu { f: final(self).f, ..*old(self) }),
    {
        let result = value << 1u8;
        self.f = Flags { z: result == 0, n: false, h: false, c: (value & 0x80) != 0 };
        result
    }

    fn sra(&mut self, value: u8) -> (r: u8)
        ensures
            (r, final(self).f) == alu_sra(value),
            *final(self) == (Cpu { f: final(self).f, ..*old(self) }),
    {
        let result = (value >> 1u8) | (value & 0x80);
        self.f = Flags { z: result == 0, n: false, h: false, c: (value & 0x1) != 0 };
        result
    }

    fn inc(&mut self, value: u8) -> (r: u8)
        ensures
            (r, final(self).f) == alu_inc(value, old(self).f),
            *final(self) == (Cpu { f: final(self).f, ..*old(self) }),
    {
        let incremented = value.wrapping_add(1);
        self.f.z = incremented == 0;
        self.f.n = false;
        self.f.h = set_h_add(value, 1);
        incremented
    }

    fn rrc(&mut self, value: u8) -> (r: u8)
        ensures
            (r, final(self).f) == alu_rrc(value),
            *final(self) == (Cpu { f: final(self).f, ..*old(self) }),
    {
        self.f = Flags { z: value == 0, n: false, h: false, c: (value & 1) != 0 };
        (value >> 1u8) | (value << 7u8)
    }

    fn rlc(&mut self, value: u8) -> (r: u8)
        ensures
            (r, final(self).f) == alu_rlc(value),
            *final(self) == (Cpu { f: final(self).f, ..*old(self) }),
    {
        let result = (value << 1u8) | (value >> 7u8);
        self.f = Flags { z: result == 0, n: false, h: false, c: (value & 0x80) != 0 };
        result
    }

    fn rl(&mut self, value: u8) -> (r: u8)
        ensures
            (r, final(self).f) == alu_rl(value, old(self).f),
            *final(self) == (Cpu { f: final(self).f, ..*old(self) }),
    {
        let carry: u8 = if self.f.c { 1 } else { 0 };
        let new_carry = (value & 0x80) != 0;
        let result = (value << 1u8) | carry;
        self.f = Flags { z: result == 0, n: false, h: false, c: new_carry };
        result
    }

    fn srl(&mut self, value: u8) -> (r: u8)
        ensures
            (r, final(self).f) == alu_srl(value),
            *final(self) == (Cpu { f: final(self).f, ..*old(self) }),
    {
        let result = value >> 1u8;
        self.f = Flags { z: result == 0, n: false, h: false, c: (value & 0x1) != 0 };
        result
    }

    fn rr(&mut self, value: u8) -> (r: u8)
        ensures
            (r, final(self).f) == alu_rr(value, old(self).f),
            *final(self) == (Cpu { f: final(self).f, ..*old(self) }),
    {
        let carry: u8 = if self.f.c { 1 } else { 0 };
        let result = (value >> 1u8) | (if self.f.c { 0x80u8 } else { 0u8 });
        self.f = Flags { z: result == 0, n: false, h: false, c: (value & 0x1) != 0 };
        result
    }

    fn swap(&mut self, value: u8) -> (r: u8)
        ensures
            (r, final(self).f) == alu_swap(value),
            *final(self) == (Cpu { f: final(self).f, ..*old(self) }),
    {
        let result = ((value >> 4u8) & 0x0f) | ((value << 4u8) & 0xf0);
        self.f = Flags { z: result == 0, n: false, h: false, c: false };
        result
    }
}

} // verus!
