//! The micro-operations: what each does to the registers, the queue and the memory.
use vstd::prelude::*;

use arrayvec::ArrayVec;
use crate::gb_core::array_vec::instruction_items;
use crate::gb_core::cpu::{
    Cpu, Flags, PcFetch, Prefetch, alu_adc, alu_add, alu_dec, alu_inc, alu_rl, alu_rlc, alu_rr,
    alu_rrc, alu_sbc, alu_sla, alu_sra, alu_srl, alu_sub, alu_swap, flag_value, logic_flags, reg16,
    reg8, set_h_add, set_h_add_with_carry, set_h_sub, with_reg16, with_reg8, writable_reg8,
};
use crate::gb_core::ic::Ints;
use crate::gb_core::instructions::{
    AfterReadInstruction, Instruction, NoReadInstruction, ReadInstruction, Register16Bit,
    Register8Bit, pop_sp, pop_sp_spec,
};
use crate::gb_core::state::{DataForWrite, State, decoded, write_byte};
use crate::gebeh_core::interrupts::{Interrupts, flags_below, interrupt_flags};

verus! {

/// HL.
pub open spec fn hl(c: Cpu) -> u16 {
    reg16(c, Register16Bit::HL)
}

/// The cached word W:Z.
pub open spec fn wz(c: Cpu) -> u16 {
    (c.msb * 256 + c.lsb) as u16
}

/// A byte as a signed offset.
pub open spec fn signed_offset(v: u8) -> i16 {
    (v as i8) as i16
}

/// The requested interrupt of highest priority, if any.
pub open spec fn dispatched(ints: Ints) -> Option<Ints> {
    if interrupt_flags(ints.0).len() > 0 { Some(interrupt_flags(ints.0)[0]) } else { None }
}

/// The vector of an interrupt: $40, $48, $50, $58 or $60; $0000 without one.
pub open spec fn vector_of(interrupt: Option<Ints>) -> u16 {
    match interrupt {
        Some(i) => if i.0 == 0x01 {
            0x40
        } else if i.0 == 0x02 {
            0x48
        } else if i.0 == 0x04 {
            0x50
        } else if i.0 == 0x08 {
            0x58
        } else if i.0 == 0x10 {
            0x60
        } else {
            0
        },
        None => 0,
    }
}

/// Where a micro-operation that writes memory writes.
#[verifier::opaque]
pub open spec fn write_address(c: Cpu, op: NoReadInstruction) -> u16 {
    match op {
        NoReadInstruction::LoadToAddressHlFromADec | NoReadInstruction::LoadToAddressHlFromAInc
        | NoReadInstruction::DecHl | NoReadInstruction::ResHl(_) | NoReadInstruction::LoadToAddressHlN
        | NoReadInstruction::SetHl(_) | NoReadInstruction::RlcHl | NoReadInstruction::RrcHl | NoReadInstruction::RlHl
        | NoReadInstruction::RrHl | NoReadInstruction::SlaHl | NoReadInstruction::SraHl | NoReadInstruction::SwapHl
        | NoReadInstruction::SrlHl | NoReadInstruction::IncHl => hl(c),
        NoReadInstruction::LoadFromAccumulator(r) => 0xff00u16 | (match r {
            Some(r) => reg8(c, r),
            None => c.lsb,
        }) as u16,
        NoReadInstruction::LoadToAddressFromRegister { address, .. } => reg16(c, address),
        NoReadInstruction::WriteMsbOfRegisterWhereSpPointsAndDecSp(_)
        | NoReadInstruction::WriteLsbPcWhereSpPointsAndLoadCacheToPc
        | NoReadInstruction::WriteLsbPcWhereSpPointsAndLoadAbsoluteAddressToPc(_)
        | NoReadInstruction::FinalStepInterruptDispatch => c.sp,
        NoReadInstruction::LoadToCachedAddressFromA | NoReadInstruction::WriteLsbSpToCachedAddressAndIncCachedAddress
        | NoReadInstruction::WriteMsbSpToCachedAddress => wz(c),
        _ => 0,
    }
}

/// Where a micro-operation that writes memory writes, and the byte.
#[verifier::opaque]
pub open spec fn write_of(c: Cpu, op: NoReadInstruction) -> (u16, u8) {
    match op {
        NoReadInstruction::LoadToAddressHlFromADec => (hl(c), c.a),
        NoReadInstruction::LoadToAddressHlFromAInc => (hl(c), c.a),
        NoReadInstruction::LoadFromAccumulator(r) => (0xff00u16 | (match r {
            Some(r) => reg8(c, r),
            None => c.lsb,
        }) as u16, c.a),
        NoReadInstruction::LoadToAddressFromRegister { address, value } => (reg16(c, address), reg8(c, value)),
        NoReadInstruction::WriteMsbOfRegisterWhereSpPointsAndDecSp(r) => (c.sp, (reg16(c, r) / 256) as u8),
        NoReadInstruction::WriteLsbPcWhereSpPointsAndLoadCacheToPc => (c.sp, (c.pc % 256) as u8),
        NoReadInstruction::WriteLsbPcWhereSpPointsAndLoadAbsoluteAddressToPc(_) => (c.sp, (c.pc % 256) as u8),
        NoReadInstruction::FinalStepInterruptDispatch => (c.sp, (c.pc % 256) as u8),
        NoReadInstruction::DecHl => (hl(c), alu_dec(c.lsb, c.f).0),
        NoReadInstruction::LoadToCachedAddressFromA => (wz(c), c.a),
        NoReadInstruction::ResHl(bit) => (hl(c), c.lsb & !(1u8 << bit)),
        NoReadInstruction::LoadToAddressHlN => (hl(c), c.lsb),
        NoReadInstruction::SetHl(bit) => (hl(c), c.lsb | (1u8 << bit)),
        NoReadInstruction::WriteLsbSpToCachedAddressAndIncCachedAddress => (wz(c), (c.sp % 256) as u8),
        NoReadInstruction::WriteMsbSpToCachedAddress => (wz(c), (c.sp / 256) as u8),
        NoReadInstruction::RlcHl => (hl(c), alu_rlc(c.lsb).0),
        NoReadInstruction::RrcHl => (hl(c), alu_rrc(c.lsb).0),
        NoReadInstruction::RlHl => (hl(c), alu_rl(c.lsb, c.f).0),
        NoReadInstruction::RrHl => (hl(c), alu_rr(c.lsb, c.f).0),
        NoReadInstruction::SlaHl => (hl(c), alu_sla(c.lsb).0),
        NoReadInstruction::SraHl => (hl(c), alu_sra(c.lsb).0),
        NoReadInstruction::SwapHl => (hl(c), alu_swap(c.lsb).0),
        NoReadInstruction::SrlHl => (hl(c), alu_srl(c.lsb).0),
        NoReadInstruction::IncHl => (hl(c), alu_inc(c.lsb, c.f).0),
        _ => (0, 0),
    }
}

/// The byte written by a micro-operation, and where.
pub open spec fn op_write(c: Cpu, inst: AfterReadInstruction) -> Option<(u16, u8)> {
    match inst {
        AfterReadInstruction::Read(_, _) => None,
        AfterReadInstruction::NoRead(op) => if writes_memory(op) {
            Some(write_of(c, op))
        } else {
            None
        },
    }
}

/// The CPU with an ALU result stored in a register and the ALU's flags.
pub open spec fn with_alu(c: Cpu, r: Register8Bit, result: (u8, Flags)) -> Cpu {
    with_reg8(Cpu { f: result.1, ..c }, r, result.0)
}

/// DAA: A adjusted back to BCD after an addition or a subtraction.
/// https://rgbds.gbdev.io/docs/v1.0.0/gbz80.7#DAA
pub open spec fn alu_daa(a: u8, f: Flags) -> (u8, Flags) {
    if f.n {
        let adj: int = (if f.h { 0x06int } else { 0 }) + (if f.c { 0x60int } else { 0 });
        let r = ((a - adj + 256) % 256) as u8;
        (r, Flags { z: r == 0, n: f.n, h: false, c: f.c })
    } else {
        let adj: int = (if f.h || a % 16 > 9 { 0x06int } else { 0 }) + (if f.c || a > 0x99 { 0x60int } else { 0 });
        let r = ((a + adj) % 256) as u8;
        (r, Flags { z: r == 0, n: f.n, h: false, c: f.c || a > 0x99 })
    }
}

/// The registers after a micro-operation that reads, with the byte read.
pub open spec fn read_registers(c: Cpu, value: u8, r: ReadInstruction) -> Cpu {
    match r {
        ReadInstruction::ReadIntoLsb => Cpu { lsb: value, ..c },
        ReadInstruction::ReadIntoMsb => Cpu { msb: value, ..c },
        ReadInstruction::ConditionalRelativeJump(_) => Cpu { lsb: value, ..c },
        ReadInstruction::ConditionalCall(_) => Cpu { msb: value, ..c },
        ReadInstruction::ConditionalJump(_) => Cpu { msb: value, ..c },
    }
}

/// The registers after moving a value between registers.
#[verifier::opaque]
pub open spec fn move_registers(c: Cpu, op: NoReadInstruction, ints: Ints) -> Cpu {
    match op {
        NoReadInstruction::Nop => c,
        NoReadInstruction::Store8Bit(r) => with_reg8(c, r, c.lsb),
        NoReadInstruction::Store16Bit(r) => with_reg16(c, r, wz(c)),
        NoReadInstruction::Load { to, from } => with_reg8(c, to, reg8(c, from)),
        NoReadInstruction::LdSpHl => Cpu { sp: hl(c), ..c },
        _ => c,
    }
}

/// The registers after a step of a register pair.
#[verifier::opaque]
pub open spec fn step_registers(c: Cpu, op: NoReadInstruction, ints: Ints) -> Cpu {
    match op {
        NoReadInstruction::Inc16Bit(r) => with_reg16(c, r, reg16(c, r).wrapping_add(1)),
        NoReadInstruction::Dec16Bit(r) => with_reg16(c, r, reg16(c, r).wrapping_sub(1)),
        NoReadInstruction::DecStackPointer => Cpu { sp: c.sp.wrapping_sub(1), ..c },
        _ => c,
    }
}

/// The registers after a step of PC or a relative jump target.
#[verifier::opaque]
pub open spec fn jump_registers(c: Cpu, op: NoReadInstruction, ints: Ints) -> Cpu {
    match op {
        NoReadInstruction::DecPc => Cpu { pc: (c.pc - 1) as u16, ..c },
        NoReadInstruction::OffsetPc => with_reg16(c, Register16Bit::WZ, c.pc.wrapping_add_signed(signed_offset(c.lsb))),
        _ => c,
    }
}

/// The registers after a change of the control state (IME, prefix, HALT, RETI, conditional return).
#[verifier::opaque]
pub open spec fn control_registers(c: Cpu, op: NoReadInstruction, ints: Ints) -> Cpu {
    match op {
        NoReadInstruction::Di => Cpu { ime: false, ..c },
        NoReadInstruction::Ei => Cpu { ime: true, ..c },
        NoReadInstruction::CbMode => Cpu { is_cb_mode: true, ..c },

        NoReadInstruction::Halt => Cpu { is_halted: ints.0 == 0, ..c },
        NoReadInstruction::Reti => Cpu { pc: wz(c), ime: true, ..c },
        NoReadInstruction::ConditionalReturn(_) => c,
        _ => c,
    }
}

/// The registers after a logic operation on A or the carry flag.
#[verifier::opaque]
pub open spec fn logic_registers(c: Cpu, op: NoReadInstruction, ints: Ints) -> Cpu {
    match op {
        NoReadInstruction::Xor8Bit(r) => {
            let a = c.a ^ reg8(c, r);
            Cpu { a, f: logic_flags(a, false), ..c }
        },
        NoReadInstruction::Or8Bit(r) => {
            let a = c.a | reg8(c, r);
            Cpu { a, f: logic_flags(a, false), ..c }
        },
        NoReadInstruction::And8Bit(r) => {
            let a = c.a & reg8(c, r);
            Cpu { a, f: logic_flags(a, true), ..c }
        },
        NoReadInstruction::Cpl => Cpu { a: !c.a, f: Flags { n: true, h: true, ..c.f }, ..c },
        NoReadInstruction::Scf => Cpu { f: Flags { n: false, h: false, c: true, ..c.f }, ..c },
        NoReadInstruction::Ccf => Cpu { f: Flags { n: false, h: false, c: !c.f.c, ..c.f }, ..c },
        _ => c,
    }
}

/// The registers after an addition to A.
#[verifier::opaque]
pub open spec fn add_registers(c: Cpu, op: NoReadInstruction, ints: Ints) -> Cpu {
    match op {
        NoReadInstruction::Add8Bit(r) => Cpu { a: alu_add(c.a, reg8(c, r)).0, f: alu_add(c.a, reg8(c, r)).1, ..c },
        NoReadInstruction::Adc8Bit(r) => Cpu {
            a: alu_adc(c.a, reg8(c, r), c.f.c).0,
            f: alu_adc(c.a, reg8(c, r), c.f.c).1,
            ..c
        },
        _ => c,
    }
}

/// The registers after a subtraction from or comparison with A.
#[verifier::opaque]
pub open spec fn sub_registers(c: Cpu, op: NoReadInstruction, ints: Ints) -> Cpu {
    match op {
        NoReadInstruction::Sub8Bit(r) => Cpu { a: alu_sub(c.a, reg8(c, r)).0, f: alu_sub(c.a, reg8(c, r)).1, ..c },
        NoReadInstruction::Sbc8Bit(r) => Cpu {
            a: alu_sbc(c.a, reg8(c, r), c.f.c).0,
            f: alu_sbc(c.a, reg8(c, r), c.f.c).1,
            ..c
        },
        NoReadInstruction::Cp8Bit(r) => Cpu { f: alu_sub(c.a, reg8(c, r)).1, ..c },
        _ => c,
    }
}

/// The registers after DAA.
#[verifier::opaque]
pub open spec fn daa_registers(c: Cpu, op: NoReadInstruction, ints: Ints) -> Cpu {
    match op {
        NoReadInstruction::Daa => Cpu { a: alu_daa(c.a, c.f).0, f: alu_daa(c.a, c.f).1, ..c },
        _ => c,
    }
}

/// The registers after an increment, a decrement or a bit operation on a register.
#[verifier::opaque]
pub open spec fn bits_registers(c: Cpu, op: NoReadInstruction, ints: Ints) -> Cpu {
    match op {
        NoReadInstruction::Inc(r) => with_alu(c, r, alu_inc(reg8(c, r), c.f)),
        NoReadInstruction::Dec8Bit(r) => {
            let v = reg8(c, r);
            let c1 = with_reg8(c, r, ((v + 255) % 256) as u8);
            Cpu { f: Flags { z: v == 1, n: true, h: v % 16 == 0, c: c1.f.c }, ..c1 }
        },
        NoReadInstruction::Bit8Bit(bit, r) => Cpu {
            f: Flags { z: reg8(c, r) & (1u8 << bit) == 0, n: false, h: true, c: c.f.c },
            ..c
        },
        NoReadInstruction::Res(bit, r) => with_reg8(c, r, reg8(c, r) & !(1u8 << bit)),
        NoReadInstruction::Set8Bit(bit, r) => with_reg8(c, r, reg8(c, r) | (1u8 << bit)),
        _ => c,
    }
}

/// The registers after a prefixed rotate of a register.
#[verifier::opaque]
pub open spec fn rotate_registers(c: Cpu, op: NoReadInstruction, ints: Ints) -> Cpu {
    match op {
        NoReadInstruction::Rl(r) => with_alu(c, r, alu_rl(reg8(c, r), c.f)),
        NoReadInstruction::Rr(r) => with_alu(c, r, alu_rr(reg8(c, r), c.f)),
        NoReadInstruction::Rlc8Bit(r) => with_alu(c, r, alu_rlc(reg8(c, r))),
        NoReadInstruction::Rrc8Bit(r) => with_alu(c, r, alu_rrc(reg8(c, r))),
        _ => c,
    }
}

/// The registers after a shift or swap of a register.
#[verifier::opaque]
pub open spec fn shift_registers(c: Cpu, op: NoReadInstruction, ints: Ints) -> Cpu {
    match op {
        NoReadInstruction::Srl(r) => with_alu(c, r, alu_srl(reg8(c, r))),
        NoReadInstruction::Swap8Bit(r) => with_alu(c, r, alu_swap(reg8(c, r))),
        NoReadInstruction::Sla8Bit(r) => with_alu(c, r, alu_sla(reg8(c, r))),
        NoReadInstruction::Sra8Bit(r) => with_alu(c, r, alu_sra(reg8(c, r))),
        _ => c,
    }
}

/// The registers after a rotate of A.
#[verifier::opaque]
pub open spec fn rotate_a_registers(c: Cpu, op: NoReadInstruction, ints: Ints) -> Cpu {
    match op {
        NoReadInstruction::Rra => Cpu {
            a: (c.a >> 1u8) | (if c.f.c { 0x80u8 } else { 0u8 }),
            f: Flags { z: false, n: false, h: false, c: c.a & 1 != 0 },
            ..c
        },
        NoReadInstruction::Rla => Cpu {
            a: (c.a << 1u8) | (if c.f.c { 1u8 } else { 0u8 }),
            f: Flags { z: false, n: false, h: false, c: c.a & 0x80 != 0 },
            ..c
        },
        NoReadInstruction::Rlca => Cpu {
            a: (c.a << 1u8) | (c.a >> 7u8),
            f: Flags { z: false, n: false, h: false, c: c.a & 0x80 != 0 },
            ..c
        },
        NoReadInstruction::Rrca => Cpu {
            a: (c.a >> 1u8) | (c.a << 7u8),
            f: Flags { z: false, n: false, h: false, c: c.a & 1 != 0 },
            ..c
        },
        _ => c,
    }
}

/// The registers after one byte of ADD HL, rr.
#[verifier::opaque]
pub open spec fn add_hl_registers(c: Cpu, op: NoReadInstruction, ints: Ints) -> Cpu {
    match op {
        NoReadInstruction::AddHlFirst(r) => {
            let v = reg8(c, r);
            Cpu {
                l: ((c.l + v) % 256) as u8,
                f: Flags { z: c.f.z, n: false, h: c.l % 16 + v % 16 >= 16, c: c.l + v >= 256 },
                ..c
            }
        },
        NoReadInstruction::AddHlSecond(r) => {
            let v = reg8(c, r);
            let carry: int = if c.f.c { 1 } else { 0 };
            Cpu {
                h: ((c.h + v + carry) % 256) as u8,
                f: Flags { z: c.f.z, n: false, h: c.h % 16 + v % 16 + carry >= 16, c: c.h + v + carry >= 256 },
                ..c
            }
        },
        _ => c,
    }
}

/// The registers after one byte of LD HL, SP+e or ADD SP, e.
#[verifier::opaque]
pub open spec fn add_sp_registers(c: Cpu, op: NoReadInstruction, ints: Ints) -> Cpu {
    match op {
        NoReadInstruction::LoadHlFromAdjustedStackPointerFirst => {
            let low = c.sp % 256;
            Cpu {
                l: ((low + c.lsb) % 256) as u8,
                f: Flags { z: false, n: false, h: low % 16 + c.lsb % 16 >= 16, c: low + c.lsb >= 256 },
                ..c
            }
        },
        NoReadInstruction::LoadHlFromAdjustedStackPointerSecond => Cpu {
            h: (c.sp.wrapping_add_signed(signed_offset(c.lsb)) / 256) as u8,
            ..c
        },
        NoReadInstruction::AddSpE => {
            let low = c.sp % 256;
            Cpu {
                sp: c.sp.wrapping_add_signed(signed_offset(c.lsb)),
                f: Flags { z: false, n: false, h: low % 16 + c.lsb % 16 >= 16, c: low + c.lsb >= 256 },
                ..c
            }
        },
        _ => c,
    }
}

/// The registers after a store of A or of a register.
#[verifier::opaque]
pub open spec fn store_registers(c: Cpu, op: NoReadInstruction, ints: Ints) -> Cpu {
    match op {
        NoReadInstruction::LoadToAddressHlFromADec => with_reg16(c, Register16Bit::HL, hl(c).wrapping_sub(1)),
        NoReadInstruction::LoadToAddressHlFromAInc => with_reg16(c, Register16Bit::HL, hl(c).wrapping_add(1)),
        NoReadInstruction::LoadFromAccumulator(_) => c,
        NoReadInstruction::LoadToAddressFromRegister { .. } => c,
        _ => c,
    }
}

/// The registers after a store at the cached address W:Z or of an immediate byte.
#[verifier::opaque]
pub open spec fn store_cached_registers(c: Cpu, op: NoReadInstruction, ints: Ints) -> Cpu {
    match op {
        NoReadInstruction::LoadToCachedAddressFromA => c,
        NoReadInstruction::LoadToAddressHlN => c,
        NoReadInstruction::WriteLsbSpToCachedAddressAndIncCachedAddress => {
            let next = (wz(c) + 1) % 65536;
            Cpu { msb: (next / 256) as u8, lsb: (next % 256) as u8, ..c }
        },
        NoReadInstruction::WriteMsbSpToCachedAddress => c,
        _ => c,
    }
}

/// The registers after a push.
#[verifier::opaque]
pub open spec fn push_registers(c: Cpu, op: NoReadInstruction, ints: Ints) -> Cpu {
    match op {
        NoReadInstruction::WriteMsbOfRegisterWhereSpPointsAndDecSp(_) => Cpu { sp: c.sp.wrapping_sub(1), ..c },
        NoReadInstruction::WriteLsbPcWhereSpPointsAndLoadCacheToPc => Cpu { pc: wz(c), ..c },
        NoReadInstruction::WriteLsbPcWhereSpPointsAndLoadAbsoluteAddressToPc(address) => Cpu { pc: address as u16, ..c },
        _ => c,
    }
}

/// The registers after the last step of an interrupt dispatch.
#[verifier::opaque]
pub open spec fn dispatch_registers(c: Cpu, op: NoReadInstruction, ints: Ints) -> Cpu {
    match op {
        NoReadInstruction::FinalStepInterruptDispatch => Cpu {
            pc: vector_of(dispatched(ints)),
            interrupt_flag: match dispatched(ints) {
                Some(i) => Interrupts(c.interrupt_flag.0 & !i.0),
                None => c.interrupt_flag,
            },
            ..c
        },
        _ => c,
    }
}

/// The registers after a read-modify-write of (HL).
#[verifier::opaque]
pub open spec fn modify_hl_registers(c: Cpu, op: NoReadInstruction, ints: Ints) -> Cpu {
    match op {
        NoReadInstruction::DecHl => Cpu { f: alu_dec(c.lsb, c.f).1, ..c },
        NoReadInstruction::ResHl(_) => c,
        NoReadInstruction::SetHl(_) => c,
        NoReadInstruction::IncHl => Cpu { f: alu_inc(c.lsb, c.f).1, ..c },
        _ => c,
    }
}

/// The registers after a rotate, shift or swap of (HL).
#[verifier::opaque]
pub open spec fn rotate_hl_registers(c: Cpu, op: NoReadInstruction, ints: Ints) -> Cpu {
    match op {
        NoReadInstruction::RlcHl => Cpu { f: alu_rlc(c.lsb).1, ..c },
        NoReadInstruction::RrcHl => Cpu { f: alu_rrc(c.lsb).1, ..c },
        NoReadInstruction::RlHl => Cpu { f: alu_rl(c.lsb, c.f).1, ..c },
        NoReadInstruction::RrHl => Cpu { f: alu_rr(c.lsb, c.f).1, ..c },
        NoReadInstruction::SlaHl => Cpu { f: alu_sla(c.lsb).1, ..c },
        NoReadInstruction::SraHl => Cpu { f: alu_sra(c.lsb).1, ..c },
        NoReadInstruction::SwapHl => Cpu { f: alu_swap(c.lsb).1, ..c },
        NoReadInstruction::SrlHl => Cpu { f: alu_srl(c.lsb).1, ..c },
        _ => c,
    }
}

/// The registers after a micro-operation (the instruction queue aside).
pub open spec fn op_registers(c: Cpu, inst: AfterReadInstruction, ints: Ints) -> Cpu {
    match inst {
        AfterReadInstruction::Read(value, r) => read_registers(c, value, r),
        AfterReadInstruction::NoRead(op) => {
            if is_move_op(op) {
                move_registers(c, op, ints)
            } else if is_step_op(op) {
                step_registers(c, op, ints)
            } else if is_jump_op(op) {
                jump_registers(c, op, ints)
            } else if is_control_op(op) {
                control_registers(c, op, ints)
            } else if is_logic_op(op) {
                logic_registers(c, op, ints)
            } else if is_add_op(op) {
                add_registers(c, op, ints)
            } else if is_sub_op(op) {
                sub_registers(c, op, ints)
            } else if is_daa_op(op) {
                daa_registers(c, op, ints)
            } else if is_bits_op(op) {
                bits_registers(c, op, ints)
            } else if is_rotate_op(op) {
                rotate_registers(c, op, ints)
            } else if is_shift_op(op) {
                shift_registers(c, op, ints)
            } else if is_rotate_a_op(op) {
                rotate_a_registers(c, op, ints)
            } else if is_add_hl_op(op) {
                add_hl_registers(c, op, ints)
            } else if is_add_sp_op(op) {
                add_sp_registers(c, op, ints)
            } else if is_store_op(op) {
                store_registers(c, op, ints)
            } else if is_store_cached_op(op) {
                store_cached_registers(c, op, ints)
            } else if is_push_op(op) {
                push_registers(c, op, ints)
            } else if is_dispatch_op(op) {
                dispatch_registers(c, op, ints)
            } else if is_modify_hl_op(op) {
                modify_hl_registers(c, op, ints)
            } else if is_rotate_hl_op(op) {
                rotate_hl_registers(c, op, ints)
            } else {
                c
            }
        },
    }
}

/// The micro-operations that a taken branch queues, if the micro-operation branches.
pub open spec fn op_queue(c: Cpu, inst: AfterReadInstruction) -> Option<(Seq<Instruction>, Prefetch)> {
    match inst {
        AfterReadInstruction::Read(_, ReadInstruction::ConditionalRelativeJump(cond)) => if flag_value(c.f, cond.flag)
            != cond.not {
            Some(
                (
                    seq![Instruction::NoRead(NoReadInstruction::Nop), Instruction::NoRead(NoReadInstruction::OffsetPc)],
                    Prefetch { check_interrupts: true, set_pc: PcFetch::WithIncrement(Register16Bit::WZ) },
                ),
            )
        } else {
            None
        },
        AfterReadInstruction::Read(_, ReadInstruction::ConditionalCall(cond)) => if flag_value(c.f, cond.flag)
            != cond.not {
            Some(
                (
                    seq![
                        Instruction::NoRead(NoReadInstruction::Nop),
                        Instruction::NoRead(NoReadInstruction::WriteLsbPcWhereSpPointsAndLoadCacheToPc),
                        Instruction::NoRead(NoReadInstruction::WriteMsbOfRegisterWhereSpPointsAndDecSp(Register16Bit::PC)),
                        Instruction::NoRead(NoReadInstruction::DecStackPointer),
                    ],
                    Prefetch { check_interrupts: true, set_pc: PcFetch::WithIncrement(Register16Bit::PC) },
                ),
            )
        } else {
            None
        },
        AfterReadInstruction::Read(_, ReadInstruction::ConditionalJump(cond)) => if flag_value(c.f, cond.flag)
            != cond.not {
            Some(
                (
                    seq![
                        Instruction::NoRead(NoReadInstruction::Nop),
                        Instruction::NoRead(NoReadInstruction::Store16Bit(Register16Bit::PC)),
                    ],
                    Prefetch { check_interrupts: true, set_pc: PcFetch::WithIncrement(Register16Bit::PC) },
                ),
            )
        } else {
            None
        },
        AfterReadInstruction::NoRead(NoReadInstruction::ConditionalReturn(cond)) => if flag_value(c.f, cond.flag)
            != cond.not {
            Some(
                (
                    seq![
                        Instruction::NoRead(NoReadInstruction::Nop),
                        Instruction::NoRead(NoReadInstruction::Store16Bit(Register16Bit::PC)),
                        Instruction::Read(pop_sp_spec(), ReadInstruction::ReadIntoMsb),
                        Instruction::Read(pop_sp_spec(), ReadInstruction::ReadIntoLsb),
                    ],
                    Prefetch { check_interrupts: true, set_pc: PcFetch::WithIncrement(Register16Bit::PC) },
                ),
            )
        } else {
            None
        },
        _ => None,
    }
}

/// A micro-operation that this CPU can run: registers it writes are writable, bit numbers are
/// below 8, PC is not decremented below 0 and STOP is not run (it is not implemented).
pub open spec fn op_runnable(c: Cpu, inst: AfterReadInstruction) -> bool {
    match inst {
        AfterReadInstruction::NoRead(op) => match op {
            NoReadInstruction::Store8Bit(r) => writable_reg8(r),
            NoReadInstruction::Inc(r) => writable_reg8(r),
            NoReadInstruction::Load { to, .. } => writable_reg8(to),
            NoReadInstruction::Rl(r) => writable_reg8(r),
            NoReadInstruction::Srl(r) => writable_reg8(r),
            NoReadInstruction::Rr(r) => writable_reg8(r),
            NoReadInstruction::Dec8Bit(r) => writable_reg8(r),
            NoReadInstruction::Swap8Bit(r) => writable_reg8(r),
            NoReadInstruction::Rlc8Bit(r) => writable_reg8(r),
            NoReadInstruction::Rrc8Bit(r) => writable_reg8(r),
            NoReadInstruction::Sla8Bit(r) => writable_reg8(r),
            NoReadInstruction::Sra8Bit(r) => writable_reg8(r),
            NoReadInstruction::Res(bit, r) => writable_reg8(r) && bit < 8,
            NoReadInstruction::Set8Bit(bit, r) => writable_reg8(r) && bit < 8,
            NoReadInstruction::Bit8Bit(bit, _) => bit < 8,
            NoReadInstruction::ResHl(bit) => bit < 8,
            NoReadInstruction::SetHl(bit) => bit < 8,
            NoReadInstruction::DecPc => c.pc > 0,
            NoReadInstruction::Stop => false,
            _ => true,
        },
        _ => true,
    }
}

/// The bus serves the byte a micro-operation writes: the address is one it decodes, or the write
/// is dropped because an OAM DMA is requested (`dma_request`) and the address is outside HRAM.
pub open spec fn op_write_served(c: Cpu, inst: AfterReadInstruction, dma_request: bool) -> bool {
    match inst {
        AfterReadInstruction::NoRead(op) => writes_memory(op) ==> {
            let address = write_address(c, op);
            decoded(address) || (dma_request && !(0xff80 <= address < 0xffff))
        },
        _ => true,
    }
}

/// Whether a micro-operation writes a byte to memory.
pub open spec fn writes_memory(op: NoReadInstruction) -> bool {
    match op {
        NoReadInstruction::LoadToAddressHlFromADec | NoReadInstruction::LoadToAddressHlFromAInc
        | NoReadInstruction::LoadFromAccumulator(_) | NoReadInstruction::LoadToAddressFromRegister { .. }
        | NoReadInstruction::WriteMsbOfRegisterWhereSpPointsAndDecSp(_)
        | NoReadInstruction::WriteLsbPcWhereSpPointsAndLoadCacheToPc
        | NoReadInstruction::WriteLsbPcWhereSpPointsAndLoadAbsoluteAddressToPc(_)
        | NoReadInstruction::FinalStepInterruptDispatch | NoReadInstruction::DecHl
        | NoReadInstruction::LoadToCachedAddressFromA | NoReadInstruction::ResHl(_) | NoReadInstruction::LoadToAddressHlN
        | NoReadInstruction::SetHl(_) | NoReadInstruction::WriteLsbSpToCachedAddressAndIncCachedAddress
        | NoReadInstruction::WriteMsbSpToCachedAddress | NoReadInstruction::RlcHl | NoReadInstruction::RrcHl
        | NoReadInstruction::RlHl | NoReadInstruction::RrHl | NoReadInstruction::SlaHl | NoReadInstruction::SraHl
        | NoReadInstruction::SwapHl | NoReadInstruction::SrlHl | NoReadInstruction::IncHl => true,
        _ => false,
    }
}

/// Whether a micro-operation moves a value between registers.
pub open spec fn is_move_op(op: NoReadInstruction) -> bool {
    match op {
        NoReadInstruction::Nop
        | NoReadInstruction::Store8Bit(_)
        | NoReadInstruction::Store16Bit(_)
        | NoReadInstruction::Load { .. }
        | NoReadInstruction::LdSpHl => true,
        _ => false,
    }
}

/// Whether a micro-operation steps a register pair.
pub open spec fn is_step_op(op: NoReadInstruction) -> bool {
    match op {
        NoReadInstruction::Inc16Bit(_)
        | NoReadInstruction::Dec16Bit(_)
        | NoReadInstruction::DecStackPointer => true,
        _ => false,
    }
}

/// Whether a micro-operation steps PC back or computes a relative jump target.
pub open spec fn is_jump_op(op: NoReadInstruction) -> bool {
    match op {
        NoReadInstruction::DecPc
        | NoReadInstruction::OffsetPc => true,
        _ => false,
    }
}

/// Whether a micro-operation changes the control state.
pub open spec fn is_control_op(op: NoReadInstruction) -> bool {
    match op {
        NoReadInstruction::Di
        | NoReadInstruction::Ei
        | NoReadInstruction::CbMode
        | NoReadInstruction::Halt
        | NoReadInstruction::Reti
        | NoReadInstruction::ConditionalReturn(_) => true,
        _ => false,
    }
}

/// Whether a micro-operation is a logic operation on A or on the carry flag.
pub open spec fn is_logic_op(op: NoReadInstruction) -> bool {
    match op {
        NoReadInstruction::Xor8Bit(_)
        | NoReadInstruction::Or8Bit(_)
        | NoReadInstruction::And8Bit(_)
        | NoReadInstruction::Cpl
        | NoReadInstruction::Scf
        | NoReadInstruction::Ccf => true,
        _ => false,
    }
}

/// Whether a micro-operation adds to A.
pub open spec fn is_add_op(op: NoReadInstruction) -> bool {
    match op {
        NoReadInstruction::Add8Bit(_)
        | NoReadInstruction::Adc8Bit(_) => true,
        _ => false,
    }
}

/// Whether a micro-operation subtracts from or compares with A.
pub open spec fn is_sub_op(op: NoReadInstruction) -> bool {
    match op {
        NoReadInstruction::Sub8Bit(_)
        | NoReadInstruction::Sbc8Bit(_)
        | NoReadInstruction::Cp8Bit(_) => true,
        _ => false,
    }
}

/// Whether a micro-operation adjusts A to BCD.
pub open spec fn is_daa_op(op: NoReadInstruction) -> bool {
    match op {
        NoReadInstruction::Daa => true,
        _ => false,
    }
}

/// Whether a micro-operation increments, decrements or tests, resets or sets a bit of an 8-bit register.
pub open spec fn is_bits_op(op: NoReadInstruction) -> bool {
    match op {
        NoReadInstruction::Inc(_)
        | NoReadInstruction::Dec8Bit(_)
        | NoReadInstruction::Bit8Bit(_, _)
        | NoReadInstruction::Res(_, _)
        | NoReadInstruction::Set8Bit(_, _) => true,
        _ => false,
    }
}

/// Whether a micro-operation rotates an 8-bit register (prefixed opcodes).
pub open spec fn is_rotate_op(op: NoReadInstruction) -> bool {
    match op {
        NoReadInstruction::Rl(_)
        | NoReadInstruction::Rr(_)
        | NoReadInstruction::Rlc8Bit(_)
        | NoReadInstruction::Rrc8Bit(_) => true,
        _ => false,
    }
}

/// Whether a micro-operation shifts or swaps an 8-bit register.
pub open spec fn is_shift_op(op: NoReadInstruction) -> bool {
    match op {
        NoReadInstruction::Srl(_)
        | NoReadInstruction::Swap8Bit(_)
        | NoReadInstruction::Sla8Bit(_)
        | NoReadInstruction::Sra8Bit(_) => true,
        _ => false,
    }
}

/// Whether a micro-operation rotates A (unprefixed opcodes).
pub open spec fn is_rotate_a_op(op: NoReadInstruction) -> bool {
    match op {
        NoReadInstruction::Rra
        | NoReadInstruction::Rla
        | NoReadInstruction::Rlca
        | NoReadInstruction::Rrca => true,
        _ => false,
    }
}

/// Whether a micro-operation adds a register pair to HL, one byte at a time.
pub open spec fn is_add_hl_op(op: NoReadInstruction) -> bool {
    match op {
        NoReadInstruction::AddHlFirst(_)
        | NoReadInstruction::AddHlSecond(_) => true,
        _ => false,
    }
}

/// Whether a micro-operation adds a signed byte to SP, into HL or SP.
pub open spec fn is_add_sp_op(op: NoReadInstruction) -> bool {
    match op {
        NoReadInstruction::LoadHlFromAdjustedStackPointerFirst
        | NoReadInstruction::LoadHlFromAdjustedStackPointerSecond
        | NoReadInstruction::AddSpE => true,
        _ => false,
    }
}

/// Whether a micro-operation stores A or a register at an address.
pub open spec fn is_store_op(op: NoReadInstruction) -> bool {
    match op {
        NoReadInstruction::LoadToAddressHlFromADec
        | NoReadInstruction::LoadToAddressHlFromAInc
        | NoReadInstruction::LoadFromAccumulator(_)
        | NoReadInstruction::LoadToAddressFromRegister { .. } => true,
        _ => false,
    }
}

/// Whether a micro-operation stores at the cached address W:Z, or stores an immediate byte at (HL).
pub open spec fn is_store_cached_op(op: NoReadInstruction) -> bool {
    match op {
        NoReadInstruction::LoadToCachedAddressFromA
        | NoReadInstruction::LoadToAddressHlN
        | NoReadInstruction::WriteLsbSpToCachedAddressAndIncCachedAddress
        | NoReadInstruction::WriteMsbSpToCachedAddress => true,
        _ => false,
    }
}

/// Whether a micro-operation pushes a byte of PC or of a register pair onto the stack.
pub open spec fn is_push_op(op: NoReadInstruction) -> bool {
    match op {
        NoReadInstruction::WriteMsbOfRegisterWhereSpPointsAndDecSp(_)
        | NoReadInstruction::WriteLsbPcWhereSpPointsAndLoadCacheToPc
        | NoReadInstruction::WriteLsbPcWhereSpPointsAndLoadAbsoluteAddressToPc(_) => true,
        _ => false,
    }
}

/// Whether a micro-operation ends an interrupt dispatch.
pub open spec fn is_dispatch_op(op: NoReadInstruction) -> bool {
    match op {
        NoReadInstruction::FinalStepInterruptDispatch => true,
        _ => false,
    }
}

/// Whether a micro-operation writes back to (HL) a byte incremented, decremented, or with a bit reset or set.
pub open spec fn is_modify_hl_op(op: NoReadInstruction) -> bool {
    match op {
        NoReadInstruction::DecHl
        | NoReadInstruction::ResHl(_)
        | NoReadInstruction::SetHl(_)
        | NoReadInstruction::IncHl => true,
        _ => false,
    }
}

/// Whether a micro-operation writes back to (HL) a byte rotated, shifted or swapped.
pub open spec fn is_rotate_hl_op(op: NoReadInstruction) -> bool {
    match op {
        NoReadInstruction::RlcHl
        | NoReadInstruction::RrcHl
        | NoReadInstruction::RlHl
        | NoReadInstruction::RrHl
        | NoReadInstruction::SlaHl
        | NoReadInstruction::SraHl
        | NoReadInstruction::SwapHl
        | NoReadInstruction::SrlHl => true,
        _ => false,
    }
}

impl Cpu {
    fn queue(&mut self, items: ArrayVec<Instruction, 5>, prefetch: Prefetch)
        ensures
            *final(self) == (Cpu { instruction_register: final(self).instruction_register, ..*old(self) }),
            instruction_items(final(self).instruction_register.0) == instruction_items(items),
            final(self).instruction_register.1 == prefetch,
    {
        self.instruction_register = (items, prefetch);
    }

    /// A micro-operation that reads memory, with the byte read.
    fn execute_read(&mut self, value: u8, read: ReadInstruction)
        ensures
            *final(self) == (Cpu {
                instruction_register: final(self).instruction_register,
                ..read_registers(*old(self), value, read)
            }),
            match op_queue(*old(self), AfterReadInstruction::Read(value, read)) {
                Some((items, prefetch)) => instruction_items(final(self).instruction_register.0) == items
                    && final(self).instruction_register.1 == prefetch,
                None => final(self).instruction_register == old(self).instruction_register,
            },
    {
        match read {
            ReadInstruction::ReadIntoLsb => self.lsb = value,
            ReadInstruction::ReadIntoMsb => self.msb = value,
            ReadInstruction::ConditionalRelativeJump(cond) => {
                self.lsb = value;
                if self.get_flag(cond.flag) != cond.not {
                    let items = crate::gb_core::instructions::vec(
                        [Instruction::NoRead(NoReadInstruction::Nop), Instruction::NoRead(NoReadInstruction::OffsetPc)],
                    );
                    self.queue(items, Prefetch { check_interrupts: true, set_pc: PcFetch::WithIncrement(Register16Bit::WZ) });
                }
            },
            ReadInstruction::ConditionalCall(cond) => {
                self.msb = value;
                if self.get_flag(cond.flag) != cond.not {
                    let items = crate::gb_core::instructions::vec(
                        [
                            Instruction::NoRead(NoReadInstruction::Nop),
                            Instruction::NoRead(NoReadInstruction::WriteLsbPcWhereSpPointsAndLoadCacheToPc),
                            Instruction::NoRead(NoReadInstruction::WriteMsbOfRegisterWhereSpPointsAndDecSp(Register16Bit::PC)),
                            Instruction::NoRead(NoReadInstruction::DecStackPointer),
                        ],
                    );
                    self.queue(items, Prefetch::default());
                }
            },
            ReadInstruction::ConditionalJump(cond) => {
                self.msb = value;
                if self.get_flag(cond.flag) != cond.not {
                    let items = crate::gb_core::instructions::vec(
                        [
                            Instruction::NoRead(NoReadInstruction::Nop),
                            Instruction::NoRead(NoReadInstruction::Store16Bit(Register16Bit::PC)),
                        ],
                    );
                    self.queue(items, Prefetch::default());
                }
            },
        }
    }
}

impl Cpu {
    /// A micro-operation that reads and writes no memory.
    fn execute_register_op(&mut self, op: NoReadInstruction, interrupts_to_execute: Ints)
        requires
            op_runnable(*old(self), AfterReadInstruction::NoRead(op)),
            op_write(*old(self), AfterReadInstruction::NoRead(op)) is None,
        ensures
            *final(self) == (Cpu {
                instruction_register: final(self).instruction_register,
                ..op_registers(*old(self), AfterReadInstruction::NoRead(op), interrupts_to_execute)
            }),
            match op_queue(*old(self), AfterReadInstruction::NoRead(op)) {
                Some((items, prefetch)) => instruction_items(final(self).instruction_register.0) == items
                    && final(self).instruction_register.1 == prefetch,
                None => final(self).instruction_register == old(self).instruction_register,
            },
    {
        match op {
            NoReadInstruction::Nop
            | NoReadInstruction::Store8Bit(_)
            | NoReadInstruction::Store16Bit(_)
            | NoReadInstruction::Load { .. }
            | NoReadInstruction::LdSpHl => self.exec_move(op, interrupts_to_execute),
            NoReadInstruction::Inc16Bit(_)
            | NoReadInstruction::Dec16Bit(_)
            | NoReadInstruction::DecStackPointer => self.exec_step(op, interrupts_to_execute),
            NoReadInstruction::DecPc
            | NoReadInstruction::OffsetPc => self.exec_jump(op, interrupts_to_execute),
            NoReadInstruction::Di
            | NoReadInstruction::Ei
            | NoReadInstruction::CbMode
            | NoReadInstruction::Halt
            | NoReadInstruction::Reti
            | NoReadInstruction::ConditionalReturn(_) => self.exec_control(op, interrupts_to_execute),
            NoReadInstruction::Xor8Bit(_)
            | NoReadInstruction::Or8Bit(_)
            | NoReadInstruction::And8Bit(_)
            | NoReadInstruction::Cpl
            | NoReadInstruction::Scf
            | NoReadInstruction::Ccf => self.exec_logic(op, interrupts_to_execute),
            NoReadInstruction::Add8Bit(_)
            | NoReadInstruction::Adc8Bit(_) => self.exec_add(op, interrupts_to_execute),
            NoReadInstruction::Sub8Bit(_)
            | NoReadInstruction::Sbc8Bit(_)
            | NoReadInstruction::Cp8Bit(_) => self.exec_sub(op, interrupts_to_execute),
            NoReadInstruction::Daa => self.exec_daa(op, interrupts_to_execute),
            NoReadInstruction::Inc(_)
            | NoReadInstruction::Dec8Bit(_)
            | NoReadInstruction::Bit8Bit(_, _)
            | NoReadInstruction::Res(_, _)
            | NoReadInstruction::Set8Bit(_, _) => self.exec_bits(op, interrupts_to_execute),
            NoReadInstruction::Rl(_)
            | NoReadInstruction::Rr(_)
            | NoReadInstruction::Rlc8Bit(_)
            | NoReadInstruction::Rrc8Bit(_) => self.exec_rotate(op, interrupts_to_execute),
            NoReadInstruction::Srl(_)
            | NoReadInstruction::Swap8Bit(_)
            | NoReadInstruction::Sla8Bit(_)
            | NoReadInstruction::Sra8Bit(_) => self.exec_shift(op, interrupts_to_execute),
            NoReadInstruction::Rra
            | NoReadInstruction::Rla
            | NoReadInstruction::Rlca
            | NoReadInstruction::Rrca => self.exec_rotate_a(op, interrupts_to_execute),
            NoReadInstruction::AddHlFirst(_)
            | NoReadInstruction::AddHlSecond(_) => self.exec_add_hl(op, interrupts_to_execute),
            NoReadInstruction::LoadHlFromAdjustedStackPointerFirst
            | NoReadInstruction::LoadHlFromAdjustedStackPointerSecond
            | NoReadInstruction::AddSpE => self.exec_add_sp(op, interrupts_to_execute),
            _ => {},
        }
    }

    /// Runs moving a value between registers.
    #[verifier::rlimit(100)]
    #[verifier::spinoff_prover]
    fn exec_move(&mut self, op: NoReadInstruction, interrupts_to_execute: Ints)
        requires
            is_move_op(op),
            op_runnable(*old(self), AfterReadInstruction::NoRead(op)),
        ensures
            *final(self) == (Cpu {
                instruction_register: final(self).instruction_register,
                ..move_registers(*old(self), op, interrupts_to_execute)
            }),
            match op_queue(*old(self), AfterReadInstruction::NoRead(op)) {
                Some((items, prefetch)) => instruction_items(final(self).instruction_register.0) == items
                    && final(self).instruction_register.1 == prefetch,
                None => final(self).instruction_register == old(self).instruction_register,
            },
    {
        proof {
            reveal(move_registers);
        }
        match op {
            NoReadInstruction::Nop => {},
            NoReadInstruction::Store8Bit(r) => {
                let v = self.lsb;
                self.set_8bit_register(r, v);
            },
            NoReadInstruction::Store16Bit(r) => {
                let v = self.msb as u16 * 256 + self.lsb as u16;
                self.set_16bit_register(r, v);
            },
            NoReadInstruction::Load { to, from } => {
                let v = self.get_8bit_register(from);
                self.set_8bit_register(to, v);
            },
            NoReadInstruction::LdSpHl => self.sp = self.get_16bit_register(Register16Bit::HL),
            _ => {},
        }
    }

    /// Runs a step of a register pair.
    #[verifier::rlimit(100)]
    #[verifier::spinoff_prover]
    fn exec_step(&mut self, op: NoReadInstruction, interrupts_to_execute: Ints)
        requires
            is_step_op(op),
            op_runnable(*old(self), AfterReadInstruction::NoRead(op)),
        ensures
            *final(self) == (Cpu {
                instruction_register: final(self).instruction_register,
                ..step_registers(*old(self), op, interrupts_to_execute)
            }),
            match op_queue(*old(self), AfterReadInstruction::NoRead(op)) {
                Some((items, prefetch)) => instruction_items(final(self).instruction_register.0) == items
                    && final(self).instruction_register.1 == prefetch,
                None => final(self).instruction_register == old(self).instruction_register,
            },
    {
        proof {
            reveal(step_registers);
        }
        match op {
            NoReadInstruction::Inc16Bit(r) => {
                let v = self.get_16bit_register(r);
                self.set_16bit_register(r, v.wrapping_add(1));
            },
            NoReadInstruction::Dec16Bit(r) => {
                let v = self.get_16bit_register(r);
                self.set_16bit_register(r, v.wrapping_sub(1));
            },
            NoReadInstruction::DecStackPointer => self.sp = self.sp.wrapping_sub(1),
            _ => {},
        }
    }

    /// Runs a step of PC or a relative jump target.
    #[verifier::rlimit(100)]
    #[verifier::spinoff_prover]
    fn exec_jump(&mut self, op: NoReadInstruction, interrupts_to_execute: Ints)
        requires
            is_jump_op(op),
            op_runnable(*old(self), AfterReadInstruction::NoRead(op)),
        ensures
            *final(self) == (Cpu {
                instruction_register: final(self).instruction_register,
                ..jump_registers(*old(self), op, interrupts_to_execute)
            }),
            match op_queue(*old(self), AfterReadInstruction::NoRead(op)) {
                Some((items, prefetch)) => instruction_items(final(self).instruction_register.0) == items
                    && final(self).instruction_register.1 == prefetch,
                None => final(self).instruction_register == old(self).instruction_register,
            },
    {
        proof {
            reveal(jump_registers);
        }
        match op {
            NoReadInstruction::DecPc => self.pc = self.pc - 1,
            NoReadInstruction::OffsetPc => {
                let target = self.pc.wrapping_add_signed(self.lsb as i8 as i16);
                self.set_16bit_register(Register16Bit::WZ, target);
            },
            _ => {},
        }
    }

    /// Runs a change of the control state (IME, prefix, HALT, RETI, conditional return).
    #[verifier::rlimit(100)]
    #[verifier::spinoff_prover]
    fn exec_control(&mut self, op: NoReadInstruction, interrupts_to_execute: Ints)
        requires
            is_control_op(op),
            op_runnable(*old(self), AfterReadInstruction::NoRead(op)),
        ensures
            *final(self) == (Cpu {
                instruction_register: final(self).instruction_register,
                ..control_registers(*old(self), op, interrupts_to_execute)
            }),
            match op_queue(*old(self), AfterReadInstruction::NoRead(op)) {
                Some((items, prefetch)) => instruction_items(final(self).instruction_register.0) == items
                    && final(self).instruction_register.1 == prefetch,
                None => final(self).instruction_register == old(self).instruction_register,
            },
    {
        proof {
            reveal(control_registers);
        }
        match op {
            NoReadInstruction::Di => self.ime = false,
            NoReadInstruction::Ei => self.enable_ime(),
            NoReadInstruction::CbMode => self.is_cb_mode = true,

            NoReadInstruction::Halt => self.is_halted = interrupts_to_execute.bits() == 0,
            NoReadInstruction::Reti => {
                self.pc = self.msb as u16 * 256 + self.lsb as u16;
                self.enable_ime();
            },
            NoReadInstruction::ConditionalReturn(cond) => {
                if self.get_flag(cond.flag) != cond.not {
                    let items = crate::gb_core::instructions::vec(
                        [
                            Instruction::NoRead(NoReadInstruction::Nop),
                            Instruction::NoRead(NoReadInstruction::Store16Bit(Register16Bit::PC)),
                            Instruction::Read(pop_sp(), ReadInstruction::ReadIntoMsb),
                            Instruction::Read(pop_sp(), ReadInstruction::ReadIntoLsb),
                        ],
                    );
                    self.queue(items, Prefetch::default());
                }
            },
            _ => {},
        }
    }

    /// Runs a logic operation on A or the carry flag.
    #[verifier::rlimit(100)]
    #[verifier::spinoff_prover]
    fn exec_logic(&mut self, op: NoReadInstruction, interrupts_to_execute: Ints)
        requires
            is_logic_op(op),
            op_runnable(*old(self), AfterReadInstruction::NoRead(op)),
        ensures
            *final(self) == (Cpu {
                instruction_register: final(self).instruction_register,
                ..logic_registers(*old(self), op, interrupts_to_execute)
            }),
            match op_queue(*old(self), AfterReadInstruction::NoRead(op)) {
                Some((items, prefetch)) => instruction_items(final(self).instruction_register.0) == items
                    && final(self).instruction_register.1 == prefetch,
                None => final(self).instruction_register == old(self).instruction_register,
            },
    {
        proof {
            reveal(logic_registers);
        }
        match op {
            NoReadInstruction::Xor8Bit(r) => {
                let v = self.get_8bit_register(r);
                self.a = self.a ^ v;
                self.f = Flags { z: self.a == 0, n: false, h: false, c: false };
            },
            NoReadInstruction::Or8Bit(r) => {
                let v = self.get_8bit_register(r);
                self.a = self.a | v;
                self.f = Flags { z: self.a == 0, n: false, h: false, c: false };
            },
            NoReadInstruction::And8Bit(r) => {
                let v = self.get_8bit_register(r);
                self.a = self.a & v;
                self.f = Flags { z: self.a == 0, n: false, h: true, c: false };
            },
            NoReadInstruction::Cpl => {
                self.f.n = true;
                self.f.h = true;
                self.a = !self.a;
            },
            NoReadInstruction::Scf => {
                self.f.n = false;
                self.f.h = false;
                self.f.c = true;
            },
            NoReadInstruction::Ccf => {
                self.f.n = false;
                self.f.h = false;
                self.f.c = !self.f.c;
            },
            _ => {},
        }
    }

    /// Runs an addition to A.
    #[verifier::rlimit(100)]
    #[verifier::spinoff_prover]
    fn exec_add(&mut self, op: NoReadInstruction, interrupts_to_execute: Ints)
        requires
            is_add_op(op),
            op_runnable(*old(self), AfterReadInstruction::NoRead(op)),
        ensures
            *final(self) == (Cpu {
                instruction_register: final(self).instruction_register,
                ..add_registers(*old(self), op, interrupts_to_execute)
            }),
            match op_queue(*old(self), AfterReadInstruction::NoRead(op)) {
                Some((items, prefetch)) => instruction_items(final(self).instruction_register.0) == items
                    && final(self).instruction_register.1 == prefetch,
                None => final(self).instruction_register == old(self).instruction_register,
            },
    {
        proof {
            reveal(add_registers);
        }
        match op {
            NoReadInstruction::Add8Bit(r) => {
                let a = self.a;
                let v = self.get_8bit_register(r);
                let result = a.wrapping_add(v);
                self.f = Flags { z: result == 0, n: false, h: set_h_add(a, v), c: a as u16 + v as u16 > 255 };
                self.a = result;
            },
            NoReadInstruction::Adc8Bit(r) => {
                let v = self.get_8bit_register(r);
                self.adc(v);
            },
            _ => {},
        }
    }

    /// Runs a subtraction from or comparison with A.
    #[verifier::rlimit(100)]
    #[verifier::spinoff_prover]
    fn exec_sub(&mut self, op: NoReadInstruction, interrupts_to_execute: Ints)
        requires
            is_sub_op(op),
            op_runnable(*old(self), AfterReadInstruction::NoRead(op)),
        ensures
            *final(self) == (Cpu {
                instruction_register: final(self).instruction_register,
                ..sub_registers(*old(self), op, interrupts_to_execute)
            }),
            match op_queue(*old(self), AfterReadInstruction::NoRead(op)) {
                Some((items, prefetch)) => instruction_items(final(self).instruction_register.0) == items
                    && final(self).instruction_register.1 == prefetch,
                None => final(self).instruction_register == old(self).instruction_register,
            },
    {
        proof {
            reveal(sub_registers);
        }
        match op {
            NoReadInstruction::Sub8Bit(r) => {
                let a = self.a;
                let v = self.get_8bit_register(r);
                let result = a.wrapping_sub(v);
                self.f = Flags { z: result == 0, n: true, h: set_h_sub(a, v), c: a < v };
                self.a = result;
            },
            NoReadInstruction::Sbc8Bit(r) => {
                let v = self.get_8bit_register(r);
                self.sbc(v);
            },
            NoReadInstruction::Cp8Bit(r) => {
                let a = self.a;
                let v = self.get_8bit_register(r);
                let result = a.wrapping_sub(v);
                self.f = Flags { z: result == 0, n: true, h: set_h_sub(a, v), c: a < v };
            },
            _ => {},
        }
    }

    /// Runs DAA.
    #[verifier::rlimit(100)]
    #[verifier::spinoff_prover]
    fn exec_daa(&mut self, op: NoReadInstruction, interrupts_to_execute: Ints)
        requires
            is_daa_op(op),
            op_runnable(*old(self), AfterReadInstruction::NoRead(op)),
        ensures
            *final(self) == (Cpu {
                instruction_register: final(self).instruction_register,
                ..daa_registers(*old(self), op, interrupts_to_execute)
            }),
            match op_queue(*old(self), AfterReadInstruction::NoRead(op)) {
                Some((items, prefetch)) => instruction_items(final(self).instruction_register.0) == items
                    && final(self).instruction_register.1 == prefetch,
                None => final(self).instruction_register == old(self).instruction_register,
            },
    {
        proof {
            reveal(daa_registers);
        }
        match op {
            NoReadInstruction::Daa => {
                let a = self.a;
                proof {
                    crate::bits::lemma_u8_low_bits(a);
                }
                let mut adj: u8 = 0;
                let result = if self.f.n {
                    if self.f.h {
                        adj = adj + 0x06;
                    }
                    if self.f.c {
                        adj = adj + 0x60;
                    }
                    a.wrapping_sub(adj)
                } else {
                    if self.f.h || (a & 0x0f) > 0x09 {
                        adj = adj + 0x06;
                    }
                    if self.f.c || a > 0x99 {
                        adj = adj + 0x60;
                        self.f.c = true;
                    }
                    a.wrapping_add(adj)
                };
                self.a = result;
                self.f.z = result == 0;
                self.f.h = false;
            },
            _ => {},
        }
    }

    /// Runs an increment, a decrement or a bit operation on a register.
    #[verifier::rlimit(100)]
    #[verifier::spinoff_prover]
    fn exec_bits(&mut self, op: NoReadInstruction, interrupts_to_execute: Ints)
        requires
            is_bits_op(op),
            op_runnable(*old(self), AfterReadInstruction::NoRead(op)),
        ensures
            *final(self) == (Cpu {
                instruction_register: final(self).instruction_register,
                ..bits_registers(*old(self), op, interrupts_to_execute)
            }),
            match op_queue(*old(self), AfterReadInstruction::NoRead(op)) {
                Some((items, prefetch)) => instruction_items(final(self).instruction_register.0) == items
                    && final(self).instruction_register.1 == prefetch,
                None => final(self).instruction_register == old(self).instruction_register,
            },
    {
        proof {
            reveal(bits_registers);
        }
        match op {
            NoReadInstruction::Inc(r) => {
                let v = self.get_8bit_register(r);
                let result = self.inc(v);
                self.set_8bit_register(r, result);
            },
            NoReadInstruction::Dec8Bit(r) => {
                let v = self.get_8bit_register(r);
                let decremented = v.wrapping_sub(1);
                self.set_8bit_register(r, decremented);
                self.f.z = decremented == 0;
                self.f.n = true;
                self.f.h = set_h_sub(v, 1);
            },
            NoReadInstruction::Bit8Bit(bit, r) => {
                let v = self.get_8bit_register(r);
                self.f = Flags { z: (v & (1u8 << bit)) == 0, n: false, h: true, c: self.f.c };
            },
            NoReadInstruction::Res(bit, r) => {
                let v = self.get_8bit_register(r);
                self.set_8bit_register(r, v & !(1u8 << bit));
            },
            NoReadInstruction::Set8Bit(bit, r) => {
                let v = self.get_8bit_register(r);
                self.set_8bit_register(r, v | (1u8 << bit));
            },
            _ => {},
        }
    }

    /// Runs a prefixed rotate of a register.
    #[verifier::rlimit(100)]
    #[verifier::spinoff_prover]
    fn exec_rotate(&mut self, op: NoReadInstruction, interrupts_to_execute: Ints)
        requires
            is_rotate_op(op),
            op_runnable(*old(self), AfterReadInstruction::NoRead(op)),
        ensures
            *final(self) == (Cpu {
                instruction_register: final(self).instruction_register,
                ..rotate_registers(*old(self), op, interrupts_to_execute)
            }),
            match op_queue(*old(self), AfterReadInstruction::NoRead(op)) {
                Some((items, prefetch)) => instruction_items(final(self).instruction_register.0) == items
                    && final(self).instruction_register.1 == prefetch,
                None => final(self).instruction_register == old(self).instruction_register,
            },
    {
        proof {
            reveal(rotate_registers);
        }
        match op {
            NoReadInstruction::Rl(r) => {
                let v = self.get_8bit_register(r);
                let result = self.rl(v);
                self.set_8bit_register(r, result);
            },
            NoReadInstruction::Rr(r) => {
                let v = self.get_8bit_register(r);
                let result = self.rr(v);
                self.set_8bit_register(r, result);
            },
            NoReadInstruction::Rlc8Bit(r) => {
                let v = self.get_8bit_register(r);
                let result = self.rlc(v);
                self.set_8bit_register(r, result);
            },
            NoReadInstruction::Rrc8Bit(r) => {
                let v = self.get_8bit_register(r);
                let result = self.rrc(v);
                self.set_8bit_register(r, result);
            },
            _ => {},
        }
    }

    /// Runs a shift or swap of a register.
    #[verifier::rlimit(100)]
    #[verifier::spinoff_prover]
    fn exec_shift(&mut self, op: NoReadInstruction, interrupts_to_execute: Ints)
        requires
            is_shift_op(op),
            op_runnable(*old(self), AfterReadInstruction::NoRead(op)),
        ensures
            *final(self) == (Cpu {
                instruction_register: final(self).instruction_register,
                ..shift_registers(*old(self), op, interrupts_to_execute)
            }),
            match op_queue(*old(self), AfterReadInstruction::NoRead(op)) {
                Some((items, prefetch)) => instruction_items(final(self).instruction_register.0) == items
                    && final(self).instruction_register.1 == prefetch,
                None => final(self).instruction_register == old(self).instruction_register,
            },
    {
        proof {
            reveal(shift_registers);
        }
        match op {
            NoReadInstruction::Srl(r) => {
                let v = self.get_8bit_register(r);
                let result = self.srl(v);
                self.set_8bit_register(r, result);
            },
            NoReadInstruction::Swap8Bit(r) => {
                let v = self.get_8bit_register(r);
                let result = self.swap(v);
                self.set_8bit_register(r, result);
            },
            NoReadInstruction::Sla8Bit(r) => {
                let v = self.get_8bit_register(r);
                let result = self.sla(v);
                self.set_8bit_register(r, result);
            },
            NoReadInstruction::Sra8Bit(r) => {
                let v = self.get_8bit_register(r);
                let result = self.sra(v);
                self.set_8bit_register(r, result);
            },
            _ => {},
        }
    }

    /// Runs a rotate of A.
    #[verifier::rlimit(100)]
    #[verifier::spinoff_prover]
    fn exec_rotate_a(&mut self, op: NoReadInstruction, interrupts_to_execute: Ints)
        requires
            is_rotate_a_op(op),
            op_runnable(*old(self), AfterReadInstruction::NoRead(op)),
        ensures
            *final(self) == (Cpu {
                instruction_register: final(self).instruction_register,
                ..rotate_a_registers(*old(self), op, interrupts_to_execute)
            }),
            match op_queue(*old(self), AfterReadInstruction::NoRead(op)) {
                Some((items, prefetch)) => instruction_items(final(self).instruction_register.0) == items
                    && final(self).instruction_register.1 == prefetch,
                None => final(self).instruction_register == old(self).instruction_register,
            },
    {
        proof {
            reveal(rotate_a_registers);
        }
        match op {
            NoReadInstruction::Rra => {
                let value = self.a;
                self.a = (value >> 1u8) | (if self.f.c { 0x80u8 } else { 0u8 });
                self.f = Flags { z: false, n: false, h: false, c: (value & 1) != 0 };
            },
            NoReadInstruction::Rla => {
                let value = self.a;
                self.a = (value << 1u8) | (if self.f.c { 1u8 } else { 0u8 });
                self.f = Flags { z: false, n: false, h: false, c: (value & 0x80) != 0 };
            },
            NoReadInstruction::Rlca => {
                let a = self.a;
                self.a = (a << 1u8) | (a >> 7u8);
                self.f = Flags { z: false, n: false, h: false, c: (a & 0x80) != 0 };
            },
            NoReadInstruction::Rrca => {
                let a = self.a;
                self.a = (a >> 1u8) | (a << 7u8);
                self.f = Flags { z: false, n: false, h: false, c: (a & 1) != 0 };
            },
            _ => {},
        }
    }

    /// Runs one byte of ADD HL, rr.
    #[verifier::rlimit(100)]
    #[verifier::spinoff_prover]
    fn exec_add_hl(&mut self, op: NoReadInstruction, interrupts_to_execute: Ints)
        requires
            is_add_hl_op(op),
            op_runnable(*old(self), AfterReadInstruction::NoRead(op)),
        ensures
            *final(self) == (Cpu {
                instruction_register: final(self).instruction_register,
                ..add_hl_registers(*old(self), op, interrupts_to_execute)
            }),
            match op_queue(*old(self), AfterReadInstruction::NoRead(op)) {
                Some((items, prefetch)) => instruction_items(final(self).instruction_register.0) == items
                    && final(self).instruction_register.1 == prefetch,
                None => final(self).instruction_register == old(self).instruction_register,
            },
    {
        proof {
            reveal(add_hl_registers);
        }
        match op {
            NoReadInstruction::AddHlFirst(r) => {
                let l = self.l;
                let v = self.get_8bit_register(r);
                self.f.n = false;
                self.f.h = set_h_add(l, v);
                self.f.c = l as u16 + v as u16 > 255;
                self.l = l.wrapping_add(v);
            },
            NoReadInstruction::AddHlSecond(r) => {
                let h = self.h;
                let v = self.get_8bit_register(r);
                let carry = self.f.c;
                let sum = h as u16 + v as u16 + (if carry { 1u16 } else { 0u16 });
                self.f.n = false;
                self.f.h = set_h_add_with_carry(h, v, carry);
                self.f.c = sum > 255;
                self.h = (sum % 256) as u8;
            },
            _ => {},
        }
    }

    /// Runs one byte of LD HL, SP+e or ADD SP, e.
    #[verifier::rlimit(100)]
    #[verifier::spinoff_prover]
    fn exec_add_sp(&mut self, op: NoReadInstruction, interrupts_to_execute: Ints)
        requires
            is_add_sp_op(op),
            op_runnable(*old(self), AfterReadInstruction::NoRead(op)),
        ensures
            *final(self) == (Cpu {
                instruction_register: final(self).instruction_register,
                ..add_sp_registers(*old(self), op, interrupts_to_execute)
            }),
            match op_queue(*old(self), AfterReadInstruction::NoRead(op)) {
                Some((items, prefetch)) => instruction_items(final(self).instruction_register.0) == items
                    && final(self).instruction_register.1 == prefetch,
                None => final(self).instruction_register == old(self).instruction_register,
            },
    {
        proof {
            reveal(add_sp_registers);
        }
        match op {
            NoReadInstruction::LoadHlFromAdjustedStackPointerFirst => {
                let low = (self.sp % 256) as u8;
                let e = self.lsb;
                self.l = low.wrapping_add(e);
                self.f = Flags { z: false, n: false, h: set_h_add(low, e), c: low as u16 + e as u16 > 255 };
            },
            NoReadInstruction::LoadHlFromAdjustedStackPointerSecond => {
                let target = self.sp.wrapping_add_signed(self.lsb as i8 as i16);
                self.h = (target / 256) as u8;
            },
            NoReadInstruction::AddSpE => {
                let low = (self.sp % 256) as u8;
                let e = self.lsb;
                self.f = Flags { z: false, n: false, h: set_h_add(low, e), c: low as u16 + e as u16 > 255 };
                self.sp = self.sp.wrapping_add_signed(e as i8 as i16);
            },
            _ => {},
        }
    }
}

impl Cpu {
    /// A micro-operation that writes a byte.
    fn execute_memory_op(&mut self, state: &mut State, data: DataForWrite, op: NoReadInstruction, interrupts_to_execute: Ints)
        requires
            op_runnable(*old(self), AfterReadInstruction::NoRead(op)),
            op_write_served(*old(self), AfterReadInstruction::NoRead(op), data.dma_request),
            op_write(*old(self), AfterReadInstruction::NoRead(op)) is Some,
        ensures
            *final(self) == op_registers(*old(self), AfterReadInstruction::NoRead(op), interrupts_to_execute),
            final(self).instruction_register == old(self).instruction_register,
            op_write(*old(self), AfterReadInstruction::NoRead(op)) matches Some((address, value))
                && *final(state) == old(state).written(data, address, value),
    {
        match op {
            NoReadInstruction::LoadToAddressHlFromADec
            | NoReadInstruction::LoadToAddressHlFromAInc
            | NoReadInstruction::LoadFromAccumulator(_)
            | NoReadInstruction::LoadToAddressFromRegister { .. } => self.exec_store(state, data, op, interrupts_to_execute),
            NoReadInstruction::LoadToCachedAddressFromA
            | NoReadInstruction::LoadToAddressHlN
            | NoReadInstruction::WriteLsbSpToCachedAddressAndIncCachedAddress
            | NoReadInstruction::WriteMsbSpToCachedAddress => self.exec_store_cached(state, data, op, interrupts_to_execute),
            NoReadInstruction::WriteMsbOfRegisterWhereSpPointsAndDecSp(_)
            | NoReadInstruction::WriteLsbPcWhereSpPointsAndLoadCacheToPc
            | NoReadInstruction::WriteLsbPcWhereSpPointsAndLoadAbsoluteAddressToPc(_) => self.exec_push(state, data, op, interrupts_to_execute),
            NoReadInstruction::FinalStepInterruptDispatch => self.exec_dispatch(state, data, op, interrupts_to_execute),
            NoReadInstruction::DecHl
            | NoReadInstruction::ResHl(_)
            | NoReadInstruction::SetHl(_)
            | NoReadInstruction::IncHl => self.exec_modify_hl(state, data, op, interrupts_to_execute),
            NoReadInstruction::RlcHl
            | NoReadInstruction::RrcHl
            | NoReadInstruction::RlHl
            | NoReadInstruction::RrHl
            | NoReadInstruction::SlaHl
            | NoReadInstruction::SraHl
            | NoReadInstruction::SwapHl
            | NoReadInstruction::SrlHl => self.exec_rotate_hl(state, data, op, interrupts_to_execute),
            _ => {},
        }
    }

    /// Runs a store of A or of a register.
    #[verifier::rlimit(100)]
    #[verifier::spinoff_prover]
    fn exec_store(&mut self, state: &mut State, data: DataForWrite, op: NoReadInstruction, interrupts_to_execute: Ints)
        requires
            is_store_op(op),
            op_runnable(*old(self), AfterReadInstruction::NoRead(op)),
            op_write_served(*old(self), AfterReadInstruction::NoRead(op), data.dma_request),
        ensures
            *final(self) == store_registers(*old(self), op, interrupts_to_execute),
            final(self).instruction_register == old(self).instruction_register,
            *final(state) == old(state).written(data, write_of(*old(self), op).0, write_of(*old(self), op).1),
    {
        proof {
            reveal(store_registers);
            reveal(write_of);
            reveal(write_address);
        }
        match op {
            NoReadInstruction::LoadToAddressHlFromADec => {
                let hl = self.get_16bit_register(Register16Bit::HL);
                write_byte(state, data, hl, self.a);
                self.set_16bit_register(Register16Bit::HL, hl.wrapping_sub(1));
            },
            NoReadInstruction::LoadToAddressHlFromAInc => {
                let hl = self.get_16bit_register(Register16Bit::HL);
                write_byte(state, data, hl, self.a);
                self.set_16bit_register(Register16Bit::HL, hl.wrapping_add(1));
            },
            NoReadInstruction::LoadFromAccumulator(register) => {
                let low = match register {
                    Some(r) => self.get_8bit_register(r),
                    None => self.lsb,
                };
                write_byte(state, data, 0xff00u16 | low as u16, self.a);
            },
            NoReadInstruction::LoadToAddressFromRegister { address, value } => {
                let a = self.get_16bit_register(address);
                let v = self.get_8bit_register(value);
                write_byte(state, data, a, v);
            },
            _ => {},
        }
    }

    /// Runs a store at the cached address W:Z or of an immediate byte.
    #[verifier::rlimit(100)]
    #[verifier::spinoff_prover]
    fn exec_store_cached(&mut self, state: &mut State, data: DataForWrite, op: NoReadInstruction, interrupts_to_execute: Ints)
        requires
            is_store_cached_op(op),
            op_runnable(*old(self), AfterReadInstruction::NoRead(op)),
            op_write_served(*old(self), AfterReadInstruction::NoRead(op), data.dma_request),
        ensures
            *final(self) == store_cached_registers(*old(self), op, interrupts_to_execute),
            final(self).instruction_register == old(self).instruction_register,
            *final(state) == old(state).written(data, write_of(*old(self), op).0, write_of(*old(self), op).1),
    {
        proof {
            reveal(store_cached_registers);
            reveal(write_of);
            reveal(write_address);
        }
        match op {
            NoReadInstruction::LoadToCachedAddressFromA => {
                write_byte(state, data, self.msb as u16 * 256 + self.lsb as u16, self.a);
            },
            NoReadInstruction::LoadToAddressHlN => {
                let hl = self.get_16bit_register(Register16Bit::HL);
                write_byte(state, data, hl, self.lsb);
            },
            NoReadInstruction::WriteLsbSpToCachedAddressAndIncCachedAddress => {
                let wz = self.msb as u16 * 256 + self.lsb as u16;
                write_byte(state, data, wz, (self.sp % 256) as u8);
                let next = wz.wrapping_add(1);
                self.msb = (next / 256) as u8;
                self.lsb = (next % 256) as u8;
            },
            NoReadInstruction::WriteMsbSpToCachedAddress => {
                write_byte(state, data, self.msb as u16 * 256 + self.lsb as u16, (self.sp / 256) as u8);
            },
            _ => {},
        }
    }

    /// Runs a push.
    #[verifier::rlimit(100)]
    #[verifier::spinoff_prover]
    fn exec_push(&mut self, state: &mut State, data: DataForWrite, op: NoReadInstruction, interrupts_to_execute: Ints)
        requires
            is_push_op(op),
            op_runnable(*old(self), AfterReadInstruction::NoRead(op)),
            op_write_served(*old(self), AfterReadInstruction::NoRead(op), data.dma_request),
        ensures
            *final(self) == push_registers(*old(self), op, interrupts_to_execute),
            final(self).instruction_register == old(self).instruction_register,
            *final(state) == old(state).written(data, write_of(*old(self), op).0, write_of(*old(self), op).1),
    {
        proof {
            reveal(push_registers);
            reveal(write_of);
            reveal(write_address);
        }
        match op {
            NoReadInstruction::WriteMsbOfRegisterWhereSpPointsAndDecSp(r) => {
                let v = self.get_16bit_register(r);
                write_byte(state, data, self.sp, (v / 256) as u8);
                self.sp = self.sp.wrapping_sub(1);
            },
            NoReadInstruction::WriteLsbPcWhereSpPointsAndLoadCacheToPc => {
                write_byte(state, data, self.sp, (self.pc % 256) as u8);
                self.pc = self.msb as u16 * 256 + self.lsb as u16;
            },
            NoReadInstruction::WriteLsbPcWhereSpPointsAndLoadAbsoluteAddressToPc(address) => {
                write_byte(state, data, self.sp, (self.pc % 256) as u8);
                self.pc = address as u16;
            },
            _ => {},
        }
    }

    /// Runs the last step of an interrupt dispatch.
    #[verifier::rlimit(100)]
    #[verifier::spinoff_prover]
    fn exec_dispatch(&mut self, state: &mut State, data: DataForWrite, op: NoReadInstruction, interrupts_to_execute: Ints)
        requires
            is_dispatch_op(op),
            op_runnable(*old(self), AfterReadInstruction::NoRead(op)),
            op_write_served(*old(self), AfterReadInstruction::NoRead(op), data.dma_request),
        ensures
            *final(self) == dispatch_registers(*old(self), op, interrupts_to_execute),
            final(self).instruction_register == old(self).instruction_register,
            *final(state) == old(state).written(data, write_of(*old(self), op).0, write_of(*old(self), op).1),
    {
        proof {
            reveal(dispatch_registers);
            reveal(write_of);
            reveal(write_address);
        }
        match op {
            NoReadInstruction::FinalStepInterruptDispatch => {
                write_byte(state, data, self.sp, (self.pc % 256) as u8);
                let requested = interrupts_to_execute.iter();
                if requested.len() > 0 {
                    let interrupt = requested[0];
                    self.pc = if interrupt.bits() == 0x01 {
                        0x0040
                    } else if interrupt.bits() == 0x02 {
                        0x0048
                    } else if interrupt.bits() == 0x04 {
                        0x0050
                    } else if interrupt.bits() == 0x08 {
                        0x0058
                    } else if interrupt.bits() == 0x10 {
                        0x0060
                    } else {
                        0x0000
                    };
                    self.interrupt_flag.remove(interrupt);
                } else {
                    self.pc = 0x0000;
                }
            },
            _ => {},
        }
    }

    /// Runs a read-modify-write of (HL).
    #[verifier::rlimit(100)]
    #[verifier::spinoff_prover]
    fn exec_modify_hl(&mut self, state: &mut State, data: DataForWrite, op: NoReadInstruction, interrupts_to_execute: Ints)
        requires
            is_modify_hl_op(op),
            op_runnable(*old(self), AfterReadInstruction::NoRead(op)),
            op_write_served(*old(self), AfterReadInstruction::NoRead(op), data.dma_request),
        ensures
            *final(self) == modify_hl_registers(*old(self), op, interrupts_to_execute),
            final(self).instruction_register == old(self).instruction_register,
            *final(state) == old(state).written(data, write_of(*old(self), op).0, write_of(*old(self), op).1),
    {
        proof {
            reveal(modify_hl_registers);
            reveal(write_of);
            reveal(write_address);
        }
        match op {
            NoReadInstruction::DecHl => {
                let v = self.lsb;
                let decremented = v.wrapping_sub(1);
                let hl = self.get_16bit_register(Register16Bit::HL);
                write_byte(state, data, hl, decremented);
                self.f.z = decremented == 0;
                self.f.n = true;
                self.f.h = set_h_sub(v, 1);
            },
            NoReadInstruction::ResHl(bit) => {
                let hl = self.get_16bit_register(Register16Bit::HL);
                write_byte(state, data, hl, self.lsb & !(1u8 << bit));
            },
            NoReadInstruction::SetHl(bit) => {
                let hl = self.get_16bit_register(Register16Bit::HL);
                write_byte(state, data, hl, self.lsb | (1u8 << bit));
            },
            NoReadInstruction::IncHl => {
                let hl = self.get_16bit_register(Register16Bit::HL);
                let v = self.inc(self.lsb);
                write_byte(state, data, hl, v);
            },

            _ => {},
        }
    }

    /// Runs a rotate, shift or swap of (HL).
    #[verifier::rlimit(100)]
    #[verifier::spinoff_prover]
    fn exec_rotate_hl(&mut self, state: &mut State, data: DataForWrite, op: NoReadInstruction, interrupts_to_execute: Ints)
        requires
            is_rotate_hl_op(op),
            op_runnable(*old(self), AfterReadInstruction::NoRead(op)),
            op_write_served(*old(self), AfterReadInstruction::NoRead(op), data.dma_request),
        ensures
            *final(self) == rotate_hl_registers(*old(self), op, interrupts_to_execute),
            final(self).instruction_register == old(self).instruction_register,
            *final(state) == old(state).written(data, write_of(*old(self), op).0, write_of(*old(self), op).1),
    {
        proof {
            reveal(rotate_hl_registers);
            reveal(write_of);
            reveal(write_address);
        }
        match op {
            NoReadInstruction::RlcHl => {
                let hl = self.get_16bit_register(Register16Bit::HL);
                let v = self.rlc(self.lsb);
                write_byte(state, data, hl, v);
            },
            NoReadInstruction::RrcHl => {
                let hl = self.get_16bit_register(Register16Bit::HL);
                let v = self.rrc(self.lsb);
                write_byte(state, data, hl, v);
            },
            NoReadInstruction::RlHl => {
                let hl = self.get_16bit_register(Register16Bit::HL);
                let v = self.rl(self.lsb);
                write_byte(state, data, hl, v);
            },
            NoReadInstruction::RrHl => {
                let hl = self.get_16bit_register(Register16Bit::HL);
                let v = self.rr(self.lsb);
                write_byte(state, data, hl, v);
            },
            NoReadInstruction::SlaHl => {
                let hl = self.get_16bit_register(Register16Bit::HL);
                let v = self.sla(self.lsb);
                write_byte(state, data, hl, v);
            },
            NoReadInstruction::SraHl => {
                let hl = self.get_16bit_register(Register16Bit::HL);
                let v = self.sra(self.lsb);
                write_byte(state, data, hl, v);
            },
            NoReadInstruction::SwapHl => {
                let hl = self.get_16bit_register(Register16Bit::HL);
                let v = self.swap(self.lsb);
                write_byte(state, data, hl, v);
            },
            NoReadInstruction::SrlHl => {
                let hl = self.get_16bit_register(Register16Bit::HL);
                let v = self.srl(self.lsb);
                write_byte(state, data, hl, v);
            },
            _ => {},
        }
    }

    /// Runs one micro-operation, its read (if any) already done: the registers change as
    /// `op_registers` says, a taken branch queues its micro-operations, and the byte that
    /// `op_write` names is written through the CPU's view of the memory map.
    pub(super) fn execute_instruction(
        &mut self,
        state: &mut State,
        data: DataForWrite,
        inst: AfterReadInstruction,
        interrupts_to_execute: Ints,
        cycle_count: u64,
    )
        requires
            op_runnable(*old(self), inst),
            op_write_served(*old(self), inst, data.dma_request),
        ensures
            *final(self) == (Cpu {
                instruction_register: final(self).instruction_register,
                ..op_registers(*old(self), inst, interrupts_to_execute)
            }),
            match op_queue(*old(self), inst) {
                Some((items, prefetch)) => instruction_items(final(self).instruction_register.0) == items
                    && final(self).instruction_register.1 == prefetch,
                None => final(self).instruction_register == old(self).instruction_register,
            },
            match op_write(*old(self), inst) {
                Some((address, value)) => *final(state) == old(state).written(data, address, value),
                None => *final(state) == *old(state),
            },
    {
        match inst {
            AfterReadInstruction::Read(value, read) => self.execute_read(value, read),
            AfterReadInstruction::NoRead(op) => {
                if is_memory_op(op) {
                    self.execute_memory_op(state, data, op, interrupts_to_execute);
                } else {
                    self.execute_register_op(op, interrupts_to_execute);
                }
            },
        }
    }
}

/// Whether a micro-operation writes memory.
fn is_memory_op(op: NoReadInstruction) -> (r: bool)
    ensures
        r == writes_memory(op),
{
    match op {
        NoReadInstruction::LoadToAddressHlFromADec | NoReadInstruction::LoadToAddressHlFromAInc
        | NoReadInstruction::LoadFromAccumulator(_) | NoReadInstruction::LoadToAddressFromRegister { .. }
        | NoReadInstruction::WriteMsbOfRegisterWhereSpPointsAndDecSp(_)
        | NoReadInstruction::WriteLsbPcWhereSpPointsAndLoadCacheToPc
        | NoReadInstruction::WriteLsbPcWhereSpPointsAndLoadAbsoluteAddressToPc(_)
        | NoReadInstruction::FinalStepInterruptDispatch | NoReadInstruction::DecHl
        | NoReadInstruction::LoadToCachedAddressFromA | NoReadInstruction::ResHl(_) | NoReadInstruction::LoadToAddressHlN
        | NoReadInstruction::SetHl(_) | NoReadInstruction::WriteLsbSpToCachedAddressAndIncCachedAddress
        | NoReadInstruction::WriteMsbSpToCachedAddress | NoReadInstruction::RlcHl | NoReadInstruction::RrcHl
        | NoReadInstruction::RlHl | NoReadInstruction::RrHl | NoReadInstruction::SlaHl | NoReadInstruction::SraHl
        | NoReadInstruction::SwapHl | NoReadInstruction::SrlHl | NoReadInstruction::IncHl => true,
        _ => false,
    }
}


/// Whether both nibbles of a byte are decimal digits.
pub open spec fn is_bcd(v: u8) -> bool {
    v % 16 <= 9 && v / 16 <= 9
}

/// The number two BCD digits stand for.
pub open spec fn bcd_value(v: u8) -> int {
    (v / 16) * 10 + v % 16
}

/// DAA after ADD, digit by digit, on the bits.
proof fn lemma_daa_add_bits(a: u16, b: u16, r: u16, res: u16, carry: bool)
    by (bit_vector)
    requires
        a < 256,
        b < 256,
        a % 16 <= 9,
        a / 16 <= 9,
        b % 16 <= 9,
        b / 16 <= 9,
        r == ((a + b) as u16) % 256,
        carry == (((a + b) as u16) >= 256 || r > 0x99),
        res == ((r + (if ((a % 16 + b % 16) as u16) >= 16 || r % 16 > 9 { 6u16 } else { 0u16 })) as u16 + (if carry { 0x60u16 } else { 0u16 })) as u16 % 256,
    ensures
        res % 16 == ((a % 16 + b % 16) as u16) % 10,
        res / 16 == ((a / 16 + b / 16) as u16 + (if ((a % 16 + b % 16) as u16) >= 10 { 1u16 } else { 0u16 })) as u16 % 10,
        carry == (((a / 16 + b / 16) as u16 + (if ((a % 16 + b % 16) as u16) >= 10 { 1u16 } else { 0u16 })) as u16 >= 10),
{
}

/// DAA after SUB, digit by digit, on the bits.
proof fn lemma_daa_sub_bits(a: u16, b: u16, r: u16, res: u16)
    by (bit_vector)
    requires
        a < 256,
        b < 256,
        a % 16 <= 9,
        a / 16 <= 9,
        b % 16 <= 9,
        b / 16 <= 9,
        r == ((a + 256 - b) as u16) % 256,
        res == ((r + 256 - ((if a % 16 < b % 16 { 6u16 } else { 0u16 }) + (if a < b { 0x60u16 } else { 0u16 })) as u16) as u16) % 256,
    ensures
        res % 16 == ((a % 16 + 10 - b % 16) as u16) % 10,
        res / 16 == ((a / 16 + 20 - b / 16 - (if a % 16 < b % 16 { 1u16 } else { 0u16 })) as u16) % 10,
        (a < b) == (a / 16 < (b / 16 + (if a % 16 < b % 16 { 1u16 } else { 0u16 })) as u16),
{
}

/// DAA after adding two BCD bytes leaves in A the BCD digits of the decimal sum modulo 100,
/// sets Z when they are 00, and sets the carry exactly when the sum reaches 100.
/// https://rgbds.gbdev.io/docs/v1.0.0/gbz80.7#DAA
pub proof fn lemma_daa_after_add(a: u8, b: u8)
    requires
        is_bcd(a),
        is_bcd(b),
    ensures
        is_bcd(alu_daa(alu_add(a, b).0, alu_add(a, b).1).0),
        bcd_value(alu_daa(alu_add(a, b).0, alu_add(a, b).1).0) == (bcd_value(a) + bcd_value(b)) % 100,
        alu_daa(alu_add(a, b).0, alu_add(a, b).1).1.z == ((bcd_value(a) + bcd_value(b)) % 100 == 0),
        alu_daa(alu_add(a, b).0, alu_add(a, b).1).1.c == (bcd_value(a) + bcd_value(b) >= 100),
{
    let (r, f) = alu_add(a, b);
    let (res, g) = alu_daa(r, f);
    lemma_daa_add_bits(a as u16, b as u16, r as u16, res as u16, f.c || r > 0x99);
    lemma_decimal_sum((a / 16) as int, (a % 16) as int, (b / 16) as int, (b % 16) as int);
}

/// A sum of two-digit decimals modulo 100, digit by digit with the carry.
proof fn lemma_decimal_sum(a1: int, a0: int, b1: int, b0: int)
    requires
        0 <= a1 <= 9,
        0 <= a0 <= 9,
        0 <= b1 <= 9,
        0 <= b0 <= 9,
    ensures
        (10 * a1 + a0 + 10 * b1 + b0) % 100 == 10 * ((a1 + b1 + (if a0 + b0 >= 10 { 1int } else { 0 })) % 10)
            + (a0 + b0) % 10,
        (10 * a1 + a0 + 10 * b1 + b0 >= 100) == (a1 + b1 + (if a0 + b0 >= 10 { 1int } else { 0 }) >= 10),
{
    let carry: int = if a0 + b0 >= 10 { 1 } else { 0 };
    let low = a0 + b0 - 10 * carry;
    let k = a1 + b1 + carry;
    assert((a0 + b0) % 10 == low);
    assert(10 * a1 + a0 + 10 * b1 + b0 == 10 * k + low);
    if k >= 10 {
        assert((10 * k + low) % 100 == 10 * (k - 10) + low);
    } else {
        assert((10 * k + low) % 100 == 10 * k + low);
    }
}

/// A difference of two-digit decimals modulo 100, digit by digit with the borrow.
proof fn lemma_decimal_difference(a1: int, a0: int, b1: int, b0: int)
    requires
        0 <= a1 <= 9,
        0 <= a0 <= 9,
        0 <= b1 <= 9,
        0 <= b0 <= 9,
    ensures
        (10 * a1 + a0 - (10 * b1 + b0) + 100) % 100 == 10 * ((a1 + 20 - b1 - (if a0 < b0 { 1int } else { 0 })) % 10)
            + (a0 + 10 - b0) % 10,
        (10 * a1 + a0 < 10 * b1 + b0) == (a1 < b1 + (if a0 < b0 { 1int } else { 0 })),
{
    let borrow: int = if a0 < b0 { 1 } else { 0 };
    let low = a0 - b0 + 10 * borrow;
    let k = a1 - b1 - borrow + 10;
    assert((a0 + 10 - b0) % 10 == low);
    assert((a1 + 20 - b1 - borrow) % 10 == k % 10);
    assert(10 * a1 + a0 - (10 * b1 + b0) + 100 == 10 * k + low);
    if k >= 10 {
        assert((10 * k + low) % 100 == 10 * (k - 10) + low);
    } else {
        assert((10 * k + low) % 100 == 10 * k + low);
    }
}

/// DAA after subtracting a BCD byte from another leaves in A the BCD digits of the decimal
/// difference modulo 100, and the carry set exactly when the difference is negative.
pub proof fn lemma_daa_after_sub(a: u8, b: u8)
    requires
        is_bcd(a),
        is_bcd(b),
    ensures
        is_bcd(alu_daa(alu_sub(a, b).0, alu_sub(a, b).1).0),
        bcd_value(alu_daa(alu_sub(a, b).0, alu_sub(a, b).1).0) == (bcd_value(a) - bcd_value(b) + 100) % 100,
        alu_daa(alu_sub(a, b).0, alu_sub(a, b).1).1.c == (bcd_value(a) < bcd_value(b)),
{
    let (r, f) = alu_sub(a, b);
    let (res, g) = alu_daa(r, f);
    lemma_daa_sub_bits(a as u16, b as u16, r as u16, res as u16);
    lemma_decimal_difference((a / 16) as int, (a % 16) as int, (b / 16) as int, (b % 16) as int);
}

/// The single-bit masks, and the bits below the lowest set one, read as clear.
proof fn lemma_lowest_bit(v: u8, bit: u8)
    by (bit_vector)
    requires
        bit < 5,
        v & (((1u8 << bit) - 1) as u8) == 0,
    ensures
        1u8 << 0u8 == 1 && 1u8 << 1u8 == 2 && 1u8 << 2u8 == 4 && 1u8 << 3u8 == 8 && 1u8 << 4u8 == 16,
        bit >= 1 ==> v & 1 == 0,
        bit >= 2 ==> v & 2 == 0,
        bit >= 3 ==> v & 4 == 0,
        bit >= 4 ==> v & 8 == 0,
{
}

/// Bits above the first flag found keep it first.
proof fn lemma_flags_below_first(v: u8, j: nat, k: nat, first: Interrupts)
    requires
        j <= k,
        flags_below(v, j).len() > 0,
        flags_below(v, j)[0] == first,
    ensures
        flags_below(v, k).len() > 0,
        flags_below(v, k)[0] == first,
    decreases k - j,
{
    if j < k {
        lemma_flags_below_first(v, j, (k - 1) as nat, first);
    }
}

/// The requested interrupt of highest priority is the lowest bit set.
proof fn lemma_dispatched_lowest(ints: Ints, bit: u8)
    requires
        bit < 5,
        ints.0 & (1u8 << bit) != 0,
        ints.0 & (((1u8 << bit) - 1) as u8) == 0,
    ensures
        dispatched(ints) == Some(Interrupts(1u8 << bit)),
        vector_of(dispatched(ints)) == 0x40 + 8 * bit,
{
    reveal_with_fuel(flags_below, 6);
    let v = ints.0;
    lemma_lowest_bit(v, bit);
    assert(flags_below(v, (bit + 1) as nat) =~= seq![Interrupts(1u8 << bit)]);
    lemma_flags_below_first(v, (bit + 1) as nat, 5, Interrupts(1u8 << bit));
    assert(interrupt_flags(v)[0] == Interrupts(1u8 << bit));
}


/// The last step of an interrupt dispatch jumps to the vector of the requested interrupt of
/// highest priority (the lowest bit set), $40 + 8 * its bit, and clears that request alone.
/// https://gbdev.io/pandocs/Interrupts.html#interrupt-handling
pub proof fn lemma_dispatch_jumps_to_vector(c: Cpu, ints: Ints, bit: u8)
    requires
        bit < 5,
        ints.0 & (1u8 << bit) != 0,
        ints.0 & (((1u8 << bit) - 1) as u8) == 0,
    ensures
        op_registers(c, AfterReadInstruction::NoRead(NoReadInstruction::FinalStepInterruptDispatch), ints).pc == 0x40
            + 8 * bit,
        op_registers(c, AfterReadInstruction::NoRead(NoReadInstruction::FinalStepInterruptDispatch), ints).interrupt_flag
            == Interrupts(c.interrupt_flag.0 & !(1u8 << bit)),
{
    reveal(dispatch_registers);
    lemma_dispatched_lowest(ints, bit);
}

/// The carry-flag and complement instructions. CCF complements the carry flag, so two CCFs in a
/// row give the carry back; SCF sets it; both clear N and H and keep Z. CPL complements A and
/// sets N and H. Nothing else changes.
/// https://rgbds.gbdev.io/docs/v1.0.0/gbz80.7#CCF
pub proof fn lemma_carry_flag_ops(c: Cpu, ints: Ints)
    ensures
        op_registers(c, AfterReadInstruction::NoRead(NoReadInstruction::Ccf), ints) == (Cpu {
            f: Flags { z: c.f.z, n: false, h: false, c: !c.f.c },
            ..c
        }),
        op_registers(
            op_registers(c, AfterReadInstruction::NoRead(NoReadInstruction::Ccf), ints),
            AfterReadInstruction::NoRead(NoReadInstruction::Ccf),
            ints,
        ).f.c == c.f.c,
        op_registers(c, AfterReadInstruction::NoRead(NoReadInstruction::Scf), ints) == (Cpu {
            f: Flags { z: c.f.z, n: false, h: false, c: true },
            ..c
        }),
        op_registers(
            op_registers(c, AfterReadInstruction::NoRead(NoReadInstruction::Scf), ints),
            AfterReadInstruction::NoRead(NoReadInstruction::Ccf),
            ints,
        ).f.c == false,
        op_registers(c, AfterReadInstruction::NoRead(NoReadInstruction::Cpl), ints) == (Cpu {
            a: !c.a,
            f: Flags { z: c.f.z, n: true, h: true, c: c.f.c },
            ..c
        }),
{
    reveal(logic_registers);
}

/// AND, OR and XOR combine A with the operand bit by bit and leave the result in A; Z tells
/// whether it is 0, C and N are cleared, and H is set by AND only.
pub proof fn lemma_logic_ops(c: Cpu, r: Register8Bit, ints: Ints)
    ensures
        op_registers(c, AfterReadInstruction::NoRead(NoReadInstruction::And8Bit(r)), ints) == (Cpu {
            a: c.a & reg8(c, r),
            f: Flags { z: c.a & reg8(c, r) == 0, n: false, h: true, c: false },
            ..c
        }),
        op_registers(c, AfterReadInstruction::NoRead(NoReadInstruction::Or8Bit(r)), ints) == (Cpu {
            a: c.a | reg8(c, r),
            f: Flags { z: c.a | reg8(c, r) == 0, n: false, h: false, c: false },
            ..c
        }),
        op_registers(c, AfterReadInstruction::NoRead(NoReadInstruction::Xor8Bit(r)), ints) == (Cpu {
            a: c.a ^ reg8(c, r),
            f: Flags { z: c.a ^ reg8(c, r) == 0, n: false, h: false, c: false },
            ..c
        }),
{
    reveal(logic_registers);
}

/// SRA shifts right and keeps bit 7, so the sign of the byte stays; bit 0 goes to the carry,
/// Z tells whether the result is 0, N and H are cleared. On a register the result goes back to
/// that register; on (HL) it is written back at HL.
/// https://rgbds.gbdev.io/docs/v1.0.0/gbz80.7#SRA_r8
pub proof fn lemma_sra_keeps_bit_7(c: Cpu, r: Register8Bit, ints: Ints)
    requires
        r == Register8Bit::A || r == Register8Bit::B || r == Register8Bit::C || r == Register8Bit::D || r
            == Register8Bit::E || r == Register8Bit::H || r == Register8Bit::L,
    ensures
        ({
            let v = reg8(c, r);
            let after = op_registers(c, AfterReadInstruction::NoRead(NoReadInstruction::Sra8Bit(r)), ints);
            &&& reg8(after, r) == (v >> 1u8) | (v & 0x80)
            &&& after.f == (Flags { z: (v >> 1u8) | (v & 0x80) == 0, n: false, h: false, c: v & 1 != 0 })
        }),
        op_write(c, AfterReadInstruction::NoRead(NoReadInstruction::SraHl)) == Some(
            (reg16(c, Register16Bit::HL), (c.lsb >> 1u8) | (c.lsb & 0x80)),
        ),
        op_registers(c, AfterReadInstruction::NoRead(NoReadInstruction::SraHl), ints).f == (Flags {
            z: (c.lsb >> 1u8) | (c.lsb & 0x80) == 0,
            n: false,
            h: false,
            c: c.lsb & 1 != 0,
        }),
{
    reveal(shift_registers);
    reveal(rotate_hl_registers);
    reveal(write_of);
}

} // verus!
