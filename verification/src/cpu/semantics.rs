//! What each instruction means: the state it leads to and the machine cycles
//! it takes, as functions of the processor state and the state of the bus.
//!
//! Throughout, `cpu` is the processor after the opcode has been fetched, so PC
//! stands at the first byte of an immediate operand where there is one.

use vstd::prelude::*;
use super::opcodes::{Cond, Opcode, Oper};
use super::registers::{Flags, Registers, R16, R8};
use super::CPU;
use crate::memory::Memory;

verus! {

/// Whether a condition holds for the flags.
pub open spec fn holds(cond: Cond, flags: Flags) -> bool {
    match cond {
        Cond::Always => true,
        Cond::Z => flags.z,
        Cond::NZ => !flags.z,
        Cond::C => flags.c,
        Cond::NC => !flags.c,
    }
}

/// Whether a register pair is one of BC, DE, HL and the fourth that the
/// instruction admits: AF for the stack instructions, SP for the others.
pub open spec fn is_pair(r: R16, stack: bool) -> bool {
    r == R16::BC || r == R16::DE || r == R16::HL || (if stack {
        r == R16::AF
    } else {
        r == R16::SP
    })
}

/// Whether an operand is one of the eight byte targets: a register other than
/// F, or the byte at HL.
pub open spec fn is_target(o: Oper) -> bool {
    match o {
        Oper::Reg8(r) => r != R8::F,
        Oper::Mem(r) => r == R16::HL,
        _ => false,
    }
}

/// Whether an operand can be the source of an arithmetic or logic operation
/// on A.
pub open spec fn is_source(o: Oper) -> bool {
    is_target(o) || o == Oper::ImmU8
}

/// Whether a load of a byte from `s` to `d` is an instruction.
pub open spec fn is_load(d: Oper, s: Oper) -> bool {
    let a = Oper::Reg8(R8::A);
    ||| is_target(d) && is_target(s) && !(d == Oper::Mem(R16::HL) && s == Oper::Mem(R16::HL))
    ||| is_target(d) && s == Oper::ImmU8
    ||| d == a && (s == Oper::Mem(R16::BC) || s == Oper::Mem(R16::DE) || s == Oper::MemImmU16 || s
        == Oper::ZMemImmU8 || s == Oper::ZMem(R8::C))
    ||| s == a && (d == Oper::Mem(R16::BC) || d == Oper::Mem(R16::DE) || d == Oper::MemImmU16 || d
        == Oper::ZMemImmU8 || d == Oper::ZMem(R8::C))
}

/// Whether a load between `d` and `s` moves a word.
pub open spec fn is_load16(d: Oper, s: Oper) -> bool {
    ||| d matches Oper::Reg16(r) && is_pair(r, false) && s == Oper::ImmU16
    ||| d == Oper::Reg16(R16::SP) && s == Oper::Reg16(R16::HL)
    ||| d == Oper::MemImmU16 && s == Oper::Reg16(R16::SP)
    ||| d == Oper::Reg16(R16::HL) && s == Oper::SPImmI8
}

/// Whether an operation with its operands is an instruction of the processor.
/// The prefix byte is not: it only leads to the second table.
pub open spec fn supported(op: Opcode) -> bool {
    let a = Oper::Reg8(R8::A);
    match op {
        Opcode::PREFIX => false,
        Opcode::ADC(d, s) => d == a && is_source(s),
        Opcode::AND(d, s) => d == a && is_source(s),
        Opcode::CP(d, s) => d == a && is_source(s),
        Opcode::OR(d, s) => d == a && is_source(s),
        Opcode::SBC(d, s) => d == a && is_source(s),
        Opcode::SUB(d, s) => d == a && is_source(s),
        Opcode::XOR(d, s) => d == a && is_source(s),
        Opcode::ADD(d, s) => {
            ||| d == a && is_source(s)
            ||| d == Oper::Reg16(R16::HL) && (s matches Oper::Reg16(r) && is_pair(r, false))
            ||| d == Oper::Reg16(R16::SP) && s == Oper::ImmI8
        },
        Opcode::INC(t) => is_target(t) || (t matches Oper::Reg16(r) && is_pair(r, false)),
        Opcode::DEC(t) => is_target(t) || (t matches Oper::Reg16(r) && is_pair(r, false)),
        Opcode::BIT(n, t) => n < 8 && is_target(t),
        Opcode::RES(n, t) => n < 8 && is_target(t),
        Opcode::SET(n, t) => n < 8 && is_target(t),
        Opcode::RL(t) => is_target(t),
        Opcode::RLC(t) => is_target(t),
        Opcode::RR(t) => is_target(t),
        Opcode::RRC(t) => is_target(t),
        Opcode::SLA(t) => is_target(t),
        Opcode::SRA(t) => is_target(t),
        Opcode::SRL(t) => is_target(t),
        Opcode::SWAP(t) => is_target(t),
        Opcode::LD(d, s) => is_load(d, s) || is_load16(d, s),
        Opcode::LDI(d, s) => (d == a && s == Oper::Mem(R16::HL)) || (d == Oper::Mem(R16::HL) && s
            == a),
        Opcode::LDD(d, s) => (d == a && s == Oper::Mem(R16::HL)) || (d == Oper::Mem(R16::HL) && s
            == a),
        Opcode::JR(_, o) => o == Oper::ImmI8,
        Opcode::JP(c, o) => o == Oper::ImmU16 || (c == Cond::Always && o == Oper::Reg16(R16::HL)),
        Opcode::CALL(_, o) => o == Oper::ImmU16,
        Opcode::RST(v) => v < 0x40 && v % 8 == 0,
        Opcode::PUSH(o) => o matches Oper::Reg16(r) && is_pair(r, true),
        Opcode::POP(o) => o matches Oper::Reg16(r) && is_pair(r, true),
        _ => true,
    }
}

impl CPU {
    /// The state with PC moved on by `n` bytes, wrapping at the end of the
    /// address space.
    pub open spec fn skip(self, n: u16) -> CPU {
        CPU { reg: Registers { pc: self.reg.pc.wrapping_add(n), ..self.reg }, ..self }
    }

    /// The state with PC replaced.
    pub open spec fn jump(self, pc: u16) -> CPU {
        CPU { reg: Registers { pc, ..self.reg }, ..self }
    }

    /// The state with one 16-bit register replaced.
    pub open spec fn with_r16(self, r: R16, v: u16) -> CPU {
        CPU { reg: self.reg.with_r16(r, v), ..self }
    }

    /// The state with one 8-bit register replaced.
    pub open spec fn with_r8(self, r: R8, v: u8) -> CPU {
        CPU { reg: self.reg.with_r8(r, v), ..self }
    }
}

/// The little-endian word at `addr`.
pub open spec fn word_at<M: Memory>(m: M::V, addr: u16) -> u16 {
    crate::memory::peek_word::<M>(m, addr)
}

/// The address that a memory operand names.
pub open spec fn address<M: Memory>(cpu: CPU, m: M::V, o: Oper) -> u16 {
    match o {
        Oper::Mem(r) => cpu.reg.r16(r),
        Oper::MemImmU16 => word_at::<M>(m, cpu.reg.pc),
        Oper::ZMem(r) => (cpu.reg.r8(r) as u16) | 0xFF00,
        Oper::ZMemImmU8 => (M::peek(m, cpu.reg.pc) as u16) | 0xFF00,
        _ => 0,
    }
}

/// The byte that an operand holds.
pub open spec fn value<M: Memory>(cpu: CPU, m: M::V, o: Oper) -> u8 {
    match o {
        Oper::Reg8(r) => cpu.reg.r8(r),
        Oper::ImmU8 => M::peek(m, cpu.reg.pc),
        Oper::ImmI8 => M::peek(m, cpu.reg.pc),
        Oper::SPImmI8 => M::peek(m, cpu.reg.pc),
        Oper::Mem(_) => M::peek(m, address::<M>(cpu, m, o)),
        Oper::MemImmU16 => M::peek(m, address::<M>(cpu, m, o)),
        Oper::ZMem(_) => M::peek(m, address::<M>(cpu, m, o)),
        Oper::ZMemImmU8 => M::peek(m, address::<M>(cpu, m, o)),
        _ => 0,
    }
}

/// The processor and the bus after `v` is put into the operand `o`, whose
/// address, if it has one, is worked out in the state `at`.
pub open spec fn stored<M: Memory>(cpu: CPU, at: CPU, m: M::V, o: Oper, v: u8) -> (CPU, M::V) {
    match o {
        Oper::Reg8(r) => (cpu.with_r8(r, v), m),
        _ => (cpu, M::poke(m, address::<M>(at, m, o), v)),
    }
}

/// The processor and the bus after the word `v` is pushed: SP goes down by
/// two and the word is written where it then points.
pub open spec fn pushed<M: Memory>(cpu: CPU, m: M::V, v: u16) -> (CPU, M::V) {
    let sp = cpu.reg.sp.wrapping_sub(2);
    (cpu.with_r16(R16::SP, sp), crate::memory::poke_word::<M>(m, sp, v))
}

/// The processor after a word is popped: SP goes up by two. The word is the
/// one that SP pointed to.
pub open spec fn popped(cpu: CPU) -> CPU {
    cpu.with_r16(R16::SP, cpu.reg.sp.wrapping_add(2))
}

/// An arithmetic or logic operation on A with the source `s`, which leaves
/// `out` in A and the flags.
pub open spec fn on_a<M: Memory>(cpu: CPU, m: M::V, s: Oper, out: (u8, Flags)) -> (CPU, M::V) {
    (cpu.with_a(out).skip(s.imm_len() as u16), m)
}

/// A rotate, shift or swap of the target `t`, which leaves `out` in the target
/// and the flags.
pub open spec fn on_target<M: Memory>(cpu: CPU, m: M::V, t: Oper, out: (u8, Flags)) -> (
    CPU,
    M::V,
) {
    stored::<M>(cpu.with_flags(out.1), cpu, m, t, out.0)
}

/// Arithmetic and logic on bytes and words.
#[verifier::opaque]
pub open spec fn arithmetic<M: Memory>(cpu: CPU, m: M::V, op: Opcode) -> (CPU, M::V) {
    let a = cpu.reg.a;
    let f = cpu.reg.flags;
    match op {
        Opcode::ADD(Oper::Reg16(R16::HL), Oper::Reg16(r)) => {
            let out = super::alu::sum16(cpu.reg.r16(R16::HL), cpu.reg.r16(r), f);
            (cpu.with_r16(R16::HL, out.0).with_flags(out.1), m)
        },
        Opcode::ADD(Oper::Reg16(_), _) => {
            let out = super::alu::sum_sp(cpu.reg.sp, M::peek(m, cpu.reg.pc));
            (cpu.with_r16(R16::SP, out.0).with_flags(out.1).skip(1), m)
        },
        Opcode::ADD(_, s) => on_a::<M>(cpu, m, s, super::alu::sum(a, value::<M>(cpu, m, s), false)),
        Opcode::ADC(_, s) => on_a::<M>(cpu, m, s, super::alu::sum(a, value::<M>(cpu, m, s), f.c)),
        Opcode::SUB(_, s) => on_a::<M>(
            cpu,
            m,
            s,
            super::alu::difference(a, value::<M>(cpu, m, s), false),
        ),
        Opcode::SBC(_, s) => on_a::<M>(
            cpu,
            m,
            s,
            super::alu::difference(a, value::<M>(cpu, m, s), f.c),
        ),
        Opcode::AND(_, s) => on_a::<M>(cpu, m, s, super::alu::logic(a & value::<M>(cpu, m, s), true)),
        Opcode::OR(_, s) => on_a::<M>(cpu, m, s, super::alu::logic(a | value::<M>(cpu, m, s), false)),
        Opcode::XOR(_, s) => on_a::<M>(
            cpu,
            m,
            s,
            super::alu::logic(a ^ value::<M>(cpu, m, s), false),
        ),
        Opcode::CP(_, s) => (
            cpu.with_flags(super::alu::difference(a, value::<M>(cpu, m, s), false).1).skip(
                s.imm_len() as u16,
            ),
            m,
        ),
        Opcode::INC(Oper::Reg16(r)) => (cpu.with_r16(r, cpu.reg.r16(r).wrapping_add(1)), m),
        Opcode::DEC(Oper::Reg16(r)) => (cpu.with_r16(r, cpu.reg.r16(r).wrapping_sub(1)), m),
        Opcode::INC(t) => on_target::<M>(cpu, m, t, super::alu::incremented(value::<M>(cpu, m, t), f)),
        Opcode::DEC(t) => on_target::<M>(cpu, m, t, super::alu::decremented(value::<M>(cpu, m, t), f)),
        Opcode::DAA => (cpu.with_a(super::alu::decimal_adjusted(a, f)), m),
        Opcode::CPL => (cpu.with_a((!a, Flags { n: true, h: true, ..f })), m),
        Opcode::CCF => (cpu.with_flags(Flags { n: false, h: false, c: !f.c, ..f }), m),
        Opcode::SCF => (cpu.with_flags(Flags { n: false, h: false, c: true, ..f }), m),
        _ => (cpu, m),
    }
}

/// Rotates, shifts, swaps and operations on single bits.
#[verifier::opaque]
pub open spec fn bitwise<M: Memory>(cpu: CPU, m: M::V, op: Opcode) -> (CPU, M::V) {
    let a = cpu.reg.a;
    let f = cpu.reg.flags;
    let clear_z = |out: (u8, Flags)| (out.0, Flags { z: false, ..out.1 });
    match op {
        Opcode::RL(t) => on_target::<M>(cpu, m, t, super::alu::rotated_left(value::<M>(cpu, m, t), f.c)),
        Opcode::RR(t) => on_target::<M>(
            cpu,
            m,
            t,
            super::alu::rotated_right(value::<M>(cpu, m, t), f.c),
        ),
        Opcode::RLC(t) => on_target::<M>(
            cpu,
            m,
            t,
            super::alu::rotated_left_circular(value::<M>(cpu, m, t)),
        ),
        Opcode::RRC(t) => on_target::<M>(
            cpu,
            m,
            t,
            super::alu::rotated_right_circular(value::<M>(cpu, m, t)),
        ),
        Opcode::SLA(t) => on_target::<M>(cpu, m, t, super::alu::shifted_left(value::<M>(cpu, m, t))),
        Opcode::SRA(t) => on_target::<M>(
            cpu,
            m,
            t,
            super::alu::shifted_right_arithmetic(value::<M>(cpu, m, t)),
        ),
        Opcode::SRL(t) => on_target::<M>(
            cpu,
            m,
            t,
            super::alu::shifted_right_logical(value::<M>(cpu, m, t)),
        ),
        Opcode::SWAP(t) => {
            let v = value::<M>(cpu, m, t);
            on_target::<M>(cpu, m, t, ((v >> 4) | (v << 4), super::alu::logic(v, false).1))
        },
        Opcode::RLA => (cpu.with_a(clear_z(super::alu::rotated_left(a, f.c))), m),
        Opcode::RRA => (cpu.with_a(clear_z(super::alu::rotated_right(a, f.c))), m),
        Opcode::RLCA => (cpu.with_a(clear_z(super::alu::rotated_left_circular(a))), m),
        Opcode::RRCA => (cpu.with_a(clear_z(super::alu::rotated_right_circular(a))), m),
        Opcode::BIT(n, t) => (
            cpu.with_flags(
                Flags { z: !crate::bits::bit_set(value::<M>(cpu, m, t), n), n: false, h: true, c: f.c },
            ),
            m,
        ),
        Opcode::RES(n, t) => stored::<M>(cpu, cpu, m, t, value::<M>(cpu, m, t) & !(1u8 << n)),
        Opcode::SET(n, t) => stored::<M>(cpu, cpu, m, t, value::<M>(cpu, m, t) | (1u8 << n)),
        _ => (cpu, m),
    }
}

/// Loads of bytes and words, and the stack.
#[verifier::opaque]
pub open spec fn transfer<M: Memory>(cpu: CPU, m: M::V, op: Opcode) -> (CPU, M::V) {
    let hl = cpu.reg.r16(R16::HL);
    match op {
        Opcode::LD(Oper::Reg16(R16::SP), Oper::Reg16(_)) => (cpu.with_r16(R16::SP, hl), m),
        Opcode::LD(Oper::Reg16(_), Oper::SPImmI8) => {
            let out = super::alu::sum_sp(cpu.reg.sp, M::peek(m, cpu.reg.pc));
            (cpu.with_flags(out.1).with_r16(R16::HL, out.0).skip(1), m)
        },
        Opcode::LD(Oper::Reg16(r), _) => (cpu.skip(2).with_r16(r, word_at::<M>(m, cpu.reg.pc)), m),
        Opcode::LD(Oper::MemImmU16, Oper::Reg16(_)) => (
            cpu.skip(2),
            crate::memory::poke_word::<M>(m, word_at::<M>(m, cpu.reg.pc), cpu.reg.sp),
        ),
        Opcode::LD(d, s) => stored::<M>(
            cpu.skip((d.imm_len() + s.imm_len()) as u16),
            cpu,
            m,
            d,
            value::<M>(cpu, m, s),
        ),
        Opcode::LDI(d, s) => {
            let (c, m2) = stored::<M>(cpu, cpu, m, d, value::<M>(cpu, m, s));
            (c.with_r16(R16::HL, hl.wrapping_add(1)), m2)
        },
        Opcode::LDD(d, s) => {
            let (c, m2) = stored::<M>(cpu, cpu, m, d, value::<M>(cpu, m, s));
            (c.with_r16(R16::HL, hl.wrapping_sub(1)), m2)
        },
        Opcode::PUSH(Oper::Reg16(r)) => pushed::<M>(cpu, m, cpu.reg.r16(r)),
        Opcode::POP(Oper::Reg16(r)) => (popped(cpu).with_r16(r, word_at::<M>(m, cpu.reg.sp)), m),
        _ => (cpu, m),
    }
}

/// Whether a jump, call or return is taken.
pub open spec fn taken(cpu: CPU, op: Opcode) -> bool {
    match op {
        Opcode::JR(c, _) => holds(c, cpu.reg.flags),
        Opcode::JP(c, _) => holds(c, cpu.reg.flags),
        Opcode::CALL(c, _) => holds(c, cpu.reg.flags),
        Opcode::RET(c) => holds(c, cpu.reg.flags),
        _ => true,
    }
}

/// Jumps, calls, returns and restarts, and the instructions that act on the
/// processor itself.
#[verifier::opaque]
pub open spec fn control<M: Memory>(cpu: CPU, m: M::V, op: Opcode) -> (CPU, M::V) {
    let go = taken(cpu, op);
    match op {
        Opcode::JR(_, _) => {
            let next = cpu.skip(1);
            if go {
                (
                    next.jump(
                        crate::bits::displaced(
                            next.reg.pc,
                            crate::bits::signed(M::peek(m, cpu.reg.pc)),
                        ),
                    ),
                    m,
                )
            } else {
                (next, m)
            }
        },
        Opcode::JP(_, Oper::Reg16(_)) => (cpu.jump(cpu.reg.r16(R16::HL)), m),
        Opcode::JP(_, _) => if go {
            (cpu.jump(word_at::<M>(m, cpu.reg.pc)), m)
        } else {
            (cpu.skip(2), m)
        },
        Opcode::CALL(_, _) => {
            let next = cpu.skip(2);
            if go {
                let (c, m2) = pushed::<M>(next, m, next.reg.pc);
                (c.jump(word_at::<M>(m, cpu.reg.pc)), m2)
            } else {
                (next, m)
            }
        },
        Opcode::RET(_) => if go {
            (popped(cpu).jump(word_at::<M>(m, cpu.reg.sp)), m)
        } else {
            (cpu, m)
        },
        Opcode::RETI => (
            CPU { ime_next: true, ..popped(cpu).jump(word_at::<M>(m, cpu.reg.sp)) },
            m,
        ),
        Opcode::RST(v) => {
            let (c, m2) = pushed::<M>(cpu, m, cpu.reg.pc);
            (c.jump(v as u16), m2)
        },
        Opcode::HALT => (CPU { halted: true, ..cpu }, m),
        Opcode::DI => (CPU { ime: false, ime_next: false, ..cpu }, m),
        Opcode::EI => (CPU { ime_next: true, ..cpu }, m),
        _ => (cpu, m),
    }
}

/// The four groups that the instructions fall into.
pub enum Group {
    Arithmetic,
    Bitwise,
    Transfer,
    Control,
}

/// The group of an operation.
pub open spec fn group(op: Opcode) -> Group {
    match op {
        Opcode::ADD(_, _) | Opcode::ADC(_, _) | Opcode::SUB(_, _) | Opcode::SBC(_, _)
        | Opcode::AND(_, _) | Opcode::OR(_, _) | Opcode::XOR(_, _) | Opcode::CP(_, _)
        | Opcode::INC(_) | Opcode::DEC(_) | Opcode::DAA | Opcode::CPL | Opcode::CCF
        | Opcode::SCF => Group::Arithmetic,
        Opcode::RL(_) | Opcode::RR(_) | Opcode::RLC(_) | Opcode::RRC(_) | Opcode::SLA(_)
        | Opcode::SRA(_) | Opcode::SRL(_) | Opcode::SWAP(_) | Opcode::RLA | Opcode::RRA
        | Opcode::RLCA | Opcode::RRCA | Opcode::BIT(_, _) | Opcode::RES(_, _) | Opcode::SET(
            _,
            _,
        ) => Group::Bitwise,
        Opcode::LD(_, _) | Opcode::LDI(_, _) | Opcode::LDD(_, _) | Opcode::PUSH(_) | Opcode::POP(
            _,
        ) => Group::Transfer,
        _ => Group::Control,
    }
}

/// The processor and the bus after an instruction.
pub open spec fn effect<M: Memory>(cpu: CPU, m: M::V, op: Opcode) -> (CPU, M::V) {
    match group(op) {
        Group::Arithmetic => arithmetic::<M>(cpu, m, op),
        Group::Bitwise => bitwise::<M>(cpu, m, op),
        Group::Transfer => transfer::<M>(cpu, m, op),
        Group::Control => control::<M>(cpu, m, op),
    }
}

/// Machine cycles of an instruction, as the processor's manual gives them. An
/// instruction takes one cycle for each byte it fetches, reads or writes, and
/// some take more for work inside the processor.
#[verifier::opaque]
pub open spec fn timing(op: Opcode, go: bool) -> nat {
    match op {
        Opcode::ADD(Oper::Reg16(R16::HL), _) => 2,
        Opcode::ADD(Oper::Reg16(_), _) => 4,
        Opcode::ADD(_, s) | Opcode::ADC(_, s) | Opcode::SUB(_, s) | Opcode::SBC(_, s)
        | Opcode::AND(_, s) | Opcode::OR(_, s) | Opcode::XOR(_, s) | Opcode::CP(_, s) => 1
            + s.imm_len() + s.accesses(),
        Opcode::INC(Oper::Reg16(_)) | Opcode::DEC(Oper::Reg16(_)) => 2,
        Opcode::INC(t) | Opcode::DEC(t) => 1 + 2 * t.accesses(),
        Opcode::RL(t) | Opcode::RR(t) | Opcode::RLC(t) | Opcode::RRC(t) | Opcode::SLA(t)
        | Opcode::SRA(t) | Opcode::SRL(t) | Opcode::SWAP(t) => 2 + 2 * t.accesses(),
        Opcode::RES(_, t) | Opcode::SET(_, t) => 2 + 2 * t.accesses(),
        Opcode::BIT(_, t) => 2 + t.accesses(),
        Opcode::LD(Oper::Reg16(R16::SP), Oper::Reg16(_)) => 2,
        Opcode::LD(Oper::Reg16(_), Oper::SPImmI8) => 3,
        Opcode::LD(Oper::MemImmU16, Oper::Reg16(_)) => 5,
        Opcode::LD(d, s) => 1 + d.imm_len() + s.imm_len() + d.accesses() + s.accesses(),
        Opcode::LDI(_, _) | Opcode::LDD(_, _) => 2,
        Opcode::PUSH(_) => 4,
        Opcode::POP(_) => 3,
        Opcode::JR(_, _) => if go {
            3
        } else {
            2
        },
        Opcode::JP(_, Oper::Reg16(_)) => 1,
        Opcode::JP(_, _) => if go {
            4
        } else {
            3
        },
        Opcode::CALL(_, _) => if go {
            6
        } else {
            3
        },
        Opcode::RET(Cond::Always) => 4,
        Opcode::RET(_) => if go {
            5
        } else {
            2
        },
        Opcode::RETI => 4,
        Opcode::RST(_) => 4,
        _ => 1,
    }
}

} // verus!
