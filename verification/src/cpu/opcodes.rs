//! Decoded operations: what an instruction does and on which operands.

use vstd::prelude::*;
use super::registers::{R16, R8};

verus! {

/// Where an instruction finds or puts a value.
#[derive(Clone, Copy, Debug, PartialEq, Eq, Structural)]
pub enum Oper {
    /// A signed byte after the opcode.
    ImmI8,
    /// A little-endian word after the opcode.
    ImmU16,
    /// A byte after the opcode.
    ImmU8,
    /// The byte at the address held in a 16-bit register.
    Mem(R16),
    /// The byte at the address given by a word after the opcode.
    MemImmU16,
    /// A 16-bit register.
    Reg16(R16),
    /// An 8-bit register.
    Reg8(R8),
    /// The stack pointer plus a signed byte after the opcode.
    SPImmI8,
    /// The byte at 0xFF00 plus an 8-bit register.
    ZMem(R8),
    /// The byte at 0xFF00 plus a byte after the opcode.
    ZMemImmU8,
}

/// The condition under which a jump, call or return is taken.
#[derive(Clone, Copy, Debug, PartialEq, Eq, Structural)]
pub enum Cond {
    Always,
    Z,
    NZ,
    C,
    NC,
}

/// A decoded operation.
#[derive(Clone, Copy, Debug, PartialEq, Eq, Structural)]
pub enum Opcode {
    PREFIX,
    ADC(Oper, Oper),
    ADD(Oper, Oper),
    AND(Oper, Oper),
    BIT(u8, Oper),
    CALL(Cond, Oper),
    CCF,
    CP(Oper, Oper),
    CPL,
    DAA,
    DEC(Oper),
    DI,
    EI,
    HALT,
    INC(Oper),
    JP(Cond, Oper),
    JR(Cond, Oper),
    LD(Oper, Oper),
    LDD(Oper, Oper),
    LDI(Oper, Oper),
    NOP,
    OR(Oper, Oper),
    POP(Oper),
    PUSH(Oper),
    RES(u8, Oper),
    RET(Cond),
    RETI,
    RL(Oper),
    RLA,
    RLC(Oper),
    RLCA,
    RR(Oper),
    RRA,
    RRC(Oper),
    RRCA,
    RST(u8),
    SBC(Oper, Oper),
    SCF,
    SET(u8, Oper),
    SLA(Oper),
    SRA(Oper),
    SRL(Oper),
    STOP,
    SUB(Oper, Oper),
    SWAP(Oper),
    XOR(Oper, Oper),
}

impl Oper {
    /// Number of bytes the operand takes after the opcode.
    pub open spec fn imm_len(self) -> nat {
        match self {
            Oper::ImmI8 | Oper::ImmU8 | Oper::SPImmI8 | Oper::ZMemImmU8 => 1,
            Oper::ImmU16 | Oper::MemImmU16 => 2,
            _ => 0,
        }
    }

    /// Number of data bytes moved over the bus when the operand is read or
    /// written once, immediates not counted.
    pub open spec fn accesses(self) -> nat {
        match self {
            Oper::Mem(_) | Oper::MemImmU16 | Oper::ZMem(_) | Oper::ZMemImmU8 => 1,
            _ => 0,
        }
    }
}

} // verus!
