//! The two opcode tables: byte to decoded operation.

use vstd::prelude::*;
use super::opcodes::{Cond, Opcode, Oper};
use super::registers::{R16, R8};

verus! {

/// The target that a three-bit register field selects: B, C, D, E, H, L, the
/// byte at HL, A.
pub open spec fn target(field: u8) -> Oper {
    if field == 0 {
        Oper::Reg8(R8::B)
    } else if field == 1 {
        Oper::Reg8(R8::C)
    } else if field == 2 {
        Oper::Reg8(R8::D)
    } else if field == 3 {
        Oper::Reg8(R8::E)
    } else if field == 4 {
        Oper::Reg8(R8::H)
    } else if field == 5 {
        Oper::Reg8(R8::L)
    } else if field == 6 {
        Oper::Mem(R16::HL)
    } else {
        Oper::Reg8(R8::A)
    }
}

/// The register pair that a two-bit field selects; the fourth is SP, or AF for
/// PUSH and POP.
pub open spec fn reg_pair(field: u8, stack: bool) -> R16 {
    if field == 0 {
        R16::BC
    } else if field == 1 {
        R16::DE
    } else if field == 2 {
        R16::HL
    } else if stack {
        R16::AF
    } else {
        R16::SP
    }
}

/// The condition that a two-bit field selects: NZ, Z, NC, C.
pub open spec fn condition(field: u8) -> Cond {
    if field == 0 {
        Cond::NZ
    } else if field == 1 {
        Cond::Z
    } else if field == 2 {
        Cond::NC
    } else {
        Cond::C
    }
}

/// The arithmetic or logic operation on A that a three-bit field selects: ADD,
/// ADC, SUB, SBC, AND, XOR, OR, CP.
pub open spec fn arith(field: u8, src: Oper) -> Opcode {
    if field == 0 {
        Opcode::ADD(Oper::Reg8(R8::A), src)
    } else if field == 1 {
        Opcode::ADC(Oper::Reg8(R8::A), src)
    } else if field == 2 {
        Opcode::SUB(Oper::Reg8(R8::A), src)
    } else if field == 3 {
        Opcode::SBC(Oper::Reg8(R8::A), src)
    } else if field == 4 {
        Opcode::AND(Oper::Reg8(R8::A), src)
    } else if field == 5 {
        Opcode::XOR(Oper::Reg8(R8::A), src)
    } else if field == 6 {
        Opcode::OR(Oper::Reg8(R8::A), src)
    } else {
        Opcode::CP(Oper::Reg8(R8::A), src)
    }
}

/// The rotate or shift that a three-bit field selects: RLC, RRC, RL, RR, SLA,
/// SRA, SWAP, SRL.
pub open spec fn shift(field: u8, t: Oper) -> Opcode {
    if field == 0 {
        Opcode::RLC(t)
    } else if field == 1 {
        Opcode::RRC(t)
    } else if field == 2 {
        Opcode::RL(t)
    } else if field == 3 {
        Opcode::RR(t)
    } else if field == 4 {
        Opcode::SLA(t)
    } else if field == 5 {
        Opcode::SRA(t)
    } else if field == 6 {
        Opcode::SWAP(t)
    } else {
        Opcode::SRL(t)
    }
}

/// Opcodes 0x00 to 0x3F, by their fields `y` (bits 5 to 3) and `z` (bits 2 to
/// 0).
pub open spec fn decode_low(y: u8, z: u8) -> Opcode {
    let p = y / 2;
    let even = y % 2 == 0;
    if z == 0 {
        if y == 0 {
            Opcode::NOP
        } else if y == 1 {
            Opcode::LD(Oper::MemImmU16, Oper::Reg16(R16::SP))
        } else if y == 2 {
            Opcode::STOP
        } else if y == 3 {
            Opcode::JR(Cond::Always, Oper::ImmI8)
        } else {
            Opcode::JR(condition((y - 4) as u8), Oper::ImmI8)
        }
    } else if z == 1 {
        if even {
            Opcode::LD(Oper::Reg16(reg_pair(p, false)), Oper::ImmU16)
        } else {
            Opcode::ADD(Oper::Reg16(R16::HL), Oper::Reg16(reg_pair(p, false)))
        }
    } else if z == 2 {
        let (dst, src) = if even {
            (Oper::Mem(if p == 0 { R16::BC } else if p == 1 { R16::DE } else { R16::HL }), Oper::Reg8(R8::A))
        } else {
            (Oper::Reg8(R8::A), Oper::Mem(if p == 0 { R16::BC } else if p == 1 { R16::DE } else { R16::HL }))
        };
        if p < 2 {
            Opcode::LD(dst, src)
        } else if p == 2 {
            Opcode::LDI(dst, src)
        } else {
            Opcode::LDD(dst, src)
        }
    } else if z == 3 {
        if even {
            Opcode::INC(Oper::Reg16(reg_pair(p, false)))
        } else {
            Opcode::DEC(Oper::Reg16(reg_pair(p, false)))
        }
    } else if z == 4 {
        Opcode::INC(target(y))
    } else if z == 5 {
        Opcode::DEC(target(y))
    } else if z == 6 {
        Opcode::LD(target(y), Oper::ImmU8)
    } else if y == 0 {
        Opcode::RLCA
    } else if y == 1 {
        Opcode::RRCA
    } else if y == 2 {
        Opcode::RLA
    } else if y == 3 {
        Opcode::RRA
    } else if y == 4 {
        Opcode::DAA
    } else if y == 5 {
        Opcode::CPL
    } else if y == 6 {
        Opcode::SCF
    } else {
        Opcode::CCF
    }
}

/// Opcodes 0xC0 to 0xFF, by their fields `y` and `z`; eleven of them are not
/// instructions.
pub open spec fn decode_high(y: u8, z: u8) -> Option<Opcode> {
    let p = y / 2;
    let even = y % 2 == 0;
    if z == 0 {
        Some(
            if y < 4 {
                Opcode::RET(condition(y))
            } else if y == 4 {
                Opcode::LD(Oper::ZMemImmU8, Oper::Reg8(R8::A))
            } else if y == 5 {
                Opcode::ADD(Oper::Reg16(R16::SP), Oper::ImmI8)
            } else if y == 6 {
                Opcode::LD(Oper::Reg8(R8::A), Oper::ZMemImmU8)
            } else {
                Opcode::LD(Oper::Reg16(R16::HL), Oper::SPImmI8)
            },
        )
    } else if z == 1 {
        Some(
            if even {
                Opcode::POP(Oper::Reg16(reg_pair(p, true)))
            } else if p == 0 {
                Opcode::RET(Cond::Always)
            } else if p == 1 {
                Opcode::RETI
            } else if p == 2 {
                Opcode::JP(Cond::Always, Oper::Reg16(R16::HL))
            } else {
                Opcode::LD(Oper::Reg16(R16::SP), Oper::Reg16(R16::HL))
            },
        )
    } else if z == 2 {
        Some(
            if y < 4 {
                Opcode::JP(condition(y), Oper::ImmU16)
            } else if y == 4 {
                Opcode::LD(Oper::ZMem(R8::C), Oper::Reg8(R8::A))
            } else if y == 5 {
                Opcode::LD(Oper::MemImmU16, Oper::Reg8(R8::A))
            } else if y == 6 {
                Opcode::LD(Oper::Reg8(R8::A), Oper::ZMem(R8::C))
            } else {
                Opcode::LD(Oper::Reg8(R8::A), Oper::MemImmU16)
            },
        )
    } else if z == 3 {
        if y == 0 {
            Some(Opcode::JP(Cond::Always, Oper::ImmU16))
        } else if y == 1 {
            Some(Opcode::PREFIX)
        } else if y == 6 {
            Some(Opcode::DI)
        } else if y == 7 {
            Some(Opcode::EI)
        } else {
            None
        }
    } else if z == 4 {
        if y < 4 {
            Some(Opcode::CALL(condition(y), Oper::ImmU16))
        } else {
            None
        }
    } else if z == 5 {
        if even {
            Some(Opcode::PUSH(Oper::Reg16(reg_pair(p, true))))
        } else if p == 0 {
            Some(Opcode::CALL(Cond::Always, Oper::ImmU16))
        } else {
            None
        }
    } else if z == 6 {
        Some(arith(y, Oper::ImmU8))
    } else {
        Some(Opcode::RST((8 * y) as u8))
    }
}

/// The operation that a byte of the base table stands for, if it is an
/// instruction. An opcode is read as three fields: bits 7 and 6 choose the
/// quarter of the table, bits 5 to 3 and bits 2 to 0 the entry in it.
pub open spec fn decoded(op: u8) -> Option<Opcode> {
    let x = op / 64;
    let y = (op / 8) % 8;
    let z = op % 8;
    if x == 0 {
        Some(decode_low(y, z))
    } else if x == 1 {
        if y == 6 && z == 6 {
            Some(Opcode::HALT)
        } else {
            Some(Opcode::LD(target(y), target(z)))
        }
    } else if x == 2 {
        Some(arith(y, target(z)))
    } else {
        decode_high(y, z)
    }
}

/// The operation that a byte after the 0xCB prefix stands for: a rotate or
/// shift, or a test, reset or set of bit `y`, on the target that `z` selects.
pub open spec fn decoded_prefixed(op: u8) -> Opcode {
    let x = op / 64;
    let y = (op / 8) % 8;
    let z = op % 8;
    if x == 0 {
        shift(y, target(z))
    } else if x == 1 {
        Opcode::BIT(y, target(z))
    } else if x == 2 {
        Opcode::RES(y, target(z))
    } else {
        Opcode::SET(y, target(z))
    }
}

/// Looks a byte up in the base table.
pub fn decode(op: u8) -> (r: Option<Opcode>)
    ensures
        r == decoded(op),
        r matches Some(o) ==> o == Opcode::PREFIX || super::semantics::supported(o),
{
    match op {
        0x00 => Some(Opcode::NOP),
        0x01 => Some(Opcode::LD(Oper::Reg16(R16::BC), Oper::ImmU16)),
        0x02 => Some(Opcode::LD(Oper::Mem(R16::BC), Oper::Reg8(R8::A))),
        0x03 => Some(Opcode::INC(Oper::Reg16(R16::BC))),
        0x04 => Some(Opcode::INC(Oper::Reg8(R8::B))),
        0x05 => Some(Opcode::DEC(Oper::Reg8(R8::B))),
        0x06 => Some(Opcode::LD(Oper::Reg8(R8::B), Oper::ImmU8)),
        0x07 => Some(Opcode::RLCA),
        0x08 => Some(Opcode::LD(Oper::MemImmU16, Oper::Reg16(R16::SP))),
        0x09 => Some(Opcode::ADD(Oper::Reg16(R16::HL), Oper::Reg16(R16::BC))),
        0x0A => Some(Opcode::LD(Oper::Reg8(R8::A), Oper::Mem(R16::BC))),
        0x0B => Some(Opcode::DEC(Oper::Reg16(R16::BC))),
        0x0C => Some(Opcode::INC(Oper::Reg8(R8::C))),
        0x0D => Some(Opcode::DEC(Oper::Reg8(R8::C))),
        0x0E => Some(Opcode::LD(Oper::Reg8(R8::C), Oper::ImmU8)),
        0x0F => Some(Opcode::RRCA),
        0x10 => Some(Opcode::STOP),
        0x11 => Some(Opcode::LD(Oper::Reg16(R16::DE), Oper::ImmU16)),
        0x12 => Some(Opcode::LD(Oper::Mem(R16::DE), Oper::Reg8(R8::A))),
        0x13 => Some(Opcode::INC(Oper::Reg16(R16::DE))),
        0x14 => Some(Opcode::INC(Oper::Reg8(R8::D))),
        0x15 => Some(Opcode::DEC(Oper::Reg8(R8::D))),
        0x16 => Some(Opcode::LD(Oper::Reg8(R8::D), Oper::ImmU8)),
        0x17 => Some(Opcode::RLA),
        0x18 => Some(Opcode::JR(Cond::Always, Oper::ImmI8)),
        0x19 => Some(Opcode::ADD(Oper::Reg16(R16::HL), Oper::Reg16(R16::DE))),
        0x1A => Some(Opcode::LD(Oper::Reg8(R8::A), Oper::Mem(R16::DE))),
        0x1B => Some(Opcode::DEC(Oper::Reg16(R16::DE))),
        0x1C => Some(Opcode::INC(Oper::Reg8(R8::E))),
        0x1D => Some(Opcode::DEC(Oper::Reg8(R8::E))),
        0x1E => Some(Opcode::LD(Oper::Reg8(R8::E), Oper::ImmU8)),
        0x1F => Some(Opcode::RRA),
        0x20 => Some(Opcode::JR(Cond::NZ, Oper::ImmI8)),
        0x21 => Some(Opcode::LD(Oper::Reg16(R16::HL), Oper::ImmU16)),
        0x22 => Some(Opcode::LDI(Oper::Mem(R16::HL), Oper::Reg8(R8::A))),
        0x23 => Some(Opcode::INC(Oper::Reg16(R16::HL))),
        0x24 => Some(Opcode::INC(Oper::Reg8(R8::H))),
        0x25 => Some(Opcode::DEC(Oper::Reg8(R8::H))),
        0x26 => Some(Opcode::LD(Oper::Reg8(R8::H), Oper::ImmU8)),
        0x27 => Some(Opcode::DAA),
        0x28 => Some(Opcode::JR(Cond::Z, Oper::ImmI8)),
        0x29 => Some(Opcode::ADD(Oper::Reg16(R16::HL), Oper::Reg16(R16::HL))),
        0x2A => Some(Opcode::LDI(Oper::Reg8(R8::A), Oper::Mem(R16::HL))),
        0x2B => Some(Opcode::DEC(Oper::Reg16(R16::HL))),
        0x2C => Some(Opcode::INC(Oper::Reg8(R8::L))),
        0x2D => Some(Opcode::DEC(Oper::Reg8(R8::L))),
        0x2E => Some(Opcode::LD(Oper::Reg8(R8::L), Oper::ImmU8)),
        0x2F => Some(Opcode::CPL),
        0x30 => Some(Opcode::JR(Cond::NC, Oper::ImmI8)),
        0x31 => Some(Opcode::LD(Oper::Reg16(R16::SP), Oper::ImmU16)),
        0x32 => Some(Opcode::LDD(Oper::Mem(R16::HL), Oper::Reg8(R8::A))),
        0x33 => Some(Opcode::INC(Oper::Reg16(R16::SP))),
        0x34 => Some(Opcode::INC(Oper::Mem(R16::HL))),
        0x35 => Some(Opcode::DEC(Oper::Mem(R16::HL))),
        0x36 => Some(Opcode::LD(Oper::Mem(R16::HL), Oper::ImmU8)),
        0x37 => Some(Opcode::SCF),
        0x38 => Some(Opcode::JR(Cond::C, Oper::ImmI8)),
        0x39 => Some(Opcode::ADD(Oper::Reg16(R16::HL), Oper::Reg16(R16::SP))),
        0x3A => Some(Opcode::LDD(Oper::Reg8(R8::A), Oper::Mem(R16::HL))),
        0x3B => Some(Opcode::DEC(Oper::Reg16(R16::SP))),
        0x3C => Some(Opcode::INC(Oper::Reg8(R8::A))),
        0x3D => Some(Opcode::DEC(Oper::Reg8(R8::A))),
        0x3E => Some(Opcode::LD(Oper::Reg8(R8::A), Oper::ImmU8)),
        0x3F => Some(Opcode::CCF),
        0x40 => Some(Opcode::LD(Oper::Reg8(R8::B), Oper::Reg8(R8::B))),
        0x41 => Some(Opcode::LD(Oper::Reg8(R8::B), Oper::Reg8(R8::C))),
        0x42 => Some(Opcode::LD(Oper::Reg8(R8::B), Oper::Reg8(R8::D))),
        0x43 => Some(Opcode::LD(Oper::Reg8(R8::B), Oper::Reg8(R8::E))),
        0x44 => Some(Opcode::LD(Oper::Reg8(R8::B), Oper::Reg8(R8::H))),
        0x45 => Some(Opcode::LD(Oper::Reg8(R8::B), Oper::Reg8(R8::L))),
        0x46 => Some(Opcode::LD(Oper::Reg8(R8::B), Oper::Mem(R16::HL))),
        0x47 => Some(Opcode::LD(Oper::Reg8(R8::B), Oper::Reg8(R8::A))),
        0x48 => Some(Opcode::LD(Oper::Reg8(R8::C), Oper::Reg8(R8::B))),
        0x49 => Some(Opcode::LD(Oper::Reg8(R8::C), Oper::Reg8(R8::C))),
        0x4A => Some(Opcode::LD(Oper::Reg8(R8::C), Oper::Reg8(R8::D))),
        0x4B => Some(Opcode::LD(Oper::Reg8(R8::C), Oper::Reg8(R8::E))),
        0x4C => Some(Opcode::LD(Oper::Reg8(R8::C), Oper::Reg8(R8::H))),
        0x4D => Some(Opcode::LD(Oper::Reg8(R8::C), Oper::Reg8(R8::L))),
        0x4E => Some(Opcode::LD(Oper::Reg8(R8::C), Oper::Mem(R16::HL))),
        0x4F => Some(Opcode::LD(Oper::Reg8(R8::C), Oper::Reg8(R8::A))),
        0x50 => Some(Opcode::LD(Oper::Reg8(R8::D), Oper::Reg8(R8::B))),
        0x51 => Some(Opcode::LD(Oper::Reg8(R8::D), Oper::Reg8(R8::C))),
        0x52 => Some(Opcode::LD(Oper::Reg8(R8::D), Oper::Reg8(R8::D))),
        0x53 => Some(Opcode::LD(Oper::Reg8(R8::D), Oper::Reg8(R8::E))),
        0x54 => Some(Opcode::LD(Oper::Reg8(R8::D), Oper::Reg8(R8::H))),
        0x55 => Some(Opcode::LD(Oper::Reg8(R8::D), Oper::Reg8(R8::L))),
        0x56 => Some(Opcode::LD(Oper::Reg8(R8::D), Oper::Mem(R16::HL))),
        0x57 => Some(Opcode::LD(Oper::Reg8(R8::D), Oper::Reg8(R8::A))),
        0x58 => Some(Opcode::LD(Oper::Reg8(R8::E), Oper::Reg8(R8::B))),
        0x59 => Some(Opcode::LD(Oper::Reg8(R8::E), Oper::Reg8(R8::C))),
        0x5A => Some(Opcode::LD(Oper::Reg8(R8::E), Oper::Reg8(R8::D))),
        0x5B => Some(Opcode::LD(Oper::Reg8(R8::E), Oper::Reg8(R8::E))),
        0x5C => Some(Opcode::LD(Oper::Reg8(R8::E), Oper::Reg8(R8::H))),
        0x5D => Some(Opcode::LD(Oper::Reg8(R8::E), Oper::Reg8(R8::L))),
        0x5E => Some(Opcode::LD(Oper::Reg8(R8::E), Oper::Mem(R16::HL))),
        0x5F => Some(Opcode::LD(Oper::Reg8(R8::E), Oper::Reg8(R8::A))),
        0x60 => Some(Opcode::LD(Oper::Reg8(R8::H), Oper::Reg8(R8::B))),
        0x61 => Some(Opcode::LD(Oper::Reg8(R8::H), Oper::Reg8(R8::C))),
        0x62 => Some(Opcode::LD(Oper::Reg8(R8::H), Oper::Reg8(R8::D))),
        0x63 => Some(Opcode::LD(Oper::Reg8(R8::H), Oper::Reg8(R8::E))),
        0x64 => Some(Opcode::LD(Oper::Reg8(R8::H), Oper::Reg8(R8::H))),
        0x65 => Some(Opcode::LD(Oper::Reg8(R8::H), Oper::Reg8(R8::L))),
        0x66 => Some(Opcode::LD(Oper::Reg8(R8::H), Oper::Mem(R16::HL))),
        0x67 => Some(Opcode::LD(Oper::Reg8(R8::H), Oper::Reg8(R8::A))),
        0x68 => Some(Opcode::LD(Oper::Reg8(R8::L), Oper::Reg8(R8::B))),
        0x69 => Some(Opcode::LD(Oper::Reg8(R8::L), Oper::Reg8(R8::C))),
        0x6A => Some(Opcode::LD(Oper::Reg8(R8::L), Oper::Reg8(R8::D))),
        0x6B => Some(Opcode::LD(Oper::Reg8(R8::L), Oper::Reg8(R8::E))),
        0x6C => Some(Opcode::LD(Oper::Reg8(R8::L), Oper::Reg8(R8::H))),
        0x6D => Some(Opcode::LD(Oper::Reg8(R8::L), Oper::Reg8(R8::L))),
        0x6E => Some(Opcode::LD(Oper::Reg8(R8::L), Oper::Mem(R16::HL))),
        0x6F => Some(Opcode::LD(Oper::Reg8(R8::L), Oper::Reg8(R8::A))),
        0x70 => Some(Opcode::LD(Oper::Mem(R16::HL), Oper::Reg8(R8::B))),
        0x71 => Some(Opcode::LD(Oper::Mem(R16::HL), Oper::Reg8(R8::C))),
        0x72 => Some(Opcode::LD(Oper::Mem(R16::HL), Oper::Reg8(R8::D))),
        0x73 => Some(Opcode::LD(Oper::Mem(R16::HL), Oper::Reg8(R8::E))),
        0x74 => Some(Opcode::LD(Oper::Mem(R16::HL), Oper::Reg8(R8::H))),
        0x75 => Some(Opcode::LD(Oper::Mem(R16::HL), Oper::Reg8(R8::L))),
        0x76 => Some(Opcode::HALT),
        0x77 => Some(Opcode::LD(Oper::Mem(R16::HL), Oper::Reg8(R8::A))),
        0x78 => Some(Opcode::LD(Oper::Reg8(R8::A), Oper::Reg8(R8::B))),
        0x79 => Some(Opcode::LD(Oper::Reg8(R8::A), Oper::Reg8(R8::C))),
        0x7A => Some(Opcode::LD(Oper::Reg8(R8::A), Oper::Reg8(R8::D))),
        0x7B => Some(Opcode::LD(Oper::Reg8(R8::A), Oper::Reg8(R8::E))),
        0x7C => Some(Opcode::LD(Oper::Reg8(R8::A), Oper::Reg8(R8::H))),
        0x7D => Some(Opcode::LD(Oper::Reg8(R8::A), Oper::Reg8(R8::L))),
        0x7E => Some(Opcode::LD(Oper::Reg8(R8::A), Oper::Mem(R16::HL))),
        0x7F => Some(Opcode::LD(Oper::Reg8(R8::A), Oper::Reg8(R8::A))),
        0x80 => Some(Opcode::ADD(Oper::Reg8(R8::A), Oper::Reg8(R8::B))),
        0x81 => Some(Opcode::ADD(Oper::Reg8(R8::A), Oper::Reg8(R8::C))),
        0x82 => Some(Opcode::ADD(Oper::Reg8(R8::A), Oper::Reg8(R8::D))),
        0x83 => Some(Opcode::ADD(Oper::Reg8(R8::A), Oper::Reg8(R8::E))),
        0x84 => Some(Opcode::ADD(Oper::Reg8(R8::A), Oper::Reg8(R8::H))),
        0x85 => Some(Opcode::ADD(Oper::Reg8(R8::A), Oper::Reg8(R8::L))),
        0x86 => Some(Opcode::ADD(Oper::Reg8(R8::A), Oper::Mem(R16::HL))),
        0x87 => Some(Opcode::ADD(Oper::Reg8(R8::A), Oper::Reg8(R8::A))),
        0x88 => Some(Opcode::ADC(Oper::Reg8(R8::A), Oper::Reg8(R8::B))),
        0x89 => Some(Opcode::ADC(Oper::Reg8(R8::A), Oper::Reg8(R8::C))),
        0x8A => Some(Opcode::ADC(Oper::Reg8(R8::A), Oper::Reg8(R8::D))),
        0x8B => Some(Opcode::ADC(Oper::Reg8(R8::A), Oper::Reg8(R8::E))),
        0x8C => Some(Opcode::ADC(Oper::Reg8(R8::A), Oper::Reg8(R8::H))),
        0x8D => Some(Opcode::ADC(Oper::Reg8(R8::A), Oper::Reg8(R8::L))),
        0x8E => Some(Opcode::ADC(Oper::Reg8(R8::A), Oper::Mem(R16::HL))),
        0x8F => Some(Opcode::ADC(Oper::Reg8(R8::A), Oper::Reg8(R8::A))),
        0x90 => Some(Opcode::SUB(Oper::Reg8(R8::A), Oper::Reg8(R8::B))),
        0x91 => Some(Opcode::SUB(Oper::Reg8(R8::A), Oper::Reg8(R8::C))),
        0x92 => Some(Opcode::SUB(Oper::Reg8(R8::A), Oper::Reg8(R8::D))),
        0x93 => Some(Opcode::SUB(Oper::Reg8(R8::A), Oper::Reg8(R8::E))),
        0x94 => Some(Opcode::SUB(Oper::Reg8(R8::A), Oper::Reg8(R8::H))),
        0x95 => Some(Opcode::SUB(Oper::Reg8(R8::A), Oper::Reg8(R8::L))),
        0x96 => Some(Opcode::SUB(Oper::Reg8(R8::A), Oper::Mem(R16::HL))),
        0x97 => Some(Opcode::SUB(Oper::Reg8(R8::A), Oper::Reg8(R8::A))),
        0x98 => Some(Opcode::SBC(Oper::Reg8(R8::A), Oper::Reg8(R8::B))),
        0x99 => Some(Opcode::SBC(Oper::Reg8(R8::A), Oper::Reg8(R8::C))),
        0x9A => Some(Opcode::SBC(Oper::Reg8(R8::A), Oper::Reg8(R8::D))),
        0x9B => Some(Opcode::SBC(Oper::Reg8(R8::A), Oper::Reg8(R8::E))),
        0x9C => Some(Opcode::SBC(Oper::Reg8(R8::A), Oper::Reg8(R8::H))),
        0x9D => Some(Opcode::SBC(Oper::Reg8(R8::A), Oper::Reg8(R8::L))),
        0x9E => Some(Opcode::SBC(Oper::Reg8(R8::A), Oper::Mem(R16::HL))),
        0x9F => Some(Opcode::SBC(Oper::Reg8(R8::A), Oper::Reg8(R8::A))),
        0xA0 => Some(Opcode::AND(Oper::Reg8(R8::A), Oper::Reg8(R8::B))),
        0xA1 => Some(Opcode::AND(Oper::Reg8(R8::A), Oper::Reg8(R8::C))),
        0xA2 => Some(Opcode::AND(Oper::Reg8(R8::A), Oper::Reg8(R8::D))),
        0xA3 => Some(Opcode::AND(Oper::Reg8(R8::A), Oper::Reg8(R8::E))),
        0xA4 => Some(Opcode::AND(Oper::Reg8(R8::A), Oper::Reg8(R8::H))),
        0xA5 => Some(Opcode::AND(Oper::Reg8(R8::A), Oper::Reg8(R8::L))),
        0xA6 => Some(Opcode::AND(Oper::Reg8(R8::A), Oper::Mem(R16::HL))),
        0xA7 => Some(Opcode::AND(Oper::Reg8(R8::A), Oper::Reg8(R8::A))),
        0xA8 => Some(Opcode::XOR(Oper::Reg8(R8::A), Oper::Reg8(R8::B))),
        0xA9 => Some(Opcode::XOR(Oper::Reg8(R8::A), Oper::Reg8(R8::C))),
        0xAA => Some(Opcode::XOR(Oper::Reg8(R8::A), Oper::Reg8(R8::D))),
        0xAB => Some(Opcode::XOR(Oper::Reg8(R8::A), Oper::Reg8(R8::E))),
        0xAC => Some(Opcode::XOR(Oper::Reg8(R8::A), Oper::Reg8(R8::H))),
        0xAD => Some(Opcode::XOR(Oper::Reg8(R8::A), Oper::Reg8(R8::L))),
        0xAE => Some(Opcode::XOR(Oper::Reg8(R8::A), Oper::Mem(R16::HL))),
        0xAF => Some(Opcode::XOR(Oper::Reg8(R8::A), Oper::Reg8(R8::A))),
        0xB0 => Some(Opcode::OR(Oper::Reg8(R8::A), Oper::Reg8(R8::B))),
        0xB1 => Some(Opcode::OR(Oper::Reg8(R8::A), Oper::Reg8(R8::C))),
        0xB2 => Some(Opcode::OR(Oper::Reg8(R8::A), Oper::Reg8(R8::D))),
        0xB3 => Some(Opcode::OR(Oper::Reg8(R8::A), Oper::Reg8(R8::E))),
        0xB4 => Some(Opcode::OR(Oper::Reg8(R8::A), Oper::Reg8(R8::H))),
        0xB5 => Some(Opcode::OR(Oper::Reg8(R8::A), Oper::Reg8(R8::L))),
        0xB6 => Some(Opcode::OR(Oper::Reg8(R8::A), Oper::Mem(R16::HL))),
        0xB7 => Some(Opcode::OR(Oper::Reg8(R8::A), Oper::Reg8(R8::A))),
        0xB8 => Some(Opcode::CP(Oper::Reg8(R8::A), Oper::Reg8(R8::B))),
        0xB9 => Some(Opcode::CP(Oper::Reg8(R8::A), Oper::Reg8(R8::C))),
        0xBA => Some(Opcode::CP(Oper::Reg8(R8::A), Oper::Reg8(R8::D))),
        0xBB => Some(Opcode::CP(Oper::Reg8(R8::A), Oper::Reg8(R8::E))),
        0xBC => Some(Opcode::CP(Oper::Reg8(R8::A), Oper::Reg8(R8::H))),
        0xBD => Some(Opcode::CP(Oper::Reg8(R8::A), Oper::Reg8(R8::L))),
        0xBE => Some(Opcode::CP(Oper::Reg8(R8::A), Oper::Mem(R16::HL))),
        0xBF => Some(Opcode::CP(Oper::Reg8(R8::A), Oper::Reg8(R8::A))),
        0xC0 => Some(Opcode::RET(Cond::NZ)),
        0xC1 => Some(Opcode::POP(Oper::Reg16(R16::BC))),
        0xC2 => Some(Opcode::JP(Cond::NZ, Oper::ImmU16)),
        0xC3 => Some(Opcode::JP(Cond::Always, Oper::ImmU16)),
        0xC4 => Some(Opcode::CALL(Cond::NZ, Oper::ImmU16)),
        0xC5 => Some(Opcode::PUSH(Oper::Reg16(R16::BC))),
        0xC6 => Some(Opcode::ADD(Oper::Reg8(R8::A), Oper::ImmU8)),
        0xC7 => Some(Opcode::RST(0x00)),
        0xC8 => Some(Opcode::RET(Cond::Z)),
        0xC9 => Some(Opcode::RET(Cond::Always)),
        0xCA => Some(Opcode::JP(Cond::Z, Oper::ImmU16)),
        0xCB => Some(Opcode::PREFIX),
        0xCC => Some(Opcode::CALL(Cond::Z, Oper::ImmU16)),
        0xCD => Some(Opcode::CALL(Cond::Always, Oper::ImmU16)),
        0xCE => Some(Opcode::ADC(Oper::Reg8(R8::A), Oper::ImmU8)),
        0xCF => Some(Opcode::RST(0x08)),
        0xD0 => Some(Opcode::RET(Cond::NC)),
        0xD1 => Some(Opcode::POP(Oper::Reg16(R16::DE))),
        0xD2 => Some(Opcode::JP(Cond::NC, Oper::ImmU16)),
        0xD4 => Some(Opcode::CALL(Cond::NC, Oper::ImmU16)),
        0xD5 => Some(Opcode::PUSH(Oper::Reg16(R16::DE))),
        0xD6 => Some(Opcode::SUB(Oper::Reg8(R8::A), Oper::ImmU8)),
        0xD7 => Some(Opcode::RST(0x10)),
        0xD8 => Some(Opcode::RET(Cond::C)),
        0xD9 => Some(Opcode::RETI),
        0xDA => Some(Opcode::JP(Cond::C, Oper::ImmU16)),
        0xDC => Some(Opcode::CALL(Cond::C, Oper::ImmU16)),
        0xDE => Some(Opcode::SBC(Oper::Reg8(R8::A), Oper::ImmU8)),
        0xDF => Some(Opcode::RST(0x18)),
        0xE0 => Some(Opcode::LD(Oper::ZMemImmU8, Oper::Reg8(R8::A))),
        0xE1 => Some(Opcode::POP(Oper::Reg16(R16::HL))),
        0xE2 => Some(Opcode::LD(Oper::ZMem(R8::C), Oper::Reg8(R8::A))),
        0xE5 => Some(Opcode::PUSH(Oper::Reg16(R16::HL))),
        0xE6 => Some(Opcode::AND(Oper::Reg8(R8::A), Oper::ImmU8)),
        0xE7 => Some(Opcode::RST(0x20)),
        0xE8 => Some(Opcode::ADD(Oper::Reg16(R16::SP), Oper::ImmI8)),
        0xE9 => Some(Opcode::JP(Cond::Always, Oper::Reg16(R16::HL))),
        0xEA => Some(Opcode::LD(Oper::MemImmU16, Oper::Reg8(R8::A))),
        0xEE => Some(Opcode::XOR(Oper::Reg8(R8::A), Oper::ImmU8)),
        0xEF => Some(Opcode::RST(0x28)),
        0xF0 => Some(Opcode::LD(Oper::Reg8(R8::A), Oper::ZMemImmU8)),
        0xF1 => Some(Opcode::POP(Oper::Reg16(R16::AF))),
        0xF2 => Some(Opcode::LD(Oper::Reg8(R8::A), Oper::ZMem(R8::C))),
        0xF3 => Some(Opcode::DI),
        0xF5 => Some(Opcode::PUSH(Oper::Reg16(R16::AF))),
        0xF6 => Some(Opcode::OR(Oper::Reg8(R8::A), Oper::ImmU8)),
        0xF7 => Some(Opcode::RST(0x30)),
        0xF8 => Some(Opcode::LD(Oper::Reg16(R16::HL), Oper::SPImmI8)),
        0xF9 => Some(Opcode::LD(Oper::Reg16(R16::SP), Oper::Reg16(R16::HL))),
        0xFA => Some(Opcode::LD(Oper::Reg8(R8::A), Oper::MemImmU16)),
        0xFB => Some(Opcode::EI),
        0xFE => Some(Opcode::CP(Oper::Reg8(R8::A), Oper::ImmU8)),
        0xFF => Some(Opcode::RST(0x38)),
        _ => None,
    }
}

/// Looks a byte up in the table behind the 0xCB prefix.
pub fn decode_prefix(op: u8) -> (r: Opcode)
    ensures
        r == decoded_prefixed(op),
        super::semantics::supported(r),
        super::semantics::group(r) is Bitwise,
{
    match op {
        0x00 => Opcode::RLC(Oper::Reg8(R8::B)),
        0x01 => Opcode::RLC(Oper::Reg8(R8::C)),
        0x02 => Opcode::RLC(Oper::Reg8(R8::D)),
        0x03 => Opcode::RLC(Oper::Reg8(R8::E)),
        0x04 => Opcode::RLC(Oper::Reg8(R8::H)),
        0x05 => Opcode::RLC(Oper::Reg8(R8::L)),
        0x06 => Opcode::RLC(Oper::Mem(R16::HL)),
        0x07 => Opcode::RLC(Oper::Reg8(R8::A)),
        0x08 => Opcode::RRC(Oper::Reg8(R8::B)),
        0x09 => Opcode::RRC(Oper::Reg8(R8::C)),
        0x0A => Opcode::RRC(Oper::Reg8(R8::D)),
        0x0B => Opcode::RRC(Oper::Reg8(R8::E)),
        0x0C => Opcode::RRC(Oper::Reg8(R8::H)),
        0x0D => Opcode::RRC(Oper::Reg8(R8::L)),
        0x0E => Opcode::RRC(Oper::Mem(R16::HL)),
        0x0F => Opcode::RRC(Oper::Reg8(R8::A)),
        0x10 => Opcode::RL(Oper::Reg8(R8::B)),
        0x11 => Opcode::RL(Oper::Reg8(R8::C)),
        0x12 => Opcode::RL(Oper::Reg8(R8::D)),
        0x13 => Opcode::RL(Oper::Reg8(R8::E)),
        0x14 => Opcode::RL(Oper::Reg8(R8::H)),
        0x15 => Opcode::RL(Oper::Reg8(R8::L)),
        0x16 => Opcode::RL(Oper::Mem(R16::HL)),
        0x17 => Opcode::RL(Oper::Reg8(R8::A)),
        0x18 => Opcode::RR(Oper::Reg8(R8::B)),
        0x19 => Opcode::RR(Oper::Reg8(R8::C)),
        0x1A => Opcode::RR(Oper::Reg8(R8::D)),
        0x1B => Opcode::RR(Oper::Reg8(R8::E)),
        0x1C => Opcode::RR(Oper::Reg8(R8::H)),
        0x1D => Opcode::RR(Oper::Reg8(R8::L)),
        0x1E => Opcode::RR(Oper::Mem(R16::HL)),
        0x1F => Opcode::RR(Oper::Reg8(R8::A)),
        0x20 => Opcode::SLA(Oper::Reg8(R8::B)),
        0x21 => Opcode::SLA(Oper::Reg8(R8::C)),
        0x22 => Opcode::SLA(Oper::Reg8(R8::D)),
        0x23 => Opcode::SLA(Oper::Reg8(R8::E)),
        0x24 => Opcode::SLA(Oper::Reg8(R8::H)),
        0x25 => Opcode::SLA(Oper::Reg8(R8::L)),
        0x26 => Opcode::SLA(Oper::Mem(R16::HL)),
        0x27 => Opcode::SLA(Oper::Reg8(R8::A)),
        0x28 => Opcode::SRA(Oper::Reg8(R8::B)),
        0x29 => Opcode::SRA(Oper::Reg8(R8::C)),
        0x2A => Opcode::SRA(Oper::Reg8(R8::D)),
        0x2B => Opcode::SRA(Oper::Reg8(R8::E)),
        0x2C => Opcode::SRA(Oper::Reg8(R8::H)),
        0x2D => Opcode::SRA(Oper::Reg8(R8::L)),
        0x2E => Opcode::SRA(Oper::Mem(R16::HL)),
        0x2F => Opcode::SRA(Oper::Reg8(R8::A)),
        0x30 => Opcode::SWAP(Oper::Reg8(R8::B)),
        0x31 => Opcode::SWAP(Oper::Reg8(R8::C)),
        0x32 => Opcode::SWAP(Oper::Reg8(R8::D)),
        0x33 => Opcode::SWAP(Oper::Reg8(R8::E)),
        0x34 => Opcode::SWAP(Oper::Reg8(R8::H)),
        0x35 => Opcode::SWAP(Oper::Reg8(R8::L)),
        0x36 => Opcode::SWAP(Oper::Mem(R16::HL)),
        0x37 => Opcode::SWAP(Oper::Reg8(R8::A)),
        0x38 => Opcode::SRL(Oper::Reg8(R8::B)),
        0x39 => Opcode::SRL(Oper::Reg8(R8::C)),
        0x3A => Opcode::SRL(Oper::Reg8(R8::D)),
        0x3B => Opcode::SRL(Oper::Reg8(R8::E)),
        0x3C => Opcode::SRL(Oper::Reg8(R8::H)),
        0x3D => Opcode::SRL(Oper::Reg8(R8::L)),
        0x3E => Opcode::SRL(Oper::Mem(R16::HL)),
        0x3F => Opcode::SRL(Oper::Reg8(R8::A)),
        0x40 => Opcode::BIT(0, Oper::Reg8(R8::B)),
        0x41 => Opcode::BIT(0, Oper::Reg8(R8::C)),
        0x42 => Opcode::BIT(0, Oper::Reg8(R8::D)),
        0x43 => Opcode::BIT(0, Oper::Reg8(R8::E)),
        0x44 => Opcode::BIT(0, Oper::Reg8(R8::H)),
        0x45 => Opcode::BIT(0, Oper::Reg8(R8::L)),
        0x46 => Opcode::BIT(0, Oper::Mem(R16::HL)),
        0x47 => Opcode::BIT(0, Oper::Reg8(R8::A)),
        0x48 => Opcode::BIT(1, Oper::Reg8(R8::B)),
        0x49 => Opcode::BIT(1, Oper::Reg8(R8::C)),
        0x4A => Opcode::BIT(1, Oper::Reg8(R8::D)),
        0x4B => Opcode::BIT(1, Oper::Reg8(R8::E)),
        0x4C => Opcode::BIT(1, Oper::Reg8(R8::H)),
        0x4D => Opcode::BIT(1, Oper::Reg8(R8::L)),
        0x4E => Opcode::BIT(1, Oper::Mem(R16::HL)),
        0x4F => Opcode::BIT(1, Oper::Reg8(R8::A)),
        0x50 => Opcode::BIT(2, Oper::Reg8(R8::B)),
        0x51 => Opcode::BIT(2, Oper::Reg8(R8::C)),
        0x52 => Opcode::BIT(2, Oper::Reg8(R8::D)),
        0x53 => Opcode::BIT(2, Oper::Reg8(R8::E)),
        0x54 => Opcode::BIT(2, Oper::Reg8(R8::H)),
        0x55 => Opcode::BIT(2, Oper::Reg8(R8::L)),
        0x56 => Opcode::BIT(2, Oper::Mem(R16::HL)),
        0x57 => Opcode::BIT(2, Oper::Reg8(R8::A)),
        0x58 => Opcode::BIT(3, Oper::Reg8(R8::B)),
        0x59 => Opcode::BIT(3, Oper::Reg8(R8::C)),
        0x5A => Opcode::BIT(3, Oper::Reg8(R8::D)),
        0x5B => Opcode::BIT(3, Oper::Reg8(R8::E)),
        0x5C => Opcode::BIT(3, Oper::Reg8(R8::H)),
        0x5D => Opcode::BIT(3, Oper::Reg8(R8::L)),
        0x5E => Opcode::BIT(3, Oper::Mem(R16::HL)),
        0x5F => Opcode::BIT(3, Oper::Reg8(R8::A)),
        0x60 => Opcode::BIT(4, Oper::Reg8(R8::B)),
        0x61 => Opcode::BIT(4, Oper::Reg8(R8::C)),
        0x62 => Opcode::BIT(4, Oper::Reg8(R8::D)),
        0x63 => Opcode::BIT(4, Oper::Reg8(R8::E)),
        0x64 => Opcode::BIT(4, Oper::Reg8(R8::H)),
        0x65 => Opcode::BIT(4, Oper::Reg8(R8::L)),
        0x66 => Opcode::BIT(4, Oper::Mem(R16::HL)),
        0x67 => Opcode::BIT(4, Oper::Reg8(R8::A)),
        0x68 => Opcode::BIT(5, Oper::Reg8(R8::B)),
        0x69 => Opcode::BIT(5, Oper::Reg8(R8::C)),
        0x6A => Opcode::BIT(5, Oper::Reg8(R8::D)),
        0x6B => Opcode::BIT(5, Oper::Reg8(R8::E)),
        0x6C => Opcode::BIT(5, Oper::Reg8(R8::H)),
        0x6D => Opcode::BIT(5, Oper::Reg8(R8::L)),
        0x6E => Opcode::BIT(5, Oper::Mem(R16::HL)),
        0x6F => Opcode::BIT(5, Oper::Reg8(R8::A)),
        0x70 => Opcode::BIT(6, Oper::Reg8(R8::B)),
        0x71 => Opcode::BIT(6, Oper::Reg8(R8::C)),
        0x72 => Opcode::BIT(6, Oper::Reg8(R8::D)),
        0x73 => Opcode::BIT(6, Oper::Reg8(R8::E)),
        0x74 => Opcode::BIT(6, Oper::Reg8(R8::H)),
        0x75 => Opcode::BIT(6, Oper::Reg8(R8::L)),
        0x76 => Opcode::BIT(6, Oper::Mem(R16::HL)),
        0x77 => Opcode::BIT(6, Oper::Reg8(R8::A)),
        0x78 => Opcode::BIT(7, Oper::Reg8(R8::B)),
        0x79 => Opcode::BIT(7, Oper::Reg8(R8::C)),
        0x7A => Opcode::BIT(7, Oper::Reg8(R8::D)),
        0x7B => Opcode::BIT(7, Oper::Reg8(R8::E)),
        0x7C => Opcode::BIT(7, Oper::Reg8(R8::H)),
        0x7D => Opcode::BIT(7, Oper::Reg8(R8::L)),
        0x7E => Opcode::BIT(7, Oper::Mem(R16::HL)),
        0x7F => Opcode::BIT(7, Oper::Reg8(R8::A)),
        0x80 => Opcode::RES(0, Oper::Reg8(R8::B)),
        0x81 => Opcode::RES(0, Oper::Reg8(R8::C)),
        0x82 => Opcode::RES(0, Oper::Reg8(R8::D)),
        0x83 => Opcode::RES(0, Oper::Reg8(R8::E)),
        0x84 => Opcode::RES(0, Oper::Reg8(R8::H)),
        0x85 => Opcode::RES(0, Oper::Reg8(R8::L)),
        0x86 => Opcode::RES(0, Oper::Mem(R16::HL)),
        0x87 => Opcode::RES(0, Oper::Reg8(R8::A)),
        0x88 => Opcode::RES(1, Oper::Reg8(R8::B)),
        0x89 => Opcode::RES(1, Oper::Reg8(R8::C)),
        0x8A => Opcode::RES(1, Oper::Reg8(R8::D)),
        0x8B => Opcode::RES(1, Oper::Reg8(R8::E)),
        0x8C => Opcode::RES(1, Oper::Reg8(R8::H)),
        0x8D => Opcode::RES(1, Oper::Reg8(R8::L)),
        0x8E => Opcode::RES(1, Oper::Mem(R16::HL)),
        0x8F => Opcode::RES(1, Oper::Reg8(R8::A)),
        0x90 => Opcode::RES(2, Oper::Reg8(R8::B)),
        0x91 => Opcode::RES(2, Oper::Reg8(R8::C)),
        0x92 => Opcode::RES(2, Oper::Reg8(R8::D)),
        0x93 => Opcode::RES(2, Oper::Reg8(R8::E)),
        0x94 => Opcode::RES(2, Oper::Reg8(R8::H)),
        0x95 => Opcode::RES(2, Oper::Reg8(R8::L)),
        0x96 => Opcode::RES(2, Oper::Mem(R16::HL)),
        0x97 => Opcode::RES(2, Oper::Reg8(R8::A)),
        0x98 => Opcode::RES(3, Oper::Reg8(R8::B)),
        0x99 => Opcode::RES(3, Oper::Reg8(R8::C)),
        0x9A => Opcode::RES(3, Oper::Reg8(R8::D)),
        0x9B => Opcode::RES(3, Oper::Reg8(R8::E)),
        0x9C => Opcode::RES(3, Oper::Reg8(R8::H)),
        0x9D => Opcode::RES(3, Oper::Reg8(R8::L)),
        0x9E => Opcode::RES(3, Oper::Mem(R16::HL)),
        0x9F => Opcode::RES(3, Oper::Reg8(R8::A)),
        0xA0 => Opcode::RES(4, Oper::Reg8(R8::B)),
        0xA1 => Opcode::RES(4, Oper::Reg8(R8::C)),
        0xA2 => Opcode::RES(4, Oper::Reg8(R8::D)),
        0xA3 => Opcode::RES(4, Oper::Reg8(R8::E)),
        0xA4 => Opcode::RES(4, Oper::Reg8(R8::H)),
        0xA5 => Opcode::RES(4, Oper::Reg8(R8::L)),
        0xA6 => Opcode::RES(4, Oper::Mem(R16::HL)),
        0xA7 => Opcode::RES(4, Oper::Reg8(R8::A)),
        0xA8 => Opcode::RES(5, Oper::Reg8(R8::B)),
        0xA9 => Opcode::RES(5, Oper::Reg8(R8::C)),
        0xAA => Opcode::RES(5, Oper::Reg8(R8::D)),
        0xAB => Opcode::RES(5, Oper::Reg8(R8::E)),
        0xAC => Opcode::RES(5, Oper::Reg8(R8::H)),
        0xAD => Opcode::RES(5, Oper::Reg8(R8::L)),
        0xAE => Opcode::RES(5, Oper::Mem(R16::HL)),
        0xAF => Opcode::RES(5, Oper::Reg8(R8::A)),
        0xB0 => Opcode::RES(6, Oper::Reg8(R8::B)),
        0xB1 => Opcode::RES(6, Oper::Reg8(R8::C)),
        0xB2 => Opcode::RES(6, Oper::Reg8(R8::D)),
        0xB3 => Opcode::RES(6, Oper::Reg8(R8::E)),
        0xB4 => Opcode::RES(6, Oper::Reg8(R8::H)),
        0xB5 => Opcode::RES(6, Oper::Reg8(R8::L)),
        0xB6 => Opcode::RES(6, Oper::Mem(R16::HL)),
        0xB7 => Opcode::RES(6, Oper::Reg8(R8::A)),
        0xB8 => Opcode::RES(7, Oper::Reg8(R8::B)),
        0xB9 => Opcode::RES(7, Oper::Reg8(R8::C)),
        0xBA => Opcode::RES(7, Oper::Reg8(R8::D)),
        0xBB => Opcode::RES(7, Oper::Reg8(R8::E)),
        0xBC => Opcode::RES(7, Oper::Reg8(R8::H)),
        0xBD => Opcode::RES(7, Oper::Reg8(R8::L)),
        0xBE => Opcode::RES(7, Oper::Mem(R16::HL)),
        0xBF => Opcode::RES(7, Oper::Reg8(R8::A)),
        0xC0 => Opcode::SET(0, Oper::Reg8(R8::B)),
        0xC1 => Opcode::SET(0, Oper::Reg8(R8::C)),
        0xC2 => Opcode::SET(0, Oper::Reg8(R8::D)),
        0xC3 => Opcode::SET(0, Oper::Reg8(R8::E)),
        0xC4 => Opcode::SET(0, Oper::Reg8(R8::H)),
        0xC5 => Opcode::SET(0, Oper::Reg8(R8::L)),
        0xC6 => Opcode::SET(0, Oper::Mem(R16::HL)),
        0xC7 => Opcode::SET(0, Oper::Reg8(R8::A)),
        0xC8 => Opcode::SET(1, Oper::Reg8(R8::B)),
        0xC9 => Opcode::SET(1, Oper::Reg8(R8::C)),
        0xCA => Opcode::SET(1, Oper::Reg8(R8::D)),
        0xCB => Opcode::SET(1, Oper::Reg8(R8::E)),
        0xCC => Opcode::SET(1, Oper::Reg8(R8::H)),
        0xCD => Opcode::SET(1, Oper::Reg8(R8::L)),
        0xCE => Opcode::SET(1, Oper::Mem(R16::HL)),
        0xCF => Opcode::SET(1, Oper::Reg8(R8::A)),
        0xD0 => Opcode::SET(2, Oper::Reg8(R8::B)),
        0xD1 => Opcode::SET(2, Oper::Reg8(R8::C)),
        0xD2 => Opcode::SET(2, Oper::Reg8(R8::D)),
        0xD3 => Opcode::SET(2, Oper::Reg8(R8::E)),
        0xD4 => Opcode::SET(2, Oper::Reg8(R8::H)),
        0xD5 => Opcode::SET(2, Oper::Reg8(R8::L)),
        0xD6 => Opcode::SET(2, Oper::Mem(R16::HL)),
        0xD7 => Opcode::SET(2, Oper::Reg8(R8::A)),
        0xD8 => Opcode::SET(3, Oper::Reg8(R8::B)),
        0xD9 => Opcode::SET(3, Oper::Reg8(R8::C)),
        0xDA => Opcode::SET(3, Oper::Reg8(R8::D)),
        0xDB => Opcode::SET(3, Oper::Reg8(R8::E)),
        0xDC => Opcode::SET(3, Oper::Reg8(R8::H)),
        0xDD => Opcode::SET(3, Oper::Reg8(R8::L)),
        0xDE => Opcode::SET(3, Oper::Mem(R16::HL)),
        0xDF => Opcode::SET(3, Oper::Reg8(R8::A)),
        0xE0 => Opcode::SET(4, Oper::Reg8(R8::B)),
        0xE1 => Opcode::SET(4, Oper::Reg8(R8::C)),
        0xE2 => Opcode::SET(4, Oper::Reg8(R8::D)),
        0xE3 => Opcode::SET(4, Oper::Reg8(R8::E)),
        0xE4 => Opcode::SET(4, Oper::Reg8(R8::H)),
        0xE5 => Opcode::SET(4, Oper::Reg8(R8::L)),
        0xE6 => Opcode::SET(4, Oper::Mem(R16::HL)),
        0xE7 => Opcode::SET(4, Oper::Reg8(R8::A)),
        0xE8 => Opcode::SET(5, Oper::Reg8(R8::B)),
        0xE9 => Opcode::SET(5, Oper::Reg8(R8::C)),
        0xEA => Opcode::SET(5, Oper::Reg8(R8::D)),
        0xEB => Opcode::SET(5, Oper::Reg8(R8::E)),
        0xEC => Opcode::SET(5, Oper::Reg8(R8::H)),
        0xED => Opcode::SET(5, Oper::Reg8(R8::L)),
        0xEE => Opcode::SET(5, Oper::Mem(R16::HL)),
        0xEF => Opcode::SET(5, Oper::Reg8(R8::A)),
        0xF0 => Opcode::SET(6, Oper::Reg8(R8::B)),
        0xF1 => Opcode::SET(6, Oper::Reg8(R8::C)),
        0xF2 => Opcode::SET(6, Oper::Reg8(R8::D)),
        0xF3 => Opcode::SET(6, Oper::Reg8(R8::E)),
        0xF4 => Opcode::SET(6, Oper::Reg8(R8::H)),
        0xF5 => Opcode::SET(6, Oper::Reg8(R8::L)),
        0xF6 => Opcode::SET(6, Oper::Mem(R16::HL)),
        0xF7 => Opcode::SET(6, Oper::Reg8(R8::A)),
        0xF8 => Opcode::SET(7, Oper::Reg8(R8::B)),
        0xF9 => Opcode::SET(7, Oper::Reg8(R8::C)),
        0xFA => Opcode::SET(7, Oper::Reg8(R8::D)),
        0xFB => Opcode::SET(7, Oper::Reg8(R8::E)),
        0xFC => Opcode::SET(7, Oper::Reg8(R8::H)),
        0xFD => Opcode::SET(7, Oper::Reg8(R8::L)),
        0xFE => Opcode::SET(7, Oper::Mem(R16::HL)),
        _ => Opcode::SET(7, Oper::Reg8(R8::A)),
    }
}

/// Of the 256 bytes of the base table all but eleven are instructions.
pub proof fn lemma_undefined(op: u8)
    ensures
        decoded(op) is None <==> op == 0xD3 || op == 0xDB || op == 0xDD || op == 0xE3 || op == 0xE4
            || op == 0xEB || op == 0xEC || op == 0xED || op == 0xF4 || op == 0xFC || op == 0xFD,
{
}

} // verus!
