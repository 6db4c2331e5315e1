use gamebrust::cpu::decoder::{decode, decode_prefix};
use gamebrust::cpu::opcodes::{Cond, Opcode, Oper};
use gamebrust::cpu::registers::{R16, R8};

#[test]
fn base_table_entries() {
    assert_eq!(decode(0x00), Some(Opcode::NOP));
    assert_eq!(decode(0x01), Some(Opcode::LD(Oper::Reg16(R16::BC), Oper::ImmU16)));
    assert_eq!(decode(0x08), Some(Opcode::LD(Oper::MemImmU16, Oper::Reg16(R16::SP))));
    assert_eq!(decode(0x10), Some(Opcode::STOP));
    assert_eq!(decode(0x18), Some(Opcode::JR(Cond::Always, Oper::ImmI8)));
    assert_eq!(decode(0x20), Some(Opcode::JR(Cond::NZ, Oper::ImmI8)));
    assert_eq!(decode(0x22), Some(Opcode::LDI(Oper::Mem(R16::HL), Oper::Reg8(R8::A))));
    assert_eq!(decode(0x3A), Some(Opcode::LDD(Oper::Reg8(R8::A), Oper::Mem(R16::HL))));
    assert_eq!(decode(0x27), Some(Opcode::DAA));
    assert_eq!(decode(0x34), Some(Opcode::INC(Oper::Mem(R16::HL))));
    assert_eq!(decode(0x36), Some(Opcode::LD(Oper::Mem(R16::HL), Oper::ImmU8)));
    assert_eq!(decode(0x39), Some(Opcode::ADD(Oper::Reg16(R16::HL), Oper::Reg16(R16::SP))));
    assert_eq!(decode(0x3E), Some(Opcode::LD(Oper::Reg8(R8::A), Oper::ImmU8)));
    assert_eq!(decode(0x41), Some(Opcode::LD(Oper::Reg8(R8::B), Oper::Reg8(R8::C))));
    assert_eq!(decode(0x76), Some(Opcode::HALT));
    assert_eq!(decode(0x77), Some(Opcode::LD(Oper::Mem(R16::HL), Oper::Reg8(R8::A))));
    assert_eq!(decode(0x86), Some(Opcode::ADD(Oper::Reg8(R8::A), Oper::Mem(R16::HL))));
    assert_eq!(decode(0x9F), Some(Opcode::SBC(Oper::Reg8(R8::A), Oper::Reg8(R8::A))));
    assert_eq!(decode(0xAF), Some(Opcode::XOR(Oper::Reg8(R8::A), Oper::Reg8(R8::A))));
    assert_eq!(decode(0xC3), Some(Opcode::JP(Cond::Always, Oper::ImmU16)));
    assert_eq!(decode(0xC9), Some(Opcode::RET(Cond::Always)));
    assert_eq!(decode(0xCB), Some(Opcode::PREFIX));
    assert_eq!(decode(0xCD), Some(Opcode::CALL(Cond::Always, Oper::ImmU16)));
    assert_eq!(decode(0xD9), Some(Opcode::RETI));
    assert_eq!(decode(0xDC), Some(Opcode::CALL(Cond::C, Oper::ImmU16)));
    assert_eq!(decode(0xE0), Some(Opcode::LD(Oper::ZMemImmU8, Oper::Reg8(R8::A))));
    assert_eq!(decode(0xE2), Some(Opcode::LD(Oper::ZMem(R8::C), Oper::Reg8(R8::A))));
    assert_eq!(decode(0xE8), Some(Opcode::ADD(Oper::Reg16(R16::SP), Oper::ImmI8)));
    assert_eq!(decode(0xE9), Some(Opcode::JP(Cond::Always, Oper::Reg16(R16::HL))));
    assert_eq!(decode(0xEA), Some(Opcode::LD(Oper::MemImmU16, Oper::Reg8(R8::A))));
    assert_eq!(decode(0xF1), Some(Opcode::POP(Oper::Reg16(R16::AF))));
    assert_eq!(decode(0xF3), Some(Opcode::DI));
    assert_eq!(decode(0xF5), Some(Opcode::PUSH(Oper::Reg16(R16::AF))));
    assert_eq!(decode(0xF8), Some(Opcode::LD(Oper::Reg16(R16::HL), Oper::SPImmI8)));
    assert_eq!(decode(0xF9), Some(Opcode::LD(Oper::Reg16(R16::SP), Oper::Reg16(R16::HL))));
    assert_eq!(decode(0xFA), Some(Opcode::LD(Oper::Reg8(R8::A), Oper::MemImmU16)));
    assert_eq!(decode(0xFB), Some(Opcode::EI));
    assert_eq!(decode(0xFE), Some(Opcode::CP(Oper::Reg8(R8::A), Oper::ImmU8)));
    assert_eq!(decode(0xEF), Some(Opcode::RST(0x28)));
    assert_eq!(decode(0xFF), Some(Opcode::RST(0x38)));
}

#[test]
fn eleven_bytes_are_no_instructions() {
    let undefined = [0xD3u8, 0xDB, 0xDD, 0xE3, 0xE4, 0xEB, 0xEC, 0xED, 0xF4, 0xFC, 0xFD];
    let mut none = 0;
    for op in 0..=255u8 {
        match decode(op) {
            None => {
                none += 1;
                assert!(undefined.contains(&op));
            }
            Some(_) => assert!(!undefined.contains(&op)),
        }
    }
    assert_eq!(none, 11);
}

#[test]
fn prefixed_table_entries() {
    assert_eq!(decode_prefix(0x00), Opcode::RLC(Oper::Reg8(R8::B)));
    assert_eq!(decode_prefix(0x0E), Opcode::RRC(Oper::Mem(R16::HL)));
    assert_eq!(decode_prefix(0x11), Opcode::RL(Oper::Reg8(R8::C)));
    assert_eq!(decode_prefix(0x1A), Opcode::RR(Oper::Reg8(R8::D)));
    assert_eq!(decode_prefix(0x23), Opcode::SLA(Oper::Reg8(R8::E)));
    assert_eq!(decode_prefix(0x2C), Opcode::SRA(Oper::Reg8(R8::H)));
    assert_eq!(decode_prefix(0x37), Opcode::SWAP(Oper::Reg8(R8::A)));
    assert_eq!(decode_prefix(0x3D), Opcode::SRL(Oper::Reg8(R8::L)));
    assert_eq!(decode_prefix(0x46), Opcode::BIT(0, Oper::Mem(R16::HL)));
    assert_eq!(decode_prefix(0x7C), Opcode::BIT(7, Oper::Reg8(R8::H)));
    assert_eq!(decode_prefix(0x80), Opcode::RES(0, Oper::Reg8(R8::B)));
    assert_eq!(decode_prefix(0xBE), Opcode::RES(7, Oper::Mem(R16::HL)));
    assert_eq!(decode_prefix(0xC0), Opcode::SET(0, Oper::Reg8(R8::B)));
    assert_eq!(decode_prefix(0xFF), Opcode::SET(7, Oper::Reg8(R8::A)));
}
