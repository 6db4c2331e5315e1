use gamebrust::cpu::registers::{Flags, Registers, R16, R8};

#[test]
fn general_check() {
    let mut regs = Registers::new();

    regs.set_r16(R16::AF, 0xBEEF);
    regs.set_r16(R16::BC, 0xBEEF);
    regs.set_r16(R16::DE, 0xBEEF);
    regs.set_r16(R16::HL, 0xBEEF);
    regs.set_r16(R16::SP, 0xBEEF);
    regs.set_r16(R16::PC, 0xBEEF);

    assert_eq!(0xBE, regs.a);
    // The low nibble of F does not exist: what is written to it is dropped.
    assert_eq!(0xE0, regs.flags.to_u8());
    assert_eq!(0xBE, regs.b);
    assert_eq!(0xEF, regs.c);
    assert_eq!(0xBE, regs.d);
    assert_eq!(0xEF, regs.e);
    assert_eq!(0xBE, regs.h);
    assert_eq!(0xEF, regs.l);
    assert_eq!(0xBEEF, regs.sp);
    assert_eq!(0xBEEF, regs.pc);

    assert_eq!(0xBEE0, regs.get_r16(R16::AF));
    assert_eq!(0xBEEF, regs.get_r16(R16::BC));
    assert_eq!(0xBEEF, regs.get_r16(R16::DE));
    assert_eq!(0xBEEF, regs.get_r16(R16::HL));
    assert_eq!(0xBEEF, regs.get_r16(R16::SP));
    assert_eq!(0xBEEF, regs.get_r16(R16::PC));
}

#[test]
fn flags_pack_into_the_high_nibble() {
    let f = Flags { z: true, n: false, h: true, c: true };
    assert_eq!(f.to_u8(), 0xB0);
    let mut g = Flags::new();
    g.set(0xFF);
    assert_eq!(g, Flags { z: true, n: true, h: true, c: true });
    assert_eq!(g.to_u8(), 0xF0);
}

#[test]
fn eight_bit_registers_read_back() {
    let mut regs = Registers::new();
    let names = [R8::A, R8::B, R8::C, R8::D, R8::E, R8::H, R8::L];
    for (i, r) in names.iter().enumerate() {
        regs.set_r8(*r, 0x10 + i as u8);
    }
    for (i, r) in names.iter().enumerate() {
        assert_eq!(regs.get_r8(*r), 0x10 + i as u8);
    }
    regs.set_r8(R8::F, 0x5A);
    assert_eq!(regs.get_r8(R8::F), 0x50);
    assert_eq!(regs.get_r16(R16::HL), 0x1516);
}
