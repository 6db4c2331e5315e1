use gamebrust::cpu::registers::{Flags, R16};
use gamebrust::cpu::CPU;
use gamebrust::memory::{Memory, Ram};

/// A processor at 0x0100 with the stack below 0xD000, and 64 KiB of plain
/// memory that holds `program` at 0x0100.
fn machine(program: &[u8]) -> (CPU, Ram) {
    let mut mem = Ram::new(0x10000);
    for (i, b) in program.iter().enumerate() {
        mem.write(0x0100 + i as u16, *b);
    }
    let mut cpu = CPU::new();
    cpu.reg.pc = 0x0100;
    cpu.reg.sp = 0xD000;
    (cpu, mem)
}

fn flags(z: bool, n: bool, h: bool, c: bool) -> Flags {
    Flags { z, n, h, c }
}

#[test]
fn nop_takes_four_ticks() {
    let (mut cpu, mut mem) = machine(&[0x00]);
    let before = cpu;
    assert_eq!(cpu.step(&mut mem), 4);
    assert_eq!(cpu.reg.pc, 0x0101);
    cpu.reg.pc = before.reg.pc;
    assert_eq!(cpu, before);
}

#[test]
fn armed_processor_holds_the_state_after_boot() {
    let mut cpu = CPU::armed();
    assert_eq!(cpu.reg.get_r16(R16::AF), 0x01B0);
    assert_eq!(cpu.reg.get_r16(R16::BC), 0x0013);
    assert_eq!(cpu.reg.get_r16(R16::DE), 0x00D8);
    assert_eq!(cpu.reg.get_r16(R16::HL), 0x014D);
    assert_eq!(cpu.reg.sp, 0xFFFE);
    assert_eq!(cpu.reg.pc, 0x0100);
    assert!(!cpu.ime && !cpu.ime_next && !cpu.halted);
    let mut zero = CPU::new();
    assert_eq!(zero.reg.get_r16(R16::AF), 0);
    assert_eq!(zero.reg.pc, 0);
}

#[test]
fn loads_of_bytes() {
    // LD A, 0x42
    let (mut cpu, mut mem) = machine(&[0x3E, 0x42]);
    assert_eq!(cpu.step(&mut mem), 8);
    assert_eq!(cpu.reg.a, 0x42);
    assert_eq!(cpu.reg.pc, 0x0102);

    // LD B, A
    let (mut cpu, mut mem) = machine(&[0x47]);
    cpu.reg.a = 0x99;
    assert_eq!(cpu.step(&mut mem), 4);
    assert_eq!(cpu.reg.b, 0x99);

    // LD (HL), 0x77
    let (mut cpu, mut mem) = machine(&[0x36, 0x77]);
    cpu.reg.set_r16(R16::HL, 0xC123);
    assert_eq!(cpu.step(&mut mem), 12);
    assert_eq!(mem.read(0xC123), 0x77);

    // LD A, (0x1234)
    let (mut cpu, mut mem) = machine(&[0xFA, 0x34, 0x12]);
    mem.write(0x1234, 0x5A);
    assert_eq!(cpu.step(&mut mem), 16);
    assert_eq!(cpu.reg.a, 0x5A);
    assert_eq!(cpu.reg.pc, 0x0103);

    // LD (0xC000), A
    let (mut cpu, mut mem) = machine(&[0xEA, 0x00, 0xC0]);
    cpu.reg.a = 0x21;
    assert_eq!(cpu.step(&mut mem), 16);
    assert_eq!(mem.read(0xC000), 0x21);

    // LD (0xFF00+0x80), A and back
    let (mut cpu, mut mem) = machine(&[0xE0, 0x80, 0xF0, 0x81]);
    cpu.reg.a = 0x33;
    mem.write(0xFF81, 0x44);
    assert_eq!(cpu.step(&mut mem), 12);
    assert_eq!(mem.read(0xFF80), 0x33);
    assert_eq!(cpu.step(&mut mem), 12);
    assert_eq!(cpu.reg.a, 0x44);

    // LD (0xFF00+C), A and back
    let (mut cpu, mut mem) = machine(&[0xE2, 0xF2]);
    cpu.reg.a = 0x55;
    cpu.reg.c = 0x90;
    assert_eq!(cpu.step(&mut mem), 8);
    assert_eq!(mem.read(0xFF90), 0x55);
    mem.write(0xFF90, 0x66);
    assert_eq!(cpu.step(&mut mem), 8);
    assert_eq!(cpu.reg.a, 0x66);

    // LD A, (BC) and LD (DE), A
    let (mut cpu, mut mem) = machine(&[0x0A, 0x12]);
    cpu.reg.set_r16(R16::BC, 0xC010);
    cpu.reg.set_r16(R16::DE, 0xC020);
    mem.write(0xC010, 0x71);
    assert_eq!(cpu.step(&mut mem), 8);
    assert_eq!(cpu.reg.a, 0x71);
    assert_eq!(cpu.step(&mut mem), 8);
    assert_eq!(mem.read(0xC020), 0x71);
}

#[test]
fn loads_with_increment_and_decrement() {
    // LDI (HL), A; LDD A, (HL)
    let (mut cpu, mut mem) = machine(&[0x22, 0x3A]);
    cpu.reg.a = 0x12;
    cpu.reg.set_r16(R16::HL, 0xC0FF);
    assert_eq!(cpu.step(&mut mem), 8);
    assert_eq!(mem.read(0xC0FF), 0x12);
    assert_eq!(cpu.reg.get_r16(R16::HL), 0xC100);
    mem.write(0xC100, 0x34);
    assert_eq!(cpu.step(&mut mem), 8);
    assert_eq!(cpu.reg.a, 0x34);
    assert_eq!(cpu.reg.get_r16(R16::HL), 0xC0FF);
}

#[test]
fn loads_of_words_and_the_stack() {
    // LD BC, 0xBEEF
    let (mut cpu, mut mem) = machine(&[0x01, 0xEF, 0xBE]);
    assert_eq!(cpu.step(&mut mem), 12);
    assert_eq!(cpu.reg.get_r16(R16::BC), 0xBEEF);

    // LD (0xC000), SP
    let (mut cpu, mut mem) = machine(&[0x08, 0x00, 0xC0]);
    cpu.reg.sp = 0xFFF8;
    assert_eq!(cpu.step(&mut mem), 20);
    assert_eq!(mem.read(0xC000), 0xF8);
    assert_eq!(mem.read(0xC001), 0xFF);

    // LD SP, HL
    let (mut cpu, mut mem) = machine(&[0xF9]);
    cpu.reg.set_r16(R16::HL, 0xCFFE);
    assert_eq!(cpu.step(&mut mem), 8);
    assert_eq!(cpu.reg.sp, 0xCFFE);

    // LD HL, SP-2
    let (mut cpu, mut mem) = machine(&[0xF8, 0xFE]);
    cpu.reg.sp = 0x0002;
    cpu.reg.flags = flags(true, true, false, false);
    assert_eq!(cpu.step(&mut mem), 12);
    assert_eq!(cpu.reg.get_r16(R16::HL), 0x0000);
    assert_eq!(cpu.reg.sp, 0x0002);
    assert_eq!(cpu.reg.flags, flags(false, false, true, true));

    // ADD SP, 2
    let (mut cpu, mut mem) = machine(&[0xE8, 0x02]);
    cpu.reg.sp = 0xFFF8;
    assert_eq!(cpu.step(&mut mem), 16);
    assert_eq!(cpu.reg.sp, 0xFFFA);

    // PUSH BC; POP AF
    let (mut cpu, mut mem) = machine(&[0xC5, 0xF1]);
    cpu.reg.set_r16(R16::BC, 0x12FF);
    assert_eq!(cpu.step(&mut mem), 16);
    assert_eq!(cpu.reg.sp, 0xCFFE);
    assert_eq!(mem.read(0xCFFE), 0xFF);
    assert_eq!(mem.read(0xCFFF), 0x12);
    assert_eq!(cpu.step(&mut mem), 12);
    assert_eq!(cpu.reg.sp, 0xD000);
    assert_eq!(cpu.reg.a, 0x12);
    assert_eq!(cpu.reg.flags, flags(true, true, true, true));
    assert_eq!(cpu.reg.get_r16(R16::AF), 0x12F0);
}

#[test]
fn arithmetic_on_a() {
    // ADD A, B
    let (mut cpu, mut mem) = machine(&[0x80]);
    cpu.reg.a = 0x3A;
    cpu.reg.b = 0xC6;
    assert_eq!(cpu.step(&mut mem), 4);
    assert_eq!(cpu.reg.a, 0x00);
    assert_eq!(cpu.reg.flags, flags(true, false, true, true));

    // ADC A, 0x0F with the carry set
    let (mut cpu, mut mem) = machine(&[0xCE, 0x0F]);
    cpu.reg.a = 0xE1;
    cpu.reg.flags.c = true;
    assert_eq!(cpu.step(&mut mem), 8);
    assert_eq!(cpu.reg.a, 0xF1);

    // SUB (HL)
    let (mut cpu, mut mem) = machine(&[0x96]);
    cpu.reg.a = 0x3E;
    cpu.reg.set_r16(R16::HL, 0xC000);
    mem.write(0xC000, 0x40);
    assert_eq!(cpu.step(&mut mem), 8);
    assert_eq!(cpu.reg.a, 0xFE);
    assert_eq!(cpu.reg.flags, flags(false, true, false, true));

    // SBC A, 0x2A with the carry set
    let (mut cpu, mut mem) = machine(&[0xDE, 0x2A]);
    cpu.reg.a = 0x3B;
    cpu.reg.flags.c = true;
    assert_eq!(cpu.step(&mut mem), 8);
    assert_eq!(cpu.reg.a, 0x10);

    // AND 0x3F; OR C; XOR A; CP 0x01
    let (mut cpu, mut mem) = machine(&[0xE6, 0x3F, 0xB1, 0xAF, 0xFE, 0x01]);
    cpu.reg.a = 0x5A;
    cpu.reg.c = 0x05;
    assert_eq!(cpu.step(&mut mem), 8);
    assert_eq!(cpu.reg.a, 0x1A);
    assert_eq!(cpu.reg.flags, flags(false, false, true, false));
    assert_eq!(cpu.step(&mut mem), 4);
    assert_eq!(cpu.reg.a, 0x1F);
    assert_eq!(cpu.reg.flags, flags(false, false, false, false));
    assert_eq!(cpu.step(&mut mem), 4);
    assert_eq!(cpu.reg.a, 0x00);
    assert_eq!(cpu.reg.flags, flags(true, false, false, false));
    assert_eq!(cpu.step(&mut mem), 8);
    assert_eq!(cpu.reg.a, 0x00);
    assert_eq!(cpu.reg.flags, flags(false, true, true, true));
}

#[test]
fn increments_and_decrements() {
    // INC B; DEC C; INC (HL); INC BC; DEC DE
    let (mut cpu, mut mem) = machine(&[0x04, 0x0D, 0x34, 0x03, 0x1B]);
    cpu.reg.b = 0xFF;
    cpu.reg.c = 0x01;
    cpu.reg.flags.c = true;
    cpu.reg.set_r16(R16::HL, 0xC000);
    mem.write(0xC000, 0x0F);
    assert_eq!(cpu.step(&mut mem), 4);
    assert_eq!(cpu.reg.b, 0x00);
    assert_eq!(cpu.reg.flags, flags(true, false, true, true));
    assert_eq!(cpu.step(&mut mem), 4);
    assert_eq!(cpu.reg.c, 0x00);
    assert_eq!(cpu.reg.flags, flags(true, true, false, true));
    assert_eq!(cpu.step(&mut mem), 12);
    assert_eq!(mem.read(0xC000), 0x10);
    assert_eq!(cpu.reg.flags, flags(false, false, true, true));
    let before = cpu.reg.flags;
    cpu.reg.set_r16(R16::BC, 0xFFFF);
    assert_eq!(cpu.step(&mut mem), 8);
    assert_eq!(cpu.reg.get_r16(R16::BC), 0x0000);
    cpu.reg.set_r16(R16::DE, 0x0000);
    assert_eq!(cpu.step(&mut mem), 8);
    assert_eq!(cpu.reg.get_r16(R16::DE), 0xFFFF);
    assert_eq!(cpu.reg.flags, before);
}

#[test]
fn add_hl_keeps_z() {
    // ADD HL, DE
    let (mut cpu, mut mem) = machine(&[0x19]);
    cpu.reg.set_r16(R16::HL, 0x8A23);
    cpu.reg.set_r16(R16::DE, 0x0605);
    cpu.reg.flags = flags(true, true, false, true);
    assert_eq!(cpu.step(&mut mem), 8);
    assert_eq!(cpu.reg.get_r16(R16::HL), 0x9028);
    assert_eq!(cpu.reg.flags, flags(true, false, true, false));
}

#[test]
fn rotates_of_a_clear_z() {
    // RLCA; RRA
    let (mut cpu, mut mem) = machine(&[0x07, 0x1F]);
    cpu.reg.a = 0x00;
    cpu.reg.flags = flags(true, true, true, false);
    assert_eq!(cpu.step(&mut mem), 4);
    assert_eq!(cpu.reg.a, 0x00);
    assert_eq!(cpu.reg.flags, flags(false, false, false, false));
    cpu.reg.a = 0x01;
    assert_eq!(cpu.step(&mut mem), 4);
    assert_eq!(cpu.reg.a, 0x00);
    assert_eq!(cpu.reg.flags, flags(false, false, false, true));
}

#[test]
fn prefixed_instructions() {
    // SWAP A; RLC (HL); BIT 0, (HL); RES 7, B; SET 0, (HL)
    let (mut cpu, mut mem) =
        machine(&[0xCB, 0x37, 0xCB, 0x06, 0xCB, 0x46, 0xCB, 0xB8, 0xCB, 0xC6]);
    cpu.reg.a = 0xF1;
    cpu.reg.b = 0xFF;
    cpu.reg.set_r16(R16::HL, 0xC000);
    mem.write(0xC000, 0x85);
    assert_eq!(cpu.step(&mut mem), 8);
    assert_eq!(cpu.reg.a, 0x1F);
    assert_eq!(cpu.reg.pc, 0x0102);
    assert_eq!(cpu.step(&mut mem), 16);
    assert_eq!(mem.read(0xC000), 0x0B);
    assert!(cpu.reg.flags.c);
    assert_eq!(cpu.step(&mut mem), 12);
    assert_eq!(cpu.reg.flags, flags(false, false, true, true));
    assert_eq!(cpu.step(&mut mem), 8);
    assert_eq!(cpu.reg.b, 0x7F);
    mem.write(0xC000, 0x10);
    assert_eq!(cpu.step(&mut mem), 16);
    assert_eq!(mem.read(0xC000), 0x11);
}

#[test]
fn flag_instructions() {
    // SCF; CCF; CPL
    let (mut cpu, mut mem) = machine(&[0x37, 0x3F, 0x2F]);
    cpu.reg.a = 0x35;
    cpu.reg.flags = flags(true, true, true, false);
    assert_eq!(cpu.step(&mut mem), 4);
    assert_eq!(cpu.reg.flags, flags(true, false, false, true));
    assert_eq!(cpu.step(&mut mem), 4);
    assert_eq!(cpu.reg.flags, flags(true, false, false, false));
    assert_eq!(cpu.step(&mut mem), 4);
    assert_eq!(cpu.reg.a, 0xCA);
    assert_eq!(cpu.reg.flags, flags(true, true, true, false));
}

#[test]
fn relative_jumps() {
    // JR -2 jumps to itself.
    let (mut cpu, mut mem) = machine(&[0x18, 0xFE]);
    assert_eq!(cpu.step(&mut mem), 12);
    assert_eq!(cpu.reg.pc, 0x0100);

    // JR NZ, +5 is taken while Z is clear.
    let (mut cpu, mut mem) = machine(&[0x20, 0x05]);
    assert_eq!(cpu.step(&mut mem), 12);
    assert_eq!(cpu.reg.pc, 0x0107);

    // JR NZ, +5 is passed over while Z is set.
    let (mut cpu, mut mem) = machine(&[0x20, 0x05]);
    cpu.reg.flags.z = true;
    assert_eq!(cpu.step(&mut mem), 8);
    assert_eq!(cpu.reg.pc, 0x0102);

    // JR C, -128
    let (mut cpu, mut mem) = machine(&[0x38, 0x80]);
    cpu.reg.flags.c = true;
    assert_eq!(cpu.step(&mut mem), 12);
    assert_eq!(cpu.reg.pc, 0x0082);
}

#[test]
fn absolute_jumps() {
    // JP 0x1234
    let (mut cpu, mut mem) = machine(&[0xC3, 0x34, 0x12]);
    assert_eq!(cpu.step(&mut mem), 16);
    assert_eq!(cpu.reg.pc, 0x1234);

    // JP Z, 0x1234 while Z is clear
    let (mut cpu, mut mem) = machine(&[0xCA, 0x34, 0x12]);
    assert_eq!(cpu.step(&mut mem), 12);
    assert_eq!(cpu.reg.pc, 0x0103);

    // JP NC, 0x1234 while C is clear
    let (mut cpu, mut mem) = machine(&[0xD2, 0x34, 0x12]);
    assert_eq!(cpu.step(&mut mem), 16);
    assert_eq!(cpu.reg.pc, 0x1234);

    // JP HL
    let (mut cpu, mut mem) = machine(&[0xE9]);
    cpu.reg.set_r16(R16::HL, 0x4321);
    assert_eq!(cpu.step(&mut mem), 4);
    assert_eq!(cpu.reg.pc, 0x4321);
}

#[test]
fn calls_and_returns() {
    // CALL 0x2000 pushes the address after its operand.
    let (mut cpu, mut mem) = machine(&[0xCD, 0x00, 0x20]);
    mem.write(0x2000, 0xC9);
    assert_eq!(cpu.step(&mut mem), 24);
    assert_eq!(cpu.reg.pc, 0x2000);
    assert_eq!(cpu.reg.sp, 0xCFFE);
    assert_eq!(mem.read(0xCFFE), 0x03);
    assert_eq!(mem.read(0xCFFF), 0x01);
    // RET
    assert_eq!(cpu.step(&mut mem), 16);
    assert_eq!(cpu.reg.pc, 0x0103);
    assert_eq!(cpu.reg.sp, 0xD000);

    // CALL Z while Z is clear
    let (mut cpu, mut mem) = machine(&[0xCC, 0x00, 0x20]);
    assert_eq!(cpu.step(&mut mem), 12);
    assert_eq!(cpu.reg.pc, 0x0103);
    assert_eq!(cpu.reg.sp, 0xD000);

    // RET NZ taken, RET C not taken
    let (mut cpu, mut mem) = machine(&[0xC0]);
    cpu.reg.sp = 0xCFFE;
    mem.write(0xCFFE, 0x34);
    mem.write(0xCFFF, 0x12);
    assert_eq!(cpu.step(&mut mem), 20);
    assert_eq!(cpu.reg.pc, 0x1234);
    let (mut cpu, mut mem) = machine(&[0xD8]);
    assert_eq!(cpu.step(&mut mem), 8);
    assert_eq!(cpu.reg.pc, 0x0101);

    // RST 0x28
    let (mut cpu, mut mem) = machine(&[0xEF]);
    assert_eq!(cpu.step(&mut mem), 16);
    assert_eq!(cpu.reg.pc, 0x0028);
    assert_eq!(mem.read(0xCFFE), 0x01);
    assert_eq!(mem.read(0xCFFF), 0x01);

    // RETI asks for interrupts to be enabled before the next instruction.
    let (mut cpu, mut mem) = machine(&[0xD9]);
    cpu.reg.sp = 0xCFFE;
    mem.write(0xCFFE, 0x00);
    mem.write(0xCFFF, 0x02);
    assert_eq!(cpu.step(&mut mem), 16);
    assert_eq!(cpu.reg.pc, 0x0200);
    assert!(!cpu.ime && cpu.ime_next);
    assert_eq!(cpu.step(&mut mem), 4);
    assert!(cpu.ime && !cpu.ime_next);
}

#[test]
fn ei_takes_effect_before_the_next_instruction() {
    // EI; NOP; DI
    let (mut cpu, mut mem) = machine(&[0xFB, 0x00, 0xF3]);
    assert_eq!(cpu.step(&mut mem), 4);
    assert!(!cpu.ime && cpu.ime_next);
    assert_eq!(cpu.step(&mut mem), 4);
    assert!(cpu.ime && !cpu.ime_next);
    assert_eq!(cpu.step(&mut mem), 4);
    assert!(!cpu.ime && !cpu.ime_next);
}

#[test]
fn lowest_pending_interrupt_is_served_first() {
    let (mut cpu, mut mem) = machine(&[0x00]);
    cpu.ime = true;
    mem.write(0xFFFF, 0x1F);
    mem.write(0xFF0F, 0x14);
    assert_eq!(cpu.step(&mut mem), 20);
    assert_eq!(cpu.reg.pc, 0x0050);
    assert_eq!(mem.read(0xFF0F), 0x10);
    assert!(!cpu.ime);
    assert_eq!(cpu.reg.sp, 0xCFFE);
    assert_eq!(mem.read(0xCFFE), 0x00);
    assert_eq!(mem.read(0xCFFF), 0x01);

    // The next one is served once interrupts are enabled again.
    cpu.ime = true;
    assert_eq!(cpu.step(&mut mem), 20);
    assert_eq!(cpu.reg.pc, 0x0060);
    assert_eq!(mem.read(0xFF0F), 0x00);
}

#[test]
fn each_interrupt_has_its_vector() {
    for (bit, vector) in [(0u8, 0x40u16), (1, 0x48), (2, 0x50), (3, 0x58), (4, 0x60)] {
        let (mut cpu, mut mem) = machine(&[0x00]);
        cpu.ime = true;
        mem.write(0xFFFF, 0xFF);
        mem.write(0xFF0F, 0xE0 | (1 << bit));
        assert_eq!(cpu.step(&mut mem), 20);
        assert_eq!(cpu.reg.pc, vector);
        assert_eq!(mem.read(0xFF0F), 0x00);
    }
}

#[test]
fn interrupts_that_are_not_enabled_wait() {
    let (mut cpu, mut mem) = machine(&[0x00]);
    cpu.ime = true;
    mem.write(0xFFFF, 0x01);
    mem.write(0xFF0F, 0x04);
    assert_eq!(cpu.step(&mut mem), 4);
    assert_eq!(cpu.reg.pc, 0x0101);
    assert_eq!(mem.read(0xFF0F), 0x04);

    // With the master enable off a pending interrupt is not served either.
    let (mut cpu, mut mem) = machine(&[0x00]);
    mem.write(0xFFFF, 0x04);
    mem.write(0xFF0F, 0x04);
    assert_eq!(cpu.step(&mut mem), 4);
    assert_eq!(cpu.reg.pc, 0x0101);
    assert_eq!(mem.read(0xFF0F), 0x04);
}

#[test]
fn halt_idles_until_an_interrupt_is_pending() {
    // HALT; INC A
    let (mut cpu, mut mem) = machine(&[0x76, 0x3C]);
    assert_eq!(cpu.step(&mut mem), 4);
    assert!(cpu.halted);
    assert_eq!(cpu.step(&mut mem), 4);
    assert_eq!(cpu.step(&mut mem), 4);
    assert!(cpu.halted);
    assert_eq!(cpu.reg.pc, 0x0101);
    assert_eq!(cpu.reg.a, 0);

    // A pending interrupt ends the halt even with the master enable off.
    mem.write(0xFFFF, 0x04);
    mem.write(0xFF0F, 0x04);
    assert_eq!(cpu.step(&mut mem), 4);
    assert!(!cpu.halted);
    assert_eq!(cpu.reg.a, 1);
    assert_eq!(cpu.reg.pc, 0x0102);
    assert_eq!(mem.read(0xFF0F), 0x04);
}

#[test]
fn halt_ends_with_a_dispatch_when_interrupts_are_enabled() {
    let (mut cpu, mut mem) = machine(&[0x76]);
    cpu.ime = true;
    assert_eq!(cpu.step(&mut mem), 4);
    assert!(cpu.halted);
    mem.write(0xFFFF, 0x01);
    mem.write(0xFF0F, 0x01);
    assert_eq!(cpu.step(&mut mem), 20);
    assert!(!cpu.halted);
    assert_eq!(cpu.reg.pc, 0x0040);
    assert_eq!(mem.read(0xCFFE), 0x01);
}

#[test]
fn stop_is_a_nop() {
    let (mut cpu, mut mem) = machine(&[0x10]);
    assert_eq!(cpu.step(&mut mem), 4);
    assert_eq!(cpu.reg.pc, 0x0101);
    assert!(!cpu.halted);
}

#[test]
fn bytes_that_are_no_instruction_are_reported() {
    let (cpu, mem) = machine(&[0xD3]);
    assert_eq!(cpu.undecodable(&mem), Some((0x0100, 0xD3)));
    let (cpu, mem) = machine(&[0x00]);
    assert_eq!(cpu.undecodable(&mem), None);

    // A halted processor and one that is about to serve an interrupt fetch
    // nothing.
    let (mut cpu, mem) = machine(&[0xFD]);
    cpu.halted = true;
    assert_eq!(cpu.undecodable(&mem), None);
    let (mut cpu, mut mem) = machine(&[0xFD]);
    cpu.ime_next = true;
    mem.write(0xFFFF, 0x01);
    mem.write(0xFF0F, 0x01);
    assert_eq!(cpu.undecodable(&mem), None);
}

#[test]
fn words_are_little_endian() {
    let mut mem = Ram::new(0x10000);
    mem.write_word(0xC000, 0xBEEF);
    assert_eq!(mem.read(0xC000), 0xEF);
    assert_eq!(mem.read(0xC001), 0xBE);
    assert_eq!(mem.read_word(0xC000), 0xBEEF);
    // The second byte of a word at the last address is the first of memory.
    mem.write_word(0xFFFF, 0x1234);
    assert_eq!(mem.read(0xFFFF), 0x34);
    assert_eq!(mem.read(0x0000), 0x12);
    assert_eq!(mem.read_word(0xFFFF), 0x1234);
}
