//! The boot program: 256 bytes that overlay the start of the cartridge until
//! the program switches them off.
//!
//! The program sets the stack pointer, switches the screen on with the
//! background palette that cartridges expect, loads the registers with the
//! values that a cartridge finds at its entry point, and ends with the write
//! to 0xFF50 that removes the overlay, so that the next instruction is the
//! cartridge's at 0x0100.

use vstd::prelude::*;

verus! {

/// One byte of the boot program.
pub open spec fn overlay(addr: u8) -> u8 {
    if addr == 0x00 {
        0x31  // LD SP, 0xFFFE
    } else if addr == 0x01 {
        0xFE
    } else if addr == 0x02 {
        0xFF
    } else if addr == 0x03 {
        0x3E  // LD A, 0x91
    } else if addr == 0x04 {
        0x91
    } else if addr == 0x05 {
        0xE0  // LD (0xFF40), A
    } else if addr == 0x06 {
        0x40
    } else if addr == 0x07 {
        0x3E  // LD A, 0xFC
    } else if addr == 0x08 {
        0xFC
    } else if addr == 0x09 {
        0xE0  // LD (0xFF47), A
    } else if addr == 0x0A {
        0x47
    } else if addr == 0x0B {
        0x01  // LD BC, 0x0013
    } else if addr == 0x0C {
        0x13
    } else if addr == 0x0D {
        0x00
    } else if addr == 0x0E {
        0x11  // LD DE, 0x00D8
    } else if addr == 0x0F {
        0xD8
    } else if addr == 0x10 {
        0x00
    } else if addr == 0x11 {
        0x21  // LD HL, 0x01B0
    } else if addr == 0x12 {
        0xB0
    } else if addr == 0x13 {
        0x01
    } else if addr == 0x14 {
        0xE5  // PUSH HL
    } else if addr == 0x15 {
        0xF1  // POP AF
    } else if addr == 0x16 {
        0x21  // LD HL, 0x014D
    } else if addr == 0x17 {
        0x4D
    } else if addr == 0x18 {
        0x01
    } else if addr == 0x19 {
        0xC3  // JP 0x00FC
    } else if addr == 0x1A {
        0xFC
    } else if addr == 0x1B {
        0x00
    } else if addr == 0xFC {
        0x3E  // LD A, 0x01
    } else if addr == 0xFD {
        0x01
    } else if addr == 0xFE {
        0xE0  // LD (0xFF50), A
    } else if addr == 0xFF {
        0x50
    } else {
        0x00  // NOP
    }
}

/// Reads one byte of the boot program.
pub fn byte(addr: u8) -> (b: u8)
    ensures
        b == overlay(addr),
{
    match addr {
        0x00 => 0x31,
        0x01 => 0xFE,
        0x02 => 0xFF,
        0x03 => 0x3E,
        0x04 => 0x91,
        0x05 => 0xE0,
        0x06 => 0x40,
        0x07 => 0x3E,
        0x08 => 0xFC,
        0x09 => 0xE0,
        0x0A => 0x47,
        0x0B => 0x01,
        0x0C => 0x13,
        0x0D => 0x00,
        0x0E => 0x11,
        0x0F => 0xD8,
        0x10 => 0x00,
        0x11 => 0x21,
        0x12 => 0xB0,
        0x13 => 0x01,
        0x14 => 0xE5,
        0x15 => 0xF1,
        0x16 => 0x21,
        0x17 => 0x4D,
        0x18 => 0x01,
        0x19 => 0xC3,
        0x1A => 0xFC,
        0x1B => 0x00,
        0xFC => 0x3E,
        0xFD => 0x01,
        0xFE => 0xE0,
        0xFF => 0x50,
        _ => 0x00,
    }
}

} // verus!
