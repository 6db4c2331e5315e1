//! The register file: seven 8-bit registers, the flag quartet, and the 16-bit
//! views over them.

use vstd::prelude::*;

verus! {

/// Names of the 8-bit registers.
#[derive(Clone, Copy, Debug, PartialEq, Eq, Structural)]
pub enum R8 {
    A,
    B,
    C,
    D,
    E,
    F,
    H,
    L,
}

/// Names of the 16-bit registers and register pairs.
#[derive(Clone, Copy, Debug, PartialEq, Eq, Structural)]
pub enum R16 {
    AF,
    BC,
    DE,
    HL,
    SP,
    PC,
}

/// The four condition flags. As a byte they occupy the high nibble of F, whose
/// low nibble does not exist.
#[derive(Clone, Copy, Debug, PartialEq, Eq, Structural)]
pub struct Flags {
    pub z: bool,
    pub n: bool,
    pub h: bool,
    pub c: bool,
}

impl Flags {
    /// The flags packed as the F register: Z, N, H, C in bits 7 to 4.
    pub open spec fn byte(self) -> u8 {
        (if self.z { 0x80u8 } else { 0u8 })
            | (if self.n { 0x40u8 } else { 0u8 })
            | (if self.h { 0x20u8 } else { 0u8 })
            | (if self.c { 0x10u8 } else { 0u8 })
    }

    /// The flags that a byte written to F selects; its low nibble is dropped.
    pub open spec fn from_byte(v: u8) -> Flags {
        Flags {
            z: v & 0x80 != 0,
            n: v & 0x40 != 0,
            h: v & 0x20 != 0,
            c: v & 0x10 != 0,
        }
    }

    pub fn new() -> (f: Self)
        ensures
            f == (Flags { z: false, n: false, h: false, c: false }),
    {
        Self { z: false, n: false, h: false, c: false }
    }

    /// Loads the flags from a byte written to F.
    pub fn set(&mut self, v: u8)
        ensures
            *final(self) == Flags::from_byte(v),
    {
        self.z = (v & 0x80) != 0;
        self.n = (v & 0x40) != 0;
        self.h = (v & 0x20) != 0;
        self.c = (v & 0x10) != 0;
    }

    /// The F register as read by the program.
    pub fn to_u8(&self) -> (v: u8)
        ensures
            v == self.byte(),
            v & 0x0F == 0,
    {
        let v: u8 = (if self.z { 0x80u8 } else { 0u8 })
            | (if self.n { 0x40u8 } else { 0u8 })
            | (if self.h { 0x20u8 } else { 0u8 })
            | (if self.c { 0x10u8 } else { 0u8 });
        proof {
            lemma_flags_low_nibble(*self);
        }
        v
    }
}

/// The low nibble of F reads as zero whatever the flags are.
pub proof fn lemma_flags_low_nibble(f: Flags)
    ensures
        f.byte() & 0x0F == 0,
        f.byte() % 16 == 0,
{
    let (z, n, h, c) = (f.z, f.n, f.h, f.c);
    assert({
        let v = (if z { 0x80u8 } else { 0u8 }) | (if n { 0x40u8 } else { 0u8 }) | (if h {
            0x20u8
        } else {
            0u8
        }) | (if c { 0x10u8 } else { 0u8 });
        v & 0x0F == 0 && v % 16 == 0
    }) by (bit_vector);
}

/// Packing the flags and unpacking the byte gives the flags back; unpacking a
/// byte and packing the flags keeps its high nibble only.
pub proof fn lemma_flags_round_trip(f: Flags, v: u8)
    ensures
        Flags::from_byte(f.byte()) == f,
        Flags::from_byte(v).byte() == v & 0xF0,
{
    let (z, n, h, c) = (f.z, f.n, f.h, f.c);
    assert({
        let b = (if z { 0x80u8 } else { 0u8 }) | (if n { 0x40u8 } else { 0u8 }) | (if h {
            0x20u8
        } else {
            0u8
        }) | (if c { 0x10u8 } else { 0u8 });
        &&& (b & 0x80 != 0) == z
        &&& (b & 0x40 != 0) == n
        &&& (b & 0x20 != 0) == h
        &&& (b & 0x10 != 0) == c
    }) by (bit_vector);
    assert({
        let b = (if v & 0x80 != 0 { 0x80u8 } else { 0u8 }) | (if v & 0x40 != 0 {
            0x40u8
        } else {
            0u8
        }) | (if v & 0x20 != 0 { 0x20u8 } else { 0u8 }) | (if v & 0x10 != 0 {
            0x10u8
        } else {
            0u8
        });
        b == v & 0xF0
    }) by (bit_vector);
}

/// The register file.
#[derive(Clone, Copy, Debug, PartialEq, Eq, Structural)]
pub struct Registers {
    pub a: u8,
    pub b: u8,
    pub c: u8,
    pub d: u8,
    pub e: u8,
    pub h: u8,
    pub l: u8,
    pub sp: u16,
    pub pc: u16,
    pub flags: Flags,
}

impl Registers {
    /// Value of an 8-bit register; F is the packed flags.
    pub open spec fn r8(self, reg: R8) -> u8 {
        match reg {
            R8::A => self.a,
            R8::B => self.b,
            R8::C => self.c,
            R8::D => self.d,
            R8::E => self.e,
            R8::H => self.h,
            R8::L => self.l,
            R8::F => self.flags.byte(),
        }
    }

    /// The register file after `v` is written to an 8-bit register.
    pub open spec fn with_r8(self, reg: R8, v: u8) -> Registers {
        match reg {
            R8::A => Registers { a: v, ..self },
            R8::B => Registers { b: v, ..self },
            R8::C => Registers { c: v, ..self },
            R8::D => Registers { d: v, ..self },
            R8::E => Registers { e: v, ..self },
            R8::H => Registers { h: v, ..self },
            R8::L => Registers { l: v, ..self },
            R8::F => Registers { flags: Flags::from_byte(v), ..self },
        }
    }

    /// Value of a 16-bit register; a pair reads high byte first.
    pub open spec fn r16(self, reg: R16) -> u16 {
        match reg {
            R16::AF => crate::bits::pair(self.a, self.flags.byte()),
            R16::BC => crate::bits::pair(self.b, self.c),
            R16::DE => crate::bits::pair(self.d, self.e),
            R16::HL => crate::bits::pair(self.h, self.l),
            R16::SP => self.sp,
            R16::PC => self.pc,
        }
    }

    /// The register file after `v` is written to a 16-bit register.
    pub open spec fn with_r16(self, reg: R16, v: u16) -> Registers {
        match reg {
            R16::AF => Registers { a: crate::bits::high(v), flags: Flags::from_byte(crate::bits::low(v)), ..self },
            R16::BC => Registers { b: crate::bits::high(v), c: crate::bits::low(v), ..self },
            R16::DE => Registers { d: crate::bits::high(v), e: crate::bits::low(v), ..self },
            R16::HL => Registers { h: crate::bits::high(v), l: crate::bits::low(v), ..self },
            R16::SP => Registers { sp: v, ..self },
            R16::PC => Registers { pc: v, ..self },
        }
    }

    /// The register file with the flags replaced.
    pub open spec fn with_flags(self, flags: Flags) -> Registers {
        Registers { flags, ..self }
    }

    /// All registers zero, all flags clear.
    pub open spec fn zeroed() -> Registers {
        Registers {
            a: 0,
            b: 0,
            c: 0,
            d: 0,
            e: 0,
            h: 0,
            l: 0,
            sp: 0,
            pc: 0,
            flags: Flags { z: false, n: false, h: false, c: false },
        }
    }

    pub fn new() -> (r: Self)
        ensures
            r == Registers::zeroed(),
    {
        Self { a: 0, b: 0, c: 0, d: 0, e: 0, flags: Flags::new(), h: 0, l: 0, sp: 0, pc: 0 }
    }

    pub fn get_r8(&mut self, reg: R8) -> (v: u8)
        ensures
            v == old(self).r8(reg),
            *final(self) == *old(self),
    {
        match reg {
            R8::A => self.a,
            R8::B => self.b,
            R8::C => self.c,
            R8::D => self.d,
            R8::E => self.e,
            R8::H => self.h,
            R8::L => self.l,
            R8::F => self.flags.to_u8(),
        }
    }

    pub fn set_r8(&mut self, reg: R8, v: u8)
        ensures
            *final(self) == old(self).with_r8(reg, v),
    {
        match reg {
            R8::A => self.a = v,
            R8::B => self.b = v,
            R8::C => self.c = v,
            R8::D => self.d = v,
            R8::E => self.e = v,
            R8::H => self.h = v,
            R8::L => self.l = v,
            R8::F => self.flags.set(v),
        };
    }

    pub fn set_r16(&mut self, reg: R16, v: u16)
        ensures
            *final(self) == old(self).with_r16(reg, v),
    {
        let h: u8 = (v >> 8) as u8;
        let l: u8 = (v & 0xFF) as u8;

        match reg {
            R16::AF => {
                self.a = h;
                self.flags.set(l);
            },
            R16::BC => {
                self.b = h;
                self.c = l;
            },
            R16::DE => {
                self.d = h;
                self.e = l;
            },
            R16::HL => {
                self.h = h;
                self.l = l;
            },
            R16::SP => {
                self.sp = v;
            },
            R16::PC => {
                self.pc = v;
            },
        };
    }

    pub fn get_r16(&mut self, reg: R16) -> (v: u16)
        ensures
            v == old(self).r16(reg),
            *final(self) == *old(self),
    {
        match reg {
            R16::SP => self.sp,
            R16::PC => self.pc,
            R16::AF => (self.a as u16) << 8 | (self.flags.to_u8() as u16),
            R16::BC => (self.b as u16) << 8 | (self.c as u16),
            R16::DE => (self.d as u16) << 8 | (self.e as u16),
            R16::HL => (self.h as u16) << 8 | (self.l as u16),
        }
    }
}

/// Every 16-bit register but AF reads back what was written to it; AF reads
/// back the value with its low nibble cleared. Writing one register leaves
/// the others as they were read before.
pub proof fn lemma_r16_round_trip(r: Registers, reg: R16, v: u16)
    ensures
        reg != R16::AF ==> r.with_r16(reg, v).r16(reg) == v,
        r.with_r16(R16::AF, v).r16(R16::AF) == v & 0xFFF0,
        forall|other: R16| other != reg ==> r.with_r16(reg, v).r16(other) == r.r16(other),
{
    crate::bits::lemma_halves(v);
    lemma_flags_round_trip(r.flags, crate::bits::low(v));
    assert({
        let h = (v >> 8) as u8;
        let l = (v & 0xFF) as u8;
        (h as u16) << 8 | ((l & 0xF0) as u16) == v & 0xFFF0
    }) by (bit_vector);
}

/// Reading AF never shows a set bit in the low nibble of F.
pub proof fn lemma_af_low_nibble(r: Registers)
    ensures
        r.r16(R16::AF) & 0x000F == 0,
        crate::bits::low(r.r16(R16::AF)) == r.flags.byte(),
        r.flags.byte() & 0x0F == 0,
{
    lemma_flags_low_nibble(r.flags);
    crate::bits::lemma_pair(r.a, r.flags.byte());
    let a = r.a;
    let f = r.flags.byte();
    assert(f & 0x0F == 0 ==> ((a as u16) << 8 | (f as u16)) & 0x000F == 0) by (bit_vector);
}

} // verus!
