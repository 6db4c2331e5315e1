//! The arithmetic and logic unit: what each operation computes and which
//! flags it leaves.

use vstd::prelude::*;
use super::registers::{Flags, Registers, R16};
use super::CPU;

verus! {

/// A plus `b` plus a carry-in. H is the carry out of bit 3, C out of bit 7.
#[verifier::opaque]
pub open spec fn sum(a: u8, b: u8, carry: bool) -> (u8, Flags) {
    let c: int = if carry { 1 } else { 0 };
    let r = ((a + b + c) % 256) as u8;
    (r, Flags { z: r == 0, n: false, h: a % 16 + b % 16 + c > 15, c: a + b + c > 255 })
}

/// A minus `b` minus a borrow-in. H is the borrow into bit 4, C into bit 8.
#[verifier::opaque]
pub open spec fn difference(a: u8, b: u8, borrow: bool) -> (u8, Flags) {
    let c: int = if borrow { 1 } else { 0 };
    let r = ((a - b - c) % 256) as u8;
    (r, Flags { z: r == 0, n: true, h: a % 16 < b % 16 + c, c: a < b + c })
}

/// Flags after a rotate or shift: Z from the result, C the bit shifted out.
pub open spec fn shifted(r: u8, out: bool) -> (u8, Flags) {
    (r, Flags { z: r == 0, n: false, h: false, c: out })
}

/// Rotate left through the carry.
pub open spec fn rotated_left(a: u8, carry: bool) -> (u8, Flags) {
    shifted((a << 1) | (if carry { 1u8 } else { 0u8 }), a & 0x80 == 0x80)
}

/// Rotate right through the carry.
pub open spec fn rotated_right(a: u8, carry: bool) -> (u8, Flags) {
    shifted((a >> 1) | (if carry { 0x80u8 } else { 0u8 }), a & 0x01 == 0x01)
}

/// Rotate left; bit 7 wraps round to bit 0.
pub open spec fn rotated_left_circular(a: u8) -> (u8, Flags) {
    rotated_left(a, a & 0x80 == 0x80)
}

/// Rotate right; bit 0 wraps round to bit 7.
pub open spec fn rotated_right_circular(a: u8) -> (u8, Flags) {
    rotated_right(a, a & 0x01 == 0x01)
}

/// Shift left; bit 0 becomes zero.
pub open spec fn shifted_left(a: u8) -> (u8, Flags) {
    shifted(a << 1, a & 0x80 == 0x80)
}

/// Shift right; bit 7 keeps its value.
pub open spec fn shifted_right_arithmetic(a: u8) -> (u8, Flags) {
    shifted((a >> 1) | (a & 0x80), a & 0x01 == 0x01)
}

/// Shift right; bit 7 becomes zero.
pub open spec fn shifted_right_logical(a: u8) -> (u8, Flags) {
    shifted(a >> 1, a & 0x01 == 0x01)
}

/// `a` plus one; C is not touched.
#[verifier::opaque]
pub open spec fn incremented(a: u8, flags: Flags) -> (u8, Flags) {
    let r = ((a + 1) % 256) as u8;
    (r, Flags { z: r == 0, n: false, h: a % 16 == 15, c: flags.c })
}

/// `a` minus one; C is not touched.
#[verifier::opaque]
pub open spec fn decremented(a: u8, flags: Flags) -> (u8, Flags) {
    let r = ((a - 1) % 256) as u8;
    (r, Flags { z: r == 0, n: true, h: a % 16 == 0, c: flags.c })
}

/// Flags after a logic operation on A; AND sets H, OR and XOR clear it.
pub open spec fn logic(r: u8, h: bool) -> (u8, Flags) {
    (r, Flags { z: r == 0, n: false, h, c: false })
}

/// A after the decimal adjustment, for the flags that the last operation
/// left. After an addition 0x60 is added when C is set or A is over 0x99, and
/// 0x06 when H is set or the low digit is over 9; after a subtraction 0x60 is
/// taken off when C is set and 0x06 when H is set. C says whether 0x60 was
/// used.
#[verifier::opaque]
pub open spec fn decimal_adjusted(a: u8, flags: Flags) -> (u8, Flags) {
    let high = flags.c || (!flags.n && a > 0x99);
    let low = flags.h || (!flags.n && a % 16 > 9);
    let adjust: int = (if high { 0x60int } else { 0 }) + (if low { 0x06int } else { 0 });
    let r = (if flags.n { (a - adjust) % 256 } else { (a + adjust) % 256 }) as u8;
    (r, Flags { z: r == 0, n: flags.n, h: false, c: high })
}

/// HL plus `b`: the sum, H the carry out of bit 11, C the carry out of bit 15.
/// Z is not touched.
#[verifier::opaque]
pub open spec fn sum16(hl: u16, b: u16, flags: Flags) -> (u16, Flags) {
    (
        ((hl + b) % 65536) as u16,
        Flags { z: flags.z, n: false, h: hl % 4096 + b % 4096 > 4095, c: hl + b > 65535 },
    )
}

/// SP plus the signed offset held in the byte `d`. H and C are the carries out
/// of bit 3 and bit 7 when the byte is added, unsigned, to the low byte of SP.
#[verifier::opaque]
pub open spec fn sum_sp(sp: u16, d: u8) -> (u16, Flags) {
    (
        crate::bits::displaced(sp, crate::bits::signed(d)),
        Flags { z: false, n: false, h: sp % 16 + d % 16 > 15, c: sp % 256 + d > 255 },
    )
}

/// The byte that stands for a signed offset.
pub open spec fn offset_byte(d: i8) -> u8 {
    if d < 0 {
        (d + 256) as u8
    } else {
        d as u8
    }
}

/// DAA: adjusts A to two decimal digits after an addition or subtraction of
/// such numbers.
pub fn daa(cpu: &mut CPU)
    ensures
        *final(cpu) == old(cpu).with_a(decimal_adjusted(old(cpu).reg.a, old(cpu).reg.flags)),
{
    proof {
        reveal(decimal_adjusted);
    }
    let a = cpu.reg.a;
    let flags = cpu.reg.flags;
    proof {
        crate::bits::lemma_low_masks(a, 0);
    }
    let high = flags.c || (!flags.n && a > 0x99);
    let low = flags.h || (!flags.n && a & 0x0F > 0x09);
    let adjust: u8 = (if high { 0x60u8 } else { 0x00u8 }) + (if low { 0x06u8 } else { 0x00u8 });
    let r = if flags.n { a.wrapping_sub(adjust) } else { a.wrapping_add(adjust) };

    cpu.reg.flags.c = high;
    cpu.reg.flags.h = false;
    cpu.reg.flags.z = r == 0;
    cpu.reg.a = r;
}

/// ADD when `carry` is false, ADC when it is true.
pub fn add(cpu: &mut CPU, b: u8, carry: bool)
    ensures
        *final(cpu) == old(cpu).with_a(
            sum(old(cpu).reg.a, b, carry && old(cpu).reg.flags.c),
        ),
{
    proof {
        reveal(sum);
    }
    let c: u8 = if carry && cpu.reg.flags.c { 1 } else { 0 };
    let a = cpu.reg.a;
    proof {
        crate::bits::lemma_low_masks(a, 0);
        crate::bits::lemma_low_masks(b, 0);
    }
    let r = a.wrapping_add(b).wrapping_add(c);
    cpu.reg.flags.z = r == 0;
    cpu.reg.flags.h = (a & 0x0F) + (b & 0x0F) + c > 0x0F;
    cpu.reg.flags.n = false;
    cpu.reg.flags.c = (a as u16) + (b as u16) + (c as u16) > 0xFF;
    cpu.reg.a = r;
}

/// ADD HL: adds a word to HL.
pub fn add_hl(cpu: &mut CPU, b: u16)
    ensures
        final(cpu).reg == old(cpu).reg.with_r16(
            R16::HL,
            sum16(old(cpu).reg.r16(R16::HL), b, old(cpu).reg.flags).0,
        ).with_flags(sum16(old(cpu).reg.r16(R16::HL), b, old(cpu).reg.flags).1),
        *final(cpu) == old(cpu).with_reg(final(cpu).reg),
{
    proof {
        reveal(sum16);
    }
    let a = cpu.reg.get_r16(R16::HL);
    proof {
        crate::bits::lemma_low_masks(0, a);
        crate::bits::lemma_low_masks(0, b);
    }
    let r = a.wrapping_add(b);
    cpu.reg.flags.h = (a & 0x0FFF) + (b & 0x0FFF) > 0x0FFF;
    cpu.reg.flags.n = false;
    cpu.reg.flags.c = a > 0xFFFF - b;
    cpu.reg.set_r16(R16::HL, r);
}

/// ADD SP: adds a signed offset to SP.
pub fn add_sp(cpu: &mut CPU, b: i8)
    ensures
        *final(cpu) == old(cpu).with_reg(
            Registers {
                sp: sum_sp(old(cpu).reg.sp, offset_byte(b)).0,
                flags: sum_sp(old(cpu).reg.sp, offset_byte(b)).1,
                ..old(cpu).reg
            },
        ),
{
    let (r, flags) = sp_plus(cpu.reg.sp, b);
    cpu.reg.flags = flags;
    cpu.reg.sp = r;
}

/// SP plus a signed offset, with the flags that ADD SP and LD HL,SP+d leave.
pub fn sp_plus(sp: u16, b: i8) -> (out: (u16, Flags))
    ensures
        out == sum_sp(sp, offset_byte(b)),
{
    proof {
        reveal(sum_sp);
    }
    let d: u8 = if b < 0 { (b as i16 + 256) as u8 } else { b as u8 };
    proof {
        crate::bits::lemma_low_masks(d, sp);
    }
    let r = displace(sp, b);
    let h = (sp & 0x000F) + ((d & 0x0F) as u16) > 0x000F;
    let c = (sp & 0x00FF) + (d as u16) > 0x00FF;
    (r, Flags { z: false, n: false, h, c })
}

/// The address `b` bytes after `a`, wrapping at either end.
pub fn displace(a: u16, b: i8) -> (r: u16)
    ensures
        r == crate::bits::displaced(a, b as int),
        r == crate::bits::displaced(a, crate::bits::signed(offset_byte(b))),
{
    proof {
        reveal(crate::bits::displaced);
        reveal(crate::bits::signed);
    }
    let s: i32 = a as i32 + b as i32;
    if s < 0 {
        (s + 65536) as u16
    } else if s > 65535 {
        (s - 65536) as u16
    } else {
        s as u16
    }
}

/// SUB when `carry` is false, SBC when it is true.
pub fn sub(cpu: &mut CPU, b: u8, carry: bool)
    ensures
        *final(cpu) == old(cpu).with_a(
            difference(old(cpu).reg.a, b, carry && old(cpu).reg.flags.c),
        ),
{
    proof {
        reveal(difference);
    }
    let c: u8 = if carry && cpu.reg.flags.c { 1 } else { 0 };
    let a = cpu.reg.a;
    proof {
        crate::bits::lemma_low_masks(a, 0);
        crate::bits::lemma_low_masks(b, 0);
    }
    let r = a.wrapping_sub(b).wrapping_sub(c);
    cpu.reg.flags.z = r == 0;
    cpu.reg.flags.h = (a & 0x0F) < (b & 0x0F) + c;
    cpu.reg.flags.n = true;
    cpu.reg.flags.c = (a as u16) < (b as u16) + (c as u16);
    cpu.reg.a = r;
}

/// RL: rotates left through the carry.
pub fn rl(cpu: &mut CPU, a: u8) -> (r: u8)
    ensures
        r == rotated_left(a, old(cpu).reg.flags.c).0,
        *final(cpu) == old(cpu).with_flags(rotated_left(a, old(cpu).reg.flags.c).1),
{
    let c = a & 0x80 == 0x80;
    let r = (a << 1) | (if cpu.reg.flags.c { 1u8 } else { 0u8 });
    rot_flags_update(cpu, r, c);
    r
}

/// RR: rotates right through the carry.
pub fn rr(cpu: &mut CPU, a: u8) -> (r: u8)
    ensures
        r == rotated_right(a, old(cpu).reg.flags.c).0,
        *final(cpu) == old(cpu).with_flags(rotated_right(a, old(cpu).reg.flags.c).1),
{
    let c = a & 0x01 == 0x01;
    let r = (a >> 1) | (if cpu.reg.flags.c { 0x80u8 } else { 0u8 });
    rot_flags_update(cpu, r, c);
    r
}

/// RLC: rotates left.
pub fn rlc(cpu: &mut CPU, a: u8) -> (r: u8)
    ensures
        r == rotated_left_circular(a).0,
        *final(cpu) == old(cpu).with_flags(rotated_left_circular(a).1),
{
    let c = a & 0x80 == 0x80;
    let r = (a << 1) | (if c { 1u8 } else { 0u8 });
    rot_flags_update(cpu, r, c);
    r
}

/// RRC: rotates right.
pub fn rrc(cpu: &mut CPU, a: u8) -> (r: u8)
    ensures
        r == rotated_right_circular(a).0,
        *final(cpu) == old(cpu).with_flags(rotated_right_circular(a).1),
{
    let c = a & 0x01 == 0x01;
    let r = (a >> 1) | (if c { 0x80u8 } else { 0u8 });
    rot_flags_update(cpu, r, c);
    r
}

/// SLA: shifts left.
pub fn sla(cpu: &mut CPU, a: u8) -> (r: u8)
    ensures
        r == shifted_left(a).0,
        *final(cpu) == old(cpu).with_flags(shifted_left(a).1),
{
    let c = a & 0x80 == 0x80;
    let r = a << 1;
    rot_flags_update(cpu, r, c);
    r
}

/// SRA: shifts right and keeps the sign.
pub fn sra(cpu: &mut CPU, a: u8) -> (r: u8)
    ensures
        r == shifted_right_arithmetic(a).0,
        *final(cpu) == old(cpu).with_flags(shifted_right_arithmetic(a).1),
{
    let c = a & 0x01 == 0x01;
    let r = (a >> 1) | (a & 0x80);
    rot_flags_update(cpu, r, c);
    r
}

/// SRL: shifts right.
pub fn srl(cpu: &mut CPU, a: u8) -> (r: u8)
    ensures
        r == shifted_right_logical(a).0,
        *final(cpu) == old(cpu).with_flags(shifted_right_logical(a).1),
{
    let c = a & 0x01 == 0x01;
    let r = a >> 1;
    rot_flags_update(cpu, r, c);
    r
}

/// INC of a byte.
pub fn inc(cpu: &mut CPU, a: u8) -> (r: u8)
    ensures
        r == incremented(a, old(cpu).reg.flags).0,
        *final(cpu) == old(cpu).with_flags(incremented(a, old(cpu).reg.flags).1),
{
    proof {
        reveal(incremented);
    }
    proof {
        crate::bits::lemma_low_masks(a, 0);
    }
    let r = a.wrapping_add(1);
    cpu.reg.flags.z = r == 0;
    cpu.reg.flags.n = false;
    cpu.reg.flags.h = (a & 0x0F) + 1 > 0x0F;

    r
}

/// DEC of a byte.
pub fn dec(cpu: &mut CPU, a: u8) -> (r: u8)
    ensures
        r == decremented(a, old(cpu).reg.flags).0,
        *final(cpu) == old(cpu).with_flags(decremented(a, old(cpu).reg.flags).1),
{
    proof {
        reveal(decremented);
    }
    proof {
        crate::bits::lemma_low_masks(a, 0);
    }
    let r = a.wrapping_sub(1);
    cpu.reg.flags.z = r == 0;
    cpu.reg.flags.h = (a & 0x0F) == 0;
    cpu.reg.flags.n = true;

    r
}

/// AND of A with a byte.
pub fn and(cpu: &mut CPU, b: u8)
    ensures
        *final(cpu) == old(cpu).with_a(logic(old(cpu).reg.a & b, true)),
{
    let a = cpu.reg.a & b;
    cpu.reg.flags.z = a == 0;
    cpu.reg.flags.n = false;
    cpu.reg.flags.h = true;
    cpu.reg.flags.c = false;
    cpu.reg.a = a;
}

/// OR of A with a byte.
pub fn or(cpu: &mut CPU, b: u8)
    ensures
        *final(cpu) == old(cpu).with_a(logic(old(cpu).reg.a | b, false)),
{
    let a = cpu.reg.a | b;
    cpu.reg.flags.z = a == 0;
    cpu.reg.flags.n = false;
    cpu.reg.flags.h = false;
    cpu.reg.flags.c = false;
    cpu.reg.a = a;
}

/// XOR of A with a byte.
pub fn xor(cpu: &mut CPU, b: u8)
    ensures
        *final(cpu) == old(cpu).with_a(logic(old(cpu).reg.a ^ b, false)),
{
    let a = cpu.reg.a ^ b;
    cpu.reg.flags.z = a == 0;
    cpu.reg.flags.n = false;
    cpu.reg.flags.h = false;
    cpu.reg.flags.c = false;
    cpu.reg.a = a;
}

/// Exchanges the two nibbles of `a`.
pub fn swap(cpu: &mut CPU, a: u8) -> (r: u8)
    ensures
        r == (a >> 4) | (a << 4),
        *final(cpu) == old(cpu).with_flags(logic(a, false).1),
{
    cpu.reg.flags.z = a == 0;
    cpu.reg.flags.n = false;
    cpu.reg.flags.h = false;
    cpu.reg.flags.c = false;
    (a >> 4) | (a << 4)
}

/// Clears bit `b` of `a`.
pub fn res(_cpu: &mut CPU, a: u8, b: u8) -> (r: u8)
    requires
        b < 8,
    ensures
        r == a & !(1u8 << b),
        *final(_cpu) == *old(_cpu),
{
    a & !(1u8 << b)
}

/// Sets bit `b` of `a`.
pub fn set(_cpu: &mut CPU, a: u8, b: u8) -> (r: u8)
    requires
        b < 8,
    ensures
        r == a | (1u8 << b),
        *final(_cpu) == *old(_cpu),
{
    a | (1u8 << b)
}

/// Tests bit `b` of `a`: Z is set when the bit is clear. C is not touched.
pub fn bit(cpu: &mut CPU, a: u8, b: u8)
    requires
        b < 8,
    ensures
        *final(cpu) == old(cpu).with_flags(
            Flags { z: !crate::bits::bit_set(a, b), n: false, h: true, c: old(cpu).reg.flags.c },
        ),
{
    let r = a & (1u8 << b) == 0;
    cpu.reg.flags.z = r;
    cpu.reg.flags.n = false;
    cpu.reg.flags.h = true;
}

/// Compares A with `v`: the flags of A minus `v`, A unchanged.
pub fn cp(cpu: &mut CPU, v: u8)
    ensures
        *final(cpu) == old(cpu).with_flags(difference(old(cpu).reg.a, v, false).1),
{
    let a = cpu.reg.a;
    self::sub(cpu, v, false);
    cpu.reg.a = a;
}

/// Sets the flags after a rotate or shift.
fn rot_flags_update(cpu: &mut CPU, r: u8, carry: bool)
    ensures
        *final(cpu) == old(cpu).with_flags(shifted(r, carry).1),
{
    cpu.reg.flags.h = false;
    cpu.reg.flags.n = false;
    cpu.reg.flags.z = r == 0;
    cpu.reg.flags.c = carry;
}

} // verus!
