//! The processor: register file, arithmetic unit, decoder and the
//! fetch/execute loop.

use vstd::prelude::*;
use crate::memory::Memory;
use opcodes::{Cond, Opcode, Oper};
use registers::{Flags, Registers, R16, R8};

pub mod alu;
pub mod decoder;
pub mod opcodes;
pub mod registers;
pub mod semantics;

verus! {

/// State of the processor between two instructions.
#[derive(Clone, Copy, Debug, PartialEq, Eq, Structural)]
pub struct CPU {
    pub reg: Registers,
    /// Set by HALT; the processor idles until an enabled interrupt is pending.
    pub halted: bool,
    /// Interrupt master enable.
    pub ime: bool,
    /// An enable requested by EI or RETI, applied before the next instruction.
    pub ime_next: bool,
}

impl CPU {
    /// The state with A and the flags replaced by the outcome of an operation.
    pub open spec fn with_a(self, out: (u8, Flags)) -> CPU {
        CPU { reg: Registers { a: out.0, flags: out.1, ..self.reg }, ..self }
    }

    /// The state with the flags replaced.
    pub open spec fn with_flags(self, flags: Flags) -> CPU {
        CPU { reg: Registers { flags, ..self.reg }, ..self }
    }

    /// The state with the register file replaced.
    pub open spec fn with_reg(self, reg: Registers) -> CPU {
        CPU { reg, ..self }
    }

    /// The state at power-on, before the boot program has run.
    pub open spec fn reset() -> CPU {
        CPU { reg: Registers::zeroed(), halted: false, ime: false, ime_next: false }
    }

    /// The state that the boot program leaves behind.
    pub open spec fn post_boot() -> CPU {
        CPU {
            reg: Registers {
                a: 0x01,
                b: 0x00,
                c: 0x13,
                d: 0x00,
                e: 0xD8,
                h: 0x01,
                l: 0x4D,
                sp: 0xFFFE,
                pc: 0x0100,
                flags: Flags { z: true, n: false, h: true, c: true },
            },
            halted: false,
            ime: false,
            ime_next: false,
        }
    }

    /// A processor at power-on.
    pub fn new() -> (cpu: Self)
        ensures
            cpu == CPU::reset(),
    {
        Self { reg: Registers::new(), halted: false, ime: false, ime_next: false }
    }

    /// A processor that starts at the cartridge's entry point, as if the boot
    /// program had just finished.
    pub fn armed() -> (cpu: Self)
        ensures
            cpu == CPU::post_boot(),
    {
        let mut cpu = CPU::new();
        cpu.reg.set_r16(R16::AF, 0x01B0);
        cpu.reg.set_r16(R16::BC, 0x0013);
        cpu.reg.set_r16(R16::DE, 0x00D8);
        cpu.reg.set_r16(R16::HL, 0x014D);
        cpu.reg.pc = 0x100;
        cpu.reg.sp = 0xFFFE;
        proof {
            crate::bits::lemma_word_constants();
        }
        cpu
    }
}

/// A bus that the processor can run on: it keeps its invariant and answers at
/// every address.
pub open spec fn usable<M: Memory>(mem: &M) -> bool {
    mem.inv() && forall|a: u16| mem.decodes(a)
}

/// The interrupts that are both requested and enabled.
pub open spec fn pending<M: Memory>(m: M::V) -> u8 {
    (M::peek(m, 0xFFFF) & 0x1F) & (M::peek(m, 0xFF0F) & 0x1F)
}

/// Number of the pending interrupt that is serviced first: the lowest.
pub open spec fn first_pending(p: u8) -> u8 {
    vstd::std_specs::bits::u8_trailing_zeros(p) as u8
}

/// Address of the routine that services interrupt `n`.
pub open spec fn routine(n: u8) -> u16 {
    0x0040 | ((n as u16) << 3)
}

/// The processor and the bus after the first pending interrupt is taken: its
/// request is cleared, interrupts are disabled, PC is pushed and the routine
/// entered.
pub open spec fn dispatched<M: Memory>(cpu: CPU, m: M::V) -> (CPU, M::V) {
    let n = first_pending(pending::<M>(m));
    let m1 = M::poke(m, 0xFF0F, (M::peek(m, 0xFF0F) & 0x1F) & !(1u8 << n));
    let (c, m2) = semantics::pushed::<M>(CPU { halted: false, ime: false, ..cpu }, m1, cpu.reg.pc);
    (c.jump(routine(n)), m2)
}

/// The operation at PC, and the processor after its opcode is fetched: one
/// byte, or two where the first is the prefix.
pub open spec fn fetched<M: Memory>(cpu: CPU, m: M::V) -> (Option<Opcode>, CPU) {
    match decoder::decoded(M::peek(m, cpu.reg.pc)) {
        Some(Opcode::PREFIX) => (
            Some(decoder::decoded_prefixed(M::peek(m, cpu.reg.pc.wrapping_add(1)))),
            cpu.skip(2),
        ),
        other => (other, cpu.skip(1)),
    }
}

/// The outcome of a step: the processor, the bus, and the clock ticks taken.
pub struct Outcome<V> {
    pub cpu: CPU,
    pub mem: V,
    pub ticks: nat,
}

/// The instruction at PC carried out.
pub open spec fn executed<M: Memory>(cpu: CPU, m: M::V) -> Outcome<M::V> {
    let (op, c) = fetched::<M>(cpu, m);
    let (c2, m2) = semantics::effect::<M>(c, m, op->0);
    Outcome { cpu: c2, mem: m2, ticks: 4 * semantics::timing(op->0, semantics::taken(c, op->0)) }
}

impl CPU {
    /// The state once a requested enable of interrupts has taken effect.
    pub open spec fn ime_applied(self) -> CPU {
        if self.ime_next {
            CPU { ime: true, ime_next: false, ..self }
        } else {
            self
        }
    }

    /// Whether the next step services an interrupt.
    pub open spec fn interrupted<M: Memory>(self, m: M::V) -> bool {
        pending::<M>(m) != 0 && self.ime_applied().ime
    }

    /// Whether the next step idles: the processor is halted and nothing wakes
    /// it.
    pub open spec fn idles<M: Memory>(self, m: M::V) -> bool {
        pending::<M>(m) == 0 && self.halted
    }

    /// Whether the next step can be taken: where it fetches an instruction,
    /// the byte at PC is one.
    pub open spec fn can_step<M: Memory>(self, m: M::V) -> bool {
        !self.interrupted::<M>(m) && !self.idles::<M>(m) ==> decoder::decoded(
            M::peek(m, self.reg.pc),
        ) is Some
    }

    /// What a step does. A requested enable of interrupts takes effect first.
    /// Then exactly one of three things happens: a pending interrupt is
    /// serviced, in 20 ticks; or the halted processor idles for 4 ticks; or
    /// the instruction at PC is carried out. A pending interrupt ends a halt
    /// even where interrupts are disabled.
    pub open spec fn stepped<M: Memory>(self, m: M::V) -> Outcome<M::V> {
        let c = self.ime_applied();
        if self.interrupted::<M>(m) {
            let (c2, m2) = dispatched::<M>(c, m);
            Outcome { cpu: c2, mem: m2, ticks: 20 }
        } else if self.idles::<M>(m) {
            Outcome { cpu: c, mem: m, ticks: 4 }
        } else {
            executed::<M>(CPU { halted: false, ..c }, m)
        }
    }

    /// Carries out one step and returns the clock ticks it took.
    pub fn step<M: Memory>(&mut self, mem: &mut M) -> (ticks: u32)
        requires
            usable(old(mem)),
            old(self).can_step::<M>(old(mem)@),
        ensures
            usable(final(mem)),
            *final(self) == old(self).stepped::<M>(old(mem)@).cpu,
            final(mem)@ == old(self).stepped::<M>(old(mem)@).mem,
            ticks == old(self).stepped::<M>(old(mem)@).ticks,
    {
        self.handle_ime();

        let mc = self.handle_interrupts(mem);

        if mc != 0 {
            mc * 4
        } else if self.halted {
            4
        } else {
            self.execute_next(mem) * 4
        }
    }

    /// The address and the byte of the instruction that the next step cannot
    /// decode, if there is one.
    pub fn undecodable<M: Memory>(&self, mem: &M) -> (r: Option<(u16, u8)>)
        requires
            usable(mem),
        ensures
            r is None <==> self.can_step::<M>(mem@),
            r matches Some(at) ==> at.0 == self.reg.pc && at.1 == M::peek(mem@, self.reg.pc),
    {
        let ime = self.ime || self.ime_next;
        let intfs = mem.read(0xFF0F) & 0x1F;
        let inte = mem.read(0xFFFF) & 0x1F;
        let waiting = inte & intfs;
        if (waiting != 0 && ime) || (waiting == 0 && self.halted) {
            return None;
        }
        let op = mem.read(self.reg.pc);
        match decoder::decode(op) {
            Some(_) => None,
            None => Some((self.reg.pc, op)),
        }
    }

    /// Services the first pending interrupt if interrupts are enabled, and
    /// ends a halt if any is pending. Returns the machine cycles taken: 5
    /// where an interrupt was serviced, else 0.
    fn handle_interrupts<M: Memory>(&mut self, mem: &mut M) -> (mc: u32)
        requires
            usable(old(mem)),
        ensures
            usable(final(mem)),
            pending::<M>(old(mem)@) != 0 && old(self).ime ==> mc == 5 && (*final(self), final(mem)@)
                == dispatched::<M>(*old(self), old(mem)@),
            !(pending::<M>(old(mem)@) != 0 && old(self).ime) ==> mc == 0 && final(mem)@ == old(
                mem,
            )@ && *final(self) == (CPU {
                halted: old(self).halted && pending::<M>(old(mem)@) == 0,
                ..*old(self)
            }),
    {
        if !self.ime && !self.halted {
            return 0;
        }
        let intfs = mem.read(0xFF0F) & 0x1F;
        let inte = mem.read(0xFFFF) & 0x1F;

        let filtered_intfs = inte & intfs;

        if filtered_intfs == 0 {
            return 0;
        }
        self.halted = false;

        if !self.ime {
            return 0;
        }
        proof {
            vstd::std_specs::bits::axiom_u8_trailing_zeros(filtered_intfs);
        }
        let int_index = filtered_intfs.trailing_zeros() as u8;

        // Acknowledge the interrupt.
        let new_intfs = intfs & !(1u8 << int_index);
        mem.write(0xFF0F, new_intfs);

        self.ime = false;

        let pc = self.reg.pc;
        self.stack_push(mem, pc);

        self.reg.pc = self.get_int_routine_addr(int_index);

        5
    }

    /// Address of the routine that services interrupt `n`.
    fn get_int_routine_addr(&self, n: u8) -> (addr: u16)
        ensures
            addr == routine(n),
    {
        0x0040 | ((n as u16) << 3)
    }

    /// Applies an enable of interrupts that EI or RETI asked for.
    fn handle_ime(&mut self)
        ensures
            *final(self) == old(self).ime_applied(),
    {
        if self.ime_next {
            self.ime = true;
            self.ime_next = false;
        }
    }

    /// Fetches, decodes and carries out the instruction at PC. Returns its
    /// machine cycles.
    fn execute_next<M: Memory>(&mut self, mem: &mut M) -> (cycles: u32)
        requires
            usable(old(mem)),
            decoder::decoded(M::peek(old(mem)@, old(self).reg.pc)) is Some,
        ensures
            usable(final(mem)),
            *final(self) == executed::<M>(*old(self), old(mem)@).cpu,
            final(mem)@ == executed::<M>(*old(self), old(mem)@).mem,
            4 * cycles == executed::<M>(*old(self), old(mem)@).ticks,
            cycles <= 6,
    {
        let imm = self.imm_u8(mem);

        let opcode = match decoder::decode(imm) {
            Some(Opcode::PREFIX) => decoder::decode_prefix(self.imm_u8(mem)),
            Some(opcode) => opcode,
            None => vstd::pervasive::unreached(),
        };

        match opcode {
            Opcode::ADD(_, _)
            | Opcode::ADC(_, _)
            | Opcode::SUB(_, _)
            | Opcode::SBC(_, _)
            | Opcode::AND(_, _)
            | Opcode::OR(_, _)
            | Opcode::XOR(_, _)
            | Opcode::CP(_, _)
            | Opcode::INC(_)
            | Opcode::DEC(_)
            | Opcode::DAA
            | Opcode::CPL
            | Opcode::CCF
            | Opcode::SCF => self.execute_arithmetic(mem, opcode),
            Opcode::RL(_)
            | Opcode::RR(_)
            | Opcode::RLC(_)
            | Opcode::RRC(_)
            | Opcode::SLA(_)
            | Opcode::SRA(_)
            | Opcode::SRL(_)
            | Opcode::SWAP(_)
            | Opcode::RLA
            | Opcode::RRA
            | Opcode::RLCA
            | Opcode::RRCA
            | Opcode::BIT(_, _)
            | Opcode::RES(_, _)
            | Opcode::SET(_, _) => self.execute_bitwise(mem, opcode),
            Opcode::LD(_, _)
            | Opcode::LDI(_, _)
            | Opcode::LDD(_, _)
            | Opcode::PUSH(_)
            | Opcode::POP(_) => self.execute_transfer(mem, opcode),
            _ => self.execute_control(mem, opcode),
        }
    }

    /// Machine cycles that an operand adds to an instruction that uses it
    /// once: one for each byte it takes after the opcode, and one for the byte
    /// it names in memory.
    fn cost(o: Oper) -> (n: u32)
        ensures
            n == o.imm_len() + o.accesses(),
            n <= 3,
    {
        match o {
            Oper::ImmI8 | Oper::ImmU8 | Oper::SPImmI8 | Oper::Mem(_) | Oper::ZMem(_) => 1,
            Oper::ImmU16 | Oper::ZMemImmU8 => 2,
            Oper::MemImmU16 => 3,
            _ => 0,
        }
    }

    /// Works out the address of a memory operand, fetching what it takes after
    /// the opcode.
    fn locate<M: Memory>(&mut self, mem: &M, o: Oper) -> (a: u16)
        requires
            usable(mem),
            o.accesses() == 1,
        ensures
            a == semantics::address::<M>(*old(self), mem@, o),
            *final(self) == old(self).skip(o.imm_len() as u16),
    {
        match o {
            Oper::Mem(r) => self.reg.get_r16(r),
            Oper::MemImmU16 => self.imm_u16(mem),
            Oper::ZMem(r) => self.reg.get_r8(r) as u16 | 0xFF00,
            Oper::ZMemImmU8 => self.imm_u8(mem) as u16 | 0xFF00,
            _ => vstd::pervasive::unreached(),
        }
    }

    /// Reads the byte that an operand holds, fetching what it takes after the
    /// opcode.
    fn load<M: Memory>(&mut self, mem: &M, o: Oper) -> (v: u8)
        requires
            usable(mem),
            o is Reg8 || o == Oper::ImmU8 || o.accesses() == 1,
        ensures
            v == semantics::value::<M>(*old(self), mem@, o),
            *final(self) == old(self).skip(o.imm_len() as u16),
    {
        match o {
            Oper::Reg8(r) => self.reg.get_r8(r),
            Oper::ImmU8 => self.imm_u8(mem),
            _ => {
                let a = self.locate(mem, o);
                mem.read(a)
            },
        }
    }

    /// Puts a byte into an operand, fetching what it takes after the opcode.
    fn store<M: Memory>(&mut self, mem: &mut M, o: Oper, v: u8)
        requires
            usable(old(mem)),
            o is Reg8 || o.accesses() == 1,
        ensures
            usable(final(mem)),
            (*final(self), final(mem)@) == semantics::stored::<M>(
                old(self).skip(o.imm_len() as u16),
                *old(self),
                old(mem)@,
                o,
                v,
            ),
    {
        match o {
            Oper::Reg8(r) => self.reg.set_r8(r, v),
            _ => {
                let a = self.locate(mem, o);
                mem.write(a, v);
            },
        }
    }

    /// Arithmetic and logic on bytes and words.
    fn execute_arithmetic<M: Memory>(&mut self, mem: &mut M, opcode: Opcode) -> (cycles: u32)
        requires
            usable(old(mem)),
            semantics::supported(opcode),
            semantics::group(opcode) is Arithmetic,
        ensures
            usable(final(mem)),
            (*final(self), final(mem)@) == semantics::arithmetic::<M>(
                *old(self),
                old(mem)@,
                opcode,
            ),
            cycles == semantics::timing(opcode, true),
            cycles <= 6,
    {
        proof {
            reveal(semantics::arithmetic);
            reveal(semantics::timing);
        }
        match opcode {
            // ADD HL, r16
            Opcode::ADD(Oper::Reg16(R16::HL), Oper::Reg16(r)) => {
                let v = self.reg.get_r16(r);
                alu::add_hl(self, v);
                2
            },
            // ADD SP, i8
            Opcode::ADD(Oper::Reg16(_), _) => {
                let v = self.imm_i8(mem);
                alu::add_sp(self, v);
                4
            },
            // ADD A, r8 | (HL) | u8
            Opcode::ADD(_, s) => {
                let v = self.load(mem, s);
                crate::cpu::alu::add(self, v, false);
                1 + Self::cost(s)
            },
            // ADC A, r8 | (HL) | u8
            Opcode::ADC(_, s) => {
                let v = self.load(mem, s);
                crate::cpu::alu::add(self, v, true);
                1 + Self::cost(s)
            },
            // SUB A, r8 | (HL) | u8
            Opcode::SUB(_, s) => {
                let v = self.load(mem, s);
                crate::cpu::alu::sub(self, v, false);
                1 + Self::cost(s)
            },
            // SBC A, r8 | (HL) | u8
            Opcode::SBC(_, s) => {
                let v = self.load(mem, s);
                crate::cpu::alu::sub(self, v, true);
                1 + Self::cost(s)
            },
            // AND A, r8 | (HL) | u8
            Opcode::AND(_, s) => {
                let v = self.load(mem, s);
                alu::and(self, v);
                1 + Self::cost(s)
            },
            // OR A, r8 | (HL) | u8
            Opcode::OR(_, s) => {
                let v = self.load(mem, s);
                alu::or(self, v);
                1 + Self::cost(s)
            },
            // XOR A, r8 | (HL) | u8
            Opcode::XOR(_, s) => {
                let v = self.load(mem, s);
                alu::xor(self, v);
                1 + Self::cost(s)
            },
            // CP A, r8 | (HL) | u8
            Opcode::CP(_, s) => {
                let v = self.load(mem, s);
                alu::cp(self, v);
                1 + Self::cost(s)
            },
            // INC r16
            Opcode::INC(Oper::Reg16(r)) => {
                let v = self.reg.get_r16(r).wrapping_add(1);
                self.reg.set_r16(r, v);
                2
            },
            // DEC r16
            Opcode::DEC(Oper::Reg16(r)) => {
                let v = self.reg.get_r16(r).wrapping_sub(1);
                self.reg.set_r16(r, v);
                2
            },
            // INC r8 | (HL)
            Opcode::INC(t) => {
                let v = self.load(mem, t);
                let v = alu::inc(self, v);
                self.store(mem, t, v);
                1 + 2 * Self::cost(t)
            },
            // DEC r8 | (HL)
            Opcode::DEC(t) => {
                let v = self.load(mem, t);
                let v = alu::dec(self, v);
                self.store(mem, t, v);
                1 + 2 * Self::cost(t)
            },
            Opcode::DAA => {
                alu::daa(self);
                1
            },
            Opcode::CPL => {
                self.reg.a = !self.reg.a;
                self.reg.flags.h = true;
                self.reg.flags.n = true;
                1
            },
            Opcode::CCF => {
                self.reg.flags.c = !self.reg.flags.c;
                self.reg.flags.n = false;
                self.reg.flags.h = false;
                1
            },
            Opcode::SCF => {
                self.reg.flags.c = true;
                self.reg.flags.n = false;
                self.reg.flags.h = false;
                1
            },
            _ => vstd::pervasive::unreached(),
        }
    }

    /// Rotates, shifts, swaps and operations on single bits.
    fn execute_bitwise<M: Memory>(&mut self, mem: &mut M, opcode: Opcode) -> (cycles: u32)
        requires
            usable(old(mem)),
            semantics::supported(opcode),
            semantics::group(opcode) is Bitwise,
        ensures
            usable(final(mem)),
            (*final(self), final(mem)@) == semantics::bitwise::<M>(*old(self), old(mem)@, opcode),
            cycles == semantics::timing(opcode, true),
            cycles <= 6,
    {
        proof {
            reveal(semantics::bitwise);
            reveal(semantics::timing);
        }
        match opcode {
            // BIT u3, r8 | (HL)
            Opcode::BIT(bit, t) => {
                let v = self.load(mem, t);
                alu::bit(self, v, bit);
                2 + Self::cost(t)
            },
            // RES u3, r8 | (HL)
            Opcode::RES(bit, t) => {
                let v = self.load(mem, t);
                let v = alu::res(self, v, bit);
                self.store(mem, t, v);
                2 + 2 * Self::cost(t)
            },
            // SET u3, r8 | (HL)
            Opcode::SET(bit, t) => {
                let v = self.load(mem, t);
                let v = alu::set(self, v, bit);
                self.store(mem, t, v);
                2 + 2 * Self::cost(t)
            },
            // SWAP r8 | (HL)
            Opcode::SWAP(t) => {
                let v = self.load(mem, t);
                let v = alu::swap(self, v);
                self.store(mem, t, v);
                2 + 2 * Self::cost(t)
            },
            // RL r8 | (HL)
            Opcode::RL(t) => {
                let v = self.load(mem, t);
                let v = alu::rl(self, v);
                self.store(mem, t, v);
                2 + 2 * Self::cost(t)
            },
            // RLC r8 | (HL)
            Opcode::RLC(t) => {
                let v = self.load(mem, t);
                let v = alu::rlc(self, v);
                self.store(mem, t, v);
                2 + 2 * Self::cost(t)
            },
            // RR r8 | (HL)
            Opcode::RR(t) => {
                let v = self.load(mem, t);
                let v = alu::rr(self, v);
                self.store(mem, t, v);
                2 + 2 * Self::cost(t)
            },
            // RRC r8 | (HL)
            Opcode::RRC(t) => {
                let v = self.load(mem, t);
                let v = alu::rrc(self, v);
                self.store(mem, t, v);
                2 + 2 * Self::cost(t)
            },
            // SLA r8 | (HL)
            Opcode::SLA(t) => {
                let v = self.load(mem, t);
                let v = alu::sla(self, v);
                self.store(mem, t, v);
                2 + 2 * Self::cost(t)
            },
            // SRA r8 | (HL)
            Opcode::SRA(t) => {
                let v = self.load(mem, t);
                let v = alu::sra(self, v);
                self.store(mem, t, v);
                2 + 2 * Self::cost(t)
            },
            // SRL r8 | (HL)
            Opcode::SRL(t) => {
                let v = self.load(mem, t);
                let v = alu::srl(self, v);
                self.store(mem, t, v);
                2 + 2 * Self::cost(t)
            },
            Opcode::RLA => {
                let v = self.reg.a;
                self.reg.a = alu::rl(self, v);
                self.reg.flags.z = false;
                1
            },
            Opcode::RLCA => {
                let v = self.reg.a;
                self.reg.a = alu::rlc(self, v);
                self.reg.flags.z = false;
                1
            },
            Opcode::RRA => {
                let v = self.reg.a;
                self.reg.a = alu::rr(self, v);
                self.reg.flags.z = false;
                1
            },
            Opcode::RRCA => {
                let v = self.reg.a;
                self.reg.a = alu::rrc(self, v);
                self.reg.flags.z = false;
                1
            },
            _ => vstd::pervasive::unreached(),
        }
    }

    /// Loads of bytes and words, and the stack.
    fn execute_transfer<M: Memory>(&mut self, mem: &mut M, opcode: Opcode) -> (cycles: u32)
        requires
            usable(old(mem)),
            semantics::supported(opcode),
            semantics::group(opcode) is Transfer,
        ensures
            usable(final(mem)),
            (*final(self), final(mem)@) == semantics::transfer::<M>(*old(self), old(mem)@, opcode),
            cycles == semantics::timing(opcode, true),
            cycles <= 6,
    {
        proof {
            reveal(semantics::transfer);
            reveal(semantics::timing);
        }
        match opcode {
            // LD SP, HL
            Opcode::LD(Oper::Reg16(R16::SP), Oper::Reg16(_)) => {
                let v = self.reg.get_r16(R16::HL);
                self.reg.set_r16(R16::SP, v);
                2
            },
            // LD HL, SP+i8
            Opcode::LD(Oper::Reg16(_), Oper::SPImmI8) => {
                let b = self.imm_i8(mem);
                let (r, flags) = alu::sp_plus(self.reg.sp, b);
                self.reg.flags = flags;
                self.reg.set_r16(R16::HL, r);
                3
            },
            // LD r16, u16
            Opcode::LD(Oper::Reg16(dr), _) => {
                let v = self.imm_u16(mem);
                self.reg.set_r16(dr, v);
                3
            },
            // LD (u16), SP
            Opcode::LD(Oper::MemImmU16, Oper::Reg16(_)) => {
                let a = self.imm_u16(mem);
                let sp = self.reg.get_r16(R16::SP);
                mem.write_word(a, sp);
                5
            },
            // LD r8 | (r16) | (u16) | (0xFF00+u8) | (0xFF00+C), r8 | u8 | (r16) | ...
            Opcode::LD(d, s) => {
                let v = self.load(mem, s);
                self.store(mem, d, v);
                1 + Self::cost(d) + Self::cost(s)
            },
            // LDI A, (HL) and LDI (HL), A
            Opcode::LDI(d, s) => {
                let addr = self.reg.get_r16(R16::HL);
                let v = self.load(mem, s);
                self.store(mem, d, v);
                self.reg.set_r16(R16::HL, addr.wrapping_add(1));
                2
            },
            // LDD A, (HL) and LDD (HL), A
            Opcode::LDD(d, s) => {
                let addr = self.reg.get_r16(R16::HL);
                let v = self.load(mem, s);
                self.store(mem, d, v);
                self.reg.set_r16(R16::HL, addr.wrapping_sub(1));
                2
            },
            Opcode::PUSH(Oper::Reg16(r)) => {
                let v = self.reg.get_r16(r);
                self.stack_push(mem, v);
                4
            },
            Opcode::POP(Oper::Reg16(r)) => {
                let v = self.stack_pop(mem);
                self.reg.set_r16(r, v);
                3
            },
            _ => vstd::pervasive::unreached(),
        }
    }

    /// Jumps, calls, returns and restarts, and the instructions that act on
    /// the processor itself.
    fn execute_control<M: Memory>(&mut self, mem: &mut M, opcode: Opcode) -> (cycles: u32)
        requires
            usable(old(mem)),
            semantics::supported(opcode),
            semantics::group(opcode) is Control,
        ensures
            usable(final(mem)),
            (*final(self), final(mem)@) == semantics::control::<M>(*old(self), old(mem)@, opcode),
            cycles == semantics::timing(opcode, semantics::taken(*old(self), opcode)),
            cycles <= 6,
    {
        proof {
            reveal(semantics::control);
            reveal(semantics::timing);
        }
        match opcode {
            // JR (Cond) i8
            Opcode::JR(cond, _) => {
                let o = self.imm_i8(mem);
                let a = self.add_u16_i8(self.reg.pc, o);
                if self.check_cond(cond) {
                    self.reg.pc = a;
                    3
                } else {
                    2
                }
            },
            // JP HL
            Opcode::JP(_, Oper::Reg16(_)) => {
                self.reg.pc = self.reg.get_r16(R16::HL);
                1
            },
            // JP (Cond) u16
            Opcode::JP(cond, _) => {
                let a = self.imm_u16(mem);
                if self.check_cond(cond) {
                    self.reg.pc = a;
                    4
                } else {
                    3
                }
            },
            Opcode::CALL(_, _) | Opcode::RET(_) | Opcode::RETI | Opcode::RST(_) => {
                self.execute_subroutine(mem, opcode)
            },
            Opcode::NOP => 1,
            Opcode::HALT => {
                self.halted = true;
                1
            },
            Opcode::DI => {
                self.ime = false;
                self.ime_next = false;
                1
            },
            Opcode::EI => {
                self.ime_next = true;
                1
            },
            Opcode::STOP => 1,
            _ => vstd::pervasive::unreached(),
        }
    }

    /// Calls, returns and restarts.
    fn execute_subroutine<M: Memory>(&mut self, mem: &mut M, opcode: Opcode) -> (cycles: u32)
        requires
            usable(old(mem)),
            opcode is CALL || opcode is RET || opcode is RETI || opcode is RST,
        ensures
            usable(final(mem)),
            (*final(self), final(mem)@) == semantics::control::<M>(*old(self), old(mem)@, opcode),
            cycles == semantics::timing(opcode, semantics::taken(*old(self), opcode)),
            cycles <= 6,
    {
        proof {
            reveal(semantics::control);
            reveal(semantics::timing);
        }
        match opcode {
            // CALL (Cond) u16
            Opcode::CALL(cond, _) => {
                let addr = self.imm_u16(mem);
                let ret_addr = self.reg.pc;

                if self.check_cond(cond) {
                    self.stack_push(mem, ret_addr);
                    self.reg.pc = addr;
                    6
                } else {
                    3
                }
            },
            // RET
            Opcode::RET(Cond::Always) => {
                let addr = self.stack_pop(mem);
                self.reg.pc = addr;
                4
            },
            // RET Cond
            Opcode::RET(cond) => {
                if self.check_cond(cond) {
                    let addr = self.stack_pop(mem);
                    self.reg.pc = addr;
                    5
                } else {
                    2
                }
            },
            Opcode::RETI => {
                let addr = self.stack_pop(mem);
                self.reg.pc = addr;
                self.ime_next = true;
                4
            },
            // RST u8
            Opcode::RST(vec) => {
                let ret_addr = self.reg.pc;
                self.stack_push(mem, ret_addr);
                self.reg.pc = vec as u16;
                4
            },
            _ => vstd::pervasive::unreached(),
        }
    }

    fn check_cond(&self, cond: Cond) -> (r: bool)
        ensures
            r == semantics::holds(cond, self.reg.flags),
    {
        match cond {
            Cond::Always => true,
            Cond::Z => self.reg.flags.z,
            Cond::NZ => !self.reg.flags.z,
            Cond::C => self.reg.flags.c,
            Cond::NC => !self.reg.flags.c,
        }
    }

    /// Fetches the byte at PC.
    fn imm_u8<M: Memory>(&mut self, mem: &M) -> (v: u8)
        requires
            usable(mem),
        ensures
            v == M::peek(mem@, old(self).reg.pc),
            *final(self) == old(self).skip(1),
    {
        let v = mem.read(self.reg.pc);
        self.reg.pc = self.reg.pc.wrapping_add(1);

        v
    }

    /// Fetches the byte at PC as a signed offset.
    fn imm_i8<M: Memory>(&mut self, mem: &M) -> (v: i8)
        requires
            usable(mem),
        ensures
            v == crate::bits::signed(M::peek(mem@, old(self).reg.pc)),
            alu::offset_byte(v) == M::peek(mem@, old(self).reg.pc),
            *final(self) == old(self).skip(1),
    {
        let v = mem.read(self.reg.pc);
        self.reg.pc = self.reg.pc.wrapping_add(1);
        proof {
            reveal(crate::bits::signed);
        }

        if v < 128 {
            v as i8
        } else {
            (v as i16 - 256) as i8
        }
    }

    /// Fetches the word at PC.
    fn imm_u16<M: Memory>(&mut self, mem: &M) -> (v: u16)
        requires
            usable(mem),
        ensures
            v == semantics::word_at::<M>(mem@, old(self).reg.pc),
            *final(self) == old(self).skip(2),
    {
        let v = mem.read_word(self.reg.pc);
        self.reg.pc = self.reg.pc.wrapping_add(2);

        v
    }

    /// Pushes a word.
    fn stack_push<M: Memory>(&mut self, mem: &mut M, v: u16)
        requires
            usable(old(mem)),
        ensures
            usable(final(mem)),
            (*final(self), final(mem)@) == semantics::pushed::<M>(*old(self), old(mem)@, v),
    {
        self.reg.sp = self.reg.sp.wrapping_sub(2);
        mem.write_word(self.reg.sp, v);
    }

    /// Pops a word.
    fn stack_pop<M: Memory>(&mut self, mem: &M) -> (v: u16)
        requires
            usable(mem),
        ensures
            v == semantics::word_at::<M>(mem@, old(self).reg.sp),
            *final(self) == semantics::popped(*old(self)),
    {
        let v = mem.read_word(self.reg.sp);
        self.reg.sp = self.reg.sp.wrapping_add(2);
        v
    }

    fn add_u16_i8(&self, a: u16, b: i8) -> (r: u16)
        ensures
            r == crate::bits::displaced(a, b as int),
    {
        alu::displace(a, b)
    }
}

/// Of the interrupts that are requested and enabled together, the one with
/// the lowest number is serviced first. The step takes 20 clock ticks, ends a
/// halt, disables interrupts, pushes PC and enters the routine of that
/// interrupt; the byte that it writes to IF has the interrupt's bit clear and
/// the other requests as they were.
pub proof fn lemma_interrupt_priority<M: Memory>(cpu: CPU, m: M::V)
    requires
        cpu.interrupted::<M>(m),
    ensures
        ({
            let p = pending::<M>(m);
            let n = first_pending(p);
            let requests = M::peek(m, 0xFF0F) & 0x1F;
            let cleared = requests & !(1u8 << n);
            let after = cpu.stepped::<M>(m);
            &&& n < 5
            &&& crate::bits::bit_set(p, n)
            &&& forall|j: u8| j < n ==> !crate::bits::bit_set(p, j)
            &&& !crate::bits::bit_set(cleared, n)
            &&& forall|j: u8|
                j < 8 && j != n ==> crate::bits::bit_set(cleared, j) == crate::bits::bit_set(
                    requests,
                    j,
                )
            &&& after.ticks == 20
            &&& after.cpu.reg.pc == 0x0040 + 8 * n
            &&& !after.cpu.ime
            &&& !after.cpu.halted
            &&& after.cpu.reg.sp == cpu.reg.sp.wrapping_sub(2)
            &&& after.mem == crate::memory::poke_word::<M>(
                M::poke(m, 0xFF0F, cleared),
                cpu.reg.sp.wrapping_sub(2),
                cpu.reg.pc,
            )
        }),
{
    let p = pending::<M>(m);
    let n = first_pending(p);
    let ie = M::peek(m, 0xFFFF);
    let requests = M::peek(m, 0xFF0F) & 0x1F;
    vstd::std_specs::bits::axiom_u8_trailing_zeros(p);
    assert(p == (ie & 0x1F) & requests);
    assert(p <= 0x1F) by (bit_vector)
        requires
            p == (ie & 0x1F) & requests,
    ;
    assert(n < 5 && p & (1u8 << n) != 0 && 0x0040u16 | ((n as u16) << 3) == 0x0040 + 8 * n) by (bit_vector)
        requires
            n < 8,
            p <= 0x1F,
            (p >> n) & 1 == 1,
    ;
    assert forall|j: u8| j < n implies !crate::bits::bit_set(p, j) by {
        assert((p >> j) & 1 == 0);
        assert(p & (1u8 << j) == 0) by (bit_vector)
            requires
                j < 8,
                (p >> j) & 1 == 0,
        ;
    }
    assert(requests & !(1u8 << n) & (1u8 << n) == 0) by (bit_vector)
        requires
            n < 8,
    ;
    assert forall|j: u8| j < 8 && j != n implies crate::bits::bit_set(
        requests & !(1u8 << n),
        j,
    ) == crate::bits::bit_set(requests, j) by {
        assert(((requests & !(1u8 << n)) & (1u8 << j) != 0) == (requests & (1u8 << j) != 0))
            by (bit_vector)
            requires
                n < 8,
                j < 8,
                j != n,
        ;
    }
}

} // verus!
