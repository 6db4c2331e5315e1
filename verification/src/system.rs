//! The whole console: the processor and the bus with its devices, stepped
//! together.

use vstd::prelude::*;
use crate::cartridge::Cartridge;
use crate::cpu::CPU;
use crate::io::joypad::Joypad;
use crate::memory::Memory;
use crate::mmu::{MmuModel, MMU};
use crate::Display;

verus! {

/// The console as a mathematical value.
pub struct SystemModel {
    pub cpu: CPU,
    pub mmu: MmuModel,
}

impl SystemModel {
    /// Whether the next step can be taken: where it fetches an instruction,
    /// the byte at PC is one.
    pub open spec fn can_step<D: Display>(self) -> bool {
        self.cpu.can_step::<MMU<D>>(self.mmu)
    }

    /// Clock ticks that the next step takes.
    pub open spec fn ticks<D: Display>(self) -> nat {
        self.cpu.stepped::<MMU<D>>(self.mmu).ticks
    }

    /// The bus after the processor's part of the next step, before the
    /// devices move on.
    pub open spec fn after_cpu<D: Display>(self) -> MmuModel {
        self.cpu.stepped::<MMU<D>>(self.mmu).mem
    }

    /// The console after a step: the processor takes its step, then every
    /// device on the bus moves on by the ticks that the step took. The
    /// interrupts that the devices raise are seen by the next step.
    pub open spec fn stepped<D: Display>(self) -> SystemModel {
        SystemModel {
            cpu: self.cpu.stepped::<MMU<D>>(self.mmu).cpu,
            mmu: self.after_cpu::<D>().stepped(self.ticks::<D>()),
        }
    }
}

pub struct System<D: Display> {
    cpu: CPU,
    mmu: MMU<D>,
}

impl<D: Display> View for System<D> {
    type V = SystemModel;

    closed spec fn view(&self) -> SystemModel {
        SystemModel { cpu: self.cpu, mmu: self.mmu@ }
    }
}

impl<D: Display> System<D> {
    /// What the representation keeps true.
    pub closed spec fn inv(&self) -> bool {
        self.mmu.sound()
    }

    /// The invariant makes the bus well formed.
    pub proof fn lemma_inv(&self)
        requires
            self.inv(),
        ensures
            self@.mmu.wf(),
    {
        self.mmu.lemma_sound();
    }

    /// A console with a cartridge inserted. With `bootroom` the boot program
    /// overlays the start of the cartridge and the processor starts at its
    /// first byte; without, the processor starts at the cartridge's entry
    /// point in the state that the boot program would have left.
    pub fn new(cartridge: Cartridge, display: D, bootroom: bool) -> (system: Self)
        requires
            cartridge.inv(),
        ensures
            system.inv(),
            system@.cpu == if bootroom {
                CPU::reset()
            } else {
                CPU::post_boot()
            },
            system@.mmu == MmuModel::initial(cartridge@, bootroom),
    {
        let cpu = match bootroom {
            true => CPU::new(),
            false => CPU::armed(),
        };

        Self { cpu, mmu: MMU::new(cartridge, display, bootroom) }
    }

    /// Carries out one step of the processor, advances the devices by the
    /// ticks it took, and returns those ticks.
    pub fn step(&mut self) -> (ticks: u32)
        requires
            old(self).inv(),
            old(self)@.can_step::<D>(),
        ensures
            final(self).inv(),
            final(self)@ == old(self)@.stepped::<D>(),
            ticks == old(self)@.ticks::<D>(),
    {
        let ticks = self.cpu.step(&mut self.mmu);
        self.mmu.step(ticks);
        ticks
    }

    /// The address and the byte of the instruction that the next step cannot
    /// decode, if there is one.
    pub fn undecodable(&self) -> (r: Option<(u16, u8)>)
        requires
            self.inv(),
        ensures
            r is None <==> self@.can_step::<D>(),
            r matches Some(at) ==> at.0 == self@.cpu.reg.pc && at.1 == self@.mmu.read(at.0),
    {
        self.cpu.undecodable(&self.mmu)
    }

    /// The joypad, for the host to tell it which keys are held.
    pub fn get_joypad_adapter(&mut self) -> (joypad: &mut Joypad)
        ensures
            joypad@ == old(self)@.mmu.joypad,
            final(self)@ == (SystemModel {
                mmu: MmuModel { joypad: final(joypad)@, ..old(self)@.mmu },
                ..old(self)@
            }),
            final(self).inv() == old(self).inv(),
    {
        self.mmu.get_joypad_adapter()
    }

    /// Hands over the bytes sent over the serial line since the last call.
    pub fn take_serial(&mut self) -> (out: Vec<u8>)
        ensures
            out@ == old(self)@.mmu.serial,
            final(self)@ == (SystemModel {
                mmu: MmuModel { serial: Seq::empty(), ..old(self)@.mmu },
                ..old(self)@
            }),
            final(self).inv() == old(self).inv(),
    {
        self.mmu.take_serial()
    }

    /// The processor's registers and switches.
    pub fn cpu(&self) -> (cpu: CPU)
        ensures
            cpu == self@.cpu,
    {
        self.cpu
    }

    /// Reads a byte from the bus as the processor would.
    pub fn peek(&self, addr: u16) -> (v: u8)
        requires
            self.inv(),
        ensures
            v == self@.mmu.read(addr),
    {
        self.mmu.read(addr)
    }

    /// Writes a byte to the bus as the processor would.
    pub fn poke(&mut self, addr: u16, v: u8)
        requires
            old(self).inv(),
        ensures
            final(self).inv(),
            final(self)@ == (SystemModel { mmu: old(self)@.mmu.written(addr, v), ..old(self)@ }),
    {
        self.mmu.write(addr, v)
    }
}

} // verus!
