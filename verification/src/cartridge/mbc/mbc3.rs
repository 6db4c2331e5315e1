//! The MBC3 controller: a 7-bit ROM bank register and a selector that chooses
//! one of four RAM banks or a register of the real-time clock, which this
//! core does not have.

use vstd::prelude::*;
use crate::cartridge::Header;
use crate::memory::Memory;

verus! {

/// The controller as a mathematical value.
pub struct Mbc3Model {
    pub rom: Seq<u8>,
    pub ram: Seq<u8>,
    /// The ROM bank shown at 0x4000 to 0x7FFF: 1 to 0x7F.
    pub rom_bank: nat,
    /// The selector: 0 to 3 a RAM bank, 0x08 to 0x0C a clock register.
    pub ram_bank: nat,
    pub ram_enabled: bool,
}

impl Mbc3Model {
    pub open spec fn wf(self) -> bool {
        1 <= self.rom_bank <= 0x7F && self.ram_bank <= 0x0F
    }

    /// The controller of a cartridge that has just been inserted.
    pub open spec fn initial(rom: Seq<u8>, ram_size: nat) -> Mbc3Model {
        Mbc3Model {
            rom,
            ram: crate::memory::zeros(ram_size),
            rom_bank: 1,
            ram_bank: 1,
            ram_enabled: false,
        }
    }

    /// Offset in RAM of the byte at `addr`, which lies in 0xA000 to 0xBFFF.
    pub open spec fn ram_offset(self, addr: u16) -> int {
        self.ram_bank * 0x2000 + (addr - 0xA000)
    }

    /// Whether an access at `addr` reaches the RAM: the address lies in the
    /// RAM's window, RAM is enabled and the selector names a RAM bank.
    pub open spec fn reaches_ram(self, addr: u16) -> bool {
        0xA000 <= addr < 0xC000 && self.ram_enabled && self.ram_bank <= 3
    }

    /// The byte read at `addr`. A clock register reads 0xFF, as does anything
    /// past the end of the ROM or the RAM.
    pub open spec fn read(self, addr: u16) -> u8 {
        if addr < 0x4000 {
            crate::memory::byte_at(self.rom, addr as int)
        } else if addr < 0x8000 {
            crate::memory::byte_at(self.rom, self.rom_bank * 0x4000 + (addr - 0x4000))
        } else if self.reaches_ram(addr) {
            crate::memory::byte_at(self.ram, self.ram_offset(addr))
        } else {
            0xFF
        }
    }

    /// The controller after `v` is written at `addr`: RAM enable, the ROM bank
    /// (seven bits, zero taken as one), the selector (four bits), or a byte of
    /// RAM. Writes to the clock, to 0x6000 to 0x7FFF and past the end of the
    /// RAM are dropped.
    pub open spec fn written(self, addr: u16, v: u8) -> Mbc3Model {
        if addr < 0x2000 {
            Mbc3Model { ram_enabled: v & 0x0F == 0x0A, ..self }
        } else if addr < 0x4000 {
            Mbc3Model {
                rom_bank: if v & 0x7F == 0 {
                    1
                } else {
                    (v & 0x7F) as nat
                },
                ..self
            }
        } else if addr < 0x6000 {
            Mbc3Model { ram_bank: (v & 0x0F) as nat, ..self }
        } else if self.reaches_ram(addr) && self.ram_offset(addr) < self.ram.len() {
            Mbc3Model { ram: self.ram.update(self.ram_offset(addr), v), ..self }
        } else {
            self
        }
    }
}

pub struct MBC3 {
    rom: Vec<u8>,
    ram: Vec<u8>,
    rom_bank: usize,
    ram_bank: usize,
    ram_enabled: bool,
}

impl View for MBC3 {
    type V = Mbc3Model;

    closed spec fn view(&self) -> Mbc3Model {
        Mbc3Model {
            rom: self.rom@,
            ram: self.ram@,
            rom_bank: self.rom_bank as nat,
            ram_bank: self.ram_bank as nat,
            ram_enabled: self.ram_enabled,
        }
    }
}

/// What the two bank registers can hold.
proof fn lemma_bank_bits(v: u8)
    ensures
        v & 0x7F <= 0x7F,
        v & 0x0F <= 0x0F,
{
    assert(v & 0x7F <= 0x7F && v & 0x0F <= 0x0F) by (bit_vector);
}

/// A write keeps the ROM bank between 1 and 0x7F, so that the window at 0x4000
/// never shows bank 0.
pub proof fn lemma_never_bank_zero(m: Mbc3Model, addr: u16, v: u8)
    requires
        m.wf(),
    ensures
        m.written(addr, v).wf(),
        m.written(addr, v).rom_bank != 0,
{
    lemma_bank_bits(v);
}

impl MBC3 {
    /// The controller of a cartridge with the image `rom` and RAM of the size
    /// that the header gives.
    pub fn new(header: &Header, rom: Vec<u8>) -> (mbc: Self)
        ensures
            mbc.inv(),
            mbc@ == Mbc3Model::initial(rom@, header@.ram_size),
    {
        Self {
            rom,
            ram: crate::memory::zeroed(header.ram_size()),
            rom_bank: 1,
            ram_bank: 1,
            ram_enabled: false,
        }
    }
}

impl Memory for MBC3 {
    open spec fn inv(&self) -> bool {
        self@.wf()
    }

    open spec fn decodes(&self, addr: u16) -> bool {
        true
    }

    open spec fn peek(m: Mbc3Model, addr: u16) -> u8 {
        m.read(addr)
    }

    open spec fn poke(m: Mbc3Model, addr: u16, v: u8) -> Mbc3Model {
        m.written(addr, v)
    }

    fn read(&self, addr: u16) -> (r: u8) {
        if addr < 0x4000 {
            // ROM bank 0
            if (addr as usize) < self.rom.len() {
                self.rom[addr as usize]
            } else {
                0xFF
            }
        } else if addr < 0x8000 {
            // ROM bank 0x01 to 0x7F
            let i = self.rom_bank * 0x4000 + addr as usize - 0x4000;
            if i < self.rom.len() {
                self.rom[i]
            } else {
                0xFF
            }
        } else if 0xA000 <= addr && addr < 0xC000 && self.ram_enabled && self.ram_bank <= 0x03 {
            // RAM bank 0 to 3, if any
            let i = self.ram_bank * 0x2000 + addr as usize - 0xA000;
            if i < self.ram.len() {
                self.ram[i]
            } else {
                0xFF
            }
        } else {
            0xFF
        }
    }

    fn write(&mut self, addr: u16, v: u8) {
        proof {
            lemma_bank_bits(v);
        }
        if addr < 0x2000 {
            // RAM enable
            self.ram_enabled = v & 0x0F == 0x0A;
        } else if addr < 0x4000 {
            // ROM bank number
            let n = v & 0x7F;
            let n = if n == 0 { 0x01 } else { n };
            self.rom_bank = n as usize;
        } else if addr < 0x6000 {
            // RAM bank number, or clock register
            let n = v & 0x0F;
            self.ram_bank = n as usize;
        } else if 0xA000 <= addr && addr < 0xC000 && self.ram_enabled && self.ram_bank <= 0x03 {
            let i = self.ram_bank * 0x2000 + addr as usize - 0xA000;
            if i < self.ram.len() {
                self.ram[i] = v;
            }
        }
    }
}

} // verus!
