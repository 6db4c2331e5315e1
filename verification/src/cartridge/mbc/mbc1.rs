//! The MBC1 controller: up to 2 MiB of ROM in banks of 16 KiB and up to
//! 32 KiB of RAM in banks of 8 KiB, behind one 7-bit bank register.

use vstd::prelude::*;
use crate::cartridge::Header;
use crate::memory::Memory;

verus! {

/// What the two high bits of the bank register select.
#[derive(Clone, Copy, Debug, PartialEq, Eq, Structural)]
pub enum BankMode {
    /// ROM priority: all seven bits select the ROM bank; RAM is bank 0.
    Rom2MbRam8Kb,
    /// RAM priority: the low five bits select the ROM bank, the high two the
    /// RAM bank.
    Rom512KbRam32Kb,
}

/// The controller as a mathematical value.
pub struct Mbc1Model {
    pub rom: Seq<u8>,
    pub ram: Seq<u8>,
    pub bank_mode: BankMode,
    /// The bank register: bits 0 to 4 the low part, bits 5 and 6 the high
    /// part.
    pub bank: u8,
    pub ram_enabled: bool,
}

impl Mbc1Model {
    /// The low part of the bank register is never zero, so that the window at
    /// 0x4000 never shows bank 0.
    pub open spec fn wf(self) -> bool {
        self.bank & 0x1F != 0
    }

    /// The controller of a cartridge that has just been inserted: bank 1, ROM
    /// priority, RAM disabled and zeroed.
    pub open spec fn initial(rom: Seq<u8>, ram_size: nat) -> Mbc1Model {
        Mbc1Model {
            rom,
            ram: crate::memory::zeros(ram_size),
            bank_mode: BankMode::Rom2MbRam8Kb,
            bank: 1,
            ram_enabled: false,
        }
    }

    /// The ROM bank shown at 0x4000 to 0x7FFF.
    pub open spec fn rom_bank(self) -> u8 {
        match self.bank_mode {
            BankMode::Rom2MbRam8Kb => self.bank & 0x7F,
            BankMode::Rom512KbRam32Kb => self.bank & 0x1F,
        }
    }

    /// The RAM bank shown at 0xA000 to 0xBFFF.
    pub open spec fn ram_bank(self) -> u8 {
        match self.bank_mode {
            BankMode::Rom2MbRam8Kb => 0,
            BankMode::Rom512KbRam32Kb => (self.bank & 0x60) >> 5,
        }
    }

    /// Offset in RAM of the byte at `addr`, which lies in 0xA000 to 0xBFFF.
    pub open spec fn ram_offset(self, addr: u16) -> int {
        self.ram_bank() * 0x2000 + (addr - 0xA000)
    }

    /// The byte read at `addr`: bank 0 below 0x4000, the selected ROM bank
    /// below 0x8000, the selected RAM bank at 0xA000 to 0xBFFF while RAM is
    /// enabled. Anything else, and anything past the end of the ROM or the
    /// RAM, reads 0xFF.
    pub open spec fn read(self, addr: u16) -> u8 {
        if addr < 0x4000 {
            crate::memory::byte_at(self.rom, addr as int)
        } else if addr < 0x8000 {
            crate::memory::byte_at(self.rom, self.rom_bank() * 0x4000 + (addr - 0x4000))
        } else if 0xA000 <= addr < 0xC000 && self.ram_enabled {
            crate::memory::byte_at(self.ram, self.ram_offset(addr))
        } else {
            0xFF
        }
    }

    /// The controller after `v` is written at `addr`. Below 0x8000 a write
    /// sets a register: RAM enable (a low nibble of 0xA enables), the low
    /// five bits of the bank (zero is taken as one), its two high bits, the
    /// mode. At 0xA000 to 0xBFFF it stores into enabled RAM; elsewhere, and
    /// past the end of the RAM, it is dropped.
    pub open spec fn written(self, addr: u16, v: u8) -> Mbc1Model {
        if addr < 0x2000 {
            Mbc1Model { ram_enabled: v & 0x0F == 0x0A, ..self }
        } else if addr < 0x4000 {
            let n = if v & 0x1F == 0 {
                0x01
            } else {
                v & 0x1F
            };
            Mbc1Model { bank: (self.bank & 0x60) | n, ..self }
        } else if addr < 0x6000 {
            Mbc1Model { bank: (self.bank & 0x9F) | ((v & 0x03) << 5), ..self }
        } else if addr < 0x8000 {
            Mbc1Model {
                bank_mode: if v & 1 == 0 {
                    BankMode::Rom2MbRam8Kb
                } else {
                    BankMode::Rom512KbRam32Kb
                },
                ..self
            }
        } else if 0xA000 <= addr < 0xC000 && self.ram_enabled && self.ram_offset(addr)
            < self.ram.len() {
            Mbc1Model { ram: self.ram.update(self.ram_offset(addr), v), ..self }
        } else {
            self
        }
    }
}

pub struct MBC1 {
    rom: Vec<u8>,
    ram: Vec<u8>,
    bank_mode: BankMode,
    bank: u8,
    ram_enabled: bool,
}

impl View for MBC1 {
    type V = Mbc1Model;

    closed spec fn view(&self) -> Mbc1Model {
        Mbc1Model {
            rom: self.rom@,
            ram: self.ram@,
            bank_mode: self.bank_mode,
            bank: self.bank,
            ram_enabled: self.ram_enabled,
        }
    }
}

/// What the bank register's parts can hold.
proof fn lemma_bank_bits(b: u8, v: u8)
    ensures
        b & 0x7F <= 0x7F,
        b & 0x1F <= 0x1F,
        (b & 0x60) >> 5 <= 3,
        b & 0x1F != 0 ==> b & 0x7F != 0,
        v & 0x1F != 0 ==> ((b & 0x60) | (v & 0x1F)) & 0x1F != 0,
        ((b & 0x60) | 0x01) & 0x1F != 0,
        ((b & 0x9F) | ((v & 0x03) << 5)) & 0x1F == b & 0x1F,
        1u8 & 0x1F != 0,
{
    assert({
        &&& b & 0x7F <= 0x7F
        &&& b & 0x1F <= 0x1F
        &&& (b & 0x60) >> 5 <= 3
        &&& (b & 0x1F != 0 ==> b & 0x7F != 0)
        &&& (v & 0x1F != 0 ==> ((b & 0x60) | (v & 0x1F)) & 0x1F != 0)
        &&& ((b & 0x60) | 0x01) & 0x1F != 0
        &&& ((b & 0x9F) | ((v & 0x03) << 5)) & 0x1F == b & 0x1F
        &&& 1u8 & 0x1F != 0
    }) by (bit_vector);
}

/// The ROM bank shown in the window at 0x4000 is never bank 0, and a write to
/// a register keeps it so.
pub proof fn lemma_never_bank_zero(m: Mbc1Model, addr: u16, v: u8)
    requires
        m.wf(),
    ensures
        m.rom_bank() != 0,
        m.written(addr, v).wf(),
{
    lemma_bank_bits(m.bank, v);
}

impl MBC1 {
    /// The controller of a cartridge with the image `rom` and RAM of the size
    /// that the header gives.
    pub fn new(header: &Header, rom: Vec<u8>) -> (mbc: Self)
        ensures
            mbc.inv(),
            mbc@ == Mbc1Model::initial(rom@, header@.ram_size),
    {
        proof {
            lemma_bank_bits(1, 0);
        }
        MBC1 {
            rom,
            ram: crate::memory::zeroed(header.ram_size()),
            bank_mode: BankMode::Rom2MbRam8Kb,
            bank: 1,
            ram_enabled: false,
        }
    }

    fn rom_bank(&self) -> (n: usize)
        ensures
            n == self@.rom_bank(),
            n <= 0x7F,
    {
        proof {
            lemma_bank_bits(self.bank, 0);
        }
        let n = match self.bank_mode {
            BankMode::Rom2MbRam8Kb => self.bank & 0x7F,
            BankMode::Rom512KbRam32Kb => self.bank & 0x1F,
        };
        n as usize
    }

    fn ram_bank(&self) -> (n: usize)
        ensures
            n == self@.ram_bank(),
            n <= 3,
    {
        proof {
            lemma_bank_bits(self.bank, 0);
        }
        let n = match self.bank_mode {
            BankMode::Rom2MbRam8Kb => 0,
            BankMode::Rom512KbRam32Kb => (self.bank & 0x60) >> 5,
        };
        n as usize
    }
}

impl Memory for MBC1 {
    open spec fn inv(&self) -> bool {
        self@.wf()
    }

    open spec fn decodes(&self, addr: u16) -> bool {
        true
    }

    open spec fn peek(m: Mbc1Model, addr: u16) -> u8 {
        m.read(addr)
    }

    open spec fn poke(m: Mbc1Model, addr: u16, v: u8) -> Mbc1Model {
        m.written(addr, v)
    }

    fn read(&self, addr: u16) -> (r: u8) {
        if addr < 0x4000 {
            // ROM bank 0
            if (addr as usize) < self.rom.len() {
                self.rom[addr as usize]
            } else {
                0xFF
            }
        } else if addr < 0x8000 {
            // ROM bank 0x01 to 0x7F
            let i = self.rom_bank() * 0x4000 + addr as usize - 0x4000;
            if i < self.rom.len() {
                self.rom[i]
            } else {
                0xFF
            }
        } else if 0xA000 <= addr && addr < 0xC000 && self.ram_enabled {
            // RAM bank 0 to 3, if any
            let i = self.ram_bank() * 0x2000 + addr as usize - 0xA000;
            if i < self.ram.len() {
                self.ram[i]
            } else {
                0xFF
            }
        } else {
            0xFF
        }
    }

    fn write(&mut self, addr: u16, v: u8) {
        proof {
            lemma_bank_bits(self.bank, v);
        }
        if addr < 0x2000 {
            // RAM enable
            self.ram_enabled = v & 0x0F == 0x0A;
        } else if addr < 0x4000 {
            // Low five bits of the bank number
            let n = v & 0x1F;
            let n = if n == 0 { 0x01 } else { n };
            self.bank = (self.bank & 0x60) | n;
        } else if addr < 0x6000 {
            // RAM bank number, or upper bits of the ROM bank number
            let n = v & 0x03;
            self.bank = self.bank & 0x9F | (n << 5);
        } else if addr < 0x8000 {
            // Banking mode select
            self.bank_mode = if v & 1 == 0 {
                BankMode::Rom2MbRam8Kb
            } else {
                BankMode::Rom512KbRam32Kb
            };
        } else if 0xA000 <= addr && addr < 0xC000 && self.ram_enabled {
            let i = self.ram_bank() * 0x2000 + addr as usize - 0xA000;
            if i < self.ram.len() {
                self.ram[i] = v;
            }
        }
    }
}

} // verus!
