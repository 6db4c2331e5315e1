//! A cartridge without a bank controller: 32 KiB of ROM at most, no RAM.

use vstd::prelude::*;
use crate::cartridge::Header;
use crate::memory::Memory;

verus! {

pub struct RomOnly {
    rom: Vec<u8>,
}

impl View for RomOnly {
    type V = Seq<u8>;

    closed spec fn view(&self) -> Seq<u8> {
        self.rom@
    }
}

impl RomOnly {
    /// A cartridge that holds the image `rom` and nothing else.
    pub fn new(_header: &Header, rom: Vec<u8>) -> (mbc: Self)
        ensures
            mbc@ == rom@,
    {
        RomOnly { rom }
    }
}

impl Memory for RomOnly {
    open spec fn inv(&self) -> bool {
        true
    }

    open spec fn decodes(&self, addr: u16) -> bool {
        true
    }

    /// The image's byte below 0x8000; 0xFF elsewhere and past the image's end.
    open spec fn peek(m: Seq<u8>, addr: u16) -> u8 {
        if addr < 0x8000 {
            crate::memory::byte_at(m, addr as int)
        } else {
            0xFF
        }
    }

    /// Writes are dropped.
    open spec fn poke(m: Seq<u8>, addr: u16, v: u8) -> Seq<u8> {
        m
    }

    fn read(&self, a: u16) -> (r: u8) {
        if a < 0x8000 && (a as usize) < self.rom.len() {
            self.rom[a as usize]
        } else {
            0xFF
        }
    }

    fn write(&mut self, _addr: u16, _v: u8) {
    }
}

} // verus!
