//! The cartridge: its header and the bank controller it carries.

use vstd::prelude::*;
use crate::memory::Memory;
use self::mbc::{Mbc1Model, Mbc3Model, RomOnly, MBC1, MBC3};

pub mod mbc;

verus! {

pub const KB: usize = 1024;

pub const MB: usize = 1048576;

/// What the header says about the colour console.
#[derive(Clone, Copy, Debug, PartialEq, Eq, Structural)]
pub enum CGB {
    /// Runs on both consoles.
    DMGCompatible,
    /// Runs on the colour console only.
    CGBOnly,
    /// Written for the monochrome console.
    Monochrome,
}

/// Why an image is not a cartridge that this core can run.
#[derive(Clone, Copy, Debug, PartialEq, Eq, Structural)]
pub enum LoadError {
    /// The image ends before the header does.
    TooShort,
    /// The RAM size code at 0x0149 is not one of the table.
    InvalidRamSize(u8),
    /// The ROM size code at 0x0148 is not one of the table.
    InvalidRomSize(u8),
    /// The controller type at 0x0147 is not one that this core has.
    UnsupportedMbc(u8),
}

/// The header as a mathematical value.
pub struct HeaderModel {
    pub title: Seq<char>,
    pub cgb: CGB,
    pub sgb: bool,
    pub mbc_type: u8,
    pub rom_size: nat,
    pub rom_banks: nat,
    pub ram_size: nat,
    pub ram_banks: nat,
}

/// Size in bytes and number of banks of the ROM, by the code at 0x0148.
pub open spec fn rom_size_of(code: u8) -> Option<(nat, nat)> {
    if code == 0x00 {
        Some((32 * 1024, 0))
    } else if code == 0x01 {
        Some((64 * 1024, 4))
    } else if code == 0x02 {
        Some((128 * 1024, 8))
    } else if code == 0x03 {
        Some((256 * 1024, 16))
    } else if code == 0x04 {
        Some((512 * 1024, 32))
    } else if code == 0x05 {
        Some((1024 * 1024, 64))
    } else if code == 0x06 {
        Some((2 * 1024 * 1024, 128))
    } else if code == 0x07 {
        Some((4 * 1024 * 1024, 256))
    } else if code == 0x08 {
        Some((8 * 1024 * 1024, 512))
    } else if code == 0x52 {
        Some((72 * 16 * 1024, 72))
    } else if code == 0x53 {
        Some((80 * 16 * 1024, 72))
    } else if code == 0x54 {
        Some((96 * 16 * 1024, 72))
    } else {
        None
    }
}

/// Size in bytes and number of banks of the RAM, by the code at 0x0149.
pub open spec fn ram_size_of(code: u8) -> Option<(nat, nat)> {
    if code == 0x00 {
        Some((0, 0))
    } else if code == 0x01 {
        Some((2 * 1024, 1))
    } else if code == 0x02 {
        Some((8 * 1024, 1))
    } else if code == 0x03 {
        Some((32 * 1024, 4))
    } else if code == 0x04 {
        Some((128 * 1024, 16))
    } else if code == 0x05 {
        Some((64 * 1024, 8))
    } else {
        None
    }
}

/// Number of bytes that the title may take: 11 where bit 7 of the byte at
/// 0x0143 marks a colour cartridge, else 16.
pub open spec fn title_room(rom: Seq<u8>) -> nat {
    if rom[0x143] & 0x80 == 0x80 {
        11
    } else {
        16
    }
}

/// The characters of the title from its byte `from` on: the bytes at 0x0134
/// and after, up to the first zero byte or the end of the title's room.
pub open spec fn title_from(rom: Seq<u8>, from: nat) -> Seq<char>
    decreases title_room(rom) - from,
{
    if from >= title_room(rom) || rom[0x134 + from as int] == 0 {
        Seq::empty()
    } else {
        seq![rom[0x134 + from as int] as char] + title_from(rom, from + 1)
    }
}

/// Whether the controller type is one that this core has: none, MBC1, or one
/// of the MBC3 family.
pub open spec fn supported_mbc(code: u8) -> bool {
    code == 0x00 || code == 0x01 || 0x0F <= code <= 0x13
}

/// Why an image is refused, if it is.
pub open spec fn rejection(rom: Seq<u8>) -> Option<LoadError> {
    if rom.len() < 0x150 {
        Some(LoadError::TooShort)
    } else if ram_size_of(rom[0x149]) is None {
        Some(LoadError::InvalidRamSize(rom[0x149]))
    } else if rom_size_of(rom[0x148]) is None {
        Some(LoadError::InvalidRomSize(rom[0x148]))
    } else if !supported_mbc(rom[0x147]) {
        Some(LoadError::UnsupportedMbc(rom[0x147]))
    } else {
        None
    }
}

impl HeaderModel {
    /// Whether the header of an image can be read: the image holds all of it
    /// and its two size codes are of the table.
    pub open spec fn readable(rom: Seq<u8>) -> bool {
        &&& rom.len() >= 0x150
        &&& ram_size_of(rom[0x149]) is Some
        &&& rom_size_of(rom[0x148]) is Some
    }

    /// The header that an image holds.
    pub open spec fn parsed(rom: Seq<u8>) -> HeaderModel {
        HeaderModel {
            title: title_from(rom, 0),
            cgb: if rom[0x143] == 0x80 {
                CGB::DMGCompatible
            } else if rom[0x143] == 0xC0 {
                CGB::CGBOnly
            } else {
                CGB::Monochrome
            },
            sgb: rom[0x146] == 0x03,
            mbc_type: rom[0x147],
            rom_size: (rom_size_of(rom[0x148])->0).0,
            rom_banks: (rom_size_of(rom[0x148])->0).1,
            ram_size: (ram_size_of(rom[0x149])->0).0,
            ram_banks: (ram_size_of(rom[0x149])->0).1,
        }
    }
}

#[derive(Debug)]
pub struct Header {
    title: String,
    cgb: CGB,
    sgb: bool,
    mbc_type: u8,
    rom_size: usize,
    rom_banks: usize,
    ram_size: usize,
    ram_banks: usize,
}

impl View for Header {
    type V = HeaderModel;

    closed spec fn view(&self) -> HeaderModel {
        HeaderModel {
            title: self.title@,
            cgb: self.cgb,
            sgb: self.sgb,
            mbc_type: self.mbc_type,
            rom_size: self.rom_size as nat,
            rom_banks: self.rom_banks as nat,
            ram_size: self.ram_size as nat,
            ram_banks: self.ram_banks as nat,
        }
    }
}

/// `String::push` of the standard library: the string afterwards is the
/// string before with the one character added at its end.
#[verifier::external_body]
fn push_char(s: &mut String, c: char)
    ensures
        final(s)@ == old(s)@.push(c),
{
    s.push(c)
}

impl Header {
    /// Reads the header of an image.
    pub fn read(rom_data: &Vec<u8>) -> (h: Self)
        requires
            HeaderModel::readable(rom_data@),
        ensures
            h@ == HeaderModel::parsed(rom_data@),
    {
        let (ram_size, ram_banks) = Header::read_ram_size(rom_data);
        let (rom_size, rom_banks) = Header::read_rom_size(rom_data);
        let cgb = Header::read_cgb(rom_data);

        Self {
            title: Header::read_title(rom_data),
            cgb,
            sgb: Header::read_sgb(rom_data),
            mbc_type: rom_data[0x147],
            rom_size,
            rom_banks,
            ram_size,
            ram_banks,
        }
    }

    pub fn title(&self) -> (t: &String)
        ensures
            t@ == self@.title,
    {
        &self.title
    }

    pub fn cgb(&self) -> (c: CGB)
        ensures
            c == self@.cgb,
    {
        self.cgb
    }

    pub fn sgb(&self) -> (b: bool)
        ensures
            b == self@.sgb,
    {
        self.sgb
    }

    pub fn mbc_type(&self) -> (t: u8)
        ensures
            t == self@.mbc_type,
    {
        self.mbc_type
    }

    pub fn rom_size(&self) -> (n: usize)
        ensures
            n == self@.rom_size,
    {
        self.rom_size
    }

    pub fn rom_banks(&self) -> (n: usize)
        ensures
            n == self@.rom_banks,
    {
        self.rom_banks
    }

    pub fn ram_size(&self) -> (n: usize)
        ensures
            n == self@.ram_size,
    {
        self.ram_size
    }

    pub fn ram_banks(&self) -> (n: usize)
        ensures
            n == self@.ram_banks,
    {
        self.ram_banks
    }

    /// A copy of the header.
    pub fn duplicate(&self) -> (h: Self)
        ensures
            h@ == self@,
    {
        Self {
            title: self.title.clone(),
            cgb: self.cgb,
            sgb: self.sgb,
            mbc_type: self.mbc_type,
            rom_size: self.rom_size,
            rom_banks: self.rom_banks,
            ram_size: self.ram_size,
            ram_banks: self.ram_banks,
        }
    }

    /// Reads the title: the bytes from 0x0134 on, each as one character.
    fn read_title(rom_data: &Vec<u8>) -> (title: String)
        requires
            rom_data@.len() >= 0x150,
        ensures
            title@ == title_from(rom_data@, 0),
    {
        let title_size: usize = if rom_data[0x143] & 0x80 == 0x80 { 11 } else { 16 };

        let mut title = String::new();
        let mut i: usize = 0;

        while i < title_size && rom_data[0x134 + i] != 0
            invariant
                rom_data@.len() >= 0x150,
                title_size == title_room(rom_data@),
                i <= title_size <= 16,
                title_from(rom_data@, 0) == title@ + title_from(rom_data@, i as nat),
            decreases title_size - i,
        {
            push_char(&mut title, rom_data[0x134 + i] as char);
            i += 1;
        }

        title
    }

    fn read_sgb(rom_data: &Vec<u8>) -> (sgb: bool)
        requires
            rom_data@.len() >= 0x150,
        ensures
            sgb == (rom_data@[0x146] == 0x03),
    {
        rom_data[0x146] == 0x03
    }

    fn read_cgb(rom_data: &Vec<u8>) -> (cgb: CGB)
        requires
            rom_data@.len() >= 0x150,
        ensures
            cgb == HeaderModel::parsed(rom_data@).cgb,
    {
        match rom_data[0x143] {
            0x80 => CGB::DMGCompatible,
            0xC0 => CGB::CGBOnly,
            _ => CGB::Monochrome,
        }
    }

    /// Size and banks of the ROM, by the code in the header.
    fn rom_size_for(code: u8) -> (r: Option<(usize, usize)>)
        ensures
            r is Some == rom_size_of(code) is Some,
            r matches Some(s) ==> s.0 == (rom_size_of(code)->0).0 && s.1 == (rom_size_of(code)->0).1,
    {
        match code {
            0x00 => Some((32 * KB, 0)),
            0x01 => Some((64 * KB, 4)),
            0x02 => Some((128 * KB, 8)),
            0x03 => Some((256 * KB, 16)),
            0x04 => Some((512 * KB, 32)),
            0x05 => Some((1 * MB, 64)),
            0x06 => Some((2 * MB, 128)),
            0x07 => Some((4 * MB, 256)),
            0x08 => Some((8 * MB, 512)),
            0x52 => Some((72 * 16 * KB, 72)),
            0x53 => Some((80 * 16 * KB, 72)),
            0x54 => Some((96 * 16 * KB, 72)),
            _ => None,
        }
    }

    /// Size and banks of the RAM, by the code in the header.
    fn ram_size_for(code: u8) -> (r: Option<(usize, usize)>)
        ensures
            r is Some == ram_size_of(code) is Some,
            r matches Some(s) ==> s.0 == (ram_size_of(code)->0).0 && s.1 == (ram_size_of(code)->0).1,
    {
        match code {
            0x00 => Some((0, 0)),
            0x01 => Some((2 * KB, 1)),
            0x02 => Some((8 * KB, 1)),
            0x03 => Some((32 * KB, 4)),
            0x04 => Some((128 * KB, 16)),
            0x05 => Some((64 * KB, 8)),
            _ => None,
        }
    }

    fn read_rom_size(rom_data: &Vec<u8>) -> (r: (usize, usize))
        requires
            HeaderModel::readable(rom_data@),
        ensures
            r.0 == HeaderModel::parsed(rom_data@).rom_size,
            r.1 == HeaderModel::parsed(rom_data@).rom_banks,
    {
        match Header::rom_size_for(rom_data[0x0148]) {
            Some(r) => r,
            None => vstd::pervasive::unreached(),
        }
    }

    fn read_ram_size(rom_data: &Vec<u8>) -> (r: (usize, usize))
        requires
            HeaderModel::readable(rom_data@),
        ensures
            r.0 == HeaderModel::parsed(rom_data@).ram_size,
            r.1 == HeaderModel::parsed(rom_data@).ram_banks,
    {
        match Header::ram_size_for(rom_data[0x0149]) {
            Some(r) => r,
            None => vstd::pervasive::unreached(),
        }
    }
}

/// The bank controller of a cartridge, as a mathematical value.
pub enum MbcModel {
    RomOnly(Seq<u8>),
    Mbc1(Mbc1Model),
    Mbc3(Mbc3Model),
}

/// The cartridge as a mathematical value.
pub struct CartridgeModel {
    pub mbc: MbcModel,
    pub header: HeaderModel,
}

impl CartridgeModel {
    pub open spec fn wf(self) -> bool {
        match self.mbc {
            MbcModel::RomOnly(_) => true,
            MbcModel::Mbc1(m) => m.wf(),
            MbcModel::Mbc3(m) => m.wf(),
        }
    }

    /// The cartridge that an accepted image makes: its header, and the
    /// controller that the header names, holding the image and zeroed RAM of
    /// the size that the header gives.
    pub open spec fn loaded(rom: Seq<u8>) -> CartridgeModel {
        let header = HeaderModel::parsed(rom);
        CartridgeModel {
            mbc: if header.mbc_type == 0x00 {
                MbcModel::RomOnly(rom)
            } else if header.mbc_type == 0x01 {
                MbcModel::Mbc1(Mbc1Model::initial(rom, header.ram_size))
            } else {
                MbcModel::Mbc3(Mbc3Model::initial(rom, header.ram_size))
            },
            header,
        }
    }

    /// The byte read at `addr`.
    pub open spec fn read(self, addr: u16) -> u8 {
        match self.mbc {
            MbcModel::RomOnly(m) => RomOnly::peek(m, addr),
            MbcModel::Mbc1(m) => m.read(addr),
            MbcModel::Mbc3(m) => m.read(addr),
        }
    }

    /// The cartridge after `v` is written at `addr`.
    pub open spec fn written(self, addr: u16, v: u8) -> CartridgeModel {
        CartridgeModel {
            mbc: match self.mbc {
                MbcModel::RomOnly(m) => MbcModel::RomOnly(m),
                MbcModel::Mbc1(m) => MbcModel::Mbc1(m.written(addr, v)),
                MbcModel::Mbc3(m) => MbcModel::Mbc3(m.written(addr, v)),
            },
            ..self
        }
    }
}

/// The bank controller of a cartridge.
pub enum Controller {
    RomOnly(RomOnly),
    Mbc1(MBC1),
    Mbc3(MBC3),
}

pub struct Cartridge {
    mbc: Controller,
    header: Header,
}

impl View for Cartridge {
    type V = CartridgeModel;

    closed spec fn view(&self) -> CartridgeModel {
        CartridgeModel {
            mbc: match self.mbc {
                Controller::RomOnly(m) => MbcModel::RomOnly(m@),
                Controller::Mbc1(m) => MbcModel::Mbc1(m@),
                Controller::Mbc3(m) => MbcModel::Mbc3(m@),
            },
            header: self.header@,
        }
    }
}

impl Cartridge {
    /// Makes a cartridge of an image, or says why the image is refused.
    pub fn from_bytes(rom_data: Vec<u8>) -> (r: Result<Self, LoadError>)
        ensures
            r is Ok <==> rejection(rom_data@) is None,
            r matches Ok(c) ==> c.inv() && c@ == CartridgeModel::loaded(rom_data@),
            r matches Err(e) ==> rejection(rom_data@) == Some(e),
    {
        if rom_data.len() < 0x150 {
            return Err(LoadError::TooShort);
        }
        if Header::ram_size_for(rom_data[0x149]).is_none() {
            return Err(LoadError::InvalidRamSize(rom_data[0x149]));
        }
        if Header::rom_size_for(rom_data[0x148]).is_none() {
            return Err(LoadError::InvalidRomSize(rom_data[0x148]));
        }
        let header = Header::read(&rom_data);

        let mbc = match header.mbc_type {
            0x00 => Controller::RomOnly(RomOnly::new(&header, rom_data)),
            0x01 => Controller::Mbc1(MBC1::new(&header, rom_data)),
            0x0F | 0x10 | 0x11 | 0x12 | 0x13 => Controller::Mbc3(MBC3::new(&header, rom_data)),
            t => {
                return Err(LoadError::UnsupportedMbc(t));
            },
        };

        Ok(Self { mbc, header })
    }

    /// A copy of the cartridge's header.
    pub fn get_header(&self) -> (h: Header)
        ensures
            h@ == self@.header,
    {
        self.header.duplicate()
    }
}

impl Memory for Cartridge {
    open spec fn inv(&self) -> bool {
        self@.wf()
    }

    open spec fn decodes(&self, addr: u16) -> bool {
        true
    }

    open spec fn peek(m: CartridgeModel, addr: u16) -> u8 {
        m.read(addr)
    }

    open spec fn poke(m: CartridgeModel, addr: u16, v: u8) -> CartridgeModel {
        m.written(addr, v)
    }

    fn read(&self, addr: u16) -> (r: u8) {
        match &self.mbc {
            Controller::RomOnly(m) => m.read(addr),
            Controller::Mbc1(m) => m.read(addr),
            Controller::Mbc3(m) => m.read(addr),
        }
    }

    fn write(&mut self, addr: u16, v: u8) {
        match &mut self.mbc {
            Controller::RomOnly(m) => m.write(addr, v),
            Controller::Mbc1(m) => m.write(addr, v),
            Controller::Mbc3(m) => m.write(addr, v),
        }
    }
}

} // verus!
