use gamebrust::cartridge::mbc::{RomOnly, MBC1, MBC3};
use gamebrust::cartridge::{Cartridge, Header, LoadError, CGB};
use gamebrust::memory::Memory;

/// An image of `banks` banks of 16 KiB in which every byte holds the number
/// of its bank, with a header of the given controller type and size codes.
fn image(banks: usize, mbc: u8, rom_code: u8, ram_code: u8) -> Vec<u8> {
    let mut rom = vec![0u8; banks * 0x4000];
    for (i, b) in rom.iter_mut().enumerate() {
        *b = (i / 0x4000) as u8;
    }
    for (i, c) in "TETRIS".bytes().enumerate() {
        rom[0x134 + i] = c;
    }
    for i in 6..16 {
        rom[0x134 + i] = 0;
    }
    rom[0x146] = 0x00;
    rom[0x147] = mbc;
    rom[0x148] = rom_code;
    rom[0x149] = ram_code;
    rom
}

#[test]
fn load_rom() {
    let cartridge = match Cartridge::from_bytes(image(4, 0x01, 0x01, 0x00)) {
        Ok(cartridge) => cartridge,
        _ => panic!("Error!"),
    };

    let header = cartridge.get_header();

    assert_eq!(header.mbc_type(), 1);
}

#[test]
fn header_is_parsed() {
    let mut rom = image(8, 0x01, 0x02, 0x03);
    rom[0x146] = 0x03;
    let header = Header::read(&rom);
    assert_eq!(header.title().as_str(), "TETRIS");
    assert_eq!(header.cgb(), CGB::Monochrome);
    assert!(header.sgb());
    assert_eq!(header.mbc_type(), 1);
    assert_eq!(header.rom_size(), 128 * 1024);
    assert_eq!(header.rom_banks(), 8);
    assert_eq!(header.ram_size(), 32 * 1024);
    assert_eq!(header.ram_banks(), 4);

    let cartridge = match Cartridge::from_bytes(rom) {
        Ok(cartridge) => cartridge,
        _ => panic!("Error!"),
    };
    let header = cartridge.get_header();
    assert_eq!(header.mbc_type(), 1);
    assert_eq!(header.title().as_str(), "TETRIS");
}

#[test]
fn title_takes_eleven_or_sixteen_bytes() {
    let mut rom = image(2, 0x00, 0x00, 0x00);
    for (i, c) in "ABCDEFGHIJKLMNOP".bytes().enumerate() {
        rom[0x134 + i] = c;
    }
    // The sixteenth byte is 'P' = 0x50: bit 7 is clear, the title has 16.
    let header = Header::read(&rom);
    assert_eq!(header.title().as_str(), "ABCDEFGHIJKLMNOP");
    assert_eq!(header.cgb(), CGB::Monochrome);
    assert!(!header.sgb());

    rom[0x143] = 0x80;
    let header = Header::read(&rom);
    assert_eq!(header.title().as_str(), "ABCDEFGHIJK");
    assert_eq!(header.cgb(), CGB::DMGCompatible);

    rom[0x143] = 0xC0;
    rom[0x134 + 3] = 0;
    let header = Header::read(&rom);
    assert_eq!(header.title().as_str(), "ABC");
    assert_eq!(header.cgb(), CGB::CGBOnly);

    rom[0x134] = 0;
    let header = Header::read(&rom);
    assert_eq!(header.title().as_str(), "");
}

#[test]
fn size_codes() {
    let rom_sizes: [(u8, usize, usize); 12] = [
        (0x00, 32 * 1024, 0),
        (0x01, 64 * 1024, 4),
        (0x02, 128 * 1024, 8),
        (0x03, 256 * 1024, 16),
        (0x04, 512 * 1024, 32),
        (0x05, 1024 * 1024, 64),
        (0x06, 2 * 1024 * 1024, 128),
        (0x07, 4 * 1024 * 1024, 256),
        (0x08, 8 * 1024 * 1024, 512),
        (0x52, 72 * 16 * 1024, 72),
        (0x53, 80 * 16 * 1024, 72),
        (0x54, 96 * 16 * 1024, 72),
    ];
    for (code, size, banks) in rom_sizes {
        let header = Header::read(&image(2, 0x00, code, 0x00));
        assert_eq!(header.rom_size(), size);
        assert_eq!(header.rom_banks(), banks);
    }
    let ram_sizes: [(u8, usize, usize); 6] = [
        (0x00, 0, 0),
        (0x01, 2 * 1024, 1),
        (0x02, 8 * 1024, 1),
        (0x03, 32 * 1024, 4),
        (0x04, 128 * 1024, 16),
        (0x05, 64 * 1024, 8),
    ];
    for (code, size, banks) in ram_sizes {
        let header = Header::read(&image(2, 0x00, 0x00, code));
        assert_eq!(header.ram_size(), size);
        assert_eq!(header.ram_banks(), banks);
    }
}

#[test]
fn images_that_are_refused() {
    assert!(matches!(Cartridge::from_bytes(Vec::new()), Err(LoadError::TooShort)));
    assert!(matches!(Cartridge::from_bytes(vec![0u8; 0x14F]), Err(LoadError::TooShort)));
    assert!(Cartridge::from_bytes(vec![0u8; 0x150]).is_ok());
    assert!(matches!(
        Cartridge::from_bytes(image(2, 0x00, 0x00, 0x06)),
        Err(LoadError::InvalidRamSize(0x06))
    ));
    assert!(matches!(
        Cartridge::from_bytes(image(2, 0x00, 0x09, 0x00)),
        Err(LoadError::InvalidRomSize(0x09))
    ));
    // The RAM size is looked at first.
    assert!(matches!(
        Cartridge::from_bytes(image(2, 0x05, 0x09, 0x06)),
        Err(LoadError::InvalidRamSize(0x06))
    ));
    assert!(matches!(
        Cartridge::from_bytes(image(2, 0x05, 0x00, 0x00)),
        Err(LoadError::UnsupportedMbc(0x05))
    ));
    assert!(matches!(
        Cartridge::from_bytes(image(2, 0x02, 0x00, 0x00)),
        Err(LoadError::UnsupportedMbc(0x02))
    ));
    for mbc in [0x00u8, 0x01, 0x0F, 0x10, 0x11, 0x12, 0x13] {
        assert!(Cartridge::from_bytes(image(2, mbc, 0x00, 0x00)).is_ok());
    }
}

#[test]
fn rom_only_passes_reads_and_drops_writes() {
    let mut cart = Cartridge::from_bytes(image(2, 0x00, 0x00, 0x00)).unwrap();
    assert_eq!(cart.read(0x0000), 0);
    assert_eq!(cart.read(0x0134), b'T');
    assert_eq!(cart.read(0x4000), 1);
    assert_eq!(cart.read(0x7FFF), 1);
    cart.write(0x2000, 0x00);
    cart.write(0x4000, 0x55);
    cart.write(0xA000, 0x55);
    assert_eq!(cart.read(0x4000), 1);
    assert_eq!(cart.read(0xA000), 0xFF);

    let rom = image(1, 0x00, 0x00, 0x00);
    let header = Header::read(&rom);
    let mut small = RomOnly::new(&header, rom);
    assert_eq!(small.read(0x3FFF), 0);
    // Past the end of the image.
    assert_eq!(small.read(0x4000), 0xFF);
    small.write(0x0000, 0x12);
    assert_eq!(small.read(0x0000), 0);
}

#[test]
fn mbc1_never_shows_bank_zero_in_the_window() {
    let rom = image(4, 0x01, 0x01, 0x00);
    let at_4000 = rom[0x4000];
    let mut cart = Cartridge::from_bytes(rom).unwrap();
    assert_eq!(cart.read(0x4000), 1);
    cart.write(0x2000, 0x00);
    assert_eq!(cart.read(0x4000), at_4000);
    assert_eq!(cart.read(0x4000), 1);
    assert_eq!(cart.read(0x0000), 0);
}

#[test]
fn mbc1_selects_rom_banks() {
    let mut cart = Cartridge::from_bytes(image(64, 0x01, 0x05, 0x00)).unwrap();
    cart.write(0x2000, 0x02);
    assert_eq!(cart.read(0x4000), 2);
    assert_eq!(cart.read(0x7FFF), 2);
    assert_eq!(cart.read(0x3FFF), 0);
    cart.write(0x3FFF, 0x1F);
    assert_eq!(cart.read(0x4000), 0x1F);
    // Only five bits count here.
    cart.write(0x2000, 0xE3);
    assert_eq!(cart.read(0x4000), 3);
    // The two high bits come from the second register.
    cart.write(0x4000, 0x01);
    assert_eq!(cart.read(0x4000), 0x23);
    // A low part of zero is taken as one even then.
    cart.write(0x2000, 0x20);
    assert_eq!(cart.read(0x4000), 0x21);
    // With RAM priority the high bits no longer select ROM.
    cart.write(0x6000, 0x01);
    assert_eq!(cart.read(0x4000), 0x01);
    cart.write(0x6000, 0x00);
    assert_eq!(cart.read(0x4000), 0x21);
    // A bank past the end of the image reads 0xFF.
    cart.write(0x4000, 0x02);
    assert_eq!(cart.read(0x4000), 0xFF);
}

#[test]
fn mbc1_ram_is_enabled_and_banked() {
    let mut cart = Cartridge::from_bytes(image(4, 0x01, 0x01, 0x03)).unwrap();
    // Disabled RAM reads 0xFF and drops writes.
    cart.write(0xA000, 0x11);
    assert_eq!(cart.read(0xA000), 0xFF);
    cart.write(0x0000, 0x0A);
    assert_eq!(cart.read(0xA000), 0x00);
    cart.write(0xA000, 0x11);
    cart.write(0xBFFF, 0x22);
    assert_eq!(cart.read(0xA000), 0x11);
    assert_eq!(cart.read(0xBFFF), 0x22);

    // With RAM priority the second register selects the RAM bank.
    cart.write(0x6000, 0x01);
    cart.write(0x4000, 0x03);
    assert_eq!(cart.read(0xA000), 0x00);
    cart.write(0xA000, 0x33);
    assert_eq!(cart.read(0xA000), 0x33);
    cart.write(0x4000, 0x00);
    assert_eq!(cart.read(0xA000), 0x11);
    // With ROM priority RAM is bank 0 whatever the register holds.
    cart.write(0x4000, 0x03);
    cart.write(0x6000, 0x00);
    assert_eq!(cart.read(0xA000), 0x11);

    // Any value whose low nibble is not 0xA disables.
    cart.write(0x1FFF, 0x1B);
    assert_eq!(cart.read(0xA000), 0xFF);
    cart.write(0x0000, 0xFA);
    assert_eq!(cart.read(0xA000), 0x11);
}

#[test]
fn mbc1_ram_past_its_end_reads_ff() {
    // 2 KiB of RAM: the window is larger than the RAM.
    let rom = image(4, 0x01, 0x01, 0x01);
    let header = Header::read(&rom);
    let mut mbc = MBC1::new(&header, rom);
    mbc.write(0x0000, 0x0A);
    mbc.write(0xA7FF, 0x44);
    assert_eq!(mbc.read(0xA7FF), 0x44);
    mbc.write(0xA800, 0x55);
    assert_eq!(mbc.read(0xA800), 0xFF);
    // Addresses that the cartridge does not own.
    assert_eq!(mbc.read(0x8000), 0xFF);
    assert_eq!(mbc.read(0xC000), 0xFF);
}

#[test]
fn mbc3_banks() {
    let rom = image(128, 0x13, 0x06, 0x03);
    let header = Header::read(&rom);
    let mut mbc = MBC3::new(&header, rom);
    assert_eq!(mbc.read(0x4000), 1);
    mbc.write(0x2000, 0x7F);
    assert_eq!(mbc.read(0x4000), 0x7F);
    mbc.write(0x2000, 0x80);
    assert_eq!(mbc.read(0x4000), 1);
    mbc.write(0x2000, 0x00);
    assert_eq!(mbc.read(0x4000), 1);
    mbc.write(0x2000, 0x45);
    assert_eq!(mbc.read(0x4000), 0x45);
    assert_eq!(mbc.read(0x0000), 0);

    // RAM
    assert_eq!(mbc.read(0xA000), 0xFF);
    mbc.write(0x0000, 0x0A);
    mbc.write(0x4000, 0x00);
    mbc.write(0xA000, 0x11);
    mbc.write(0x4000, 0x03);
    mbc.write(0xA000, 0x33);
    assert_eq!(mbc.read(0xA000), 0x33);
    mbc.write(0x4000, 0x00);
    assert_eq!(mbc.read(0xA000), 0x11);
    // The clock's registers read 0xFF and take no writes.
    mbc.write(0x4000, 0x08);
    mbc.write(0xA000, 0x99);
    assert_eq!(mbc.read(0xA000), 0xFF);
    mbc.write(0x6000, 0x01);
    mbc.write(0x4000, 0x00);
    assert_eq!(mbc.read(0xA000), 0x11);
    mbc.write(0x0000, 0x00);
    assert_eq!(mbc.read(0xA000), 0xFF);

    let mut cart = Cartridge::from_bytes(image(4, 0x11, 0x01, 0x00)).unwrap();
    cart.write(0x2000, 0x03);
    assert_eq!(cart.read(0x4000), 3);
}
