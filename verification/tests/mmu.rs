use gamebrust::cartridge::Cartridge;
use gamebrust::io::joypad::{JoypadAdapter, JoypadKey};
use gamebrust::memory::bootrom;
use gamebrust::memory::Memory;
use gamebrust::mmu::{OAMDma, MMU};
use gamebrust::Display;
use std::cell::RefCell;
use std::rc::Rc;

struct Counter {
    frames: Rc<RefCell<usize>>,
}

impl Display for Counter {
    fn update(&mut self, framebuffer: &Vec<u32>) {
        assert_eq!(framebuffer.len(), 160 * 144);
        *self.frames.borrow_mut() += 1;
    }
}

/// An image of two banks in which every byte holds the low byte of its
/// address, exclusive-or 0xA5, with the header of a cartridge without a
/// controller.
fn image() -> Vec<u8> {
    let mut rom = vec![0u8; 0x8000];
    for (i, b) in rom.iter_mut().enumerate() {
        *b = (i as u8) ^ 0xA5;
    }
    rom[0x147] = 0x00;
    rom[0x148] = 0x00;
    rom[0x149] = 0x00;
    rom
}

fn bus(bootrom: bool) -> (MMU<Counter>, Rc<RefCell<usize>>) {
    let frames = Rc::new(RefCell::new(0));
    let cartridge = Cartridge::from_bytes(image()).unwrap();
    (MMU::new(cartridge, Counter { frames: frames.clone() }, bootrom), frames)
}

#[test]
fn ram_reads_back_what_was_written() {
    let (mut mmu, _) = bus(false);
    let places = [
        0xC000u16, 0xC001, 0xCFFF, 0xD000, 0xDFFF, 0xE000, 0xFDFF, 0xFF80, 0xFFFE, 0x8000,
        0x9FFF, 0xFE00, 0xFE9F,
    ];
    for addr in places {
        if addr != 0xE000 {
            assert_eq!(mmu.read(addr), 0x00);
        }
    }
    for (i, addr) in places.iter().enumerate() {
        mmu.write(*addr, 0x10 + i as u8);
    }
    for (i, addr) in places.iter().enumerate() {
        if *addr == 0xC000 {
            // Overwritten through the echo at 0xE000.
            assert_eq!(mmu.read(*addr), 0x15);
        } else {
            assert_eq!(mmu.read(*addr), 0x10 + i as u8);
        }
    }
    for v in [0x00u8, 0x01, 0x7F, 0x80, 0xFF] {
        mmu.write(0xC123, v);
        assert_eq!(mmu.read(0xC123), v);
    }
}

#[test]
fn work_ram_echoes() {
    let (mut mmu, _) = bus(false);
    mmu.write(0xC000, 0x11);
    assert_eq!(mmu.read(0xE000), 0x11);
    mmu.write(0xFDFF, 0x22);
    assert_eq!(mmu.read(0xDDFF), 0x22);
    mmu.write(0xD234, 0x33);
    assert_eq!(mmu.read(0xF234), 0x33);
    // The last 512 bytes of work RAM have no echo.
    mmu.write(0xDE00, 0x44);
    assert_eq!(mmu.read(0xDE00), 0x44);
    assert_eq!(mmu.read(0xFE00), 0x00);
}

#[test]
fn interrupt_flags_read_with_their_high_bits_set() {
    let (mut mmu, _) = bus(false);
    assert_eq!(mmu.read(0xFF0F), 0xE0);
    for v in [0x00u8, 0x01, 0x15, 0x1F, 0xFF, 0x80] {
        mmu.write(0xFF0F, v);
        assert_eq!(mmu.read(0xFF0F), v | 0xE0);
    }
    // IE keeps what is written.
    for v in [0x00u8, 0x1F, 0xFF] {
        mmu.write(0xFFFF, v);
        assert_eq!(mmu.read(0xFFFF), v);
    }
}

#[test]
fn cartridge_is_read_through_the_bus() {
    let (mut mmu, _) = bus(false);
    let rom = image();
    for addr in [0x0000u16, 0x00FF, 0x0100, 0x3FFF, 0x4000, 0x7FFF] {
        assert_eq!(mmu.read(addr), rom[addr as usize]);
    }
    // No cartridge RAM.
    assert_eq!(mmu.read(0xA000), 0xFF);
    mmu.write(0x0000, 0x12);
    assert_eq!(mmu.read(0x0000), rom[0]);
}

#[test]
fn boot_program_overlays_the_cartridge_until_switched_off() {
    let (mut mmu, _) = bus(true);
    let rom = image();
    assert_eq!(mmu.read(0xFF50), 1);
    for addr in 0..0x100u16 {
        assert_eq!(mmu.read(addr), bootrom::byte(addr as u8));
    }
    assert_eq!(mmu.read(0x0000), 0x31);
    assert_eq!(mmu.read(0x00FF), 0x50);
    assert_eq!(mmu.read(0x0100), rom[0x100]);

    // A value with bit 0 clear leaves it on.
    mmu.write(0xFF50, 0x00);
    mmu.write(0xFF50, 0xFE);
    assert_eq!(mmu.read(0x0000), 0x31);
    assert_eq!(mmu.read(0xFF50), 1);

    mmu.write(0xFF50, 0x01);
    assert_eq!(mmu.read(0xFF50), 0);
    for addr in 0..0x100u16 {
        assert_eq!(mmu.read(addr), rom[addr as usize]);
    }
    // Nothing switches it on again.
    mmu.write(0xFF50, 0x00);
    mmu.write(0xFF50, 0x01);
    mmu.step(456);
    assert_eq!(mmu.read(0x0000), rom[0]);

    let (mmu, _) = bus(false);
    assert_eq!(mmu.read(0x0000), rom[0]);
    assert_eq!(mmu.read(0xFF50), 0);
}

#[test]
fn unmapped_addresses_read_ff() {
    let (mut mmu, _) = bus(false);
    for addr in [0xFEA0u16, 0xFEFF, 0xFF01, 0xFF02, 0xFF03, 0xFF08, 0xFF4C, 0xFF51, 0xFF68, 0xFF7F]
    {
        mmu.write(addr, 0x12);
        assert_eq!(mmu.read(addr), 0xFF);
    }
    // The sound registers take writes and read zero.
    for addr in [0xFF10u16, 0xFF26, 0xFF3F] {
        mmu.write(addr, 0x12);
        assert_eq!(mmu.read(addr), 0x00);
    }
}

#[test]
fn copy_into_attribute_memory() {
    let (mut mmu, _) = bus(false);
    for i in 0..0xA0u16 {
        mmu.write(0xC000 + i, (i as u8) ^ 0x5A);
    }
    mmu.write(0xFF46, 0xC0);
    // 160 machine cycles.
    mmu.step(640);
    for i in 0..0xA0u16 {
        assert_eq!(mmu.read(0xFE00 + i), mmu.read(0xC000 + i));
        assert_eq!(mmu.read(0xFE00 + i), (i as u8) ^ 0x5A);
    }
    // The copy is over: a change of the source no longer shows.
    mmu.write(0xC000, 0xEE);
    mmu.step(640);
    assert_eq!(mmu.read(0xFE00), 0x5A);
}

#[test]
fn copy_moves_one_byte_per_machine_cycle() {
    let (mut mmu, _) = bus(false);
    for i in 0..0xA0u16 {
        mmu.write(0xD000 + i, 0x80 | i as u8);
    }
    mmu.write(0xFF46, 0xD0);
    assert_eq!(mmu.read(0xFE00), 0x00);
    mmu.step(3);
    assert_eq!(mmu.read(0xFE00), 0x00);
    mmu.step(4);
    assert_eq!(mmu.read(0xFE00), 0x80);
    assert_eq!(mmu.read(0xFE01), 0x00);
    mmu.step(8);
    assert_eq!(mmu.read(0xFE02), 0x82);
    assert_eq!(mmu.read(0xFE03), 0x00);
    for _ in 0..157 {
        mmu.step(4);
    }
    assert_eq!(mmu.read(0xFE9F), 0x80 | 0x9F);

    // A copy from the cartridge.
    mmu.write(0xFF46, 0x01);
    mmu.step(1000);
    let rom = image();
    for i in 0..0xA0usize {
        assert_eq!(mmu.read(0xFE00 + i as u16), rom[0x0100 + i]);
    }

    let mut dma = OAMDma::new();
    dma.start(0xC0);
}

#[test]
fn start_button_reads_low_and_interrupts() {
    let (mut mmu, _) = bus(false);
    mmu.write(0xFF0F, 0x00);
    mmu.get_joypad_adapter().pressed(JoypadKey::Start);
    mmu.write(0xFF00, 0x10);
    assert_eq!(mmu.read(0xFF00) & 0x08, 0x00);
    assert_eq!(mmu.read(0xFF00) & 0x07, 0x07);
    assert_eq!(mmu.read(0xFF0F) & 0x10, 0x00);
    mmu.step(4);
    assert_eq!(mmu.read(0xFF0F) & 0x10, 0x10);
    // The request stays until the program clears it.
    mmu.step(4);
    assert_eq!(mmu.read(0xFF0F) & 0x10, 0x10);
    mmu.write(0xFF0F, 0x00);
    mmu.step(4);
    assert_eq!(mmu.read(0xFF0F) & 0x10, 0x00);

    mmu.get_joypad_adapter().released(JoypadKey::Start);
    assert_eq!(mmu.read(0xFF00) & 0x08, 0x08);
    mmu.step(4);
    assert_eq!(mmu.read(0xFF0F) & 0x10, 0x10);
}

#[test]
fn timer_through_the_bus() {
    let (mut mmu, _) = bus(false);
    mmu.write(0xFF06, 0x42);
    mmu.write(0xFF07, 0x05);
    mmu.write(0xFF05, 0xFF);
    assert_eq!(mmu.read(0xFF07), 0xFD);
    assert_eq!(mmu.read(0xFF06), 0x42);
    mmu.write(0xFF0F, 0x00);
    mmu.step(64);
    assert_eq!(mmu.read(0xFF05), 0x42);
    assert_eq!(mmu.read(0xFF0F) & 0x04, 0x04);

    // DIV counts 256 ticks and is cleared by any write.
    let (mut mmu, _) = bus(false);
    mmu.step(255);
    assert_eq!(mmu.read(0xFF04), 0);
    mmu.step(1);
    assert_eq!(mmu.read(0xFF04), 1);
    mmu.step(512);
    assert_eq!(mmu.read(0xFF04), 3);
    mmu.write(0xFF04, 0x77);
    assert_eq!(mmu.read(0xFF04), 0);
}

#[test]
fn pixel_unit_through_the_bus() {
    let (mut mmu, frames) = bus(false);
    mmu.write(0xFF40, 0x91);
    assert_eq!(mmu.read(0xFF40), 0x91);
    mmu.write(0xFF0F, 0x00);
    mmu.step(70224);
    assert_eq!(mmu.read(0xFF44), 0);
    assert_eq!(*frames.borrow(), 1);
    assert_eq!(mmu.read(0xFF0F), 0xE1);
    mmu.write(0xFF42, 0x33);
    assert_eq!(mmu.read(0xFF42), 0x33);
}

#[test]
fn serial_line_sends_on_request() {
    let (mut mmu, _) = bus(false);
    mmu.write(0xFF01, b'O');
    mmu.write(0xFF02, 0x81);
    mmu.write(0xFF01, b'K');
    // Without the request nothing is sent.
    mmu.write(0xFF02, 0x80);
    mmu.write(0xFF02, 0x81);
    mmu.write(0xFF02, 0x81);
    assert_eq!(mmu.take_serial(), vec![b'O', b'K', b'K']);
    assert_eq!(mmu.take_serial(), Vec::<u8>::new());
}
