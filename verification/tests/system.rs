use gamebrust::cartridge::Cartridge;
use gamebrust::cpu::CPU;
use gamebrust::io::joypad::{JoypadAdapter, JoypadKey};
use gamebrust::{Display, System};
use std::cell::RefCell;
use std::rc::Rc;

struct Counter {
    frames: Rc<RefCell<usize>>,
}

impl Display for Counter {
    fn update(&mut self, _framebuffer: &Vec<u32>) {
        *self.frames.borrow_mut() += 1;
    }
}

struct DummyDisplay {}

impl Display for DummyDisplay {}

/// An image of four banks with `program` at the entry point 0x0100 and the
/// header of a cartridge with the given controller.
fn image(mbc: u8, program: &[u8]) -> Vec<u8> {
    let mut rom = vec![0u8; 0x10000];
    rom[0x147] = mbc;
    rom[0x148] = 0x01;
    rom[0x149] = 0x00;
    for (i, b) in program.iter().enumerate() {
        rom[0x100 + i] = *b;
    }
    rom[0x4000] = 0x5A;
    rom
}

fn system(mbc: u8, program: &[u8], bootroom: bool) -> (System<Counter>, Rc<RefCell<usize>>) {
    let frames = Rc::new(RefCell::new(0));
    let cartridge = Cartridge::from_bytes(image(mbc, program)).unwrap();
    (System::new(cartridge, Counter { frames: frames.clone() }, bootroom), frames)
}

#[test]
fn one_nop_on_an_mbc1_cartridge() {
    let (mut system, _) = system(0x01, &[0x00], false);
    assert_eq!(system.cpu(), CPU::armed());
    assert_eq!(system.step(), 4);
    let mut expected = CPU::armed();
    expected.reg.pc = 0x0101;
    assert_eq!(system.cpu(), expected);
}

#[test]
fn create_system() {
    let cartridge = match Cartridge::from_bytes(image(0x00, &[0x00, 0x00])) {
        Ok(cartridge) => cartridge,
        _ => panic!("Error!"),
    };

    let mut system = System::new(cartridge, DummyDisplay {}, true);

    system.step();

    {
        let joypad = system.get_joypad_adapter();
        joypad.pressed(JoypadKey::Start);
    }

    system.step();
}

#[test]
fn boot_program_leaves_the_armed_state() {
    let (mut system, _) = system(0x00, &[0x00], true);
    assert_eq!(system.cpu(), CPU::new());
    assert_eq!(system.peek(0x0000), 0x31);
    let mut steps = 0;
    let mut ticks = 0;
    while system.cpu().reg.pc != 0x0100 {
        assert_eq!(system.undecodable(), None);
        ticks += system.step();
        steps += 1;
        assert!(steps < 400);
    }
    assert_eq!(system.cpu(), CPU::armed());
    // The overlay is off: the cartridge shows at address 0.
    assert_eq!(system.peek(0x0000), 0x00);
    assert_eq!(system.peek(0xFF50), 0);
    assert_eq!(system.peek(0xFF40), 0x91);
    assert_eq!(system.peek(0xFF47), 0xFC);
    assert!(ticks > 0);
    assert_eq!(system.step(), 4);
    assert_eq!(system.cpu().reg.pc, 0x0101);
}

#[test]
fn devices_move_on_by_the_ticks_of_each_step() {
    // A loop of JR -2: 12 ticks each time round.
    let (mut system, frames) = system(0x00, &[0x18, 0xFE], false);
    let mut ticks = 0;
    while ticks < 70224 {
        ticks += system.step();
    }
    assert_eq!(ticks, 70224);
    assert_eq!(*frames.borrow(), 1);
    assert_eq!(system.peek(0xFF44), 0);
    // DIV has counted 70224 / 256 = 274 times: 18 after wrapping.
    assert_eq!(system.peek(0xFF04), 18);
    assert_eq!(system.peek(0xFF0F) & 0x01, 0x01);
}

#[test]
fn an_interrupt_raised_in_one_step_is_served_in_the_next() {
    // EI; then a loop of JR -2. The timer overflows every 16 machine cycles.
    let (mut system, _) = system(0x00, &[0xFB, 0x18, 0xFE], false);
    system.poke(0xFFFF, 0x04);
    system.poke(0xFF06, 0xFF);
    system.poke(0xFF05, 0xFF);
    system.poke(0xFF07, 0x05);
    system.poke(0xFF0F, 0x00);
    assert_eq!(system.step(), 4);
    let mut served = false;
    for _ in 0..10 {
        let pending = system.peek(0xFF0F) & 0x04 != 0;
        let ticks = system.step();
        if ticks == 20 {
            assert!(pending);
            served = true;
            break;
        }
        assert!(!pending);
    }
    assert!(served);
    assert_eq!(system.cpu().reg.pc, 0x0050);
    assert!(!system.cpu().ime);
    assert_eq!(system.cpu().reg.sp, 0xFFFC);
    assert_eq!(system.peek(0xFFFC), 0x01);
    assert_eq!(system.peek(0xFFFD), 0x01);
}

#[test]
fn a_byte_that_is_no_instruction_is_found_before_the_step() {
    let (system, _) = system(0x00, &[0xD3], false);
    assert_eq!(system.undecodable(), Some((0x0100, 0xD3)));
}

#[test]
fn serial_output_is_handed_to_the_host() {
    // LD A, 'H'; LD (0xFF01), A; LD A, 0x81; LD (0xFF02), A
    let (mut system, _) = system(0x00, &[0x3E, b'H', 0xE0, 0x01, 0x3E, 0x81, 0xE0, 0x02], false);
    for _ in 0..4 {
        system.step();
    }
    assert_eq!(system.take_serial(), vec![b'H']);
    assert_eq!(system.take_serial(), Vec::<u8>::new());
}

#[test]
fn banked_rom_is_reached_through_the_system() {
    // LD A, 0; LD (0x2000), A; LD A, (0x4000)
    let (mut system, _) = system(0x01, &[0x3E, 0x00, 0xEA, 0x00, 0x20, 0xFA, 0x00, 0x40], false);
    for _ in 0..3 {
        system.step();
    }
    assert_eq!(system.cpu().reg.a, 0x5A);
}
