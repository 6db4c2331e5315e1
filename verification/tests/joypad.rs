use gamebrust::io::joypad::{Joypad, JoypadAdapter, JoypadKey};
use gamebrust::io::{intf_raise, Flag};

#[test]
fn rows_read_active_low() {
    let mut pad = Joypad::new();
    // Nothing held: the buttons are selected at power-on.
    assert_eq!(pad.read(), 0x1F);

    pad.pressed(JoypadKey::Start);
    pad.pressed(JoypadKey::Left);
    // Select the buttons: A, B, select, start in bits 0 to 3.
    pad.write(0x10);
    assert_eq!(pad.read(), 0x17);
    // Select the directions: right, left, up, down in bits 0 to 3.
    pad.write(0x20);
    assert_eq!(pad.read(), 0x2D);
    // Select nothing.
    pad.write(0x30);
    assert_eq!(pad.read(), 0xFF);

    pad.released(JoypadKey::Start);
    pad.write(0x10);
    assert_eq!(pad.read(), 0x1F);
}

#[test]
fn every_key_has_its_bit() {
    let buttons = [
        (JoypadKey::A, 0x1Eu8),
        (JoypadKey::B, 0x1D),
        (JoypadKey::Select, 0x1B),
        (JoypadKey::Start, 0x17),
    ];
    for (key, expected) in buttons {
        let mut pad = Joypad::new();
        pad.pressed(key);
        pad.write(0x10);
        assert_eq!(pad.read(), expected);
        pad.write(0x20);
        assert_eq!(pad.read(), 0x2F);
    }
    let directions = [
        (JoypadKey::Right, 0x2Eu8),
        (JoypadKey::Left, 0x2D),
        (JoypadKey::Up, 0x2B),
        (JoypadKey::Down, 0x27),
    ];
    for (key, expected) in directions {
        let mut pad = Joypad::new();
        pad.pressed(key);
        pad.write(0x20);
        assert_eq!(pad.read(), expected);
        pad.write(0x10);
        assert_eq!(pad.read(), 0x1F);
    }
}

#[test]
fn a_change_of_a_key_latches_the_interrupt_once() {
    let mut pad = Joypad::new();
    assert_eq!(pad.step(), 0);
    pad.pressed(JoypadKey::A);
    assert_eq!(pad.step(), 0x10);
    assert_eq!(pad.step(), 0);
    // A key that is already held changes nothing.
    pad.pressed(JoypadKey::A);
    assert_eq!(pad.step(), 0);
    pad.released(JoypadKey::A);
    assert_eq!(pad.step(), 0x10);
    pad.released(JoypadKey::A);
    assert_eq!(pad.step(), 0);
}

#[test]
fn interrupt_flags_are_single_bits() {
    assert_eq!(intf_raise(0, Flag::VBlank), 0x01);
    assert_eq!(intf_raise(0, Flag::LCDStat), 0x02);
    assert_eq!(intf_raise(0, Flag::Timer), 0x04);
    assert_eq!(intf_raise(0, Flag::Serial), 0x08);
    assert_eq!(intf_raise(0, Flag::Joypad), 0x10);
    assert_eq!(intf_raise(0x05, Flag::LCDStat), 0x07);
    assert_eq!(intf_raise(0x04, Flag::Timer), 0x04);
    assert_eq!(Flag::Joypad.index(), 4);
}
