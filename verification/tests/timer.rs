use gamebrust::io::timer::{Divider, Timer};

#[test]
fn divider() {
    let mut timer = Timer::new();
    for _i in 0..255 {
        timer.step(1);
    }
    assert_eq!(timer.get_div(), 0);
    timer.step(1);
    assert_eq!(timer.get_div(), 1);
    for _i in 0..1024 {
        timer.step(1);
    }
    assert_eq!(timer.get_div(), 5);
}

#[test]
fn interrupt_trigger() {
    let mut timer = Timer::new();
    let mut int = 0;
    timer.set_tac(0x05);
    timer.set_tima(0);
    for _i in 0..1024 {
        int |= timer.step(4);
    }
    // 1024 machine cycles at a period of 16 are 64 increments: no overflow.
    assert_eq!(int, 0);
    assert_eq!(timer.get_tima(), 64);
}

#[test]
fn tima_overflow_reloads_and_interrupts() {
    let mut timer = Timer::new();
    timer.set_tma(0x42);
    timer.set_tac(0x05);
    timer.set_tima(0xFF);
    let int = timer.step(64);
    assert_eq!(timer.get_tima(), 0x42);
    assert_eq!(int & 0x04, 0x04);
    assert_eq!(timer.get_divider(), Divider::By16);
    assert!(timer.get_enabled());
}

#[test]
fn div_counts_whatever_tac_holds() {
    for tac in [0x00u8, 0x03, 0x04, 0x05, 0x06, 0x07] {
        let mut timer = Timer::new();
        timer.set_tac(tac);
        assert_eq!(timer.step(255), 0);
        assert_eq!(timer.get_div(), 0);
        timer.step(1);
        assert_eq!(timer.get_div(), 1);
        // Several periods in one step.
        timer.step(1000);
        assert_eq!(timer.get_div(), 4);
        timer.step(24);
        assert_eq!(timer.get_div(), 5);
        timer.step(256 * 251);
        assert_eq!(timer.get_div(), 0);
        timer.step(300);
        timer.set_div(0x55);
        assert_eq!(timer.get_div(), 0);
    }
}

#[test]
fn tima_counts_once_per_period() {
    for (tac, period) in [(0x04u8, 1024u32), (0x05, 16), (0x06, 64), (0x07, 256)] {
        let mut timer = Timer::new();
        timer.set_tac(tac);
        timer.set_tima(0);
        assert_eq!(timer.step(4 * period - 4), 0);
        assert_eq!(timer.get_tima(), 0);
        assert_eq!(timer.step(4), 0);
        assert_eq!(timer.get_tima(), 1);
        assert_eq!(timer.step(4 * period * 10), 0);
        assert_eq!(timer.get_tima(), 11);
    }
}

#[test]
fn a_stopped_timer_does_not_count() {
    let mut timer = Timer::new();
    timer.set_tac(0x01);
    assert!(!timer.get_enabled());
    timer.set_tima(0xFF);
    assert_eq!(timer.step(4096), 0);
    assert_eq!(timer.get_tima(), 0xFF);
    assert_eq!(timer.get_div(), 16);
}

#[test]
fn tac_reads_back_and_a_new_period_reloads() {
    let mut timer = Timer::new();
    // At power-on: enabled, a period of 256.
    assert_eq!(timer.get_tac(), 0xFF);
    assert_eq!(timer.get_divider(), Divider::By256);
    for (tac, divider) in [
        (0x00u8, Divider::By1024),
        (0x01, Divider::By16),
        (0x02, Divider::By64),
        (0x03, Divider::By256),
    ] {
        timer.set_tac(tac);
        assert_eq!(timer.get_divider(), divider);
        assert_eq!(timer.get_tac(), 0xF8 | tac);
        timer.set_tac(tac | 0x04);
        assert_eq!(timer.get_tac(), 0xFC | tac);
    }

    let mut timer = Timer::new();
    timer.set_tma(0x80);
    timer.set_tima(0x10);
    // The same period: TIMA stays.
    timer.set_tac(0x07);
    assert_eq!(timer.get_tima(), 0x10);
    // Another period: TIMA is reloaded and the period starts over.
    timer.step(4 * 15);
    timer.set_tac(0x05);
    assert_eq!(timer.get_tima(), 0x80);
    timer.step(4 * 15);
    assert_eq!(timer.get_tima(), 0x80);
    timer.step(4);
    assert_eq!(timer.get_tima(), 0x81);
    assert_eq!(timer.get_tma(), 0x80);
}

#[test]
fn several_overflows_in_one_step() {
    let mut timer = Timer::new();
    timer.set_tma(0xFE);
    timer.set_tac(0x05);
    timer.set_tima(0xFE);
    // Five increments: FE, FF, reload FE, FF, reload FE, FF.
    assert_eq!(timer.step(4 * 16 * 5), 0x04);
    assert_eq!(timer.get_tima(), 0xFF);
}
