//! Timer behaviour: DIV advance, TIMA periods for each TAC select, and the
//! TIMA overflow reload that requests the TIMER interrupt.

use rusty_gb::context::InterruptType;
use rusty_gb::timer::Timer;

fn test_tima_update(ticks: u16, old_timer: &Timer, expected_tima_increment: u8) {
    let mut timer = old_timer.clone();

    for tick in 1..ticks {
        assert!(timer.timer_tick().is_none());

        let expected = Timer {
            div: old_timer.div + tick,
            ..*old_timer
        };
        assert_eq!(timer, expected, "tick={}", tick);
    }
    assert!(timer.timer_tick().is_none());

    let expected = Timer {
        div: old_timer.div + ticks,
        tima: expected_tima_increment + old_timer.tima,
        ..*old_timer
    };
    assert_eq!(timer, expected, "tick={}", ticks);
}

fn test_interrupt(ticks: usize, timer: &mut Timer, expected_interrupt: Option<InterruptType>) {
    let old_timer = timer.clone();

    for _ in 1..ticks {
        assert!(timer.timer_tick().is_none());
    }

    assert!(timer.timer_tick().eq(&expected_interrupt));

    let expected = Timer {
        div: ((old_timer.div as usize) + ticks) as u16,
        tima: old_timer.tma,
        ..old_timer
    };
    assert_eq!(*timer, expected);
}

#[test]
fn timer_ticks_disabled() {
    let mut timer = Timer::new();
    timer.tac = 0b11;
    test_tima_update(1, &timer, 0);
}

#[test]
fn tima_div_16() {
    let mut timer = Timer::new();
    timer.tac = 0b101;

    test_tima_update(15, &timer, 0);
}

#[test]
fn tima_div_64() {
    let mut timer = Timer::new();
    timer.tac = 0b110;

    test_tima_update(64, &timer, 1);
}

#[test]
fn tima_div_256() {
    let mut timer = Timer::new();
    timer.tac = 0b111;

    test_tima_update(256, &timer, 1);
}

#[test]
fn tima_div_1024() {
    let mut timer = Timer::new();
    timer.tac = 0b100;

    test_tima_update(1024, &timer, 1);
}

// TIMA reloads from TMA when an increment overflows past $FF, so a full
// period of 256 increments separates interrupts ($100 rather than $FF, and
// $10 once TMA is $F0).

#[test]
fn tima_div_16_interrupt() {
    let mut timer = Timer::new();
    timer.tac = 0b101;

    let mut ticks = 0x10 * 0x100;
    test_interrupt(ticks, &mut timer, Some(InterruptType::TIMER));

    timer.tma = 0xF0;
    test_interrupt(ticks, &mut timer, Some(InterruptType::TIMER));

    ticks = 0x10 * 0x10;
    test_interrupt(ticks, &mut timer, Some(InterruptType::TIMER));
}

#[test]
fn tima_div_64_interrupt() {
    let mut timer = Timer::new();
    timer.tac = 0b110;

    let mut ticks = 64 * 0x100;

    test_interrupt(ticks, &mut timer, Some(InterruptType::TIMER));

    timer.tma = 0xF0;
    test_interrupt(ticks, &mut timer, Some(InterruptType::TIMER));

    ticks = 64 * 0x10;
    test_interrupt(ticks, &mut timer, Some(InterruptType::TIMER));
}

#[test]
fn tima_div_256_interrupt() {
    let mut timer = Timer::new();
    timer.tac = 0b111;

    let mut ticks = 256 * 0x100;

    test_interrupt(ticks, &mut timer, Some(InterruptType::TIMER));
    timer.tma = 0xF0;
    test_interrupt(ticks, &mut timer, Some(InterruptType::TIMER));

    ticks = 256 * 0x10;
    test_interrupt(ticks, &mut timer, Some(InterruptType::TIMER));
}

#[test]
fn tima_div_1024_interrupt() {
    let mut timer = Timer::new();
    timer.tac = 0b100;

    let mut ticks = 1024 * 0x100;

    test_interrupt(ticks, &mut timer, Some(InterruptType::TIMER));
    timer.tma = 0xF0;
    test_interrupt(ticks, &mut timer, Some(InterruptType::TIMER));

    ticks = 1024 * 0x10;
    test_interrupt(ticks, &mut timer, Some(InterruptType::TIMER));
}

#[test]
fn tima_overflow_reloads_tma() {
    // TIMA at $FF: the very next TIMA advance reloads TMA and reports the
    // TIMER interrupt.
    let mut timer = Timer {
        div: 0,
        tima: 0xFF,
        tma: 0x42,
        tac: 0b101,
    };
    for _ in 0..15 {
        assert!(timer.timer_tick().is_none());
    }
    assert_eq!(timer.timer_tick(), Some(InterruptType::TIMER));
    assert_eq!(timer.tima, 0x42);
}

#[test]
fn div_write_resets_and_reads_high_byte() {
    let mut timer = Timer::new();
    assert_eq!(timer.timer_read(0xFF04), 0xAC);
    timer.timer_write(0xFF04, 0x77);
    assert_eq!(timer.div, 0);
    assert_eq!(timer.timer_read(0xFF04), 0);
    timer.timer_write(0xFF05, 0x12);
    timer.timer_write(0xFF06, 0x34);
    timer.timer_write(0xFF07, 0x05);
    assert_eq!(timer.timer_read(0xFF05), 0x12);
    assert_eq!(timer.timer_read(0xFF06), 0x34);
    assert_eq!(timer.timer_read(0xFF07), 0x05);
}
