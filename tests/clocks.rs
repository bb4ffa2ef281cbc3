use nrf_monotonic::compare::{compare_delta, rtc_compare_value, RTC_COMPARE_MAX};
use nrf_monotonic::model::{clear_compare, EventFlags};
use nrf_monotonic::rtc_monotonic::RtcMonotonic;
use nrf_monotonic::rtc_monotonic_v2::{calc_now, RtcMono};
use nrf_monotonic::timer_monotonic::NrfMonotonic;

fn overflow() -> EventFlags {
    EventFlags { compare: false, overflow: true, half_period: false }
}

fn quiet() -> EventFlags {
    EventFlags { compare: false, overflow: false, half_period: false }
}

#[test]
fn timer_scenario_across_one_overflow() {
    let mut clock = NrfMonotonic::new();
    clock.reset();
    assert_eq!(clock.now(0xFFFF_FFF0), 0xFFFF_FFF0);
    let mut flags = overflow();
    clock.on_interrupt(&mut flags);
    assert_eq!(flags, quiet());
    assert_eq!(clock.now(5), 0x1_0000_0005);
}

#[test]
fn timer_overflow_accounting() {
    let mut clock = NrfMonotonic::new();
    clock.reset();
    for _ in 0..7 {
        let mut flags = overflow();
        clock.on_interrupt(&mut flags);
    }
    assert_eq!(clock.epoch(), 7 * 0x1_0000_0000);
    assert_eq!(clock.now(42), 7 * 0x1_0000_0000 + 42);
}

#[test]
fn rtc_overflow_accounting() {
    let mut clock = RtcMonotonic::new();
    clock.reset();
    for _ in 0..3 {
        let mut flags = overflow();
        clock.on_interrupt(&mut flags);
    }
    assert_eq!(clock.epoch(), 3 * 0x0100_0000);
    assert_eq!(clock.now(0x12), 3 * 0x0100_0000 + 0x12);
}

#[test]
fn rtc_now_ignores_bits_above_counter() {
    let mut clock = RtcMonotonic::new();
    clock.reset();
    assert_eq!(clock.now(0xFF00_0007), 7);
}

#[test]
fn interrupt_without_overflow_keeps_epoch() {
    let mut clock = NrfMonotonic::new();
    clock.reset();
    let mut flags = EventFlags { compare: true, overflow: false, half_period: false };
    clock.on_interrupt(&mut flags);
    assert_eq!(flags, quiet());
    assert_eq!(clock.epoch(), 0);
    assert_eq!(clock.now(9), 9);
}

#[test]
fn reset_zeroes_epoch() {
    let mut clock = NrfMonotonic::new();
    clock.reset();
    let mut flags = overflow();
    clock.on_interrupt(&mut flags);
    assert_eq!(clock.epoch(), 0x1_0000_0000);
    clock.reset();
    assert_eq!(clock.epoch(), 0);
    assert_eq!(clock.now(3), 3);
}

#[test]
fn timer_now_monotonic_over_samples() {
    let mut clock = NrfMonotonic::new();
    clock.reset();
    let mut last = 0u64;
    let raws = [0u32, 10, 0x8000_0000, 0xFFFF_FFFF];
    for round in 0..3 {
        for raw in raws {
            let t = clock.now(raw);
            assert!(t >= last, "round {} raw {}", round, raw);
            last = t;
        }
        let mut flags = overflow();
        clock.on_interrupt(&mut flags);
    }
}

#[test]
fn compare_clamp_boundaries_timer() {
    let mut clock = NrfMonotonic::new();
    clock.reset();
    let now = 1000u64;
    let max = u32::MAX as u64;
    assert_eq!(clock.set_compare(now - 1, 1000), 1);
    assert_eq!(clock.set_compare(now, 1000), 1);
    assert_eq!(clock.set_compare(now + 1, 1000), 1);
    assert_eq!(clock.set_compare(now + max, 1000), u32::MAX);
    assert_eq!(clock.set_compare(now + max + 1, 1000), u32::MAX);
}

#[test]
fn compare_clamp_boundaries_rtc() {
    let mut clock = RtcMonotonic::new();
    clock.reset();
    let now = 1000u64;
    let max = RTC_COMPARE_MAX as u64;
    assert_eq!(clock.set_compare(now - 1, 1000), 1);
    assert_eq!(clock.set_compare(now, 1000), 1);
    assert_eq!(clock.set_compare(now + 1, 1000), 1);
    assert_eq!(clock.set_compare(now + max, 1000), RTC_COMPARE_MAX);
    assert_eq!(clock.set_compare(now + max + 1, 1000), RTC_COMPARE_MAX);
}

#[test]
fn compare_delta_exact_values() {
    assert_eq!(compare_delta(150, 100, 1000), 50);
    assert_eq!(compare_delta(5000, 100, 1000), 1000);
    assert_eq!(compare_delta(0, u64::MAX, 7), 1);
    assert_eq!(compare_delta(u64::MAX, 0, u64::MAX), u64::MAX);
}

#[test]
fn rtc_fold_of_wide_delay() {
    let mut clock = RtcMonotonic::new();
    clock.reset();
    let now = clock.now(0x100);
    let value = clock.set_compare(now + 0x0100_0005, 0x100);
    assert_eq!(value, (!0x0100_0005u32) & 0x00FF_FFFF);
    assert_eq!(value, 0x00FF_FFFA);
}

#[test]
fn rtc_fold_never_gives_zero() {
    assert_eq!(rtc_compare_value(0x01FF_FFFF, 0), 1);
    assert_eq!(rtc_compare_value(u64::MAX, 0), 1);
}

#[test]
fn elapsed_deadline_gets_one_tick() {
    let mut clock = NrfMonotonic::new();
    clock.reset();
    assert_eq!(clock.now(1000), 1000);
    assert_eq!(clock.set_compare(500, 1000), 1);
    let mut rtc = RtcMonotonic::new();
    rtc.reset();
    assert_eq!(rtc.set_compare(500, 1000), 1);
    let mut mono = RtcMono::new();
    mono.reset();
    assert_eq!(mono.set_compare(500, 1000), 1);
}

#[test]
fn clear_compare_flag_twice() {
    let clock = NrfMonotonic::new();
    let mut flags = EventFlags { compare: true, overflow: true, half_period: false };
    assert!(clock.clear_compare_flag(&mut flags));
    let after_first = flags;
    assert!(!flags.compare);
    assert!(flags.overflow);
    assert!(!clock.clear_compare_flag(&mut flags));
    assert_eq!(flags, after_first);
    assert!(!clear_compare(&mut flags));
    assert_eq!(flags, after_first);
}

#[test]
fn calc_now_even_and_odd_periods() {
    assert_eq!(calc_now(0, 5), 5);
    assert_eq!(calc_now(0, 0x00FF_FFFF), 0x00FF_FFFF);
    assert_eq!(calc_now(1, 0x0080_0005), 0x0080_0005);
    assert_eq!(calc_now(1, 5), 0x0100_0005);
    assert_eq!(calc_now(2, 5), 0x0100_0005);
    assert_eq!(calc_now(3, 0x0080_0000), 0x0180_0000);
}

#[test]
fn rtc_mono_tracks_half_periods() {
    let mut clock = RtcMono::new();
    clock.reset();
    let mut last = 0u64;
    let mut prev = 0u64;
    let mut ticks = 0u64;
    while ticks < 0x0400_0000 {
        let boundary = (ticks / 0x0080_0000) * 0x0080_0000;
        if boundary > prev {
            let wrapped = boundary % 0x0100_0000 == 0;
            let mut flags = EventFlags { compare: false, overflow: wrapped, half_period: !wrapped };
            clock.on_interrupt(&mut flags);
        }
        let t = clock.now((ticks % 0x0100_0000) as u32);
        assert_eq!(t, ticks);
        assert!(t >= last);
        last = t;
        prev = ticks;
        ticks += 0x0001_0001;
    }
    assert_eq!(clock.epoch(), (prev / 0x0080_0000) * 0x0080_0000);
}

#[test]
fn run_state_transitions() {
    let mut clock = RtcMono::new();
    assert!(!clock.is_running());
    clock.enable_timer();
    assert!(!clock.is_running());
    clock.reset();
    assert!(clock.is_running());
    clock.disable_timer();
    assert!(!clock.is_running());
    clock.enable_timer();
    assert!(clock.is_running());

    let mut timer = NrfMonotonic::new();
    timer.reset();
    let mut flags = overflow();
    timer.on_interrupt(&mut flags);
    timer.disable_timer();
    assert!(!timer.is_running());
    assert_eq!(timer.epoch(), 0x1_0000_0000);
    timer.enable_timer();
    assert!(timer.is_running());
    assert_eq!(timer.now(1), 0x1_0000_0001);
}

#[test]
fn scaling_factors() {
    assert_eq!(NrfMonotonic::scaling_factor(), (1, 1_000_000));
    assert_eq!(RtcMonotonic::scaling_factor(), (1, 32_768));
    assert_eq!(RtcMono::scaling_factor(), (1, 32_768));
}
