use night_survival::clock::{tint_for, Tint, DAY_LENGTH_MS};
use night_survival::{DayNight, DayNightEvent};

#[test]
fn new_clock_starts_on_day_one_in_daylight() {
    let c = DayNight::new();
    assert_eq!(c.time_ms, 0);
    assert_eq!(c.day_percent, 70);
    assert_eq!(c.night_percent, 30);
    assert!(!c.is_night);
    assert_eq!(c.day, 1);
}

#[test]
fn night_falls_at_the_daylight_share() {
    let mut c = DayNight::new();
    assert_eq!(c.advance(41_999), None);
    assert!(!c.is_night);
    assert_eq!(c.advance(1), Some(DayNightEvent(true)));
    assert!(c.is_night);
    assert_eq!(c.time_ms, 42_000);
    assert_eq!(c.advance(1_000), None);
    assert!(c.is_night);
}

#[test]
fn a_full_cycle_starts_a_new_day_and_shifts_the_shares() {
    let mut c = DayNight::new();
    c.advance(50_000);
    assert_eq!(c.advance(10_000), Some(DayNightEvent(false)));
    assert_eq!(c.day, 2);
    assert_eq!(c.time_ms, 0);
    assert!(!c.is_night);
    assert_eq!(c.day_percent, 65);
    assert_eq!(c.night_percent, 35);
}

#[test]
fn one_long_step_counts_one_day_only() {
    let mut c = DayNight::new();
    assert_eq!(c.advance(10 * DAY_LENGTH_MS), Some(DayNightEvent(false)));
    assert_eq!(c.day, 2);
    assert_eq!(c.time_ms, 0);
}

#[test]
fn steps_over_a_cycle_give_one_nightfall_and_one_new_day() {
    let mut c = DayNight::new();
    let mut nightfalls = 0;
    let mut new_days = 0;
    for _ in 0..60 {
        match c.advance(1_000) {
            Some(DayNightEvent(true)) => nightfalls += 1,
            Some(DayNightEvent(false)) => new_days += 1,
            None => {}
        }
    }
    assert_eq!(nightfalls, 1);
    assert_eq!(new_days, 1);
    assert_eq!(c.day, 2);
}

#[test]
fn shares_stay_clamped_after_many_cycles() {
    let mut c = DayNight::new();
    for _ in 0..40 {
        c.advance(DAY_LENGTH_MS);
        assert!(c.day_percent >= 10 && c.day_percent <= 90);
        assert!(c.night_percent >= 10 && c.night_percent <= 90);
    }
    assert_eq!(c.day, 41);
    assert_eq!(c.day_percent, 10);
    assert_eq!(c.night_percent, 90);
}

#[test]
fn shortest_day_still_has_a_nightfall() {
    let mut c = DayNight::new();
    for _ in 0..20 {
        c.advance(DAY_LENGTH_MS);
    }
    assert_eq!(c.day_percent, 10);
    assert_eq!(c.advance(5_999), None);
    assert_eq!(c.advance(1), Some(DayNightEvent(true)));
}

#[test]
fn light_ramps_before_nightfall_and_after_dawn() {
    let mut c = DayNight::new();
    assert_eq!(c.light_ramp(), None);
    c.advance(3_000);
    assert_eq!(c.light_ramp(), Some(500));
    c.advance(3_000);
    assert_eq!(c.light_ramp(), Some(1000));
    c.advance(1);
    assert_eq!(c.light_ramp(), None);
    assert_eq!(c.tile_light(), 1000);
    c.advance(39_000 - 6_001);
    assert_eq!(c.time_ms, 39_000);
    assert_eq!(c.light_ramp(), Some(500));
    c.advance(3_000);
    assert_eq!(c.light_ramp(), Some(0));
    c.advance(1);
    assert_eq!(c.light_ramp(), None);
    assert_eq!(c.tile_light(), 0);
}

#[test]
fn tint_blends_from_night_to_white() {
    assert_eq!(tint_for(0), Tint { r: 400, g: 400, b: 700 });
    assert_eq!(tint_for(1000), Tint { r: 1000, g: 1000, b: 1000 });
    assert_eq!(tint_for(500), Tint { r: 700, g: 700, b: 850 });
}

#[test]
fn time_left_in_phase() {
    let mut c = DayNight::new();
    c.advance(2_000);
    assert_eq!(c.phase_time_left_ms(), 40_000);
    c.advance(45_000);
    assert!(c.is_night);
    assert_eq!(c.phase_time_left_ms(), 13_000);
}

#[test]
fn reset_returns_to_the_first_day() {
    let mut c = DayNight::new();
    c.advance(DAY_LENGTH_MS);
    c.advance(50_000);
    c.reset();
    assert_eq!(c, DayNight::new());
}
