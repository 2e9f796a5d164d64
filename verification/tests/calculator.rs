use yearbot::calendar::days_in_year;
use yearbot::calendar::is_leap_year;
use yearbot::calendar::total_hours_in_year;
use yearbot::instant::Instant;
use yearbot::instant::current_instant;
use yearbot::progress::progress_message;
use yearbot::progress::year_progress;

#[test]
fn leap_year_rule() {
    assert!(is_leap_year(2024));
    assert!(!is_leap_year(2023));
    assert!(is_leap_year(2000));
    assert!(!is_leap_year(1900));
    assert!(!is_leap_year(2100));
    assert!(is_leap_year(2400));
}

#[test]
fn days_per_year() {
    assert_eq!(days_in_year(2024), 366);
    assert_eq!(days_in_year(2023), 365);
    assert_eq!(days_in_year(1900), 365);
    assert_eq!(days_in_year(2000), 366);
}

#[test]
fn hours_in_leap_year() {
    assert_eq!(total_hours_in_year(2024), 8784);
    assert_eq!(total_hours_in_year(2000), 8784);
}

#[test]
fn hours_in_common_year() {
    assert_eq!(total_hours_in_year(2023), 8760);
    assert_eq!(total_hours_in_year(1900), 8760);
    assert_eq!(total_hours_in_year(2100), 8760);
}

#[test]
fn from_fields_accepts_valid_instants() {
    let i = Instant::from_fields(2024, 184, 12).unwrap();
    assert_eq!(i.year, 2024);
    assert_eq!(i.day_of_year, 184);
    assert_eq!(i.hour, 12);
    assert!(Instant::from_fields(2024, 366, 23).is_some());
    assert!(Instant::from_fields(2023, 365, 0).is_some());
}

#[test]
fn from_fields_rejects_invalid_instants() {
    assert!(Instant::from_fields(2023, 366, 0).is_none());
    assert!(Instant::from_fields(2024, 367, 0).is_none());
    assert!(Instant::from_fields(2024, 0, 0).is_none());
    assert!(Instant::from_fields(2024, 1, 24).is_none());
    assert!(Instant::from_fields(-1, 1, 0).is_none());
}

#[test]
fn far_years_are_inside_the_model() {
    assert!(Instant::from_fields(0, 1, 0).is_some());
    let i = Instant::from_fields(10000, 184, 12).unwrap();
    // Year 10000 is divisible by 400, hence a leap year of 8784 hours.
    assert_eq!(year_progress(&i).percentage, 50);
}

#[test]
fn midyear_leap_percentage() {
    // 2024-07-02T12:00:00Z: day 184 of 366, leap year.
    let i = Instant::from_fields(2024, 184, 12).unwrap();
    let p = year_progress(&i);
    assert_eq!(p.percentage, 50);
    assert_eq!(p.bar, "\u{2593}\u{2593}\u{2593}\u{2593}\u{2593}\u{2593}\u{2593}\u{2591}\u{2591}\u{2591}\u{2591}\u{2591}\u{2591}\u{2591}\u{2591}");
    assert_eq!(progress_message(&i), "[▓▓▓▓▓▓▓░░░░░░░░] 50%");
}

#[test]
fn bar_is_always_fifteen_cells() {
    for day in [1u32, 90, 184, 270, 365] {
        for hour in [0u32, 11, 23] {
            let i = Instant::from_fields(2023, day, hour).unwrap();
            let p = year_progress(&i);
            assert!(p.percentage <= 100);
            assert_eq!(p.bar.chars().count(), 15);
            let filled = p.bar.chars().filter(|c| *c == '▓').count() as u32;
            assert_eq!(filled, p.percentage * 15 / 100);
        }
    }
}

#[test]
fn year_start_is_zero_percent() {
    let i = Instant::from_fields(2025, 1, 0).unwrap();
    let p = year_progress(&i);
    assert_eq!(p.percentage, 0);
    assert_eq!(progress_message(&i), "[░░░░░░░░░░░░░░░] 0%");
}

#[test]
fn year_end_stays_under_one_hundred() {
    let common = Instant::from_fields(2023, 365, 23).unwrap();
    assert_eq!(year_progress(&common).percentage, 99);
    let leap = Instant::from_fields(2024, 366, 23).unwrap();
    assert_eq!(year_progress(&leap).percentage, 99);
}

#[test]
fn percentage_never_decreases_within_a_year() {
    let mut last: u32 = 0;
    for day in 1..=365u32 {
        let i = Instant::from_fields(2023, day, 12).unwrap();
        let p = year_progress(&i).percentage;
        assert!(p >= last);
        last = p;
    }
}

#[test]
fn calculator_is_idempotent() {
    let i = Instant::from_fields(2024, 184, 12).unwrap();
    let first = progress_message(&i);
    let second = progress_message(&i);
    assert_eq!(first, second);
    let a = year_progress(&i);
    let b = year_progress(&i);
    assert_eq!(a.percentage, b.percentage);
    assert_eq!(a.bar, b.bar);
}

#[test]
fn clock_yields_a_well_formed_instant() {
    let i = current_instant().unwrap();
    assert!(i.year >= 0);
    assert!(i.day_of_year >= 1);
    assert!(i.day_of_year <= days_in_year(i.year));
    assert!(i.hour <= 23);
}
