use pomodoro_timer::clock::{date_string, days_in_month, first_weekday, is_leap};

#[test]
fn first_weekday_of_known_months() {
    assert_eq!(first_weekday(2024, 1), 1);
    assert_eq!(first_weekday(2024, 9), 0);
    assert_eq!(first_weekday(2000, 2), 2);
    assert_eq!(first_weekday(1, 1), 1);
}

#[test]
fn leap_years_and_month_lengths() {
    assert!(is_leap(2000));
    assert!(!is_leap(1900));
    assert!(is_leap(2024));
    assert_eq!(days_in_month(2024, 2), 29);
    assert_eq!(days_in_month(2023, 2), 28);
    assert_eq!(days_in_month(2023, 4), 30);
    assert_eq!(days_in_month(2023, 13), 30);
}

#[test]
fn date_string_pads_and_signs() {
    assert_eq!(date_string(2024, 3, 5), "2024-03-05");
    assert_eq!(date_string(-1, 1, 1), "-001-01-01");
}
