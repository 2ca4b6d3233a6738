use tood::calendar::{month_name, Calendar, CalendarState, Month, MONTH_COUNT};
use tood::datetime::{days_in_month, is_leap_year, DateTime};
use tood::timepicker::{PickerFocus, TimePickerState};

#[test]
fn gregorian_month_lengths() {
    assert_eq!(days_in_month(2023, 1), 31);
    assert_eq!(days_in_month(2023, 2), 28);
    assert_eq!(days_in_month(2024, 2), 29);
    assert_eq!(days_in_month(1900, 2), 28);
    assert_eq!(days_in_month(2000, 2), 29);
    assert_eq!(days_in_month(2023, 4), 30);
    assert_eq!(days_in_month(2023, 12), 31);
    assert!(is_leap_year(2024));
    assert!(!is_leap_year(2023));
    assert!(!is_leap_year(1900));
    assert!(is_leap_year(2000));
}

#[test]
fn month_padding_matches_the_weekday_of_the_first() {
    // January 2024 started on a Monday, January 2023 on a Sunday.
    let jan24 = Month::new(2024, 1);
    assert_eq!(jan24.padding, 0);
    let jan23 = Month::new(2023, 1);
    assert_eq!(jan23.padding, 6);
    // May 2023 started on a Monday.
    let may23 = Month::new(2023, 5);
    assert_eq!(may23.padding, 0);
    assert_eq!(may23.num_days(), 31);
    assert_eq!(may23.ym(), (2023, 5));
    assert_eq!(may23.name, "May");
    assert_eq!(month_name(9), "September");
}

#[test]
fn calendar_window_crosses_the_year_boundary() {
    let cal = Calendar::from_start(2023, 11);
    assert_eq!(cal.months.len(), MONTH_COUNT);
    let nums: Vec<u32> = cal.months.iter().map(|m| m.num).collect();
    assert_eq!(nums, vec![11, 12, 1, 2, 3, 4]);
    let years: Vec<i32> = cal.months.iter().map(|m| m.year).collect();
    assert_eq!(years, vec![2023, 2023, 2024, 2024, 2024, 2024]);
    assert_eq!(cal.months[3].days, 29);
    let (i, m) = cal.get_month_and_index_by_num(1).unwrap();
    assert_eq!(i, 2);
    assert_eq!(m.num, 1);
    assert!(cal.get_month_by_index(MONTH_COUNT).is_none());
    assert_eq!(cal.current_month().unwrap().num, 11);
}

#[test]
fn default_day_is_today_only_in_the_current_month() {
    let m = Month::new(2024, 3);
    let now = DateTime { year: 2024, month: 3, day: 17, hour: 8, minute: 0 };
    assert_eq!(m.default_day(now), 17);
    let elsewhere = DateTime { year: 2024, month: 4, day: 17, hour: 8, minute: 0 };
    assert_eq!(m.default_day(elsewhere), 0);
}

#[test]
fn grid_steps_clamp_to_the_month() {
    let mut s = CalendarState::new(1, 31);
    s.right();
    assert_eq!(s.selected_day, 2);
    s.left();
    s.left();
    assert_eq!(s.selected_day, 1);
    s.down();
    assert_eq!(s.selected_day, 8);
    s.up();
    assert_eq!(s.selected_day, 1);
    s.up();
    assert_eq!(s.selected_day, 1);
    for _ in 0..40 {
        s.down();
    }
    assert_eq!(s.selected_day, 31);
}

#[test]
fn month_paging_clamps_to_the_window() {
    let mut s = CalendarState::new(1, 31);
    for _ in 0..10 {
        s.next_month();
    }
    assert_eq!(s.selected_month, MONTH_COUNT - 1);
    for _ in 0..10 {
        s.prev_month();
    }
    assert_eq!(s.selected_month, 0);
}

#[test]
fn set_num_days_clamps_the_selected_day() {
    let mut s = CalendarState::new(31, 31);
    s.set_num_days(28);
    assert_eq!(s.selected_day, 28);
    assert_eq!(s.num_days, 28);
}

#[test]
fn out_of_range_dates_are_refused() {
    assert!(CalendarState::with_date(MONTH_COUNT, 1, 31).is_err());
    assert!(CalendarState::with_date(0, 0, 31).is_err());
    assert!(CalendarState::with_date(0, 32, 31).is_err());
    let ok = CalendarState::with_date(2, 15, 30).unwrap();
    assert_eq!(ok.selected_month, 2);
    assert_eq!(ok.selected_day, 15);
    let mut s = CalendarState::new(1, 30);
    assert!(s.set_date(0).is_err());
    assert!(s.set_date(31).is_err());
    assert!(s.set_date(30).is_ok());
    assert_eq!(s.selected_day, 30);
}

#[test]
fn datetime_check_accepts_only_real_moments() {
    let good = DateTime { year: 2024, month: 2, day: 29, hour: 23, minute: 59 };
    assert!(good.check());
    let bad_day = DateTime { year: 2023, month: 2, day: 29, hour: 0, minute: 0 };
    assert!(!bad_day.check());
    let bad_month = DateTime { year: 2023, month: 13, day: 1, hour: 0, minute: 0 };
    assert!(!bad_month.check());
    let bad_hour = DateTime { year: 2023, month: 1, day: 1, hour: 24, minute: 0 };
    assert!(!bad_hour.check());
}

#[test]
fn time_picker_wraps_hours_and_minutes_independently() {
    let mut t = TimePickerState::with_hm(23, 59);
    t.next();
    assert_eq!(t.hour_minute(), (0, 59));
    t.prev();
    assert_eq!(t.hour_minute(), (23, 59));
    t.toggle_focus();
    assert_eq!(t.focus_state.0, PickerFocus::Minute);
    t.next();
    assert_eq!(t.hour_minute(), (23, 0));
    t.prev();
    assert_eq!(t.hour_minute(), (23, 59));
    t.toggle_focus();
    assert_eq!(t.focus_state.0, PickerFocus::Hour);
}

#[test]
fn calendar_window_starting_in_december() {
    let cal = Calendar::from_start(2024, 12);
    let nums: Vec<u32> = cal.months.iter().map(|m| m.num).collect();
    assert_eq!(nums, vec![12, 1, 2, 3, 4, 5]);
    assert_eq!(cal.months[0].year, 2024);
    assert_eq!(cal.months[5].year, 2025);
}
