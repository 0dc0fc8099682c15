use limonium::date::{ClockError, Date};

#[test]
fn from_parts_knows_the_calendar() {
    assert!(Date::from_parts(2024, 2, 29).is_some());
    assert!(Date::from_parts(2023, 2, 29).is_none());
    assert!(Date::from_parts(1900, 2, 29).is_none());
    assert!(Date::from_parts(2000, 2, 29).is_some());
    assert!(Date::from_parts(2023, 4, 31).is_none());
    assert!(Date::from_parts(2023, 0, 1).is_none());
    assert!(Date::from_parts(2023, 13, 1).is_none());
    assert!(Date::from_parts(2023, 1, 0).is_none());
    assert!(Date::from_parts(-1, 1, 1).is_none());
    assert!(Date::from_parts(10000, 1, 1).is_none());
    assert_eq!(Date::from_parts(0, 1, 1), Some(Date { year: 0, month: 1, day: 1 }));
    assert_eq!(Date::from_parts(9999, 12, 31), Some(Date { year: 9999, month: 12, day: 31 }));
}

#[test]
fn days_since_counts_whole_days() {
    let d = |y, m, day| Date::from_parts(y, m, day).unwrap();
    assert_eq!(d(2014, 1, 1).days_since(&d(2014, 1, 1)), 0);
    assert_eq!(d(2014, 1, 1).days_since(&d(2013, 12, 31)), 1);
    assert_eq!(d(2014, 1, 1).days_since(&d(2014, 1, 2)), -1);
    assert_eq!(d(2014, 1, 1).days_since(&d(2013, 9, 23)), 100);
    assert_eq!(d(2014, 1, 1).days_since(&d(2010, 1, 1)), 365 * 4 + 1);
    assert_eq!(d(2014, 1, 1).days_since(&d(1614, 1, 1)), 365 * 400 + 97);
    assert_eq!(d(1, 1, 1).days_since(&d(0, 1, 1)), 366);
    assert_eq!(d(9999, 12, 31).days_since(&d(0, 1, 1)), 3652424);
}

#[test]
fn today_is_a_date_of_the_calendar() {
    let local = Date::today_local().expect("the clock is within the years 0 to 9999");
    let utc = Date::today_utc().expect("the clock is within the years 0 to 9999");
    assert_eq!(Date::from_parts(local.year as i32, local.month, local.day), Some(local));
    assert_eq!(Date::from_parts(utc.year as i32, utc.month, utc.day), Some(utc));
    assert!(local.year >= 2024);
    assert!(local.days_since(&utc).abs() <= 1);
}

#[test]
fn the_clock_gives_a_date_or_its_year() {
    assert_eq!(Date::from_clock(2024, 2, 29), Ok(Date { year: 2024, month: 2, day: 29 }));
    assert_eq!(Date::from_clock(0, 1, 1), Ok(Date { year: 0, month: 1, day: 1 }));
    assert_eq!(Date::from_clock(9999, 12, 31), Ok(Date { year: 9999, month: 12, day: 31 }));
    assert_eq!(Date::from_clock(10000, 1, 1), Err(ClockError { year: 10000 }));
    assert_eq!(Date::from_clock(-1, 12, 31), Err(ClockError { year: -1 }));
    assert_eq!(Date::from_clock(-4, 2, 29), Err(ClockError { year: -4 }));
}
