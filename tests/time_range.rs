use chrono::{TimeZone, Utc};
use todo_schedule::{
    DateTime, DateTimeRange, DateTimeRangeValidationError, Time, TimeRange, TimeRangeValidationError,
};

fn time(hour: usize, minute: usize) -> Time {
    Time::new(hour, minute).unwrap()
}

fn create_time(hour: u32, minute: u32) -> DateTime {
    let t = Utc.with_ymd_and_hms(2022, 1, 1, hour, minute, 0).unwrap();
    DateTime::new(t.timestamp(), t.timestamp_subsec_nanos())
}

#[test]
fn opposite_end_not_allowed() {
    let cases = [
        (time(10, 0), time(11, 0), None),
        (time(10, 0), time(10, 0), Some(TimeRangeValidationError::SameEnd)),
        (time(11, 0), time(10, 0), Some(TimeRangeValidationError::OppositeEnd)),
    ];
    for (start, end, expected) in cases {
        assert_eq!(TimeRange::new(start, end).err(), expected);
    }
}

#[test]
fn opposite_end_not_allowed_when_setting_new_start() {
    let cases = [
        (time(10, 0), None),
        (time(11, 0), None),
        (time(12, 0), Some(TimeRangeValidationError::SameEnd)),
        (time(13, 0), Some(TimeRangeValidationError::OppositeEnd)),
    ];
    for (new_start, expected) in cases {
        let mut range = TimeRange::new(time(11, 0), time(12, 0)).unwrap();
        assert_eq!(range.set_start(new_start).err(), expected);
    }
}

#[test]
fn opposite_end_not_allowed_when_setting_new_end() {
    let cases = [
        (time(10, 0), Some(TimeRangeValidationError::OppositeEnd)),
        (time(11, 0), Some(TimeRangeValidationError::SameEnd)),
        (time(12, 0), None),
        (time(13, 0), None),
    ];
    for (new_end, expected) in cases {
        let mut range = TimeRange::new(time(11, 0), time(12, 0)).unwrap();
        assert_eq!(range.set_end(new_end).err(), expected);
    }
}

#[test]
fn can_check_if_the_range_includes_time() {
    let range = TimeRange::new(time(11, 0), time(13, 0)).unwrap();
    let cases = [
        (time(10, 0), false),
        (time(11, 0), true),
        (time(12, 0), true),
        (time(13, 0), false),
        (time(14, 0), false),
    ];
    for (t, expected) in cases {
        assert_eq!(range.includes(&t), expected);
    }
}

#[test]
fn failed_setters_leave_both_bounds() {
    let mut range = TimeRange::new(time(11, 0), time(12, 0)).unwrap();
    assert!(range.set_start(time(12, 0)).is_err());
    assert!(range.set_start(time(13, 0)).is_err());
    assert!(range.set_end(time(11, 0)).is_err());
    assert!(range.set_end(time(10, 0)).is_err());
    assert_eq!((*range.start(), *range.end()), (time(11, 0), time(12, 0)));
}

#[test]
fn successful_setters_move_one_bound() {
    let mut range = TimeRange::new(time(11, 0), time(12, 0)).unwrap();
    assert!(range.set_start(time(10, 0)).is_ok());
    assert_eq!((*range.start(), *range.end()), (time(10, 0), time(12, 0)));
    assert!(range.set_end(time(13, 0)).is_ok());
    assert_eq!((*range.start(), *range.end()), (time(10, 0), time(13, 0)));
}

#[test]
fn back_to_back_ranges_share_no_instant() {
    let morning = TimeRange::new(time(9, 0), time(12, 0)).unwrap();
    let afternoon = TimeRange::new(time(12, 0), time(15, 0)).unwrap();
    assert!(!morning.includes(&time(12, 0)));
    assert!(afternoon.includes(&time(12, 0)));
    assert!(morning.includes(&time(11, 59)));
}

#[test]
fn validate_range_reports_same_end_first() {
    assert_eq!(TimeRange::validate_range(&time(0, 0), &time(0, 0)), Err(TimeRangeValidationError::SameEnd));
    assert_eq!(TimeRange::validate_range(&time(0, 1), &time(0, 0)), Err(TimeRangeValidationError::OppositeEnd));
    assert_eq!(TimeRange::validate_range(&time(0, 0), &time(23, 59)), Ok(()));
}

#[test]
fn date_time_range_opposite_end_not_allowed() {
    let cases = [
        (create_time(10, 0), create_time(11, 0), None),
        (create_time(10, 0), create_time(10, 0), Some(DateTimeRangeValidationError::SameEnd)),
        (create_time(11, 0), create_time(10, 0), Some(DateTimeRangeValidationError::OppositeEnd)),
    ];
    for (start, end, expected) in cases {
        assert_eq!(DateTimeRange::new(start, end).err(), expected);
    }
}

#[test]
fn date_time_range_setting_new_start() {
    let cases = [
        (create_time(10, 0), None),
        (create_time(11, 0), None),
        (create_time(12, 0), Some(DateTimeRangeValidationError::SameEnd)),
        (create_time(13, 0), Some(DateTimeRangeValidationError::OppositeEnd)),
    ];
    for (new_start, expected) in cases {
        let mut range = DateTimeRange::new(create_time(11, 0), create_time(12, 0)).unwrap();
        assert_eq!(range.set_start(new_start).err(), expected);
    }
}

#[test]
fn date_time_range_setting_new_end() {
    let cases = [
        (create_time(10, 0), Some(DateTimeRangeValidationError::OppositeEnd)),
        (create_time(11, 0), Some(DateTimeRangeValidationError::SameEnd)),
        (create_time(12, 0), None),
        (create_time(13, 0), None),
    ];
    for (new_end, expected) in cases {
        let mut range = DateTimeRange::new(create_time(11, 0), create_time(12, 0)).unwrap();
        assert_eq!(range.set_end(new_end).err(), expected);
    }
}

#[test]
fn date_time_range_includes_time() {
    let range = DateTimeRange::new(create_time(11, 0), create_time(13, 0)).unwrap();
    let cases = [
        (create_time(10, 0), false),
        (create_time(11, 0), true),
        (create_time(12, 0), true),
        (create_time(13, 0), false),
        (create_time(14, 0), false),
    ];
    for (t, expected) in cases {
        assert_eq!(range.includes(&t), expected);
    }
}

#[test]
fn date_times_order_by_seconds_then_nanos() {
    let range = DateTimeRange::new(DateTime::new(-5, 999), DateTime::new(-4, 0)).unwrap();
    assert!(range.includes(&DateTime::new(-5, 999)));
    assert!(range.includes(&DateTime::new(-5, 1_999_999_999)));
    assert!(!range.includes(&DateTime::new(-5, 998)));
    assert!(!range.includes(&DateTime::new(-4, 0)));
    let d = DateTime::new(i64::MIN, u32::MAX);
    assert_eq!((d.seconds(), d.nanos()), (i64::MIN, u32::MAX));
}
