use timeslots::record::OutputRecord;
use timeslots::record::TimeRecord;
use timeslots::record::EARLIEST_EPOCH_SECOND;
use timeslots::record::LATEST_EPOCH_SECOND;

#[test]
fn record_keeps_its_instant_and_offset() {
    let record = TimeRecord::new(1_451_592_360, 39_600).unwrap();
    assert_eq!(record.epoch_seconds(), 1_451_592_360);
    assert_eq!(record.offset_seconds(), 39_600);
}

#[test]
fn record_is_rendered_at_its_own_offset() {
    let record = TimeRecord::new(1_451_592_360, 39_600).unwrap();
    assert_eq!(
        record.to_output(),
        OutputRecord { time: String::from("2016-01-01T07:06:00+11:00") }
    );
}

#[test]
fn same_instant_reads_differently_at_another_offset() {
    let west = TimeRecord::new(1_451_592_360, -25_200).unwrap();
    assert_eq!(west.to_output().time, "2015-12-31T13:06:00-07:00");
    let half = TimeRecord::new(1_451_592_360, 19_800).unwrap();
    assert_eq!(half.to_output().time, "2016-01-01T01:36:00+05:30");
}

#[test]
fn zero_offset_is_written_out_in_numbers() {
    let record = TimeRecord::new(1_451_592_360, 0).unwrap();
    assert_eq!(record.to_output().time, "2015-12-31T20:06:00+00:00");
}

#[test]
fn offset_is_written_with_two_digits_each() {
    let east = TimeRecord::new(1_451_592_360, 3_660).unwrap();
    assert_eq!(east.to_output().time, "2015-12-31T21:07:00+01:01");
    let west = TimeRecord::new(1_451_592_360, -34_200).unwrap();
    assert_eq!(west.to_output().time, "2015-12-31T10:36:00-09:30");
    let small = TimeRecord::new(1_451_592_360, -60).unwrap();
    assert_eq!(small.to_output().time, "2015-12-31T20:05:00-00:01");
}

#[test]
fn leap_day_is_rendered() {
    let record = TimeRecord::new(1_456_704_000, 3_600).unwrap();
    assert_eq!(record.to_output().time, "2016-02-29T01:00:00+01:00");
}

#[test]
fn bounds_of_the_instant_are_inclusive() {
    assert_eq!(EARLIEST_EPOCH_SECOND, 86_400);
    assert_eq!(LATEST_EPOCH_SECOND, 253_402_214_399);
    assert!(TimeRecord::new(EARLIEST_EPOCH_SECOND, 0).is_some());
    assert!(TimeRecord::new(LATEST_EPOCH_SECOND, 0).is_some());
    assert!(TimeRecord::new(EARLIEST_EPOCH_SECOND - 1, 0).is_none());
    assert!(TimeRecord::new(LATEST_EPOCH_SECOND + 1, 0).is_none());
    assert!(TimeRecord::new(i64::MIN, 0).is_none());
    assert!(TimeRecord::new(i64::MAX, 0).is_none());
}

#[test]
fn extreme_records_are_rendered() {
    let first = TimeRecord::new(EARLIEST_EPOCH_SECOND, -86_340).unwrap();
    assert_eq!(first.to_output().time, "1970-01-01T00:01:00-23:59");
    let last = TimeRecord::new(LATEST_EPOCH_SECOND, 86_340).unwrap();
    assert_eq!(last.to_output().time, "9999-12-31T23:58:59+23:59");
}

#[test]
fn offset_must_be_whole_minutes_within_a_day() {
    assert!(TimeRecord::new(1_451_592_360, 60).is_some());
    assert!(TimeRecord::new(1_451_592_360, -60).is_some());
    assert!(TimeRecord::new(1_451_592_360, 30).is_none());
    assert!(TimeRecord::new(1_451_592_360, -39_601).is_none());
    assert!(TimeRecord::new(1_451_592_360, 86_340).is_some());
    assert!(TimeRecord::new(1_451_592_360, -86_340).is_some());
    assert!(TimeRecord::new(1_451_592_360, 86_400).is_none());
    assert!(TimeRecord::new(1_451_592_360, -86_400).is_none());
    assert!(TimeRecord::new(1_451_592_360, i32::MIN).is_none());
    assert!(TimeRecord::new(1_451_592_360, i32::MAX).is_none());
}
