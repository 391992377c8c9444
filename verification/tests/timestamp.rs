use dat6_kubernetes_controller::timestamp::{Timestamp, EARLIEST_SECS, LATEST_SECS};

fn at(secs: i64, nanos: u32) -> Timestamp {
    Timestamp::new(secs, nanos).unwrap()
}

#[test]
fn range_is_that_of_the_calendar() {
    for (secs, nanos) in [
        (0, 0),
        (EARLIEST_SECS, 0),
        (EARLIEST_SECS - 1, 0),
        (LATEST_SECS, 999_999_999),
        (LATEST_SECS, 1_999_999_999),
        (LATEST_SECS + 1, 0),
        (i64::MIN, 0),
        (i64::MAX, 0),
        (59, 1_000_000_000),
        (59, 1_999_999_999),
        (59, 2_000_000_000),
        (60, 1_000_000_000),
        (-1, 1_500_000_000),
        (-2, 1_500_000_000),
        (0, u32::MAX),
    ] {
        let outside = chrono::DateTime::from_timestamp(secs, nanos);
        let ours = Timestamp::new(secs, nanos);
        assert_eq!(ours.is_some(), outside.is_some());
        if let (Some(ours), Some(outside)) = (ours, outside) {
            assert_eq!(ours.secs(), outside.timestamp());
            assert_eq!(ours.nanos(), outside.timestamp_subsec_nanos());
        }
    }
}

#[test]
fn whole_seconds_are_counted() {
    assert_eq!(at(1_000, 0).seconds_since(&at(900, 0)), 100);
    assert_eq!(at(1_000, 0).seconds_since(&at(900, 1)), 99);
    assert_eq!(at(1_000, 999_999_999).seconds_since(&at(1_000, 0)), 0);
    assert_eq!(at(0, 0).seconds_since(&at(-5, 0)), 5);
    assert_eq!(
        at(LATEST_SECS, 0).seconds_since(&at(EARLIEST_SECS, 0)),
        LATEST_SECS - EARLIEST_SECS
    );
}

#[test]
fn time_ahead_counts_as_zero() {
    assert_eq!(at(900, 0).seconds_since(&at(1_000, 0)), 0);
    assert_eq!(at(900, 0).seconds_since(&at(900, 500)), 0);
}

#[test]
fn leap_seconds_are_counted_within_a_day() {
    // From the middle of a leap second to the next minute.
    assert_eq!(at(61, 0).seconds_since(&at(59, 1_000_000_000)), 2);
    assert_eq!(at(61, 0).seconds_since(&at(59, 1_500_000_000)), 1);
    // Into the leap second.
    assert_eq!(at(59, 1_500_000_000).seconds_since(&at(59, 500_000_000)), 1);
    // Into the leap second of the next day, from later on in the day before.
    assert_eq!(at(86_459, 1_000_000_000).seconds_since(&at(3_600, 0)), 82_859);
    // Out of a leap second, over midnight.
    assert_eq!(at(86_400, 0).seconds_since(&at(59, 1_000_000_000)), 86_340);
}

#[test]
fn time_is_written_as_rfc3339() {
    assert_eq!(at(1_431_648_000, 0).rfc3339(), "2015-05-15T00:00:00+00:00");
    assert_eq!(at(1_431_648_000, 250_000_000).rfc3339(), "2015-05-15T00:00:00.250+00:00");
    assert_eq!(at(0, 1).rfc3339(), "1970-01-01T00:00:00.000000001+00:00");
}

#[test]
fn seconds_never_become_fewer() {
    let since = at(1_000, 700_000_000);
    let mut last: i64 = 0;
    for step in 0..50 {
        let now = at(1_000 + step / 4, (step % 4) as u32 * 250_000_000);
        let secs = now.seconds_since(&since);
        assert!(secs >= last);
        last = secs;
    }
    assert_eq!(last, 11);
}
