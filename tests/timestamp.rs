use workos::timestamp::{Timestamp, TimestampError};

#[test]
fn a_timestamp_reads_every_field() {
    let t = Timestamp::parse("2021-06-25T19:07:33.155Z").unwrap();
    assert_eq!(
        t,
        Timestamp { year: 2021, month: 6, day: 25, hour: 19, minute: 7, second: 33, millisecond: 155 }
    );
    assert_eq!(t.to_text(), "2021-06-25T19:07:33.155Z");
}

#[test]
fn a_timestamp_writes_leading_zeros() {
    let t = Timestamp { year: 7, month: 1, day: 2, hour: 0, minute: 0, second: 9, millisecond: 4 };
    assert_eq!(t.to_text(), "0007-01-02T00:00:09.004Z");
    assert_eq!(Timestamp::parse(&t.to_text()), Ok(t));
}

#[test]
fn other_shapes_are_malformed() {
    for s in [
        "",
        "2021-06-25T19:07:33Z",
        "2021-06-25T19:07:33.155+00:00",
        "2021-06-25 19:07:33.155Z",
        "2021-06-25T19:07:33.155z",
        "2021-6-25T19:07:33.1555Z",
        "2021-06-25T19:07:33.15aZ",
        "2021-06-25T19:07:33.155Z ",
    ] {
        assert_eq!(Timestamp::parse(s), Err(TimestampError::Malformed), "{}", s);
    }
}

#[test]
fn fields_out_of_range_are_refused() {
    for s in [
        "2021-13-01T00:00:00.000Z",
        "2021-00-01T00:00:00.000Z",
        "2021-04-31T00:00:00.000Z",
        "2021-02-29T00:00:00.000Z",
        "1900-02-29T00:00:00.000Z",
        "2021-06-00T00:00:00.000Z",
        "2021-06-25T24:00:00.000Z",
        "2021-06-25T23:60:00.000Z",
        "2021-06-25T23:59:60.000Z",
    ] {
        assert_eq!(Timestamp::parse(s), Err(TimestampError::OutOfRange), "{}", s);
    }
}

#[test]
fn leap_days_are_accepted() {
    assert!(Timestamp::parse("2024-02-29T23:59:59.999Z").is_ok());
    assert!(Timestamp::parse("2000-02-29T00:00:00.000Z").is_ok());
    assert!(Timestamp::parse("9999-12-31T23:59:59.999Z").is_ok());
    assert!(Timestamp::parse("0000-01-01T00:00:00.000Z").is_ok());
}
