use motosan_agent_primitives::Timestamp;

fn at(secs: i64, nanos: u32) -> Timestamp {
    Timestamp::from_parts(secs, nanos).unwrap()
}

#[test]
fn times_print_as_rfc3339() {
    assert_eq!(at(0, 0).to_rfc3339(), "1970-01-01T00:00:00Z");
    assert_eq!(at(-1, 0).to_rfc3339(), "1969-12-31T23:59:59Z");
    assert_eq!(at(1_700_000_000, 120_000_000).to_rfc3339(), "2023-11-14T22:13:20.120Z");
    assert_eq!(at(0, 1_000).to_rfc3339(), "1970-01-01T00:00:00.000001Z");
    assert_eq!(at(0, 1).to_rfc3339(), "1970-01-01T00:00:00.000000001Z");
    assert_eq!(at(59, 1_000_000_000).to_rfc3339(), "1970-01-01T00:00:60Z");
}

#[test]
fn times_read_back() {
    for time in [
        at(0, 0),
        at(-1, 999_999_999),
        at(59, 1_500_000_000),
        at(-61, 1_500_000_000),
        at(-8_334_601_228_800, 0),
        at(8_210_266_876_799, 1_999_999_999),
        at(253_402_300_800, 0),
        at(-62_167_219_201, 0),
        Timestamp::now(),
    ] {
        assert_eq!(Timestamp::parse_rfc3339(&time.to_rfc3339()), Some(time));
    }
}

#[test]
fn offsets_are_brought_to_utc() {
    assert_eq!(Timestamp::parse_rfc3339("1970-01-01T02:00:00+02:00"), Some(at(0, 0)));
    assert_eq!(Timestamp::parse_rfc3339("1970-01-01 00:00:00Z"), Some(at(0, 0)));
    assert_eq!(Timestamp::parse_rfc3339("1970-01-01"), None);
    assert_eq!(Timestamp::parse_rfc3339(""), None);
}

#[test]
fn unrepresentable_times_are_refused() {
    assert_eq!(Timestamp::from_parts(8_210_266_876_800, 0), None);
    assert_eq!(Timestamp::from_parts(-8_334_601_228_801, 0), None);
    assert_eq!(Timestamp::from_parts(0, 1_000_000_000), None);
    assert_eq!(Timestamp::from_parts(59, 2_000_000_000), None);
    assert_eq!(Timestamp::from_parts(i64::MAX, 0), None);
    assert_eq!(Timestamp::from_parts(i64::MIN, u32::MAX), None);
}

#[test]
fn now_is_after_the_epoch() {
    assert!(Timestamp::now().to_rfc3339() > String::from("2024"));
}

#[test]
fn times_keep_their_parts() {
    let time = at(-61, 1_500_000_000);
    assert_eq!(time.secs(), -61);
    assert_eq!(time.nanos(), 1_500_000_000);
}
