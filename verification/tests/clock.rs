use command_cache::clock::{current_timestamp, millis_of};

#[test]
fn milliseconds_combine_seconds_and_nanoseconds() {
    assert_eq!(millis_of(0, 0), 0);
    assert_eq!(millis_of(1, 2_500_000), 1_002);
    assert_eq!(millis_of(1_700_000_000, 999_999_999), 1_700_000_000_999);
}

#[test]
fn sub_millisecond_remainders_are_dropped() {
    assert_eq!(millis_of(0, 999_999), 0);
    assert_eq!(millis_of(0, 1_000_000), 1);
}

#[test]
fn milliseconds_truncate_to_64_bits() {
    // u64::MAX seconds times 1000 wraps: the result is the low 64 bits of
    // the exact millisecond count, as the protocol's timestamps are.
    assert_eq!(millis_of(u64::MAX, 999_999_999), u64::MAX);
}

#[test]
fn clock_reads_milliseconds_since_epoch() {
    let first = current_timestamp();
    assert!(first > 0);
}
