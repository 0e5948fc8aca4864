use fs_extra::time::{checked_system_time_to_ms, duration_to_ms, system_time_to_ms};
use std::io::{Error, ErrorKind};
use std::time::{Duration, UNIX_EPOCH};

#[test]
fn epoch_is_zero_milliseconds() {
    assert_eq!(system_time_to_ms(Ok(UNIX_EPOCH)), 0);
}

#[test]
fn time_after_epoch_counts_whole_milliseconds() {
    assert_eq!(system_time_to_ms(Ok(UNIX_EPOCH + Duration::from_millis(1500))), 1500);
    assert_eq!(
        system_time_to_ms(Ok(UNIX_EPOCH + Duration::from_secs(1_600_000_000))),
        1_600_000_000_000
    );
}

#[test]
fn fraction_of_a_millisecond_is_dropped() {
    assert_eq!(system_time_to_ms(Ok(UNIX_EPOCH + Duration::new(2, 999_999))), 2000);
    assert_eq!(system_time_to_ms(Ok(UNIX_EPOCH + Duration::new(2, 1_000_000))), 2001);
}

#[test]
fn failed_reading_is_zero() {
    let unsupported = Error::new(ErrorKind::Unsupported, "creation time is not available");
    assert_eq!(system_time_to_ms(Err(unsupported)), 0);
}

#[test]
fn checked_conversion_agrees_on_readable_times() {
    assert_eq!(
        checked_system_time_to_ms(Ok(UNIX_EPOCH + Duration::from_millis(86_400_123))),
        Some(86_400_123)
    );
    assert_eq!(checked_system_time_to_ms(Ok(UNIX_EPOCH)), Some(0));
    let denied = Error::new(ErrorKind::PermissionDenied, "denied");
    assert_eq!(checked_system_time_to_ms(Err(denied)), Some(0));
}

#[test]
fn checked_conversion_refuses_time_before_epoch() {
    assert_eq!(checked_system_time_to_ms(Ok(UNIX_EPOCH - Duration::from_secs(1))), None);
    assert_eq!(checked_system_time_to_ms(Ok(UNIX_EPOCH - Duration::from_nanos(1))), None);
}

#[test]
fn duration_in_milliseconds() {
    assert_eq!(duration_to_ms(Duration::from_millis(42)), 42);
    assert_eq!(duration_to_ms(Duration::new(3, 500_000_000)), 3500);
    assert_eq!(duration_to_ms(Duration::from_nanos(999_999)), 0);
}

#[test]
fn duration_beyond_64_bits_keeps_low_bits() {
    // (2^64 - 1) * 1000 modulo 2^64
    assert_eq!(duration_to_ms(Duration::from_secs(u64::MAX)), 18_446_744_073_709_550_616);
    assert_eq!(duration_to_ms(Duration::from_millis(u64::MAX)), u64::MAX);
}
