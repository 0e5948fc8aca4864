//! Timestamps as unsigned milliseconds since the Unix epoch.

use std::time::{Duration, SystemTime, UNIX_EPOCH};
use vstd::prelude::*;

verus! {

/// `std::time::SystemTime`, carried through unread.
#[verifier::external_type_specification]
#[verifier::external_body]
pub struct ExSystemTime(SystemTime);

/// The time from the Unix epoch to `t`, or `None` where `t` lies before the
/// epoch: what `SystemTime::duration_since` returns for `UNIX_EPOCH`.
pub uninterp spec fn since_epoch(t: SystemTime) -> Option<Duration>;

/// The whole milliseconds that `d` holds: what `Duration::as_millis` returns.
pub uninterp spec fn whole_millis(d: Duration) -> u128;

/// `SystemTime::duration_since`, measured from `UNIX_EPOCH`. The standard
/// library returns the elapsed time, or an error where `t` is earlier than the
/// epoch; the error is mapped to `None`.
#[verifier::external_body]
fn elapsed_since_epoch(t: &SystemTime) -> (elapsed: Option<Duration>)
    ensures
        elapsed == since_epoch(*t),
{
    match t.duration_since(UNIX_EPOCH) {
        Ok(d) => Some(d),
        Err(_) => None,
    }
}

/// `Duration::as_millis` returns the total number of whole milliseconds in the
/// duration.
pub assume_specification[ Duration::as_millis ](d: &Duration) -> (ms: u128)
    ensures
        ms == whole_millis(*d),
;

/// The low 64 bits of a millisecond count.
pub open spec fn low_64(ms: u128) -> u64 {
    (ms % 0x1_0000_0000_0000_0000) as u64
}

/// Narrows a millisecond count to 64 bits, dropping what does not fit.
pub fn duration_to_ms(d: Duration) -> (ms: u64)
    ensures
        ms == low_64(whole_millis(d)),
{
    let total: u128 = d.as_millis();
    (total % 0x1_0000_0000_0000_0000) as u64
}

/// Whether a timestamp reading has a millisecond count: a reading that failed
/// has one (zero), and so has a time at or after the epoch.
pub open spec fn representable(time: Result<SystemTime, std::io::Error>) -> bool {
    time matches Ok(t) ==> since_epoch(t) is Some
}

/// The millisecond count of a timestamp reading: zero where the reading failed,
/// else the whole milliseconds from the epoch to the time, narrowed to 64 bits.
pub open spec fn epoch_ms(time: Result<SystemTime, std::io::Error>) -> u64 {
    match time {
        Ok(t) => low_64(whole_millis(since_epoch(t)->Some_0)),
        Err(_) => 0,
    }
}

/// Turns a timestamp reading into milliseconds since the Unix epoch. A reading
/// that failed counts as zero and never as an error.
pub fn system_time_to_ms(time: Result<SystemTime, std::io::Error>) -> (ms: u64)
    requires
        representable(time),
    ensures
        ms == epoch_ms(time),
        time is Err ==> ms == 0,
{
    match time {
        Ok(t) => {
            match elapsed_since_epoch(&t) {
                Some(d) => duration_to_ms(d),
                None => 0,
            }
        },
        Err(_) => 0,
    }
}

/// As `system_time_to_ms`, for any reading: `None` where the time lies before
/// the epoch and so has no unsigned count.
pub fn checked_system_time_to_ms(time: Result<SystemTime, std::io::Error>) -> (ms: Option<u64>)
    ensures
        ms == if representable(time) {
            Some(epoch_ms(time))
        } else {
            None
        },
{
    let known: bool = match &time {
        Ok(t) => elapsed_since_epoch(t).is_some(),
        Err(_) => true,
    };
    if known {
        Some(system_time_to_ms(time))
    } else {
        None
    }
}

} // verus!
