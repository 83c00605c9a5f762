//! The wall clock, in whole seconds since the Unix epoch.

use std::time::{Duration, SystemTime, SystemTimeError};
use vstd::prelude::*;

verus! {

#[verifier::external_type_specification]
#[verifier::external_body]
pub struct ExSystemTime(SystemTime);

#[verifier::external_type_specification]
#[verifier::external_body]
pub struct ExSystemTimeError(SystemTimeError);

/// `SystemTime::now`: the current reading of the system clock, of which
/// nothing is known in advance.
pub assume_specification[ SystemTime::now ]() -> (now: SystemTime);

/// `SystemTime::duration_since`: the time elapsed since `earlier`, or an
/// error when `earlier` is later than `time`. Nothing is claimed of either.
pub assume_specification[ SystemTime::duration_since ](
    time: &SystemTime,
    earlier: SystemTime,
) -> (elapsed: Result<Duration, SystemTimeError>);

/// `Duration::as_secs`: the whole seconds of the duration. Nothing is
/// claimed of their number.
pub assume_specification[ Duration::as_secs ](duration: &Duration) -> (secs: u64);

/// `std::time::UNIX_EPOCH`: the instant from which time stamps count.
#[verifier::external_body]
fn unix_epoch() -> (epoch: SystemTime) {
    std::time::UNIX_EPOCH
}

/// The text that `SystemTimeError` displays.
#[verifier::external_body]
fn clock_error_text(error: &SystemTimeError) -> (text: String) {
    format!("{}", error)
}

/// What the system clock says when it stands before the epoch.
#[derive(Debug, Clone, PartialEq, Eq)]
pub struct ClockError {
    text: String,
}

impl View for ClockError {
    type V = Seq<char>;

    closed spec fn view(&self) -> Seq<char> {
        self.text@
    }
}

impl ClockError {
    /// The error that says `text`.
    pub fn new(text: String) -> (error: ClockError)
        ensures
            error@ == text@,
    {
        ClockError { text }
    }

    /// The clock's own words.
    pub fn text(&self) -> (text: &String)
        ensures
            text@ == self@,
    {
        &self.text
    }
}

/// The time stamp for `secs` seconds since the epoch: the same number while
/// it fits, its two's-complement reading beyond that.
pub open spec fn time_stamp_of(secs: u64) -> i64 {
    if secs <= i64::MAX {
        secs as i64
    } else {
        (secs - 0x1_0000_0000_0000_0000) as i64
    }
}

/// Converts a count of seconds since the epoch into a time stamp.
pub fn seconds_to_time_stamp(secs: u64) -> (stamp: i64)
    ensures
        stamp == time_stamp_of(secs),
{
    if secs <= 0x7fff_ffff_ffff_ffff {
        secs as i64
    } else {
        let over: u64 = secs - 0x8000_0000_0000_0000;
        (over as i64) + i64::MIN
    }
}

/// Reads the clock: the time stamp of now, or the clock's own complaint
/// when it stands before the epoch.
pub fn unix_time() -> (now: Result<i64, ClockError>) {
    let now = SystemTime::now();
    match now.duration_since(unix_epoch()) {
        Ok(elapsed) => Ok(seconds_to_time_stamp(elapsed.as_secs())),
        Err(error) => Err(ClockError { text: clock_error_text(&error) }),
    }
}

} // verus!
