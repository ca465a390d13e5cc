//! The system clock, as far as the pipeline reads it. Every reading depends on the
//! machine, so nothing is claimed of any.

use std::time::{Duration, SystemTime, SystemTimeError};
use vstd::prelude::*;

verus! {

/// `std::time::SystemTime`: a reading of the system clock. Nothing is known of what
/// a value holds.
#[verifier::external_type_specification]
#[verifier::external_body]
pub struct ExSystemTime(SystemTime);

/// `std::time::SystemTimeError`: says that a second reading lies before the first.
#[verifier::external_type_specification]
#[verifier::external_body]
pub struct ExSystemTimeError(SystemTimeError);

/// `SystemTime` is `Copy`: its `clone` gives the same reading back.
pub assume_specification[ <SystemTime as Clone>::clone ](t: &SystemTime) -> (res: SystemTime)
    ensures
        res == *t,
;

/// `SystemTime::now` reads the clock. Nothing is claimed of the reading.
pub assume_specification[ SystemTime::now ]() -> (t: SystemTime)
;

/// `SystemTime::elapsed` reads the clock and gives the time that has passed since
/// `t`, or an error where the clock now reads earlier than `t`. Nothing is claimed of
/// which it is, nor of the time.
pub assume_specification[ SystemTime::elapsed ](t: &SystemTime) -> (r: Result<
    Duration,
    SystemTimeError,
>)
;

/// `Duration::as_nanos` gives a span of time in nanoseconds. Nothing is claimed of
/// the number.
pub assume_specification[ Duration::as_nanos ](d: &Duration) -> (n: u128)
;

} // verus!
