//! Wall-clock access.
use std::time::{Duration, SystemTime};
use vstd::prelude::*;

verus! {

/// `std::time::SystemTime`, carried through the library as an opaque timestamp.
#[verifier::external_type_specification]
#[verifier::external_body]
pub struct ExSystemTime(SystemTime);

/// `SystemTime` is `Copy`: its `clone` returns the same time.
pub assume_specification[ <SystemTime as Clone>::clone ](t: &SystemTime) -> (r: SystemTime)
    ensures
        r == *t,
;

/// Calls `SystemTime::now`. The result is the current time, which depends on the
/// machine's clock, so nothing is stated about it.
#[verifier::external_body]
pub fn now() -> (t: SystemTime) {
    SystemTime::now()
}

/// Calls `SystemTime::duration_since` with the Unix epoch: the time elapsed since the
/// epoch, or `None` (its error) when `t` lies before it. `SystemTime` is opaque here, so
/// nothing is stated of the result.
#[verifier::external_body]
pub fn since_epoch(t: &SystemTime) -> (r: Option<Duration>) {
    t.duration_since(std::time::UNIX_EPOCH).ok()
}

/// Calls `SystemTime::duration_since` on the Unix epoch with `t`: the time from `t` to
/// the epoch, or `None` (its error) when `t` lies after it. `SystemTime` is opaque here,
/// so nothing is stated of the result.
#[verifier::external_body]
pub fn until_epoch(t: &SystemTime) -> (r: Option<Duration>) {
    std::time::UNIX_EPOCH.duration_since(*t).ok()
}

/// Calls `Duration::as_millis`, the whole milliseconds of `d`. `Duration` is opaque
/// here, so nothing is stated of the result.
#[verifier::external_body]
pub fn whole_millis(d: &Duration) -> (r: u128) {
    d.as_millis()
}

/// The current time in whole milliseconds since the Unix epoch, or `None` when the
/// clock is set before the epoch.
pub fn epoch_millis() -> (r: Option<u128>) {
    match since_epoch(&now()) {
        Some(d) => Some(whole_millis(&d)),
        None => None,
    }
}

/// The current time in whole milliseconds from the Unix epoch, negative before it
/// (rounded toward the epoch); `None` when it does not fit in an `i64`.
pub fn signed_epoch_millis() -> (r: Option<i64>) {
    let t = now();
    match since_epoch(&t) {
        Some(d) => {
            let ms = whole_millis(&d);
            if ms <= 9_223_372_036_854_775_807u128 {
                Some(ms as i64)
            } else {
                None
            }
        },
        None => match until_epoch(&t) {
            Some(d) => {
                let ms = whole_millis(&d);
                if ms <= 9_223_372_036_854_775_807u128 {
                    Some(-(ms as i64))
                } else {
                    None
                }
            },
            None => None,
        },
    }
}

} // verus!
