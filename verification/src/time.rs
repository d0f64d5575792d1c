//! Access to the wall clock and to the human-readable rendering of
//! timestamps, behind the narrowest possible trusted surface.
use vstd::prelude::*;
use crate::subject::MAX_TIMESTAMP;

verus! {

/// The RFC 3339 rendering of a seconds-resolution Unix timestamp. It is a
/// function of the timestamp alone.
pub uninterp spec fn rfc3339_of(t: int) -> Seq<char>;

/// Relies on chrono's `DateTime::from_timestamp` and `DateTime::to_rfc3339`:
/// a timestamp inside the supported calendar range (the precondition keeps it
/// there, so the conversion cannot return `None`) renders as its RFC 3339
/// text, which depends on the timestamp alone.
#[verifier::external_body]
pub(crate) fn format_rfc3339(t: u64) -> (r: String)
    requires
        t <= MAX_TIMESTAMP,
    ensures
        r@ == rfc3339_of(t as int),
{
    match chrono::DateTime::from_timestamp(t as i64, 0) {
        Some(stamp) => stamp.to_rfc3339(),
        None => String::new(),
    }
}

/// Relies on chrono's `Utc::now`: the clock's current reading as Unix
/// seconds. Nothing can be promised of what the clock returns.
#[verifier::external_body]
fn current_unix_time() -> (t: i64) {
    chrono::Utc::now().timestamp()
}

/// Reads the wall clock and clamps the reading into the timestamp range every
/// store operation accepts, whatever the clock returned.
pub fn current_timestamp() -> (t: u64)
    ensures
        t <= MAX_TIMESTAMP,
{
    let raw = current_unix_time();
    if raw < 0 {
        0
    } else if raw as u64 > MAX_TIMESTAMP {
        MAX_TIMESTAMP
    } else {
        raw as u64
    }
}

} // verus!
