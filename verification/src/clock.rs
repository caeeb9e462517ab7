use vstd::prelude::*;

verus! {

/// Milliseconds from the Unix epoch to the end of year 9999, the largest
/// timestamp the formatter is asked to render.
pub const MAX_TIMESTAMP_MILLIS: i64 = 253_402_300_799_999;

/// The timestamps the store holds: non-negative and renderable.
pub open spec fn valid_time(t: i64) -> bool {
    0 <= t <= MAX_TIMESTAMP_MILLIS
}

/// Name for the RFC 3339 rendering of a millisecond timestamp; chrono
/// computes it from the timestamp alone.
pub uninterp spec fn rfc3339_of(t: int) -> Seq<char>;

/// Relies on chrono::Utc::now for the current wall-clock time. Nothing is
/// promised of the value: callers clamp it into range themselves.
#[verifier::external_body]
pub fn now_millis() -> i64 {
    chrono::Utc::now().timestamp_millis()
}

/// Forces a raw clock reading into the representable range, leaving readings
/// that are already in range untouched.
pub fn clamp_time(t: i64) -> (r: i64)
    ensures
        valid_time(r),
        valid_time(t) ==> r == t,
{
    if t < 0 {
        0
    } else if t > MAX_TIMESTAMP_MILLIS {
        MAX_TIMESTAMP_MILLIS
    } else {
        t
    }
}

/// Relies on chrono::DateTime::from_timestamp_millis and
/// DateTime::to_rfc3339: defined on the whole representable range, and the
/// rendering is a function of the timestamp alone.
#[verifier::external_body]
pub fn format_rfc3339(t: i64) -> (r: String)
    requires
        valid_time(t),
    ensures
        r@ == rfc3339_of(t as int),
{
    chrono::DateTime::from_timestamp_millis(t).unwrap().to_rfc3339()
}

} // verus!
