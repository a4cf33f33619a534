//! Wall-clock reads and timestamp formatting, through the `chrono` crate.

use vstd::prelude::*;

verus! {

/// The text that `format_rfc3339` produces for a given timestamp. The
/// rendering is involved (calendar arithmetic), but it depends on the
/// timestamp alone, so it is only named here.
pub uninterp spec fn rfc3339_of(ts: i64) -> Seq<char>;

/// Relies on `chrono::Utc::now` for the current time, reported as whole
/// seconds since the Unix epoch. Nothing is assumed of the value: every
/// caller must work for an arbitrary timestamp.
#[verifier::external_body]
pub fn now_timestamp() -> (r: i64) {
    chrono::Utc::now().timestamp()
}

/// Relies on `chrono::DateTime::from_timestamp` and
/// `chrono::DateTime::to_rfc3339`: the rendered text is a function of the
/// timestamp alone. A timestamp outside chrono's representable range is
/// rendered as the empty string.
#[verifier::external_body]
pub fn format_rfc3339(ts: i64) -> (r: String)
    ensures
        r@ == rfc3339_of(ts),
{
    match chrono::DateTime::<chrono::Utc>::from_timestamp(ts, 0) {
        Some(dt) => dt.to_rfc3339(),
        None => String::new(),
    }
}

} // verus!
