//! The wall clock, read as text.

use vstd::prelude::*;

verus! {

/// Whether `ts` ends in the offset of UTC, `+00:00`.
pub open spec fn is_utc_stamp(ts: Seq<char>) -> bool {
    &&& ts.len() >= 6
    &&& ts.subrange(ts.len() - 6, ts.len() as int) == "+00:00"@
}

/// Reads the system clock with `SystemTime::now`, converts the reading with
/// chrono's `DateTime::<Utc>::from` and renders it with
/// `DateTime::to_rfc3339`, for example `2024-05-01T09:30:00.123456789+00:00`.
/// The conversion takes a reading before 1970 like any other; it expects
/// the reading to lie within the years that chrono can represent, about
/// 262,000 either side of 1970.
///
/// Trusted. The value depends on the clock, so two calls may differ. What
/// holds of every outcome: the text is not empty, because the rendering
/// always writes the date, the letter `T` and the time; and it ends in
/// `+00:00`, because the offset of UTC is zero and is written with sign,
/// two digits, a colon and two digits.
#[verifier::external_body]
pub(crate) fn now_rfc3339() -> (ts: String)
    ensures
        ts@.len() > 0,
        is_utc_stamp(ts@),
{
    chrono::DateTime::<chrono::Utc>::from(std::time::SystemTime::now()).to_rfc3339()
}

} // verus!
