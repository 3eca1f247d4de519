//! The two environment readings the core needs: the current Unix time and
//! the rendering of an epoch timestamp as a human-readable UTC string.

use vstd::prelude::*;

verus! {

/// Relies on `std::time::SystemTime::now` and
/// `duration_since(UNIX_EPOCH)`: the current Unix time in whole
/// milliseconds; `None` when the clock reads before the epoch or past the
/// `u64` range.  Nothing can be promised of the value itself.
#[verifier::external_body]
pub(crate) fn now_unix_millis() -> (r: Option<u64>)
{
    let d = std::time::SystemTime::now().duration_since(std::time::UNIX_EPOCH).ok()?;
    u64::try_from(d.as_millis()).ok()
}

/// The UTC rendering chrono gives a millisecond epoch timestamp, for
/// example `1970-01-01 00:00:00 UTC`; `None` where the timestamp is out of
/// chrono's range.
pub uninterp spec fn utc_display_of(millis: i64) -> Option<Seq<char>>;

/// Relies on `chrono::DateTime::<Utc>::from_timestamp_millis` and its
/// `Display`: a function of the millisecond value alone, `None` exactly on
/// out-of-range input.
#[verifier::external_body]
pub(crate) fn format_utc_millis(millis: i64) -> (r: Option<String>)
    ensures
        r is Some <==> utc_display_of(millis) is Some,
        r matches Some(s) ==> utc_display_of(millis) matches Some(d) && s@ == d,
{
    chrono::DateTime::<chrono::Utc>::from_timestamp_millis(millis).map(|dt| dt.to_string())
}

} // verus!
