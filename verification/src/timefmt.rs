//! Display of epoch timestamps, delegated to the calendar library.

use vstd::prelude::*;

verus! {

/// The display of the epoch second `ts` as a UTC calendar date and
/// time. The rendering is a fixed function of the timestamp alone.
pub uninterp spec fn utc_display_of(ts: int) -> Seq<char>;

/// Relies on chrono's `DateTime::from_timestamp` and its
/// `%Y-%m-%d %H:%M:%S UTC` formatting: the rendering depends on the
/// timestamp alone, and `from_timestamp` answers nothing only for an
/// out-of-range number of seconds.
#[verifier::external_body]
pub fn format_timestamp(ts: i64) -> (r: Option<String>)
    ensures
        r matches Some(s) ==> s@ == utc_display_of(ts as int),
{
    chrono::DateTime::from_timestamp(ts, 0).map(|dt| dt.format("%Y-%m-%d %H:%M:%S UTC").to_string())
}

} // verus!
