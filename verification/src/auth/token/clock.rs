//! The system clock, and dates as text.
use vstd::prelude::*;

verus! {

/// No timestamp that the clock gives is later than this: the last second
/// of the last day whose number fits in 32 bits.
pub const LATEST_TIMESTAMP: i64 = 2_147_483_647 * 86_400 + 86_399;

/// The text of a timestamp as `chrono` writes it in UTC with the format
/// `%H:%M:%S %d-%m-%Y`, where the timestamp lies within the dates that
/// `chrono` can hold.
pub uninterp spec fn timestamp_text(timestamp: i64) -> Option<Seq<char>>;

/// Reads `chrono::Utc::now().timestamp()`: the seconds since the Unix epoch
/// by the system clock.
///
/// Claimed of it: the value is at most [`LATEST_TIMESTAMP`]. `Utc::now`
/// returns only what `DateTime::from_timestamp` accepts, and that refuses
/// seconds whose day, counted from the year 1, does not fit in 32 bits.
#[verifier::external_body]
pub(crate) fn current_timestamp() -> (now: i64)
    ensures
        now <= LATEST_TIMESTAMP,
{
    chrono::Utc::now().timestamp()
}

/// Makes a date of a timestamp with `chrono::DateTime::from_timestamp` and
/// formats it in UTC as `%H:%M:%S %d-%m-%Y`.
///
/// Claimed of it: the text depends on the timestamp alone, and there is
/// none where `from_timestamp` refuses the timestamp.
#[verifier::external_body]
pub(crate) fn format_timestamp(timestamp: i64) -> (r: Option<String>)
    ensures
        match r {
            Some(text) => timestamp_text(timestamp) == Some(text@),
            None => timestamp_text(timestamp) is None,
        },
{
    let date = chrono::DateTime::from_timestamp(timestamp, 0)?;
    Some(date.format("%H:%M:%S %d-%m-%Y").to_string())
}

} // verus!
