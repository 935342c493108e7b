//! The wall clock, read through `chrono`.

use crate::text::is_timestamp;
use vstd::prelude::*;

verus! {

/// The current instant in UTC as text.
///
/// Reads the clock with `std::time::SystemTime::now`, turns the reading into
/// a `chrono::DateTime<Utc>` with chrono's `From<SystemTime>`, and renders it
/// with the `Display` impl of `DateTime<Utc>`, as in
/// `2024-01-15 12:34:56.789123456 UTC`.
///
/// Trusted, not proved: the text is a year (four digits, or a sign and four
/// digits or more), `-MM-DD HH:MM:SS` in two-digit fields, nothing or a dot
/// with three, six or nine digits, and ` UTC`. Nothing is claimed of the
/// instant, so two calls may return any two such texts.
///
/// A clock that reads a time before 1970 is converted like any other. The
/// conversion fails only for an instant outside the years that chrono can
/// hold, -262143 to 262142.
#[verifier::external_body]
pub(crate) fn utc_now() -> (stamp: String)
    ensures
        is_timestamp(stamp@),
{
    chrono::DateTime::<chrono::Utc>::from(std::time::SystemTime::now()).to_string()
}

} // verus!
