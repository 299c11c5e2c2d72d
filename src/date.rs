//! Publication dates.
use vstd::prelude::*;

verus! {

/// The first second (0000-01-01T00:00:00Z) that RFC 2822 dates can express.
pub const FIRST_RFC2822_SECOND: i64 = -62167219200;

/// The first second (10000-01-01T00:00:00Z) past the RFC 2822 range.
pub const END_RFC2822_SECOND: i64 = 253402300800;

/// Whether a Unix time falls in a year that RFC 2822 can express (0 to 9999).
pub open spec fn rfc2822_representable(secs: i64) -> bool {
    FIRST_RFC2822_SECOND <= secs < END_RFC2822_SECOND
}

/// The RFC 2822 text of a Unix time in UTC.
pub uninterp spec fn rfc2822_of(secs: int) -> Seq<char>;

/// Relies on chrono's `DateTime::from_timestamp`, which yields a date for every
/// second in the range, and `DateTime::to_rfc2822`, which formats it and panics
/// only for years below 0 or above 9999.
#[verifier::external_body]
pub(crate) fn rfc2822(secs: i64) -> (r: String)
    requires
        rfc2822_representable(secs),
    ensures
        r@ == rfc2822_of(secs as int),
{
    chrono::DateTime::from_timestamp(secs, 0).unwrap_or_default().to_rfc2822()
}

} // verus!
