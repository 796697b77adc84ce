//! The generation time: read from the system clock, and written as an
//! RFC 2822 date by `chrono`.

use crate::text::optional_text;
use vstd::prelude::*;

verus! {

/// The last second that an RFC 2822 date can name: the end of the year 9999.
pub const LAST_SECOND: i64 = 253_402_300_799;

/// The RFC 2822 date of the instant `secs` seconds and `nanos` nanoseconds
/// after the start of 1970 in UTC, where `chrono` has such an instant.
pub uninterp spec fn rfc2822_of(secs: int, nanos: int) -> Option<Seq<char>>;

/// The generation stamp for a clock reading: its RFC 2822 date, where the
/// reading lies between the start of 1970 and the end of 9999.
pub open spec fn stamp_of(secs: int, nanos: int) -> Option<Seq<char>> {
    if 0 <= secs <= LAST_SECOND {
        rfc2822_of(secs, nanos)
    } else {
        None
    }
}

/// Whether `stamp` is the generation stamp of some clock reading.
pub open spec fn is_stamp(stamp: Seq<char>) -> bool {
    exists|secs: int, nanos: int| #[trigger] stamp_of(secs, nanos) == Some(stamp)
}

/// Reads the system clock with `std::time::SystemTime::now` and measures it
/// from the start of 1970 with `duration_since`: whole seconds, and the
/// nanoseconds within the second. There is no reading where the clock
/// stands before 1970. The call returns on every clock, and nothing is
/// claimed of what it returns.
#[verifier::external_body]
fn clock_now() -> (reading: Option<(u64, u32)>) {
    let elapsed = std::time::SystemTime::now().duration_since(std::time::UNIX_EPOCH);
    elapsed.ok().map(|since| (since.as_secs(), since.subsec_nanos()))
}

/// Makes the instant with `chrono::DateTime::from_timestamp` and writes it
/// with `to_rfc2822`, which panics outside the years 0 to 9999: hence the
/// bound on `secs`. The text depends on the two numbers alone (the date is
/// in UTC, the names of days and months are the English ones); the contract
/// names it.
#[verifier::external_body]
fn rfc2822_at(secs: i64, nanos: u32) -> (text: Option<String>)
    requires
        0 <= secs <= LAST_SECOND,
    ensures
        optional_text(text) == rfc2822_of(secs as int, nanos as int),
{
    chrono::DateTime::from_timestamp(secs, nanos).map(|instant| instant.to_rfc2822())
}

/// The generation stamp for a clock reading, or `None` where the reading
/// cannot be written as an RFC 2822 date.
pub fn stamp_at(secs: i64, nanos: u32) -> (stamp: Option<String>)
    ensures
        optional_text(stamp) == stamp_of(secs as int, nanos as int),
{
    if 0 <= secs && secs <= LAST_SECOND {
        rfc2822_at(secs, nanos)
    } else {
        None
    }
}

/// The generation stamp of the present moment, or `None` where the system
/// clock stands outside the years that an RFC 2822 date can name: before
/// 1970, where the clock has no reading, or after 9999.
pub fn stamp_now() -> (stamp: Option<String>)
    ensures
        stamp matches Some(text) ==> is_stamp(text@),
{
    match clock_now() {
        Some((secs, nanos)) => {
            if secs <= LAST_SECOND as u64 {
                let stamp = stamp_at(secs as i64, nanos);
                proof {
                    if stamp is Some {
                        assert(stamp_of(secs as int, nanos as int) == Some(stamp->0@));
                    }
                }
                stamp
            } else {
                None
            }
        },
        None => None,
    }
}

} // verus!
