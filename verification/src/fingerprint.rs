//! The decoded fingerprint record and its value types.
//!
//! Timestamps and durations are held as plain seconds so that every field of
//! a decoded record is an exact function of the wire bytes; conversion to a
//! calendar type is left to the caller.

use vstd::prelude::*;
use crate::error::{Error, Field};

verus! {

/// Whether chrono can represent `secs` seconds since the Unix epoch as a
/// calendar date. A fixed property of the chrono library, named here so that
/// contracts can speak of it.
pub uninterp spec fn chrono_in_range(secs: int) -> bool;

/// Relies on chrono's `DateTime::<Utc>::from_timestamp`: it returns `Some`
/// exactly when the seconds value is representable as a calendar date. Its
/// calendar spans the years -262143 to 262142, so every value that fits in
/// 32 bits is representable, and values of 2^48 seconds or more past the
/// epoch (or before it) are not: their day count overflows the `i32` day
/// number that chrono's dates are built from.
#[verifier::external_body]
fn chrono_accepts_secs(secs: i64) -> (r: bool)
    ensures
        r <==> chrono_in_range(secs as int),
        0 <= secs <= 0xFFFF_FFFFi64 ==> r,
        secs >= 0x1_0000_0000_0000i64 ==> !r,
        secs <= -0x1_0000_0000_0000i64 ==> !r,
{
    chrono::DateTime::<chrono::Utc>::from_timestamp(secs, 0).is_some()
}

/// An absolute point in time: whole seconds since the Unix epoch, already
/// checked to be representable as a calendar date.
#[derive(Clone, Copy, Debug, PartialEq, Eq, Structural)]
pub struct Timestamp {
    pub secs: i64,
}

impl Timestamp {
    /// A timestamp is only ever built from a representable seconds value.
    pub open spec fn valid(self) -> bool {
        chrono_in_range(self.secs as int)
    }

    /// Builds a timestamp from epoch seconds, or `None` when the value lies
    /// outside the representable calendar range.
    pub fn from_secs(secs: i64) -> (r: Option<Timestamp>)
        ensures
            r is Some <==> chrono_in_range(secs as int),
            r matches Some(t) ==> t.secs == secs && t.valid(),
            0 <= secs <= 0xFFFF_FFFFi64 ==> r is Some,
            secs >= 0x1_0000_0000_0000i64 ==> r is None,
            secs <= -0x1_0000_0000_0000i64 ==> r is None,
    {
        if chrono_accepts_secs(secs) {
            Some(Timestamp { secs })
        } else {
            None
        }
    }
}

/// A span of time in whole seconds.
#[derive(Clone, Copy, Debug, PartialEq, Eq, Structural)]
pub struct Duration {
    pub secs: u64,
}

/// The daemon's software-mismatch indicator: the application-level software
/// does not look like the OS the packets came from.
#[derive(Clone, Copy, Debug, PartialEq, Eq, Structural)]
pub enum BadSw {
    OsDifference,
    OutrightMismatch,
}

/// How confident the daemon is in its OS match.
#[derive(Clone, Copy, Debug, PartialEq, Eq, Structural)]
pub enum OsMatchQuality {
    Normal,
    Fuzzy,
    Generic,
    FuzzyGeneric,
}

/// A successful lookup, decoded from the wire: when the daemon has seen the
/// address, every observation it reports about it.
#[derive(Clone, Debug, PartialEq, Eq)]
pub struct Response {
    pub first_seen: Timestamp,
    pub last_seen: Timestamp,
    pub total_conn: u32,
    pub uptime_min: Option<Duration>,
    pub up_mod_days: Duration,
    pub last_nat: Option<Timestamp>,
    pub last_chg: Option<Timestamp>,
    pub distance: Option<i16>,
    pub bad_sw: Option<BadSw>,
    pub os_match_q: OsMatchQuality,
    pub os_name: Option<String>,
    pub os_flavor: Option<String>,
    pub http_name: Option<String>,
    pub http_flavor: Option<String>,
    pub link_type: Option<String>,
    pub language: Option<String>,
}

impl Response {
    /// Every timestamp in a decoded record lies in the representable range.
    pub open spec fn valid(self) -> bool {
        &&& self.first_seen.valid()
        &&& self.last_seen.valid()
        &&& (self.last_nat matches Some(t) ==> t.valid())
        &&& (self.last_chg matches Some(t) ==> t.valid())
    }
}

} // verus!
