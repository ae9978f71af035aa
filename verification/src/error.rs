//! Error taxonomy of the codec.
//!
//! Every decode failure is reported through [`Error`]; truncation and
//! timestamp failures carry the [`Field`] at which decoding stopped.

use vstd::prelude::*;

verus! {

/// A field of the wire response, in the order the decoder reads them.
#[derive(Clone, Copy, Debug, PartialEq, Eq, Structural)]
pub enum Field {
    Magic,
    Status,
    FirstSeen,
    LastSeen,
    TotalConn,
    UptimeMin,
    UpModDays,
    LastNat,
    LastChg,
    Distance,
    BadSw,
    OsMatchQ,
    OsName,
    OsFlavor,
    HttpName,
    HttpFlavor,
    LinkType,
    Language,
}

/// Everything that can go wrong between a query and a decoded record.
#[derive(Clone, Copy, Debug, PartialEq, Eq, Structural)]
pub enum Error {
    /// The transport failed; raised by the connection layer, never by the codec.
    Io,
    /// The response does not open with the response magic constant.
    InvalidMagic,
    /// The daemon judged the query itself malformed.
    BadQuery,
    /// A decoded timestamp cannot be represented as a calendar date.
    TimestampOutOfRange(Field),
    /// The buffer ended before the named field could be read.
    MissingData(Field),
    /// A status, mismatch or match-quality code outside its closed set.
    UnrecognizedCode(Field),
}

} // verus!
