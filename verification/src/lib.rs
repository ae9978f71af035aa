//! Client-side codec for the p0f daemon's binary query protocol.
//!
//! The daemon answers a fixed 21-byte query record with a fixed 232-byte
//! response record. This crate builds the query for an IP address and decodes
//! the response into a structured fingerprint record, validating the magic
//! number, the status code and every closed enumeration on the way.

pub mod cursor;
pub mod error;
pub mod fingerprint;
pub mod request;
pub mod response;
pub mod wire;

use vstd::prelude::*;

verus! {

/// Magic constant opening every query record.
pub const REQUEST_MAGIC: u32 = 0x50304601;

/// Magic constant opening every response record.
pub const RESPONSE_MAGIC: u32 = 0x50304602;

/// Total size of an encoded query record, in bytes.
pub const REQUEST_SIZE: usize = 21;

/// Total size of a response record, in bytes.
pub const RESPONSE_SIZE: usize = 232;

/// Status code: the daemon judged the query malformed.
pub const STATUS_BADQUERY: u32 = 0x00;

/// Status code: the daemon knows the address and the record follows.
pub const STATUS_OK: u32 = 0x10;

/// Status code: the daemon has no fingerprint for the address.
pub const STATUS_NOMATCH: u32 = 0x20;

/// Address-family tag for IPv4 queries.
pub const ADDRESS_IPV4: u8 = 0x04;

/// Address-family tag for IPv6 queries.
pub const ADDRESS_IPV6: u8 = 0x06;

/// Width of one text slot on the wire: 31 usable bytes plus a terminator.
pub const STR_SIZE: usize = 32;

} // verus!
