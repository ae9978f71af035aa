//! Decoding of the fixed 232-byte response record.
//!
//! The decoder walks the buffer once, field by field, through a
//! [`BufferReader`]. Decoding is all-or-nothing: the first violation — a
//! truncated buffer, a wrong magic, a status or enumeration code outside its
//! closed set — is returned as an error and no partial record escapes.

use vstd::prelude::*;
use crate::cursor::BufferReader;
use crate::wire::{wire_i16, wire_u32};
use crate::error::{Error, Field};
use crate::fingerprint::{chrono_in_range, BadSw, Duration, OsMatchQuality, Response, Timestamp};
use crate::{RESPONSE_MAGIC, STATUS_BADQUERY, STATUS_NOMATCH, STATUS_OK, STR_SIZE};

verus! {

/// `s` with every trailing zero byte removed.
pub open spec fn trim_trailing_zeros(s: Seq<u8>) -> Seq<u8>
    decreases s.len(),
{
    if s.len() > 0 && s[s.len() - 1] == 0 {
        trim_trailing_zeros(s.drop_last())
    } else {
        s
    }
}

/// The characters `String::from_utf8_lossy` decodes a byte sequence to: a
/// fixed property of that function, named here so that contracts can speak
/// of it.
pub uninterp spec fn utf8_lossy_of(s: Seq<u8>) -> Seq<char>;

/// Relies on `String::from_utf8_lossy`: the result is a function of the
/// bytes alone (invalid sequences are replaced, never rejected), and empty
/// input gives an empty string.
#[verifier::external_body]
fn utf8_lossy(bytes: &[u8]) -> (r: String)
    ensures
        r@ == utf8_lossy_of(bytes@),
        bytes@.len() == 0 ==> r@.len() == 0,
{
    String::from_utf8_lossy(bytes).into_owned()
}

/// How a decoded text field relates to the 32-byte slot at `off`: a slot
/// opening with a zero byte is an absent field; any other slot holds the
/// lossy decoding of its bytes with trailing terminators trimmed.
pub open spec fn slot_matches(s: Seq<u8>, off: int, f: Option<String>) -> bool {
    if s[off] == 0 {
        f is None
    } else {
        f matches Some(t) && t@ == utf8_lossy_of(
            trim_trailing_zeros(s.subrange(off, off + STR_SIZE)),
        )
    }
}

/// The error decoding `s` stops with, or `None` when decoding succeeds
/// (with a record or with a no-match answer). Checks happen in the wire's
/// field order, so the first violation decides.
pub open spec fn spec_decode_err(s: Seq<u8>) -> Option<Error> {
    if s.len() < 4 {
        Some(Error::MissingData(Field::Magic))
    } else if wire_u32(s, 0) != RESPONSE_MAGIC as int {
        Some(Error::InvalidMagic)
    } else if s.len() < 8 {
        Some(Error::MissingData(Field::Status))
    } else if wire_u32(s, 4) == STATUS_BADQUERY as int {
        Some(Error::BadQuery)
    } else if wire_u32(s, 4) == STATUS_NOMATCH as int {
        None
    } else if wire_u32(s, 4) != STATUS_OK as int {
        Some(Error::UnrecognizedCode(Field::Status))
    } else if s.len() < 12 {
        Some(Error::MissingData(Field::FirstSeen))
    } else if !chrono_in_range(wire_u32(s, 8)) {
        Some(Error::TimestampOutOfRange(Field::FirstSeen))
    } else if s.len() < 16 {
        Some(Error::MissingData(Field::LastSeen))
    } else if !chrono_in_range(wire_u32(s, 12)) {
        Some(Error::TimestampOutOfRange(Field::LastSeen))
    } else if s.len() < 20 {
        Some(Error::MissingData(Field::TotalConn))
    } else if s.len() < 24 {
        Some(Error::MissingData(Field::UptimeMin))
    } else if s.len() < 28 {
        Some(Error::MissingData(Field::UpModDays))
    } else if s.len() < 32 {
        Some(Error::MissingData(Field::LastNat))
    } else if wire_u32(s, 28) != 0 && !chrono_in_range(wire_u32(s, 28)) {
        Some(Error::TimestampOutOfRange(Field::LastNat))
    } else if s.len() < 36 {
        Some(Error::MissingData(Field::LastChg))
    } else if wire_u32(s, 32) != 0 && !chrono_in_range(wire_u32(s, 32)) {
        Some(Error::TimestampOutOfRange(Field::LastChg))
    } else if s.len() < 38 {
        Some(Error::MissingData(Field::Distance))
    } else if s.len() < 39 {
        Some(Error::MissingData(Field::BadSw))
    } else if s[38] > 2 {
        Some(Error::UnrecognizedCode(Field::BadSw))
    } else if s.len() < 40 {
        Some(Error::MissingData(Field::OsMatchQ))
    } else if s[39] > 3 {
        Some(Error::UnrecognizedCode(Field::OsMatchQ))
    } else if s.len() < 72 {
        Some(Error::MissingData(Field::OsName))
    } else if s.len() < 104 {
        Some(Error::MissingData(Field::OsFlavor))
    } else if s.len() < 136 {
        Some(Error::MissingData(Field::HttpName))
    } else if s.len() < 168 {
        Some(Error::MissingData(Field::HttpFlavor))
    } else if s.len() < 200 {
        Some(Error::MissingData(Field::LinkType))
    } else if s.len() < 232 {
        Some(Error::MissingData(Field::Language))
    } else {
        None
    }
}

/// Whether `s` is a well-framed answer saying the daemon has no fingerprint
/// for the queried address.
pub open spec fn spec_no_match(s: Seq<u8>) -> bool {
    &&& s.len() >= 8
    &&& wire_u32(s, 0) == RESPONSE_MAGIC as int
    &&& wire_u32(s, 4) == STATUS_NOMATCH as int
}

/// How every field of a decoded record relates to the wire bytes of a
/// well-formed, matched response.
pub open spec fn resp_matches(s: Seq<u8>, resp: Response) -> bool {
    &&& resp.first_seen == (Timestamp { secs: wire_u32(s, 8) as i64 })
    &&& resp.last_seen == (Timestamp { secs: wire_u32(s, 12) as i64 })
    &&& resp.total_conn as int == wire_u32(s, 16)
    &&& resp.uptime_min == (if wire_u32(s, 20) == 0 {
        None
    } else {
        Some(Duration { secs: (wire_u32(s, 20) * 60) as u64 })
    })
    &&& resp.up_mod_days == (Duration { secs: (wire_u32(s, 24) * 86400) as u64 })
    &&& resp.last_nat == (if wire_u32(s, 28) == 0 {
        None
    } else {
        Some(Timestamp { secs: wire_u32(s, 28) as i64 })
    })
    &&& resp.last_chg == (if wire_u32(s, 32) == 0 {
        None
    } else {
        Some(Timestamp { secs: wire_u32(s, 32) as i64 })
    })
    &&& resp.distance == (if wire_i16(s, 36) == -1 {
        None
    } else {
        Some(wire_i16(s, 36) as i16)
    })
    &&& resp.bad_sw == (if s[38] == 0 {
        None
    } else if s[38] == 1 {
        Some(BadSw::OsDifference)
    } else {
        Some(BadSw::OutrightMismatch)
    })
    &&& resp.os_match_q == (if s[39] == 0 {
        OsMatchQuality::Normal
    } else if s[39] == 1 {
        OsMatchQuality::Fuzzy
    } else if s[39] == 2 {
        OsMatchQuality::Generic
    } else {
        OsMatchQuality::FuzzyGeneric
    })
    &&& slot_matches(s, 40, resp.os_name)
    &&& slot_matches(s, 72, resp.os_flavor)
    &&& slot_matches(s, 104, resp.http_name)
    &&& slot_matches(s, 136, resp.http_flavor)
    &&& slot_matches(s, 168, resp.link_type)
    &&& slot_matches(s, 200, resp.language)
}

/// A well-framed no-match answer decodes to no error and no record, whatever
/// the bytes after the status hold.
pub proof fn lemma_no_match_decodes_to_none(s: Seq<u8>)
    requires
        s.len() >= 8,
        wire_u32(s, 0) == RESPONSE_MAGIC as int,
        wire_u32(s, 4) == STATUS_NOMATCH as int,
    ensures
        spec_decode_err(s) is None,
        spec_no_match(s),
{
}

/// A response that does not open with the response magic fails with the
/// magic-mismatch error, whatever the remaining bytes hold.
pub proof fn lemma_bad_magic_fails(s: Seq<u8>)
    requires
        s.len() >= 4,
        wire_u32(s, 0) != RESPONSE_MAGIC as int,
    ensures
        spec_decode_err(s) == Some(Error::InvalidMagic),
{
}

/// The field a buffer of `len` bytes ends inside: the first field the
/// decoder cannot read whole.
pub open spec fn first_missing_field(len: int) -> Field
    recommends
        len < 232,
{
    if len < 4 {
        Field::Magic
    } else if len < 8 {
        Field::Status
    } else if len < 12 {
        Field::FirstSeen
    } else if len < 16 {
        Field::LastSeen
    } else if len < 20 {
        Field::TotalConn
    } else if len < 24 {
        Field::UptimeMin
    } else if len < 28 {
        Field::UpModDays
    } else if len < 32 {
        Field::LastNat
    } else if len < 36 {
        Field::LastChg
    } else if len < 38 {
        Field::Distance
    } else if len < 39 {
        Field::BadSw
    } else if len < 40 {
        Field::OsMatchQ
    } else if len < 72 {
        Field::OsName
    } else if len < 104 {
        Field::OsFlavor
    } else if len < 136 {
        Field::HttpName
    } else if len < 168 {
        Field::HttpFlavor
    } else if len < 200 {
        Field::LinkType
    } else {
        Field::Language
    }
}

/// Every check that falls inside the readable prefix of `s` passes: the
/// right magic, an "ok" status, representable timestamps and in-range
/// enumeration codes, as far as the buffer reaches.
pub open spec fn prefix_ok(s: Seq<u8>) -> bool {
    &&& s.len() >= 4 ==> wire_u32(s, 0) == RESPONSE_MAGIC as int
    &&& s.len() >= 8 ==> wire_u32(s, 4) == STATUS_OK as int
    &&& s.len() >= 12 ==> chrono_in_range(wire_u32(s, 8))
    &&& s.len() >= 16 ==> chrono_in_range(wire_u32(s, 12))
    &&& s.len() >= 32 ==> (wire_u32(s, 28) != 0 ==> chrono_in_range(wire_u32(s, 28)))
    &&& s.len() >= 36 ==> (wire_u32(s, 32) != 0 ==> chrono_in_range(wire_u32(s, 32)))
    &&& s.len() >= 39 ==> s[38] <= 2
    &&& s.len() >= 40 ==> s[39] <= 3
}

/// A buffer shorter than a whole record fails with a missing-data error
/// naming the first field that could not be read, provided everything the
/// buffer does hold is valid.
pub proof fn lemma_truncated_missing_data(s: Seq<u8>)
    requires
        s.len() < 232,
        prefix_ok(s),
    ensures
        spec_decode_err(s) == Some(Error::MissingData(first_missing_field(s.len() as int))),
{
}

fn read_u32<'a>(cur: &mut BufferReader<'a>) -> (r: Option<u32>)
    requires
        old(cur).wf(),
    ensures
        final(cur).wf(),
        final(cur).spec_buffer() == old(cur).spec_buffer(),
        old(cur).spec_pos() + 4 <= old(cur).spec_buffer().len() ==> ({
            &&& r matches Some(v) && v as int == wire_u32(
                old(cur).spec_buffer(),
                old(cur).spec_pos(),
            )
            &&& final(cur).spec_pos() == old(cur).spec_pos() + 4
        }),
        old(cur).spec_pos() + 4 > old(cur).spec_buffer().len() ==> ({
            &&& r is None
            &&& final(cur).spec_pos() == old(cur).spec_pos()
        }),
{
    match cur.read_array(4) {
        Some(b) => {
            let v: u32 = (b[0] as u32) + (b[1] as u32) * 0x100 + (b[2] as u32) * 0x10000 + (b[3]
                as u32) * 0x1000000;
            Some(v)
        },
        None => None,
    }
}

fn read_i16<'a>(cur: &mut BufferReader<'a>) -> (r: Option<i16>)
    requires
        old(cur).wf(),
    ensures
        final(cur).wf(),
        final(cur).spec_buffer() == old(cur).spec_buffer(),
        old(cur).spec_pos() + 2 <= old(cur).spec_buffer().len() ==> ({
            &&& r matches Some(v) && v as int == wire_i16(
                old(cur).spec_buffer(),
                old(cur).spec_pos(),
            )
            &&& final(cur).spec_pos() == old(cur).spec_pos() + 2
        }),
        old(cur).spec_pos() + 2 > old(cur).spec_buffer().len() ==> ({
            &&& r is None
            &&& final(cur).spec_pos() == old(cur).spec_pos()
        }),
{
    match cur.read_array(2) {
        Some(b) => {
            let u: u16 = (b[0] as u16) + (b[1] as u16) * 0x100;
            let d: i16 = if u < 0x8000 {
                u as i16
            } else {
                ((u as i32) - 0x10000) as i16
            };
            Some(d)
        },
        None => None,
    }
}

fn read_u8<'a>(cur: &mut BufferReader<'a>) -> (r: Option<u8>)
    requires
        old(cur).wf(),
    ensures
        final(cur).wf(),
        final(cur).spec_buffer() == old(cur).spec_buffer(),
        old(cur).spec_pos() + 1 <= old(cur).spec_buffer().len() ==> ({
            &&& r matches Some(v) && v == old(cur).spec_buffer()[old(cur).spec_pos()]
            &&& final(cur).spec_pos() == old(cur).spec_pos() + 1
        }),
        old(cur).spec_pos() + 1 > old(cur).spec_buffer().len() ==> ({
            &&& r is None
            &&& final(cur).spec_pos() == old(cur).spec_pos()
        }),
{
    match cur.read_array(1) {
        Some(v) => Some(v[0]),
        None => None,
    }
}

proof fn lemma_trim_trailing_zeros(s: Seq<u8>, end: int)
    requires
        0 <= end <= s.len(),
        forall|k: int| end <= k < s.len() ==> s[k] == 0,
        end > 0 ==> s[end - 1] != 0,
    ensures
        trim_trailing_zeros(s) == s.subrange(0, end),
    decreases s.len(),
{
    if s.len() == end {
        if end == 0 {
            assert(trim_trailing_zeros(s) =~= s.subrange(0, 0));
        } else {
            assert(s.subrange(0, end) =~= s);
        }
    } else {
        let t = s.drop_last();
        assert(forall|k: int| end <= k < t.len() ==> t[k] == 0);
        lemma_trim_trailing_zeros(t, end);
        assert(t.subrange(0, end) =~= s.subrange(0, end));
    }
}

/// Reads one 32-byte text slot: `None` when fewer than 32 bytes remain,
/// otherwise the decoded optional field, the offset advancing by the full
/// slot width whether the field is present or absent.
pub fn read_text_slot<'a>(cur: &mut BufferReader<'a>) -> (r: Option<Option<String>>)
    requires
        old(cur).wf(),
    ensures
        final(cur).wf(),
        final(cur).spec_buffer() == old(cur).spec_buffer(),
        old(cur).spec_pos() + STR_SIZE <= old(cur).spec_buffer().len() ==> ({
            &&& r matches Some(f) && slot_matches(
                old(cur).spec_buffer(),
                old(cur).spec_pos(),
                f,
            )
            &&& final(cur).spec_pos() == old(cur).spec_pos() + STR_SIZE
        }),
        old(cur).spec_pos() + STR_SIZE > old(cur).spec_buffer().len() ==> ({
            &&& r is None
            &&& final(cur).spec_pos() == old(cur).spec_pos()
        }),
{
    let ghost s = old(cur).spec_buffer();
    let ghost off = old(cur).spec_pos();
    match cur.read_array(STR_SIZE) {
        Some(mut bytes) => {
            proof {
                assert(bytes@[0] == s[off]);
            }
            if bytes[0] == 0 {
                Some(None)
            } else {
                let ghost slot = bytes@;
                let mut end: usize = STR_SIZE;
                while end > 0 && bytes[end - 1] == 0
                    invariant
                        0 <= end <= STR_SIZE,
                        bytes@ == slot,
                        bytes@.len() == STR_SIZE,
                        forall|k: int| end <= k < STR_SIZE ==> bytes@[k] == 0,
                    decreases end,
                {
                    end = end - 1;
                }
                bytes.truncate(end);
                proof {
                    lemma_trim_trailing_zeros(slot, end as int);
                }
                let text = utf8_lossy(bytes.as_slice());
                Some(Some(text))
            }
        },
        None => None,
    }
}

/// Decodes one full response record.
///
/// The result is `Ok(None)` for a well-framed no-match answer, `Ok(Some(..))`
/// with every field an exact function of the wire bytes for a match, and the
/// first violation in field order otherwise — see [`spec_decode_err`].
pub fn decode_response(buf: &[u8]) -> (r: Result<Option<Response>, Error>)
    ensures
        spec_decode_err(buf@) matches Some(e) ==> r == Err::<Option<Response>, Error>(e),
        spec_decode_err(buf@) is None && spec_no_match(buf@) ==> r == Ok::<
            Option<Response>,
            Error,
        >(None),
        spec_decode_err(buf@) is None && !spec_no_match(buf@) ==> ({
            &&& r matches Ok(Some(resp))
            &&& resp_matches(buf@, resp)
            &&& resp.valid()
        }),
{
    let mut cur = BufferReader::new(buf);

    let magic = match read_u32(&mut cur) {
        Some(v) => v,
        None => {
            return Err(Error::MissingData(Field::Magic));
        },
    };
    if magic != RESPONSE_MAGIC {
        return Err(Error::InvalidMagic);
    }

    let status = match read_u32(&mut cur) {
        Some(v) => v,
        None => {
            return Err(Error::MissingData(Field::Status));
        },
    };
    if status == STATUS_BADQUERY {
        return Err(Error::BadQuery);
    }
    if status == STATUS_NOMATCH {
        return Ok(None);
    }
    if status != STATUS_OK {
        return Err(Error::UnrecognizedCode(Field::Status));
    }

    let first_seen_secs = match read_u32(&mut cur) {
        Some(v) => v,
        None => {
            return Err(Error::MissingData(Field::FirstSeen));
        },
    };
    let first_seen = match Timestamp::from_secs(first_seen_secs as i64) {
        Some(t) => t,
        None => {
            return Err(Error::TimestampOutOfRange(Field::FirstSeen));
        },
    };

    let last_seen_secs = match read_u32(&mut cur) {
        Some(v) => v,
        None => {
            return Err(Error::MissingData(Field::LastSeen));
        },
    };
    let last_seen = match Timestamp::from_secs(last_seen_secs as i64) {
        Some(t) => t,
        None => {
            return Err(Error::TimestampOutOfRange(Field::LastSeen));
        },
    };

    let total_conn = match read_u32(&mut cur) {
        Some(v) => v,
        None => {
            return Err(Error::MissingData(Field::TotalConn));
        },
    };

    let uptime_raw = match read_u32(&mut cur) {
        Some(v) => v,
        None => {
            return Err(Error::MissingData(Field::UptimeMin));
        },
    };
    let uptime_min: Option<Duration> = if uptime_raw == 0 {
        None
    } else {
        Some(Duration { secs: (uptime_raw as u64) * 60 })
    };

    let up_mod_raw = match read_u32(&mut cur) {
        Some(v) => v,
        None => {
            return Err(Error::MissingData(Field::UpModDays));
        },
    };
    let up_mod_days = Duration { secs: (up_mod_raw as u64) * 86400 };

    let last_nat_raw = match read_u32(&mut cur) {
        Some(v) => v,
        None => {
            return Err(Error::MissingData(Field::LastNat));
        },
    };
    let last_nat: Option<Timestamp> = if last_nat_raw == 0 {
        None
    } else {
        match Timestamp::from_secs(last_nat_raw as i64) {
            Some(t) => Some(t),
            None => {
                return Err(Error::TimestampOutOfRange(Field::LastNat));
            },
        }
    };

    let last_chg_raw = match read_u32(&mut cur) {
        Some(v) => v,
        None => {
            return Err(Error::MissingData(Field::LastChg));
        },
    };
    let last_chg: Option<Timestamp> = if last_chg_raw == 0 {
        None
    } else {
        match Timestamp::from_secs(last_chg_raw as i64) {
            Some(t) => Some(t),
            None => {
                return Err(Error::TimestampOutOfRange(Field::LastChg));
            },
        }
    };

    let distance_raw = match read_i16(&mut cur) {
        Some(v) => v,
        None => {
            return Err(Error::MissingData(Field::Distance));
        },
    };
    let distance: Option<i16> = if distance_raw == -1 {
        None
    } else {
        Some(distance_raw)
    };

    let bad_sw_raw = match read_u8(&mut cur) {
        Some(v) => v,
        None => {
            return Err(Error::MissingData(Field::BadSw));
        },
    };
    let bad_sw: Option<BadSw> = if bad_sw_raw == 0 {
        None
    } else if bad_sw_raw == 1 {
        Some(BadSw::OsDifference)
    } else if bad_sw_raw == 2 {
        Some(BadSw::OutrightMismatch)
    } else {
        return Err(Error::UnrecognizedCode(Field::BadSw));
    };

    let match_q_raw = match read_u8(&mut cur) {
        Some(v) => v,
        None => {
            return Err(Error::MissingData(Field::OsMatchQ));
        },
    };
    let os_match_q: OsMatchQuality = if match_q_raw == 0 {
        OsMatchQuality::Normal
    } else if match_q_raw == 1 {
        OsMatchQuality::Fuzzy
    } else if match_q_raw == 2 {
        OsMatchQuality::Generic
    } else if match_q_raw == 3 {
        OsMatchQuality::FuzzyGeneric
    } else {
        return Err(Error::UnrecognizedCode(Field::OsMatchQ));
    };

    let os_name = match read_text_slot(&mut cur) {
        Some(f) => f,
        None => {
            return Err(Error::MissingData(Field::OsName));
        },
    };
    let os_flavor = match read_text_slot(&mut cur) {
        Some(f) => f,
        None => {
            return Err(Error::MissingData(Field::OsFlavor));
        },
    };
    let http_name = match read_text_slot(&mut cur) {
        Some(f) => f,
        None => {
            return Err(Error::MissingData(Field::HttpName));
        },
    };
    let http_flavor = match read_text_slot(&mut cur) {
        Some(f) => f,
        None => {
            return Err(Error::MissingData(Field::HttpFlavor));
        },
    };
    let link_type = match read_text_slot(&mut cur) {
        Some(f) => f,
        None => {
            return Err(Error::MissingData(Field::LinkType));
        },
    };
    let language = match read_text_slot(&mut cur) {
        Some(f) => f,
        None => {
            return Err(Error::MissingData(Field::Language));
        },
    };

    Ok(Some(Response {
        first_seen,
        last_seen,
        total_conn,
        uptime_min,
        up_mod_days,
        last_nat,
        last_chg,
        distance,
        bad_sw,
        os_match_q,
        os_name,
        os_flavor,
        http_name,
        http_flavor,
        link_type,
        language,
    }))
}

} // verus!
