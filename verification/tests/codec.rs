use p0f_rs::error::{Error, Field};
use p0f_rs::fingerprint::{BadSw, Duration, OsMatchQuality, Timestamp};
use p0f_rs::request::{encode_request, IpAddress};
use p0f_rs::response::decode_response;
use p0f_rs::{REQUEST_SIZE, RESPONSE_SIZE};

fn set_u32(buf: &mut [u8], off: usize, val: u32) {
    buf[off] = (val & 0xFF) as u8;
    buf[off + 1] = ((val >> 8) & 0xFF) as u8;
    buf[off + 2] = ((val >> 16) & 0xFF) as u8;
    buf[off + 3] = ((val >> 24) & 0xFF) as u8;
}

/// A well-formed 232-byte "ok" response with every optional field absent
/// (distance uses its own absence sentinel, -1).
fn base_response() -> Vec<u8> {
    let mut buf = vec![0u8; RESPONSE_SIZE];
    set_u32(&mut buf, 0, 0x50304602);
    set_u32(&mut buf, 4, 0x10);
    buf[36] = 0xFF;
    buf[37] = 0xFF;
    buf
}

fn put_text(buf: &mut [u8], off: usize, text: &str) {
    for (i, b) in text.as_bytes().iter().enumerate() {
        buf[off + i] = *b;
    }
}

#[test]
fn buffer_reader_reads_and_peeks() {
    let data: Vec<u8> = vec![1, 2, 3, 4, 5];
    let mut reader = p0f_rs::cursor::BufferReader::new(&data);
    assert_eq!(reader.read_array(2), Some(vec![1, 2]));
    assert_eq!(reader.get_buffer(), &[3, 4, 5]);
    assert_eq!(reader.read_array(4), None);
    assert_eq!(reader.get_buffer(), &[3, 4, 5]);
    assert_eq!(reader.read_array(3), Some(vec![3, 4, 5]));
    assert_eq!(reader.get_buffer(), &[] as &[u8]);
}

#[test]
fn encode_ipv4_layout() {
    let req = encode_request(&IpAddress::V4([192, 0, 2, 1]));
    assert_eq!(req.len(), REQUEST_SIZE);
    assert_eq!(&req[0..4], &[0x01, 0x46, 0x30, 0x50]);
    assert_eq!(req[4], 0x04);
    assert_eq!(&req[5..9], &[192, 0, 2, 1]);
    assert_eq!(&req[9..21], &[0u8; 12]);
}

#[test]
fn encode_ipv6_layout() {
    let octets: [u8; 16] = [0x20, 0x01, 0x0d, 0xb8, 0, 0, 0, 0, 0, 0, 0, 0, 0, 0, 0, 0x42];
    let req = encode_request(&IpAddress::V6(octets));
    assert_eq!(req.len(), REQUEST_SIZE);
    assert_eq!(&req[0..4], &[0x01, 0x46, 0x30, 0x50]);
    assert_eq!(req[4], 0x06);
    assert_eq!(&req[5..21], &octets);
}

#[test]
fn no_match_yields_none_regardless_of_rest() {
    let mut buf = vec![0xABu8; RESPONSE_SIZE];
    set_u32(&mut buf, 0, 0x50304602);
    set_u32(&mut buf, 4, 0x20);
    assert_eq!(decode_response(&buf), Ok(None));
}

#[test]
fn no_match_needs_no_further_bytes() {
    let mut buf = vec![0u8; 8];
    set_u32(&mut buf, 0, 0x50304602);
    set_u32(&mut buf, 4, 0x20);
    assert_eq!(decode_response(&buf), Ok(None));
}

#[test]
fn corrupted_magic_fails_even_when_rest_is_well_formed() {
    let mut buf = base_response();
    set_u32(&mut buf, 0, 0x50304603);
    assert_eq!(decode_response(&buf), Err(Error::InvalidMagic));
}

#[test]
fn bad_query_status() {
    let mut buf = base_response();
    set_u32(&mut buf, 4, 0x00);
    assert_eq!(decode_response(&buf), Err(Error::BadQuery));
}

#[test]
fn unknown_status_code_fails() {
    let mut buf = base_response();
    set_u32(&mut buf, 4, 0x30);
    assert_eq!(decode_response(&buf), Err(Error::UnrecognizedCode(Field::Status)));
}

#[test]
fn uptime_zero_is_absent() {
    let buf = base_response();
    let resp = decode_response(&buf).unwrap().unwrap();
    assert_eq!(resp.uptime_min, None);
}

#[test]
fn uptime_120_minutes_is_two_hours() {
    let mut buf = base_response();
    set_u32(&mut buf, 20, 120);
    let resp = decode_response(&buf).unwrap().unwrap();
    assert_eq!(resp.uptime_min, Some(Duration { secs: 7200 }));
}

#[test]
fn up_mod_days_is_always_present() {
    let mut buf = base_response();
    set_u32(&mut buf, 24, 3);
    let resp = decode_response(&buf).unwrap().unwrap();
    assert_eq!(resp.up_mod_days, Duration { secs: 3 * 86400 });
}

#[test]
fn distance_minus_one_is_absent() {
    let buf = base_response();
    let resp = decode_response(&buf).unwrap().unwrap();
    assert_eq!(resp.distance, None);
}

#[test]
fn distance_three_is_three() {
    let mut buf = base_response();
    buf[36] = 3;
    buf[37] = 0;
    let resp = decode_response(&buf).unwrap().unwrap();
    assert_eq!(resp.distance, Some(3));
}

#[test]
fn timestamps_decode_to_epoch_seconds() {
    let mut buf = base_response();
    set_u32(&mut buf, 8, 1_700_000_000);
    set_u32(&mut buf, 12, 1_700_003_600);
    set_u32(&mut buf, 16, 42);
    let resp = decode_response(&buf).unwrap().unwrap();
    assert_eq!(resp.first_seen.secs, 1_700_000_000);
    assert_eq!(resp.last_seen.secs, 1_700_003_600);
    assert_eq!(resp.total_conn, 42);
}

#[test]
fn optional_timestamps_zero_is_absent() {
    let buf = base_response();
    let resp = decode_response(&buf).unwrap().unwrap();
    assert_eq!(resp.last_nat, None);
    assert_eq!(resp.last_chg, None);
}

#[test]
fn optional_timestamps_nonzero_are_present() {
    let mut buf = base_response();
    set_u32(&mut buf, 28, 1_600_000_000);
    set_u32(&mut buf, 32, 1_600_000_001);
    let resp = decode_response(&buf).unwrap().unwrap();
    assert_eq!(resp.last_nat, Some(Timestamp { secs: 1_600_000_000 }));
    assert_eq!(resp.last_chg, Some(Timestamp { secs: 1_600_000_001 }));
}

#[test]
fn bad_sw_codes_map_to_variants() {
    let mut buf = base_response();
    let resp = decode_response(&buf).unwrap().unwrap();
    assert_eq!(resp.bad_sw, None);
    buf[38] = 1;
    let resp = decode_response(&buf).unwrap().unwrap();
    assert_eq!(resp.bad_sw, Some(BadSw::OsDifference));
    buf[38] = 2;
    let resp = decode_response(&buf).unwrap().unwrap();
    assert_eq!(resp.bad_sw, Some(BadSw::OutrightMismatch));
}

#[test]
fn bad_sw_code_outside_closed_set_fails() {
    let mut buf = base_response();
    buf[38] = 5;
    assert_eq!(decode_response(&buf), Err(Error::UnrecognizedCode(Field::BadSw)));
}

#[test]
fn match_quality_codes_map_to_variants() {
    let mut buf = base_response();
    let resp = decode_response(&buf).unwrap().unwrap();
    assert_eq!(resp.os_match_q, OsMatchQuality::Normal);
    buf[39] = 1;
    let resp = decode_response(&buf).unwrap().unwrap();
    assert_eq!(resp.os_match_q, OsMatchQuality::Fuzzy);
    buf[39] = 2;
    let resp = decode_response(&buf).unwrap().unwrap();
    assert_eq!(resp.os_match_q, OsMatchQuality::Generic);
    buf[39] = 3;
    let resp = decode_response(&buf).unwrap().unwrap();
    assert_eq!(resp.os_match_q, OsMatchQuality::FuzzyGeneric);
}

#[test]
fn match_quality_code_outside_closed_set_fails() {
    let mut buf = base_response();
    buf[39] = 4;
    assert_eq!(decode_response(&buf), Err(Error::UnrecognizedCode(Field::OsMatchQ)));
}

#[test]
fn text_slot_with_leading_zero_is_absent() {
    let buf = base_response();
    let resp = decode_response(&buf).unwrap().unwrap();
    assert_eq!(resp.os_name, None);
    assert_eq!(resp.os_flavor, None);
    assert_eq!(resp.http_name, None);
    assert_eq!(resp.http_flavor, None);
    assert_eq!(resp.link_type, None);
    assert_eq!(resp.language, None);
}

#[test]
fn text_slot_trims_trailing_terminators() {
    let mut buf = base_response();
    put_text(&mut buf, 40, "Linux");
    let resp = decode_response(&buf).unwrap().unwrap();
    assert_eq!(resp.os_name, Some("Linux".to_string()));
}

#[test]
fn later_slots_decode_from_their_own_offsets() {
    let mut buf = base_response();
    put_text(&mut buf, 72, "3.11 and newer");
    put_text(&mut buf, 104, "Firefox");
    put_text(&mut buf, 136, "10.x");
    put_text(&mut buf, 168, "Ethernet or modem");
    put_text(&mut buf, 200, "en");
    let resp = decode_response(&buf).unwrap().unwrap();
    assert_eq!(resp.os_name, None);
    assert_eq!(resp.os_flavor, Some("3.11 and newer".to_string()));
    assert_eq!(resp.http_name, Some("Firefox".to_string()));
    assert_eq!(resp.http_flavor, Some("10.x".to_string()));
    assert_eq!(resp.link_type, Some("Ethernet or modem".to_string()));
    assert_eq!(resp.language, Some("en".to_string()));
}

#[test]
fn text_slot_interior_zero_survives_trim() {
    let mut buf = base_response();
    buf[40] = b'a';
    buf[41] = 0;
    buf[42] = b'b';
    let resp = decode_response(&buf).unwrap().unwrap();
    assert_eq!(resp.os_name, Some("a\0b".to_string()));
}

#[test]
fn text_slot_invalid_utf8_is_replaced_not_rejected() {
    let mut buf = base_response();
    buf[40] = 0xFF;
    buf[41] = b'A';
    let resp = decode_response(&buf).unwrap().unwrap();
    assert_eq!(resp.os_name, Some("\u{FFFD}A".to_string()));
}

#[test]
fn truncated_buffers_name_the_first_unreadable_field() {
    let full = {
        let mut b = base_response();
        set_u32(&mut b, 8, 1_700_000_000);
        set_u32(&mut b, 12, 1_700_000_000);
        b
    };
    let cases: &[(usize, Field)] = &[
        (0, Field::Magic),
        (3, Field::Magic),
        (4, Field::Status),
        (7, Field::Status),
        (8, Field::FirstSeen),
        (12, Field::LastSeen),
        (16, Field::TotalConn),
        (20, Field::UptimeMin),
        (24, Field::UpModDays),
        (28, Field::LastNat),
        (32, Field::LastChg),
        (36, Field::Distance),
        (38, Field::BadSw),
        (39, Field::OsMatchQ),
        (40, Field::OsName),
        (72, Field::OsFlavor),
        (104, Field::HttpName),
        (136, Field::HttpFlavor),
        (168, Field::LinkType),
        (200, Field::Language),
        (231, Field::Language),
    ];
    for (len, field) in cases {
        let buf = &full[..*len];
        assert_eq!(decode_response(buf), Err(Error::MissingData(*field)), "length {}", len);
    }
}

#[test]
fn timestamp_boundary_follows_the_calendar_range() {
    assert_eq!(Timestamp::from_secs(0), Some(Timestamp { secs: 0 }));
    assert_eq!(Timestamp::from_secs(0xFFFF_FFFF), Some(Timestamp { secs: 0xFFFF_FFFF }));
    assert_eq!(Timestamp::from_secs(1 << 50), None);
    assert_eq!(Timestamp::from_secs(-(1 << 50)), None);
}

#[test]
fn round_trip_query_and_response() {
    let req = encode_request(&IpAddress::V4([192, 0, 2, 1]));
    assert_eq!(req.len(), 21);
    assert_eq!(&req[0..4], &[0x01, 0x46, 0x30, 0x50]);
    assert_eq!(req[4], 0x04);
    assert_eq!(&req[5..9], &[192, 0, 2, 1]);

    let mut buf = base_response();
    set_u32(&mut buf, 8, 1_700_000_000);
    set_u32(&mut buf, 12, 1_700_003_600);
    put_text(&mut buf, 40, "Linux 5.x");
    let resp = decode_response(&buf).unwrap().unwrap();
    assert_eq!(resp.first_seen.secs, 1_700_000_000);
    assert_eq!(resp.last_seen.secs, 1_700_003_600);
    assert_eq!(resp.os_name, Some("Linux 5.x".to_string()));
    assert_eq!(resp.uptime_min, None);
    assert_eq!(resp.distance, None);
    assert_eq!(resp.bad_sw, None);
    assert_eq!(resp.os_match_q, OsMatchQuality::Normal);
}
