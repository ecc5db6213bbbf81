use taos_ws::timestamp::{write_text, ws_timestamp_to_rfc3339, Precision};

fn render(raw: i64, precision: i32, use_z: bool) -> String {
    let mut buffer = vec![0u8; 192];
    let written = ws_timestamp_to_rfc3339(&mut buffer, raw, precision, use_z);
    assert!(buffer[written..].iter().all(|b| *b == 0));
    String::from_utf8(buffer[..written].to_vec()).unwrap()
}

/// The rendered text without its zone, and whether the zone is UTC.
fn split_zone(text: &str) -> (&str, bool) {
    if let Some(local) = text.strip_suffix('Z') {
        (local, true)
    } else {
        let at = text.len() - 6;
        assert!(text[at..].starts_with('+') || text[at..].starts_with('-'));
        (&text[..at], &text[at..] == "+00:00")
    }
}

#[test]
fn ts_to_rfc3339() {
    let mut ts = [0u8; 192].to_vec();
    let written = ws_timestamp_to_rfc3339(&mut ts, 0, 0, true);
    let s = String::from_utf8(ts[..written].to_vec()).unwrap();
    assert_eq!(s, "1970-01-01T00:00:00.000Z");
    assert!(ts[written..].iter().all(|b| *b == 0));
}

#[test]
fn precision_decides_the_fraction() {
    let cases = [(0, 23), (1, 26), (2, 29)];
    for (precision, length) in cases {
        let text = render(0, precision, true);
        assert!(text.ends_with('Z'));
        assert_eq!(text.len(), length + 1);
        assert_eq!(&text[..20], "1970-01-01T00:00:00.");
        assert!(text[20..length].bytes().all(|b| b == b'0'));
        let text = render(0, precision, false);
        let (local, _) = split_zone(&text);
        assert_eq!(local.len(), length);
        assert_eq!(&local[19..20], ".");
    }
}

#[test]
fn zone_letter_only_on_request() {
    for precision in [0, 1, 2] {
        let text = render(65_535, precision, false);
        assert!(!text.ends_with('Z'));
        let digits = [3, 6, 9][precision as usize];
        assert_eq!(text.len(), 26 + digits);
    }
}

#[test]
fn raw_value_counts_in_the_precision() {
    assert_eq!(render(65_535, 0, true), "1970-01-01T00:01:05.535Z");
    assert_eq!(render(65_535, 1, true), "1970-01-01T00:00:00.065535Z");
    assert_eq!(render(65_535, 2, true), "1970-01-01T00:00:00.000065535Z");
    assert_eq!(render(-1, 0, true), "1969-12-31T23:59:59.999Z");
    assert_eq!(render(1_655_793_421_375, 0, true), "2022-06-21T06:37:01.375Z");
    assert_eq!(render(253_370_764_800_000, 0, true), "9999-01-01T00:00:00.000Z");
    assert_eq!(render(-62_135_596_800_000, 0, true), "0001-01-01T00:00:00.000Z");
    let text = render(65_535, 0, false);
    let (local, utc) = split_zone(&text);
    if utc {
        assert_eq!(local, "1970-01-01T00:01:05.535");
    }
}

#[test]
fn precision_goes_by_its_low_byte() {
    assert_eq!(render(1_000, 256, false), render(1_000, 0, false));
    assert_eq!(render(1_000, 257, false), render(1_000, 1, false));
}

#[test]
fn unknown_precision_writes_nothing() {
    for precision in [3, 4, 255, -1] {
        let mut buffer = vec![7u8; 64];
        assert_eq!(ws_timestamp_to_rfc3339(&mut buffer, 0, precision, true), 0);
        assert_eq!(buffer, vec![7u8; 64]);
    }
}

#[test]
fn instant_outside_the_calendar_writes_nothing() {
    let mut buffer = vec![7u8; 64];
    assert_eq!(ws_timestamp_to_rfc3339(&mut buffer, i64::MAX, 0, true), 0);
    assert_eq!(ws_timestamp_to_rfc3339(&mut buffer, i64::MIN, 0, true), 0);
    assert_eq!(ws_timestamp_to_rfc3339(&mut buffer, i64::MAX, 1, true), 0);
    assert_eq!(
        ws_timestamp_to_rfc3339(&mut buffer, 253_370_764_800_001, 0, true),
        0
    );
    assert_eq!(buffer, vec![7u8; 64]);
    assert!(ws_timestamp_to_rfc3339(&mut buffer, 253_370_764_800_000, 0, true) > 0);
    assert!(ws_timestamp_to_rfc3339(&mut buffer, -62_135_596_800_000, 0, true) > 0);
    assert!(ws_timestamp_to_rfc3339(&mut buffer, i64::MAX, 2, true) > 0);
    assert!(ws_timestamp_to_rfc3339(&mut buffer, i64::MIN, 2, true) > 0);
}

#[test]
fn short_buffer_is_left_alone() {
    let mut buffer = vec![7u8; 23];
    assert_eq!(ws_timestamp_to_rfc3339(&mut buffer, 0, 0, true), 0);
    assert_eq!(buffer, vec![7u8; 23]);
    let mut buffer = vec![7u8; 24];
    assert_eq!(ws_timestamp_to_rfc3339(&mut buffer, 0, 0, true), 24);
    assert_eq!(buffer, b"1970-01-01T00:00:00.000Z".to_vec());
    let mut buffer = vec![7u8; 29];
    assert!(ws_timestamp_to_rfc3339(&mut buffer, 0, 0, false) == 29);
    let mut buffer = vec![7u8; 35];
    assert!(ws_timestamp_to_rfc3339(&mut buffer, 0, 2, false) == 35);
}

#[test]
fn text_is_written_over_the_start() {
    let mut buffer = vec![1u8, 2, 3, 4, 5];
    assert_eq!(write_text(&mut buffer, b"ab"), 2);
    assert_eq!(buffer, vec![b'a', b'b', 3, 4, 5]);
    assert_eq!(write_text(&mut buffer, b""), 0);
    assert_eq!(buffer, vec![b'a', b'b', 3, 4, 5]);
    assert_eq!(write_text(&mut buffer, b"vwxyz"), 5);
    assert_eq!(buffer, b"vwxyz".to_vec());
    assert_eq!(write_text(&mut buffer, b"123456"), 0);
    assert_eq!(buffer, b"vwxyz".to_vec());
}

#[test]
fn precision_numbers() {
    assert_eq!(Precision::Millisecond.as_i32(), 0);
    assert_eq!(Precision::Microsecond.as_i32(), 1);
    assert_eq!(Precision::Nanosecond.as_i32(), 2);
    assert_eq!(Precision::from_u8(0), Some(Precision::Millisecond));
    assert_eq!(Precision::from_u8(1), Some(Precision::Microsecond));
    assert_eq!(Precision::from_u8(2), Some(Precision::Nanosecond));
    assert_eq!(Precision::from_u8(3), None);
}
