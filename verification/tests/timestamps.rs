use photosort::timestamp::{
    extract_timestamp, outcome_of_field, parse_timestamp, CaptureTimestamp, FieldValue,
    TimestampOutcome,
};

fn tiff_with_entry(tag: u16, kind: u16, count: u32, payload: &[u8]) -> Vec<u8> {
    let mut bytes: Vec<u8> = vec![0x49, 0x49, 0x2a, 0x00, 8, 0, 0, 0];
    bytes.extend_from_slice(&1u16.to_le_bytes());
    bytes.extend_from_slice(&tag.to_le_bytes());
    bytes.extend_from_slice(&kind.to_le_bytes());
    bytes.extend_from_slice(&count.to_le_bytes());
    if payload.len() <= 4 {
        let mut inline = [0u8; 4];
        inline[..payload.len()].copy_from_slice(payload);
        bytes.extend_from_slice(&inline);
        bytes.extend_from_slice(&0u32.to_le_bytes());
    } else {
        bytes.extend_from_slice(&26u32.to_le_bytes());
        bytes.extend_from_slice(&0u32.to_le_bytes());
        bytes.extend_from_slice(payload);
    }
    bytes
}

fn tiff_with_datetime(text: &[u8]) -> Vec<u8> {
    let mut payload = text.to_vec();
    payload.push(0);
    tiff_with_entry(0x0132, 2, payload.len() as u32, &payload)
}

fn jpeg_around(tiff: &[u8]) -> Vec<u8> {
    let mut bytes: Vec<u8> = vec![0xff, 0xd8, 0xff, 0xe1];
    bytes.extend_from_slice(&((tiff.len() + 8) as u16).to_be_bytes());
    bytes.extend_from_slice(b"Exif\0\0");
    bytes.extend_from_slice(tiff);
    bytes.extend_from_slice(&[0xff, 0xd9]);
    bytes
}

#[test]
fn parse_reads_every_field() {
    assert_eq!(
        parse_timestamp(b"2021:06:15 10:00:00"),
        Some(CaptureTimestamp { year: 2021, month: 6, day: 15, hour: 10, minute: 0, second: 0 })
    );
    assert_eq!(
        parse_timestamp(b"1999:12:31 23:59:58"),
        Some(CaptureTimestamp { year: 1999, month: 12, day: 31, hour: 23, minute: 59, second: 58 })
    );
}

#[test]
fn parse_does_not_check_ranges() {
    assert_eq!(
        parse_timestamp(b"0000:13:99 25:61:62"),
        Some(CaptureTimestamp { year: 0, month: 13, day: 99, hour: 25, minute: 61, second: 62 })
    );
}

#[test]
fn parse_ignores_what_follows() {
    assert_eq!(
        parse_timestamp(b"2016:05:04 03:02:01 and more"),
        Some(CaptureTimestamp { year: 2016, month: 5, day: 4, hour: 3, minute: 2, second: 1 })
    );
}

#[test]
fn parse_rejects_short_text() {
    assert_eq!(parse_timestamp(b""), None);
    assert_eq!(parse_timestamp(b"2021:06:15"), None);
    assert_eq!(parse_timestamp(b"2021:06:15 10:00:0"), None);
}

#[test]
fn parse_rejects_blank_text() {
    assert_eq!(parse_timestamp(b"    :  :     :  :  "), None);
    assert_eq!(parse_timestamp(b"                   "), None);
}

#[test]
fn parse_rejects_wrong_separators() {
    assert_eq!(parse_timestamp(b"2021-06-15 10:00:00"), None);
    assert_eq!(parse_timestamp(b"2021:06:15T10:00:00"), None);
    assert_eq!(parse_timestamp(b"2021:06:15 10.00.00"), None);
}

#[test]
fn parse_rejects_non_digits() {
    assert_eq!(parse_timestamp(b"20x1:06:15 10:00:00"), None);
    assert_eq!(parse_timestamp(b"2021:6 :15 10:00:00"), None);
    assert_eq!(parse_timestamp(b"2021:06:15 10:00:/0"), None);
    assert_eq!(parse_timestamp(b"2021:06:15 10:00::0"), None);
}

#[test]
fn field_absent_is_no_field() {
    assert_eq!(outcome_of_field(&FieldValue::Absent), TimestampOutcome::NoField);
}

#[test]
fn field_of_other_type_is_unparsable() {
    assert_eq!(outcome_of_field(&FieldValue::NotText), TimestampOutcome::UnparsableField);
}

#[test]
fn field_without_text_is_unparsable() {
    assert_eq!(outcome_of_field(&FieldValue::Text(vec![])), TimestampOutcome::UnparsableField);
}

#[test]
fn field_with_bad_text_is_unparsable() {
    let field = FieldValue::Text(vec![b"yesterday".to_vec()]);
    assert_eq!(outcome_of_field(&field), TimestampOutcome::UnparsableField);
}

#[test]
fn field_is_read_from_its_first_text() {
    let good = b"2021:06:15 10:00:00".to_vec();
    let bad = b"nothing".to_vec();
    let expected = TimestampOutcome::Decoded(CaptureTimestamp {
        year: 2021,
        month: 6,
        day: 15,
        hour: 10,
        minute: 0,
        second: 0,
    });
    assert_eq!(outcome_of_field(&FieldValue::Text(vec![good.clone(), bad.clone()])), expected);
    assert_eq!(
        outcome_of_field(&FieldValue::Text(vec![bad, good])),
        TimestampOutcome::UnparsableField
    );
}

#[test]
fn extract_from_plain_text_is_no_container() {
    assert_eq!(extract_timestamp(b"just a note, no image"), TimestampOutcome::NoContainer);
    assert_eq!(extract_timestamp(b""), TimestampOutcome::NoContainer);
}

#[test]
fn extract_from_truncated_container_is_no_container() {
    let tiff = tiff_with_datetime(b"2021:06:15 10:00:00");
    assert_eq!(extract_timestamp(&tiff[..20]), TimestampOutcome::NoContainer);
}

#[test]
fn extract_from_tiff_with_datetime() {
    let tiff = tiff_with_datetime(b"2021:06:15 10:00:00");
    assert_eq!(
        extract_timestamp(&tiff),
        TimestampOutcome::Decoded(CaptureTimestamp {
            year: 2021,
            month: 6,
            day: 15,
            hour: 10,
            minute: 0,
            second: 0
        })
    );
}

#[test]
fn extract_from_jpeg_with_datetime() {
    let jpeg = jpeg_around(&tiff_with_datetime(b"1999:12:31 08:09:10"));
    assert_eq!(
        extract_timestamp(&jpeg),
        TimestampOutcome::Decoded(CaptureTimestamp {
            year: 1999,
            month: 12,
            day: 31,
            hour: 8,
            minute: 9,
            second: 10
        })
    );
}

#[test]
fn extract_without_datetime_field_is_no_field() {
    let tiff = tiff_with_entry(0x010f, 2, 6, b"Maker\0");
    assert_eq!(extract_timestamp(&tiff), TimestampOutcome::NoField);
}

#[test]
fn extract_with_numeric_datetime_is_unparsable() {
    let tiff = tiff_with_entry(0x0132, 3, 1, &[7, 0]);
    assert_eq!(extract_timestamp(&tiff), TimestampOutcome::UnparsableField);
}

#[test]
fn extract_with_empty_datetime_is_unparsable() {
    let tiff = tiff_with_entry(0x0132, 2, 0, &[]);
    assert_eq!(extract_timestamp(&tiff), TimestampOutcome::UnparsableField);
}

#[test]
fn extract_with_blank_datetime_is_unparsable() {
    let tiff = tiff_with_datetime(b"    :  :     :  :  ");
    assert_eq!(extract_timestamp(&tiff), TimestampOutcome::UnparsableField);
}

#[test]
fn extract_is_repeatable() {
    let tiff = tiff_with_datetime(b"2021:06:15 10:00:00");
    assert_eq!(extract_timestamp(&tiff), extract_timestamp(&tiff));
}
