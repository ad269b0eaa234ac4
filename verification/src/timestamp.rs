//! Capture timestamps and their extraction from a file's embedded metadata.

use vstd::prelude::*;

verus! {

/// The moment a photo was taken, as the capturing device recorded it. No
/// field is validated against the calendar: a month of 13 can occur.
#[derive(Clone, Copy, Debug, PartialEq, Eq, Structural)]
pub struct CaptureTimestamp {
    pub year: u16,
    pub month: u8,
    pub day: u8,
    pub hour: u8,
    pub minute: u8,
    pub second: u8,
}

/// What looking for a capture timestamp in one file came to.
#[derive(Clone, Copy, Debug, PartialEq, Eq, Structural)]
pub enum TimestampOutcome {
    /// The date/time field was found and parsed.
    Decoded(CaptureTimestamp),
    /// The bytes hold no metadata container that the decoder accepts.
    NoContainer,
    /// The container has no date/time field for the primary image.
    NoField,
    /// The field is there, but is no text, holds no text, or holds text
    /// that is no date and time.
    UnparsableField,
}

/// The value of a container's date/time field, as far as this library reads it.
#[derive(Clone, Debug, PartialEq, Eq)]
pub enum FieldValue {
    /// The container has no such field.
    Absent,
    /// The field holds something other than text.
    NotText,
    /// The field's texts, in the order in which the container lists them.
    Text(Vec<Vec<u8>>),
}

/// The mathematical value of a `FieldValue`.
pub ghost enum FieldContent {
    Absent,
    NotText,
    Text(Seq<Seq<u8>>),
}

/// The byte strings held by a vector of byte vectors.
pub open spec fn texts_of(texts: Seq<Vec<u8>>) -> Seq<Seq<u8>> {
    Seq::new(texts.len(), |i: int| texts[i]@)
}

impl View for FieldValue {
    type V = FieldContent;

    open spec fn view(&self) -> FieldContent {
        match self {
            FieldValue::Absent => FieldContent::Absent,
            FieldValue::NotText => FieldContent::NotText,
            FieldValue::Text(texts) => FieldContent::Text(texts_of(texts@)),
        }
    }
}

/// Whether `b` is an ASCII decimal digit.
pub open spec fn is_digit(b: u8) -> bool {
    0x30 <= b <= 0x39
}

/// Whether the two bytes of `data` from `at` on are digits.
pub open spec fn two_digits_at(data: Seq<u8>, at: int) -> bool {
    is_digit(data[at]) && is_digit(data[at + 1])
}

/// The number that the two digits of `data` from `at` on spell.
pub open spec fn two_digit_number(data: Seq<u8>, at: int) -> int {
    (data[at] - 0x30) * 10 + (data[at + 1] - 0x30)
}

/// Whether `data` begins with a date and time in the form
/// `YYYY:MM:DD HH:MM:SS`. What follows the nineteenth byte is not looked at.
pub open spec fn is_datetime_text(data: Seq<u8>) -> bool {
    &&& data.len() >= 19
    &&& data[4] == 0x3a
    &&& data[7] == 0x3a
    &&& data[10] == 0x20
    &&& data[13] == 0x3a
    &&& data[16] == 0x3a
    &&& two_digits_at(data, 0)
    &&& two_digits_at(data, 2)
    &&& two_digits_at(data, 5)
    &&& two_digits_at(data, 8)
    &&& two_digits_at(data, 11)
    &&& two_digits_at(data, 14)
    &&& two_digits_at(data, 17)
}

/// The timestamp that a text of the form `YYYY:MM:DD HH:MM:SS` spells.
pub open spec fn datetime_of(data: Seq<u8>) -> CaptureTimestamp {
    CaptureTimestamp {
        year: (two_digit_number(data, 0) * 100 + two_digit_number(data, 2)) as u16,
        month: two_digit_number(data, 5) as u8,
        day: two_digit_number(data, 8) as u8,
        hour: two_digit_number(data, 11) as u8,
        minute: two_digit_number(data, 14) as u8,
        second: two_digit_number(data, 17) as u8,
    }
}

/// The timestamp in `data`, if `data` spells one.
pub open spec fn timestamp_in(data: Seq<u8>) -> Option<CaptureTimestamp> {
    if is_datetime_text(data) {
        Some(datetime_of(data))
    } else {
        None
    }
}

/// The outcome for a container whose date/time field is `field`: only the
/// first text of a text field counts.
pub open spec fn field_outcome(field: FieldContent) -> TimestampOutcome {
    match field {
        FieldContent::Absent => TimestampOutcome::NoField,
        FieldContent::NotText => TimestampOutcome::UnparsableField,
        FieldContent::Text(texts) => if texts.len() > 0 && is_datetime_text(texts[0]) {
            TimestampOutcome::Decoded(datetime_of(texts[0]))
        } else {
            TimestampOutcome::UnparsableField
        },
    }
}

/// The outcome for a file, given what decoding its bytes came to: `None`
/// where the decoder rejected them, else the date/time field of the container.
pub open spec fn container_outcome(decoded: Option<FieldContent>) -> TimestampOutcome {
    match decoded {
        None => TimestampOutcome::NoContainer,
        Some(field) => field_outcome(field),
    }
}

/// `exif::Exif`, a decoded metadata container. Nothing inside it is visible
/// to the verifier; `primary_datetime_field` names the one field read from it.
#[verifier::external_type_specification]
#[verifier::external_body]
pub struct ExContainer(exif::Exif);

/// `exif::Error`, the decoder's reason for a refusal. It is carried and
/// dropped, never read.
#[verifier::external_type_specification]
#[verifier::external_body]
pub struct ExDecodeError(exif::Error);

/// The date/time field of the primary image among the fields that a decoded
/// container holds.
pub uninterp spec fn primary_datetime_field(container: exif::Exif) -> FieldContent;

/// What decoding a file's bytes yields: `None` where the decoder rejects
/// them, else the date/time field of the primary image in the container.
pub uninterp spec fn decoded_datetime_field(bytes: Seq<u8>) -> Option<FieldContent>;

/// Calls `exif::Reader::read_from_container` on an in-memory reader over
/// `bytes`. Trusted: the decoder's answer depends on the bytes alone, so that
/// the container it returns, or its refusal, is the one that
/// `decoded_datetime_field` names for these bytes.
#[verifier::external_body]
fn read_container(bytes: &[u8]) -> (r: Result<exif::Exif, exif::Error>)
    ensures
        match r {
            Ok(container) => decoded_datetime_field(bytes@) == Some(
                primary_datetime_field(container),
            ),
            Err(_) => decoded_datetime_field(bytes@) is None,
        },
{
    exif::Reader::new().read_from_container(&mut std::io::Cursor::new(bytes))
}

/// Calls `exif::Exif::get_field` for the tag `DateTime` of the primary image.
/// Trusted: the result is the field that `primary_datetime_field` names,
/// `Absent` where the lookup finds nothing, `Text` with a copy of the texts
/// where the value is ASCII, `NotText` for every other type of value.
#[verifier::external_body]
fn lookup_datetime_field(container: &exif::Exif) -> (r: FieldValue)
    ensures
        r@ == primary_datetime_field(*container),
{
    match container.get_field(exif::Tag::DateTime, exif::In::PRIMARY) {
        None => FieldValue::Absent,
        Some(field) => match field.value {
            exif::Value::Ascii(ref texts) => FieldValue::Text(texts.clone()),
            _ => FieldValue::NotText,
        },
    }
}

/// Calls `exif::DateTime::from_ascii`. Trusted: it succeeds exactly on data
/// of at least nineteen bytes with the separators of `YYYY:MM:DD HH:MM:SS`
/// in place and a digit in each of the fourteen other positions, and then
/// returns the numbers that the digits spell, without checking their range.
#[verifier::external_body]
fn datetime_from_ascii(data: &[u8]) -> (r: Result<CaptureTimestamp, exif::Error>)
    ensures
        r is Ok <==> is_datetime_text(data@),
        r is Ok ==> r->Ok_0 == datetime_of(data@),
{
    match exif::DateTime::from_ascii(data) {
        Ok(t) => Ok(
            CaptureTimestamp {
                year: t.year,
                month: t.month,
                day: t.day,
                hour: t.hour,
                minute: t.minute,
                second: t.second,
            },
        ),
        Err(e) => Err(e),
    }
}

/// Parses the text of a date/time field.
pub fn parse_timestamp(data: &[u8]) -> (r: Option<CaptureTimestamp>)
    ensures
        r == timestamp_in(data@),
{
    match datetime_from_ascii(data) {
        Ok(timestamp) => Some(timestamp),
        Err(_) => None,
    }
}

/// The outcome for a container whose date/time field has the value `field`.
pub fn outcome_of_field(field: &FieldValue) -> (r: TimestampOutcome)
    ensures
        r == field_outcome(field@),
{
    match field {
        FieldValue::Absent => TimestampOutcome::NoField,
        FieldValue::NotText => TimestampOutcome::UnparsableField,
        FieldValue::Text(texts) => {
            if texts.len() == 0 {
                TimestampOutcome::UnparsableField
            } else {
                match parse_timestamp(texts[0].as_slice()) {
                    Some(timestamp) => TimestampOutcome::Decoded(timestamp),
                    None => TimestampOutcome::UnparsableField,
                }
            }
        },
    }
}

/// Looks for the capture timestamp in the bytes of one file. Bytes that are
/// no container, or that hold no usable timestamp, are an outcome like any
/// other: this function does not fail.
pub fn extract_timestamp(bytes: &[u8]) -> (r: TimestampOutcome)
    ensures
        r == container_outcome(decoded_datetime_field(bytes@)),
{
    match read_container(bytes) {
        Err(_) => TimestampOutcome::NoContainer,
        Ok(container) => {
            let field = lookup_datetime_field(&container);
            outcome_of_field(&field)
        },
    }
}

/// A parsed timestamp has a year below 10000 and every other field below 100.
pub proof fn parsed_timestamp_bounds(data: Seq<u8>)
    requires
        is_datetime_text(data),
    ensures
        datetime_of(data).year <= 9999,
        datetime_of(data).month <= 99,
        datetime_of(data).day <= 99,
        datetime_of(data).hour <= 99,
        datetime_of(data).minute <= 99,
        datetime_of(data).second <= 99,
        datetime_of(data).year == two_digit_number(data, 0) * 100 + two_digit_number(data, 2),
        datetime_of(data).month == two_digit_number(data, 5),
{
}

} // verus!
