//! Where a file goes: the directory and the path under the output root.

use vstd::prelude::*;
use vstd::string::*;
use crate::decimal::{decimal, decimal_shape, decimal_string};
use crate::month::{month_name, month_name_spec};
use crate::timestamp::{
    container_outcome,
    datetime_of,
    is_datetime_text,
    CaptureTimestamp,
    FieldContent,
    TimestampOutcome,
};

verus! {

/// What separates the components of a path.
pub open spec fn separator() -> Seq<char> {
    seq!['/']
}

/// The name of the directory for files without a usable timestamp.
pub open spec fn unknown_bucket() -> Seq<char> {
    seq!['u', 'n', 'k', 'n', 'o', 'w', 'n']
}

/// The timestamp by which a file is filed, if its outcome carries one.
pub open spec fn usable_timestamp_spec(outcome: TimestampOutcome) -> Option<CaptureTimestamp> {
    match outcome {
        TimestampOutcome::Decoded(timestamp) => Some(timestamp),
        _ => None,
    }
}

/// The bucket below the output root: year and month name for a timestamp,
/// the unknown bucket without one.
pub open spec fn bucket_spec(timestamp: Option<CaptureTimestamp>) -> Seq<char> {
    match timestamp {
        Some(t) => decimal(t.year as nat) + separator() + month_name_spec(t.month),
        None => unknown_bucket(),
    }
}

/// The directory that receives a file: `root/year/month` or `root/unknown`.
pub open spec fn directory_spec(root: Seq<char>, timestamp: Option<CaptureTimestamp>) -> Seq<
    char,
> {
    root + separator() + bucket_spec(timestamp)
}

/// The path that a file named `file_name` is moved to.
pub open spec fn destination_spec(
    root: Seq<char>,
    timestamp: Option<CaptureTimestamp>,
    file_name: Seq<char>,
) -> Seq<char> {
    directory_spec(root, timestamp) + separator() + file_name
}

/// Collapses an outcome to the timestamp it carries; every outcome but
/// `Decoded` carries none.
pub fn usable_timestamp(outcome: TimestampOutcome) -> (r: Option<CaptureTimestamp>)
    ensures
        r == usable_timestamp_spec(outcome),
        r is Some <==> outcome is Decoded,
{
    match outcome {
        TimestampOutcome::Decoded(timestamp) => Some(timestamp),
        _ => None,
    }
}

/// The directory under `output_root` that receives a file with this timestamp.
pub fn directory(output_root: &str, timestamp: Option<CaptureTimestamp>) -> (dir: String)
    ensures
        dir@ == directory_spec(output_root@, timestamp),
{
    proof {
        reveal_strlit("/");
        reveal_strlit("unknown");
        assert("/"@ =~= separator());
        assert("unknown"@ =~= unknown_bucket());
    }
    let mut dir = String::from_str(output_root);
    dir.append("/");
    match timestamp {
        Some(t) => {
            let year = decimal_string(t.year as u64);
            let month = month_name(t.month);
            dir.append(year.as_str());
            dir.append("/");
            dir.append(month.as_str());
        },
        None => {
            dir.append("unknown");
        },
    }
    assert(dir@ =~= directory_spec(output_root@, timestamp));
    dir
}

/// The path under `output_root` that a file named `file_name` is moved to.
/// It depends on these three arguments and on nothing else.
pub fn destination(output_root: &str, timestamp: Option<CaptureTimestamp>, file_name: &str) -> (path:
    String)
    ensures
        path@ == destination_spec(output_root@, timestamp, file_name@),
{
    proof {
        reveal_strlit("/");
        assert("/"@ =~= separator());
    }
    let mut path = directory(output_root, timestamp);
    path.append("/");
    path.append(file_name);
    path
}

/// With a timestamp of year `Y` and month `M`, the destination of a file
/// named `F` is the root, `Y` in decimal, the name of `M` and `F`, joined by
/// separators; it is the same for equal arguments, whatever else was asked.
pub proof fn dated_destination(root: Seq<char>, a: CaptureTimestamp, b: CaptureTimestamp, name: Seq<char>)
    requires
        a.year == b.year,
        a.month == b.month,
    ensures
        destination_spec(root, Some(a), name) == root + separator() + decimal(a.year as nat)
            + separator() + month_name_spec(a.month) + separator() + name,
        destination_spec(root, Some(a), name) == destination_spec(root, Some(b), name),
{
    assert(destination_spec(root, Some(a), name) =~= root + separator() + decimal(a.year as nat)
        + separator() + month_name_spec(a.month) + separator() + name);
}

/// Resolving twice with the same root, the same timestamp or absence of one,
/// and the same file name gives the same directory and the same path.
pub proof fn resolution_repeatable(
    root_a: Seq<char>,
    timestamp_a: Option<CaptureTimestamp>,
    name_a: Seq<char>,
    root_b: Seq<char>,
    timestamp_b: Option<CaptureTimestamp>,
    name_b: Seq<char>,
)
    requires
        root_a == root_b,
        timestamp_a == timestamp_b,
        name_a == name_b,
    ensures
        directory_spec(root_a, timestamp_a) == directory_spec(root_b, timestamp_b),
        destination_spec(root_a, timestamp_a, name_a) == destination_spec(
            root_b,
            timestamp_b,
            name_b,
        ),
{
}

/// A file whose outcome is anything but `Decoded` goes to `root/unknown/name`,
/// and that path is the destination of no timestamp whatever.
pub proof fn unknown_fallback(
    root: Seq<char>,
    outcome: TimestampOutcome,
    name: Seq<char>,
    dated: CaptureTimestamp,
)
    requires
        !(outcome is Decoded),
    ensures
        destination_spec(root, usable_timestamp_spec(outcome), name) == root + separator()
            + unknown_bucket() + separator() + name,
        destination_spec(root, usable_timestamp_spec(outcome), name) != destination_spec(
            root,
            Some(dated),
            name,
        ),
        directory_spec(root, usable_timestamp_spec(outcome)) != directory_spec(root, Some(dated)),
{
    let fallback = destination_spec(root, None, name);
    let other = destination_spec(root, Some(dated), name);
    assert(fallback =~= root + separator() + unknown_bucket() + separator() + name);
    decimal_shape(dated.year as nat);
    let at = (root.len() + 1) as int;
    assert(fallback[at] == unknown_bucket()[0]);
    assert(other[at] == decimal(dated.year as nat)[0]);
    assert(directory_spec(root, None)[at] == unknown_bucket()[0]);
    assert(directory_spec(root, Some(dated))[at] == decimal(dated.year as nat)[0]);
}

/// Whether what decoding a file came to holds a usable timestamp: the
/// decoder accepted the bytes, and the date/time field is a text field whose
/// first text spells a date and time.
pub open spec fn has_usable_timestamp(decoded: Option<FieldContent>) -> bool {
    match decoded {
        Some(FieldContent::Text(texts)) => texts.len() > 0 && is_datetime_text(texts[0]),
        _ => false,
    }
}

/// A file whose bytes the decoder rejects, whose container has no date/time
/// field, or whose field is no text, holds no text or holds a text that
/// spells no date and time, goes to `root/unknown/name`.
pub proof fn unusable_metadata_goes_to_unknown(
    root: Seq<char>,
    decoded: Option<FieldContent>,
    name: Seq<char>,
)
    requires
        !has_usable_timestamp(decoded),
    ensures
        !(container_outcome(decoded) is Decoded),
        destination_spec(root, usable_timestamp_spec(container_outcome(decoded)), name) == root
            + separator() + unknown_bucket() + separator() + name,
{
    assert(destination_spec(root, None, name) =~= root + separator() + unknown_bucket()
        + separator() + name);
}

/// A file whose date/time field begins with a text that spells a date and
/// time goes to the bucket of the year and the month that the text spells.
pub proof fn usable_metadata_goes_to_dated_bucket(
    root: Seq<char>,
    texts: Seq<Seq<u8>>,
    name: Seq<char>,
)
    requires
        texts.len() > 0,
        is_datetime_text(texts[0]),
    ensures
        container_outcome(Some(FieldContent::Text(texts))) == TimestampOutcome::Decoded(
            datetime_of(texts[0]),
        ),
        destination_spec(
            root,
            usable_timestamp_spec(container_outcome(Some(FieldContent::Text(texts)))),
            name,
        ) == root + separator() + decimal(datetime_of(texts[0]).year as nat) + separator()
            + month_name_spec(datetime_of(texts[0]).month) + separator() + name,
{
    dated_destination(root, datetime_of(texts[0]), datetime_of(texts[0]), name);
}

} // verus!
