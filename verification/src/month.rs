//! English month names.

use vstd::prelude::*;
use vstd::string::*;

verus! {

/// The name under which files with an out-of-range month are filed.
pub open spec fn fallback_name() -> Seq<char> {
    "unknown"@
}

/// The full English name of month `month` (1 is January), and
/// `fallback_name()` for every number that is no month.
pub open spec fn month_name_spec(month: u8) -> Seq<char> {
    if month == 1 {
        "January"@
    } else if month == 2 {
        "February"@
    } else if month == 3 {
        "March"@
    } else if month == 4 {
        "April"@
    } else if month == 5 {
        "May"@
    } else if month == 6 {
        "June"@
    } else if month == 7 {
        "July"@
    } else if month == 8 {
        "August"@
    } else if month == 9 {
        "September"@
    } else if month == 10 {
        "October"@
    } else if month == 11 {
        "November"@
    } else if month == 12 {
        "December"@
    } else {
        fallback_name()
    }
}

/// Whether `month` is a month of the calendar.
pub open spec fn is_calendar_month(month: u8) -> bool {
    1 <= month <= 12
}

/// The name of a month as an owned string.
pub fn month_name(month: u8) -> (name: String)
    ensures
        name@ == month_name_spec(month),
        !is_calendar_month(month) ==> name@ == fallback_name(),
{
    String::from_str(
        match month {
            1 => "January",
            2 => "February",
            3 => "March",
            4 => "April",
            5 => "May",
            6 => "June",
            7 => "July",
            8 => "August",
            9 => "September",
            10 => "October",
            11 => "November",
            12 => "December",
            _ => "unknown",
        },
    )
}

/// Makes the characters of every month name known to the verifier.
pub proof fn reveal_month_names()
    ensures
        "January"@ == seq!['J', 'a', 'n', 'u', 'a', 'r', 'y'],
        "February"@ == seq!['F', 'e', 'b', 'r', 'u', 'a', 'r', 'y'],
        "March"@ == seq!['M', 'a', 'r', 'c', 'h'],
        "April"@ == seq!['A', 'p', 'r', 'i', 'l'],
        "May"@ == seq!['M', 'a', 'y'],
        "June"@ == seq!['J', 'u', 'n', 'e'],
        "July"@ == seq!['J', 'u', 'l', 'y'],
        "August"@ == seq!['A', 'u', 'g', 'u', 's', 't'],
        "September"@ == seq!['S', 'e', 'p', 't', 'e', 'm', 'b', 'e', 'r'],
        "October"@ == seq!['O', 'c', 't', 'o', 'b', 'e', 'r'],
        "November"@ == seq!['N', 'o', 'v', 'e', 'm', 'b', 'e', 'r'],
        "December"@ == seq!['D', 'e', 'c', 'e', 'm', 'b', 'e', 'r'],
        "unknown"@ == seq!['u', 'n', 'k', 'n', 'o', 'w', 'n'],
{
    reveal_strlit("January");
    reveal_strlit("February");
    reveal_strlit("March");
    reveal_strlit("April");
    reveal_strlit("May");
    reveal_strlit("June");
    reveal_strlit("July");
    reveal_strlit("August");
    reveal_strlit("September");
    reveal_strlit("October");
    reveal_strlit("November");
    reveal_strlit("December");
    reveal_strlit("unknown");
    assert("January"@ =~= seq!['J', 'a', 'n', 'u', 'a', 'r', 'y']);
    assert("February"@ =~= seq!['F', 'e', 'b', 'r', 'u', 'a', 'r', 'y']);
    assert("March"@ =~= seq!['M', 'a', 'r', 'c', 'h']);
    assert("April"@ =~= seq!['A', 'p', 'r', 'i', 'l']);
    assert("May"@ =~= seq!['M', 'a', 'y']);
    assert("June"@ =~= seq!['J', 'u', 'n', 'e']);
    assert("July"@ =~= seq!['J', 'u', 'l', 'y']);
    assert("August"@ =~= seq!['A', 'u', 'g', 'u', 's', 't']);
    assert("September"@ =~= seq!['S', 'e', 'p', 't', 'e', 'm', 'b', 'e', 'r']);
    assert("October"@ =~= seq!['O', 'c', 't', 'o', 'b', 'e', 'r']);
    assert("November"@ =~= seq!['N', 'o', 'v', 'e', 'm', 'b', 'e', 'r']);
    assert("December"@ =~= seq!['D', 'e', 'c', 'e', 'm', 'b', 'e', 'r']);
    assert("unknown"@ =~= seq!['u', 'n', 'k', 'n', 'o', 'w', 'n']);
}

/// The month name is defined for every number: each calendar month has a
/// name that begins with a capital letter, no two calendar months share a
/// name, and every other number has the one fallback name, which is the name
/// of no calendar month.
pub proof fn month_name_total(a: u8, b: u8)
    ensures
        month_name_spec(a).len() >= 3,
        is_calendar_month(a) <==> month_name_spec(a) != fallback_name(),
        is_calendar_month(a) ==> 'A' <= month_name_spec(a)[0] <= 'Z',
        is_calendar_month(a) && is_calendar_month(b) && a != b ==> month_name_spec(a)
            != month_name_spec(b),
        !is_calendar_month(a) && !is_calendar_month(b) ==> month_name_spec(a) == month_name_spec(b),
{
    reveal_month_names();
    if is_calendar_month(a) {
        assert(month_name_spec(a)[0] != fallback_name()[0]);
        if is_calendar_month(b) && a != b {
            let x = month_name_spec(a);
            let y = month_name_spec(b);
            assert(x.len() != y.len() || x[0] != y[0] || x[1] != y[1] || x[2] != y[2]);
        }
    }
}

} // verus!
