//! Formatting helpers: decimal rendering of counters, `"H:MM"`-style
//! duration texts, and calendar-date texts for raw epoch-second timestamps.

use vstd::prelude::*;

verus! {

/// The decimal digit character for a value below ten.
pub open spec fn digit_char(d: int) -> char {
    if d == 0 {
        '0'
    } else if d == 1 {
        '1'
    } else if d == 2 {
        '2'
    } else if d == 3 {
        '3'
    } else if d == 4 {
        '4'
    } else if d == 5 {
        '5'
    } else if d == 6 {
        '6'
    } else if d == 7 {
        '7'
    } else if d == 8 {
        '8'
    } else {
        '9'
    }
}

/// The decimal representation of `n`, without leading zeros (a single `'0'`
/// for zero itself).
pub open spec fn dec_str(n: nat) -> Seq<char>
    decreases n,
{
    if n < 10 {
        seq![digit_char(n as int)]
    } else {
        dec_str(n / 10) + seq![digit_char((n % 10) as int)]
    }
}

/// The single-character string for one decimal digit.
fn digit_to_str(d: u64) -> (r: &'static str)
    requires
        d < 10,
    ensures
        r@ == seq![digit_char(d as int)],
{
    proof {
        reveal_strlit("0");
        reveal_strlit("1");
        reveal_strlit("2");
        reveal_strlit("3");
        reveal_strlit("4");
        reveal_strlit("5");
        reveal_strlit("6");
        reveal_strlit("7");
        reveal_strlit("8");
        reveal_strlit("9");
    }
    let r = if d == 0 {
        "0"
    } else if d == 1 {
        "1"
    } else if d == 2 {
        "2"
    } else if d == 3 {
        "3"
    } else if d == 4 {
        "4"
    } else if d == 5 {
        "5"
    } else if d == 6 {
        "6"
    } else if d == 7 {
        "7"
    } else if d == 8 {
        "8"
    } else {
        "9"
    };
    proof {
        assert(r@ =~= seq![digit_char(d as int)]);
    }
    r
}

/// Renders `n` in decimal.
pub fn u64_to_string(n: u64) -> (r: String)
    ensures
        r@ == dec_str(n as nat),
    decreases n,
{
    if n < 10 {
        String::from_str(digit_to_str(n))
    } else {
        let prefix = u64_to_string(n / 10);
        prefix.concat(digit_to_str(n % 10))
    }
}

/// The `"H:MM"`-style text for a duration given in whole seconds: hours,
/// a colon, then the minutes of the incomplete hour, neither zero-padded;
/// an absent duration reads `"unknown"`.
pub open spec fn spec_format_duration(duration: Option<u64>) -> Seq<char> {
    match duration {
        Some(total_seconds) => dec_str((total_seconds / 3600) as nat) + ":"@ + dec_str(
            ((total_seconds % 3600) / 60) as nat,
        ),
        None => "unknown"@,
    }
}

/// Formats an optional duration, given in whole seconds, as hours and
/// minutes.
pub fn format_duration(duration: &Option<u64>) -> (r: String)
    ensures
        r@ == spec_format_duration(*duration),
{
    match duration {
        Some(total_seconds) => {
            let hours = *total_seconds / 3600;
            let minutes = (*total_seconds % 3600) / 60;
            u64_to_string(hours).concat(":").concat(u64_to_string(minutes).as_str())
        },
        None => String::from_str("unknown"),
    }
}

/// The calendar-date text (`DD.MM.YYYY`, UTC) for the given epoch seconds,
/// or nothing when the value lies outside the representable calendar range.
pub uninterp spec fn german_date_of(timestamp: int) -> Option<Seq<char>>;

/// Relies on chrono's `DateTime::<Utc>::from_timestamp` and its `"%d.%m.%Y"`
/// formatter: the text depends on the epoch-seconds value alone (UTC, no
/// time-zone or locale input), and `None` comes exactly on an out-of-range
/// number of seconds.
#[verifier::external_body]
fn chrono_german_date(timestamp: i64) -> (r: Option<String>)
    ensures
        match r {
            Some(s) => german_date_of(timestamp as int) == Some(s@),
            None => german_date_of(timestamp as int) is None,
        },
{
    chrono::DateTime::from_timestamp(timestamp, 0).map(|dt| dt.format("%d.%m.%Y").to_string())
}

/// The date text shown for a raw timestamp: its calendar date, or the
/// literal `"unknown"` for an out-of-range value.
pub open spec fn spec_german_datetime(timestamp: int) -> Seq<char> {
    match german_date_of(timestamp) {
        Some(s) => s,
        None => "unknown"@,
    }
}

/// Formats raw epoch seconds as a `DD.MM.YYYY` date.
pub fn timestamp_to_german_datetime(timestamp: i64) -> (r: String)
    ensures
        r@ == spec_german_datetime(timestamp as int),
{
    match chrono_german_date(timestamp) {
        Some(s) => s,
        None => String::from_str("unknown"),
    }
}

} // verus!
