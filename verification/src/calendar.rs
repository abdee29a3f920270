use vstd::prelude::*;
use vstd::string::StringExecFns;
use chrono::Datelike;

verus! {

/// The civil (proleptic Gregorian) UTC date a timestamp falls on, as plain
/// values: year, month starting from 1, day of month starting from 1, and
/// the weekday counted from Monday = 0.
pub struct DateParts {
    pub year: i32,
    pub month: u8,
    pub day: u8,
    pub weekday: u8,
}

/// The (year, month, day, weekday) of the civil UTC date that a second-
/// resolution timestamp falls on; a function of the timestamp alone.
pub uninterp spec fn civil_of(ts: int) -> (int, int, int, int);

/// Relies on chrono's `DateTime::from_timestamp` and the `Datelike` calendar
/// accessors: `month` ranges over 1-12, `day` over 1-31, and
/// `Weekday::num_days_from_monday` counts Monday as 0. chrono refuses only
/// timestamps hundreds of millennia away (its dates reach year +-262,000),
/// so every timestamp from the epoch through the last second of year 9999 is
/// answered; and since the epoch day 1970-01-01 was a Thursday, the weekday
/// of a timestamp is its day number plus three, modulo seven.
#[verifier::external_body]
fn chrono_date_parts(ts: i64) -> (r: Option<DateParts>)
    ensures
        r matches Some(p) ==> {
            &&& (p.year as int, p.month as int, p.day as int, p.weekday as int) == civil_of(
                ts as int,
            )
            &&& 1 <= p.month <= 12
            &&& 1 <= p.day <= 31
            &&& p.weekday <= 6
            &&& p.weekday as int == (ts as int / 86400 + 3) % 7
        },
        0 <= ts <= 253_402_300_799 ==> r is Some,
{
    match chrono::DateTime::from_timestamp(ts, 0) {
        Some(dt) => Some(
            DateParts {
                year: dt.year(),
                month: dt.month() as u8,
                day: dt.day() as u8,
                weekday: dt.weekday().num_days_from_monday() as u8,
            },
        ),
        None => None,
    }
}

/// The English name of month `m`, for `m` in 1-12.
pub open spec fn spec_month_name(m: int) -> Seq<char> {
    if m == 1 {
        "January"@
    } else if m == 2 {
        "February"@
    } else if m == 3 {
        "March"@
    } else if m == 4 {
        "April"@
    } else if m == 5 {
        "May"@
    } else if m == 6 {
        "June"@
    } else if m == 7 {
        "July"@
    } else if m == 8 {
        "August"@
    } else if m == 9 {
        "September"@
    } else if m == 10 {
        "October"@
    } else if m == 11 {
        "November"@
    } else if m == 12 {
        "December"@
    } else {
        Seq::empty()
    }
}

/// Total month-name lookup: every month number 1-12 has a name, anything
/// else is rejected rather than aborting.
pub fn get_month(month: u32) -> (r: Option<&'static str>)
    ensures
        1 <= month <= 12 ==> (r matches Some(s) && s@ == spec_month_name(month as int)),
        !(1 <= month <= 12) ==> r is None,
{
    match month {
        1 => Some("January"),
        2 => Some("February"),
        3 => Some("March"),
        4 => Some("April"),
        5 => Some("May"),
        6 => Some("June"),
        7 => Some("July"),
        8 => Some("August"),
        9 => Some("September"),
        10 => Some("October"),
        11 => Some("November"),
        12 => Some("December"),
        _ => None,
    }
}

/// The short English name of the weekday counted from Monday = 0, for
/// `w` in 0-6.
pub open spec fn spec_weekday_name(w: int) -> Seq<char> {
    if w == 0 {
        "Mon"@
    } else if w == 1 {
        "Tue"@
    } else if w == 2 {
        "Wed"@
    } else if w == 3 {
        "Thu"@
    } else if w == 4 {
        "Fri"@
    } else if w == 5 {
        "Sat"@
    } else if w == 6 {
        "Sun"@
    } else {
        Seq::empty()
    }
}

/// Total weekday-name lookup, Monday = 0 through Sunday = 6.
pub fn get_weekday(weekday: u8) -> (r: Option<&'static str>)
    ensures
        weekday <= 6 ==> (r matches Some(s) && s@ == spec_weekday_name(weekday as int)),
        weekday > 6 ==> r is None,
{
    match weekday {
        0 => Some("Mon"),
        1 => Some("Tue"),
        2 => Some("Wed"),
        3 => Some("Thu"),
        4 => Some("Fri"),
        5 => Some("Sat"),
        6 => Some("Sun"),
        _ => None,
    }
}

/// The character for decimal digit `d`.
pub open spec fn spec_digit_char(d: int) -> char {
    ((48 + d) as u8) as char
}

/// The decimal digits of a non-negative number, most significant first.
pub open spec fn spec_udigits(n: int) -> Seq<char>
    decreases n,
{
    if n < 10 {
        seq![spec_digit_char(n)]
    } else {
        spec_udigits(n / 10).push(spec_digit_char(n % 10))
    }
}

/// The decimal rendering of an integer: a minus sign on a negative number,
/// the plain digits otherwise.
pub open spec fn spec_int_str(n: int) -> Seq<char> {
    if n < 0 {
        seq!['-'] + spec_udigits(-n)
    } else {
        spec_udigits(n)
    }
}

fn digit_str(d: u8) -> (r: &'static str)
    requires
        d < 10,
    ensures
        r@ == seq![spec_digit_char(d as int)],
{
    proof {
        reveal_strlit("0");
        reveal_strlit("1");
        reveal_strlit("2");
        reveal_strlit("3");
        reveal_strlit("4");
        reveal_strlit("5");
        reveal_strlit("6");
        reveal_strlit("7");
        reveal_strlit("8");
        reveal_strlit("9");
    }
    match d {
        0 => "0",
        1 => "1",
        2 => "2",
        3 => "3",
        4 => "4",
        5 => "5",
        6 => "6",
        7 => "7",
        8 => "8",
        _ => "9",
    }
}

/// Appends the decimal digits of `n` to `s`.
fn push_udigits(s: &mut String, n: u64)
    ensures
        final(s)@ == old(s)@ + spec_udigits(n as int),
    decreases n,
{
    if n < 10 {
        s.append(digit_str(n as u8));
    } else {
        push_udigits(s, n / 10);
        s.append(digit_str((n % 10) as u8));
        proof {
            assert(old(s)@ + spec_udigits((n / 10) as int) + seq![
                spec_digit_char((n % 10) as int),
            ] =~= old(s)@ + spec_udigits(n as int));
        }
    }
}

/// Appends the decimal rendering of `n` to `s`.
fn push_int(s: &mut String, n: i64)
    requires
        n > i64::MIN,
    ensures
        final(s)@ == old(s)@ + spec_int_str(n as int),
{
    if n < 0 {
        proof {
            reveal_strlit("-");
        }
        s.append("-");
        push_udigits(s, (-n) as u64);
        proof {
            assert(old(s)@ + seq!['-'] + spec_udigits(-n as int) =~= old(s)@ + spec_int_str(
                n as int,
            ));
        }
    } else {
        push_udigits(s, n as u64);
    }
}

/// The daily prompt asking the user to rate the given civil date.
pub open spec fn spec_prompt_text(year: int, month: int, day: int, weekday: int) -> Seq<char> {
    "How drunk are you "@ + spec_weekday_name(weekday) + " "@ + spec_udigits(day) + " "@
        + spec_month_name(month) + " "@ + spec_int_str(year) + " ?"@
}

/// The confirmation shown once a rating was recorded for the given civil
/// date.
pub open spec fn spec_result_text(
    year: int,
    month: int,
    day: int,
    weekday: int,
    rank: int,
) -> Seq<char> {
    spec_weekday_name(weekday) + " "@ + spec_udigits(day) + " "@ + spec_month_name(month) + " "@
        + spec_int_str(year) + " you put a "@ + spec_udigits(rank) + " on the Picole Pixel"@
}

/// Builds the prompt text for one civil date.
pub fn prompt_text(parts: &DateParts) -> (r: String)
    requires
        1 <= parts.month <= 12,
        parts.weekday <= 6,
    ensures
        r@ == spec_prompt_text(
            parts.year as int,
            parts.month as int,
            parts.day as int,
            parts.weekday as int,
        ),
{
    proof {
        reveal_strlit("How drunk are you ");
        reveal_strlit(" ");
        reveal_strlit(" ?");
    }
    let mut s = String::from_str("How drunk are you ");
    match get_weekday(parts.weekday) {
        Some(w) => s.append(w),
        None => (),
    }
    s.append(" ");
    push_udigits(&mut s, parts.day as u64);
    s.append(" ");
    match get_month(parts.month as u32) {
        Some(m) => s.append(m),
        None => (),
    }
    s.append(" ");
    push_int(&mut s, parts.year as i64);
    s.append(" ?");
    s
}

/// Builds the confirmation text for one civil date and rating.
pub fn result_text(parts: &DateParts, rank: u8) -> (r: String)
    requires
        1 <= parts.month <= 12,
        parts.weekday <= 6,
    ensures
        r@ == spec_result_text(
            parts.year as int,
            parts.month as int,
            parts.day as int,
            parts.weekday as int,
            rank as int,
        ),
{
    proof {
        reveal_strlit(" ");
        reveal_strlit(" you put a ");
        reveal_strlit(" on the Picole Pixel");
    }
    let mut s = String::new();
    match get_weekday(parts.weekday) {
        Some(w) => s.append(w),
        None => (),
    }
    s.append(" ");
    push_udigits(&mut s, parts.day as u64);
    s.append(" ");
    match get_month(parts.month as u32) {
        Some(m) => s.append(m),
        None => (),
    }
    s.append(" ");
    push_int(&mut s, parts.year as i64);
    s.append(" you put a ");
    push_udigits(&mut s, rank as u64);
    s.append(" on the Picole Pixel");
    s
}

/// The prompt text for the date a timestamp falls on. Success is owed on
/// every timestamp from the epoch through year 9999; `None` only when the
/// calendar refuses the timestamp as out of range.
pub fn prompt_text_for(ts: i64) -> (r: Option<String>)
    ensures
        r matches Some(s) ==> s@ == spec_prompt_text(
            civil_of(ts as int).0,
            civil_of(ts as int).1,
            civil_of(ts as int).2,
            civil_of(ts as int).3,
        ),
        0 <= ts <= 253_402_300_799 ==> r is Some,
{
    match chrono_date_parts(ts) {
        Some(p) => Some(prompt_text(&p)),
        None => None,
    }
}

/// The confirmation text for the date a timestamp falls on and a rating.
/// Success is owed on every timestamp from the epoch through year 9999;
/// `None` only when the calendar refuses the timestamp as out of range.
pub fn result_text_for(ts: i64, rank: u8) -> (r: Option<String>)
    ensures
        r matches Some(s) ==> s@ == spec_result_text(
            civil_of(ts as int).0,
            civil_of(ts as int).1,
            civil_of(ts as int).2,
            civil_of(ts as int).3,
            rank as int,
        ),
        0 <= ts <= 253_402_300_799 ==> r is Some,
{
    match chrono_date_parts(ts) {
        Some(p) => Some(result_text(&p, rank)),
        None => None,
    }
}

} // verus!
