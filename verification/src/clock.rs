//! The clock strings shown by the launcher.
//!
//! Once a second the shell displays the local time as a 12-hour
//! `hh:mm am`/`hh:mm pm` string and the date as `Month dd, yyyy` with the
//! full month name. The formatting is defined and proved here; only the
//! reading of the present local time is delegated to the `chrono` crate.

use chrono::{Datelike, Timelike};
use vstd::prelude::*;

verus! {

/// The decimal digit character for `d` (`d < 10`).
pub open spec fn digit_char(d: nat) -> char {
    if d == 0 {
        '0'
    } else if d == 1 {
        '1'
    } else if d == 2 {
        '2'
    } else if d == 3 {
        '3'
    } else if d == 4 {
        '4'
    } else if d == 5 {
        '5'
    } else if d == 6 {
        '6'
    } else if d == 7 {
        '7'
    } else if d == 8 {
        '8'
    } else {
        '9'
    }
}

/// `n` as two digits, zero padded (`n < 100`).
pub open spec fn two_digit_text(n: nat) -> Seq<char> {
    seq![digit_char(n / 10), digit_char(n % 10)]
}

/// `n` in decimal, without padding.
pub open spec fn decimal_text(n: nat) -> Seq<char>
    decreases n,
{
    if n < 10 {
        seq![digit_char(n)]
    } else {
        decimal_text(n / 10).push(digit_char(n % 10))
    }
}

/// `n` in decimal, zero padded on the left to at least four digits.
pub open spec fn padded4_text(n: nat) -> Seq<char> {
    if n < 10 {
        seq!['0', '0', '0'] + decimal_text(n)
    } else if n < 100 {
        seq!['0', '0'] + decimal_text(n)
    } else if n < 1000 {
        seq!['0'] + decimal_text(n)
    } else {
        decimal_text(n)
    }
}

/// A year, at least four digits, with a leading minus sign when negative.
pub open spec fn year_text(y: int) -> Seq<char> {
    if y < 0 {
        seq!['-'] + padded4_text((-y) as nat)
    } else {
        padded4_text(y as nat)
    }
}

/// The hour on the 12-hour dial: 12 for 0 and 12, else the hour mod 12.
pub open spec fn hour12(h: nat) -> nat {
    if h % 12 == 0 {
        12
    } else {
        h % 12
    }
}

/// The lowercase day-half marker: `am` before noon, `pm` from noon on.
pub open spec fn meridiem_text(h: nat) -> Seq<char> {
    if h < 12 {
        seq!['a', 'm']
    } else {
        seq!['p', 'm']
    }
}

/// The time string: zero-padded 12-hour hour, colon, zero-padded minute,
/// space, `am` or `pm`.
pub open spec fn time_text(h: nat, m: nat) -> Seq<char> {
    two_digit_text(hour12(h)) + seq![':'] + two_digit_text(m) + seq![' '] + meridiem_text(h)
}

/// The full English month name (`1 <= m <= 12`).
pub open spec fn month_text(m: nat) -> Seq<char> {
    if m == 1 {
        "January"@
    } else if m == 2 {
        "February"@
    } else if m == 3 {
        "March"@
    } else if m == 4 {
        "April"@
    } else if m == 5 {
        "May"@
    } else if m == 6 {
        "June"@
    } else if m == 7 {
        "July"@
    } else if m == 8 {
        "August"@
    } else if m == 9 {
        "September"@
    } else if m == 10 {
        "October"@
    } else if m == 11 {
        "November"@
    } else {
        "December"@
    }
}

/// The date string: full month name, space, zero-padded day, comma, space,
/// year.
pub open spec fn date_text(y: int, m: nat, d: nat) -> Seq<char> {
    month_text(m) + seq![' '] + two_digit_text(d) + seq![','] + seq![' '] + year_text(y)
}

fn digit_str(d: u32) -> (r: &'static str)
    requires
        d < 10,
    ensures
        r@ == seq![digit_char(d as nat)],
{
    proof {
        reveal_strlit("0");
        reveal_strlit("1");
        reveal_strlit("2");
        reveal_strlit("3");
        reveal_strlit("4");
        reveal_strlit("5");
        reveal_strlit("6");
        reveal_strlit("7");
        reveal_strlit("8");
        reveal_strlit("9");
        assert("0"@ =~= seq!['0']);
        assert("1"@ =~= seq!['1']);
        assert("2"@ =~= seq!['2']);
        assert("3"@ =~= seq!['3']);
        assert("4"@ =~= seq!['4']);
        assert("5"@ =~= seq!['5']);
        assert("6"@ =~= seq!['6']);
        assert("7"@ =~= seq!['7']);
        assert("8"@ =~= seq!['8']);
        assert("9"@ =~= seq!['9']);
    }
    match d {
        0 => "0",
        1 => "1",
        2 => "2",
        3 => "3",
        4 => "4",
        5 => "5",
        6 => "6",
        7 => "7",
        8 => "8",
        _ => "9",
    }
}

fn two_digit_str(n: u32) -> (r: String)
    requires
        n < 100,
    ensures
        r@ == two_digit_text(n as nat),
{
    let mut out = String::from_str(digit_str(n / 10));
    out.append(digit_str(n % 10));
    proof {
        assert(out@ =~= two_digit_text(n as nat));
    }
    out
}

fn decimal_str(n: u32) -> (r: String)
    ensures
        r@ == decimal_text(n as nat),
    decreases n,
{
    if n < 10 {
        String::from_str(digit_str(n))
    } else {
        let mut out = decimal_str(n / 10);
        out.append(digit_str(n % 10));
        proof {
            assert(out@ =~= decimal_text(n as nat));
        }
        out
    }
}

fn padded4_str(n: u32) -> (r: String)
    ensures
        r@ == padded4_text(n as nat),
{
    proof {
        reveal_strlit("000");
        reveal_strlit("00");
        reveal_strlit("0");
    }
    let mut out = if n < 10 {
        String::from_str("000")
    } else if n < 100 {
        String::from_str("00")
    } else if n < 1000 {
        String::from_str("0")
    } else {
        String::new()
    };
    let digits = decimal_str(n);
    out.append(digits.as_str());
    proof {
        assert(out@ =~= padded4_text(n as nat));
    }
    out
}

fn year_str(y: i32) -> (r: String)
    ensures
        r@ == year_text(y as int),
{
    if y < 0 {
        let magnitude: u32 = (-(y as i64)) as u32;
        proof {
            reveal_strlit("-");
            assert("-"@ =~= seq!['-']);
        }
        let mut out = String::from_str("-");
        let digits = padded4_str(magnitude);
        out.append(digits.as_str());
        out
    } else {
        padded4_str(y as u32)
    }
}

/// Format an hour and minute of the day as the launcher's clock does.
pub fn format_time(hour: u32, minute: u32) -> (r: String)
    requires
        hour < 24,
        minute < 60,
    ensures
        r@ == time_text(hour as nat, minute as nat),
{
    let twelve: u32 = if hour % 12 == 0 {
        12
    } else {
        hour % 12
    };
    let mut out = two_digit_str(twelve);
    out.append(":");
    let minutes = two_digit_str(minute);
    out.append(minutes.as_str());
    out.append(" ");
    if hour < 12 {
        out.append("am");
    } else {
        out.append("pm");
    }
    proof {
        reveal_strlit(":");
        reveal_strlit(" ");
        reveal_strlit("am");
        reveal_strlit("pm");
        assert(out@ =~= time_text(hour as nat, minute as nat));
    }
    out
}

fn month_str(m: u32) -> (r: &'static str)
    requires
        1 <= m <= 12,
    ensures
        r@ == month_text(m as nat),
{
    match m {
        1 => "January",
        2 => "February",
        3 => "March",
        4 => "April",
        5 => "May",
        6 => "June",
        7 => "July",
        8 => "August",
        9 => "September",
        10 => "October",
        11 => "November",
        _ => "December",
    }
}

/// Format a calendar date as the launcher's clock does.
pub fn format_date(year: i32, month: u32, day: u32) -> (r: String)
    requires
        1 <= month <= 12,
        1 <= day <= 31,
    ensures
        r@ == date_text(year as int, month as nat, day as nat),
{
    let mut out = String::from_str(month_str(month));
    out.append(" ");
    let days = two_digit_str(day);
    out.append(days.as_str());
    out.append(", ");
    let years = year_str(year);
    out.append(years.as_str());
    proof {
        reveal_strlit(" ");
        reveal_strlit(", ");
        assert(out@ =~= date_text(year as int, month as nat, day as nat));
    }
    out
}

/// A reading of the wall clock, reduced to the fields the display needs.
pub struct ClockInstant {
    pub hour: u32,
    pub minute: u32,
    pub year: i32,
    pub month: u32,
    pub day: u32,
}

impl ClockInstant {
    /// The ranges the calendar guarantees of every reading.
    pub open spec fn wf(self) -> bool {
        &&& self.hour < 24
        &&& self.minute < 60
        &&& 1 <= self.month <= 12
        &&& 1 <= self.day <= 31
    }
}

/// Relies on `chrono::Local::now` and its `Timelike`/`Datelike` accessors:
/// `hour` is 0 to 23, `minute` 0 to 59, `month` 1 to 12 and `day` 1 to 31,
/// as their documentation states. Nothing is promised of which instant
/// comes back.
#[verifier::external_body]
fn local_now() -> (r: ClockInstant)
    ensures
        r.wf(),
{
    let now = chrono::Local::now();
    ClockInstant {
        hour: now.hour(),
        minute: now.minute(),
        year: now.year(),
        month: now.month(),
        day: now.day(),
    }
}

/// One tick of the clock thread: read the present local time and format
/// both display strings from that one reading.
pub fn clock_tick() -> (r: (ClockInstant, String, String))
    ensures
        r.0.wf(),
        r.1@ == time_text(r.0.hour as nat, r.0.minute as nat),
        r.2@ == date_text(r.0.year as int, r.0.month as nat, r.0.day as nat),
{
    let instant = local_now();
    let time_string = format_time(instant.hour, instant.minute);
    let date_string = format_date(instant.year, instant.month, instant.day);
    (instant, time_string, date_string)
}

} // verus!
