//! The request timestamp: `%a, %d %b %Y %H:%M:%S GMT` of the local wall-clock
//! time. The zone is always labelled `GMT`, whatever the machine's offset,
//! because the service's date parser refuses other labels.
use vstd::prelude::*;
use chrono::{Datelike, Timelike};
use crate::text::{append_padded, padded};

verus! {

/// A calendar date and wall-clock time, as the fields of a timestamp read it.
#[derive(Clone, Copy, Debug, PartialEq, Eq, Structural)]
pub struct LocalDateTime {
    /// Proleptic Gregorian year; may be zero or negative.
    pub year: i32,
    /// 1 to 12.
    pub month: u32,
    /// 1 to 31.
    pub day: u32,
    /// 0 to 23.
    pub hour: u32,
    /// 0 to 59.
    pub minute: u32,
    /// 0 to 59.
    pub second: u32,
    /// Days since Monday: 0 is Monday, 6 is Sunday.
    pub weekday: u32,
}

impl LocalDateTime {
    /// Every field is in its range.
    pub open spec fn wf(&self) -> bool {
        &&& 1 <= self.month <= 12
        &&& 1 <= self.day <= 31
        &&& self.hour < 24
        &&& self.minute < 60
        &&& self.second < 60
        &&& self.weekday < 7
    }
}

/// The English three-letter abbreviation of a weekday counted from Monday.
pub open spec fn weekday_name(weekday: nat) -> Seq<char> {
    if weekday == 0 {
        seq!['M', 'o', 'n']
    } else if weekday == 1 {
        seq!['T', 'u', 'e']
    } else if weekday == 2 {
        seq!['W', 'e', 'd']
    } else if weekday == 3 {
        seq!['T', 'h', 'u']
    } else if weekday == 4 {
        seq!['F', 'r', 'i']
    } else if weekday == 5 {
        seq!['S', 'a', 't']
    } else {
        seq!['S', 'u', 'n']
    }
}

/// The English three-letter abbreviation of a month numbered from 1.
pub open spec fn month_name(month: nat) -> Seq<char> {
    if month == 1 {
        seq!['J', 'a', 'n']
    } else if month == 2 {
        seq!['F', 'e', 'b']
    } else if month == 3 {
        seq!['M', 'a', 'r']
    } else if month == 4 {
        seq!['A', 'p', 'r']
    } else if month == 5 {
        seq!['M', 'a', 'y']
    } else if month == 6 {
        seq!['J', 'u', 'n']
    } else if month == 7 {
        seq!['J', 'u', 'l']
    } else if month == 8 {
        seq!['A', 'u', 'g']
    } else if month == 9 {
        seq!['S', 'e', 'p']
    } else if month == 10 {
        seq!['O', 'c', 't']
    } else if month == 11 {
        seq!['N', 'o', 'v']
    } else {
        seq!['D', 'e', 'c']
    }
}

/// The year in at least four digits; a year outside 0 to 9999 carries its sign.
pub open spec fn year_text(year: int) -> Seq<char> {
    if 0 <= year <= 9999 {
        padded(year as nat, 4)
    } else if year > 9999 {
        seq!['+'] + padded(year as nat, 4)
    } else {
        seq!['-'] + padded((-year) as nat, 4)
    }
}

/// `Day, DD Mon YYYY HH:MM:SS GMT`.
pub open spec fn timestamp_text(dt: LocalDateTime) -> Seq<char> {
    weekday_name(dt.weekday as nat) + seq![',', ' '] + padded(dt.day as nat, 2) + seq![' ']
        + month_name(dt.month as nat) + seq![' '] + year_text(dt.year as int) + seq![' ']
        + padded(dt.hour as nat, 2) + seq![':'] + padded(dt.minute as nat, 2) + seq![':']
        + padded(dt.second as nat, 2) + seq![' ', 'G', 'M', 'T']
}

fn weekday_abbrev(weekday: u32) -> (r: &'static str)
    requires
        weekday < 7,
    ensures
        r@ == weekday_name(weekday as nat),
{
    let r = if weekday == 0 {
        proof { reveal_strlit("Mon"); }
        "Mon"
    } else if weekday == 1 {
        proof { reveal_strlit("Tue"); }
        "Tue"
    } else if weekday == 2 {
        proof { reveal_strlit("Wed"); }
        "Wed"
    } else if weekday == 3 {
        proof { reveal_strlit("Thu"); }
        "Thu"
    } else if weekday == 4 {
        proof { reveal_strlit("Fri"); }
        "Fri"
    } else if weekday == 5 {
        proof { reveal_strlit("Sat"); }
        "Sat"
    } else {
        proof { reveal_strlit("Sun"); }
        "Sun"
    };
    assert(r@ =~= weekday_name(weekday as nat));
    r
}

fn month_abbrev(month: u32) -> (r: &'static str)
    requires
        1 <= month <= 12,
    ensures
        r@ == month_name(month as nat),
{
    let r = if month == 1 {
        proof { reveal_strlit("Jan"); }
        "Jan"
    } else if month == 2 {
        proof { reveal_strlit("Feb"); }
        "Feb"
    } else if month == 3 {
        proof { reveal_strlit("Mar"); }
        "Mar"
    } else if month == 4 {
        proof { reveal_strlit("Apr"); }
        "Apr"
    } else if month == 5 {
        proof { reveal_strlit("May"); }
        "May"
    } else if month == 6 {
        proof { reveal_strlit("Jun"); }
        "Jun"
    } else if month == 7 {
        proof { reveal_strlit("Jul"); }
        "Jul"
    } else if month == 8 {
        proof { reveal_strlit("Aug"); }
        "Aug"
    } else if month == 9 {
        proof { reveal_strlit("Sep"); }
        "Sep"
    } else if month == 10 {
        proof { reveal_strlit("Oct"); }
        "Oct"
    } else if month == 11 {
        proof { reveal_strlit("Nov"); }
        "Nov"
    } else {
        proof { reveal_strlit("Dec"); }
        "Dec"
    };
    assert(r@ =~= month_name(month as nat));
    r
}

fn append_year(out: &mut String, year: i32)
    ensures
        final(out)@ == old(out)@ + year_text(year as int),
{
    if 0 <= year && year <= 9999 {
        append_padded(out, year as usize, 4);
    } else if year > 9999 {
        proof { reveal_strlit("+"); }
        out.append("+");
        append_padded(out, year as u32 as usize, 4);
        assert(final(out)@ =~= old(out)@ + year_text(year as int));
    } else {
        proof { reveal_strlit("-"); }
        out.append("-");
        let magnitude: u32 = (0i64 - year as i64) as u32;
        append_padded(out, magnitude as usize, 4);
        assert(final(out)@ =~= old(out)@ + year_text(year as int));
    }
}

/// Formats `dt` as the request timestamp, labelled `GMT`.
pub fn format_date_str(dt: &LocalDateTime) -> (r: String)
    requires
        dt.wf(),
    ensures
        r@ == timestamp_text(*dt),
{
    proof {
        reveal_strlit(", ");
        reveal_strlit(" ");
        reveal_strlit(":");
        reveal_strlit(" GMT");
    }
    let mut r = String::from_str(weekday_abbrev(dt.weekday));
    r.append(", ");
    append_padded(&mut r, dt.day as usize, 2);
    r.append(" ");
    r.append(month_abbrev(dt.month));
    r.append(" ");
    append_year(&mut r, dt.year);
    r.append(" ");
    append_padded(&mut r, dt.hour as usize, 2);
    r.append(":");
    append_padded(&mut r, dt.minute as usize, 2);
    r.append(":");
    append_padded(&mut r, dt.second as usize, 2);
    r.append(" GMT");
    assert(r@ =~= timestamp_text(*dt));
    r
}

/// Relies on chrono's `Local::now` and its `Datelike` / `Timelike` getters:
/// month 1 to 12, day 1 to 31, hour 0 to 23, minute and second 0 to 59,
/// weekday counted from Monday, 0 to 6.
#[verifier::external_body]
fn local_now() -> (r: LocalDateTime)
    ensures
        r.wf(),
{
    let now = chrono::Local::now();
    LocalDateTime {
        year: now.year(),
        month: now.month(),
        day: now.day(),
        hour: now.hour(),
        minute: now.minute(),
        second: now.second(),
        weekday: now.weekday().num_days_from_monday(),
    }
}

/// A fresh timestamp of the local wall-clock time, labelled `GMT`.
pub fn current_timestamp() -> (r: String)
    ensures
        exists|dt: LocalDateTime| dt.wf() && r@ == timestamp_text(dt),
{
    let now = local_now();
    format_date_str(&now)
}

} // verus!
