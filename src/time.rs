//! A UTC instant to the second, as civil date and time, and its
//! ISO-8601 basic forms `YYYYMMDD` and `YYYYMMDDTHHMMSSZ`.
use vstd::prelude::*;
use chrono::Datelike;
use chrono::Timelike;
use crate::text::{decimal, two_digits, push_char, push_decimal, push_two_digits};

verus! {

pub open spec fn is_leap_year(year: int) -> bool {
    year % 4 == 0 && (year % 100 != 0 || year % 400 == 0)
}

/// The number of days of a month in the proleptic Gregorian calendar.
pub open spec fn days_in_month(year: int, month: int) -> int {
    if month == 2 {
        if is_leap_year(year) { 29 } else { 28 }
    } else if month == 4 || month == 6 || month == 9 || month == 11 {
        30
    } else {
        31
    }
}

/// A UTC instant, to the second.
#[derive(Clone, Copy, Debug, PartialEq, Eq)]
pub struct SigningTime {
    year: i32,
    month: u32,
    day: u32,
    hour: u32,
    minute: u32,
    second: u32,
}

/// Whether the parts name a real date and time of day.
pub open spec fn valid_parts(year: int, month: int, day: int, hour: int, minute: int, second: int) -> bool {
    &&& 1 <= month <= 12
    &&& 1 <= day <= days_in_month(year, month)
    &&& 0 <= hour < 24
    &&& 0 <= minute < 60
    &&& 0 <= second < 60
}

/// `n` with at least four digits, zero-padded on the left.
pub open spec fn four_digits(n: nat) -> Seq<char> {
    if n < 10 {
        seq!['0', '0', '0'] + decimal(n)
    } else if n < 100 {
        seq!['0', '0'] + decimal(n)
    } else if n < 1000 {
        seq!['0'] + decimal(n)
    } else {
        decimal(n)
    }
}

/// The year as `%Y` writes it: four digits for years 0 to 9999, otherwise
/// a sign followed by at least four digits.
pub open spec fn year_text(year: int) -> Seq<char> {
    if 0 <= year <= 9999 {
        four_digits(year as nat)
    } else if year < 0 {
        seq!['-'] + four_digits((-year) as nat)
    } else {
        seq!['+'] + four_digits(year as nat)
    }
}

impl SigningTime {
    pub closed spec fn year_spec(&self) -> int { self.year as int }
    pub closed spec fn month_spec(&self) -> int { self.month as int }
    pub closed spec fn day_spec(&self) -> int { self.day as int }
    pub closed spec fn hour_spec(&self) -> int { self.hour as int }
    pub closed spec fn minute_spec(&self) -> int { self.minute as int }
    pub closed spec fn second_spec(&self) -> int { self.second as int }

    /// Each part is in its range and the day exists in its month.
    pub open spec fn wf(&self) -> bool {
        valid_parts(self.year_spec(), self.month_spec(), self.day_spec(),
            self.hour_spec(), self.minute_spec(), self.second_spec())
    }

    #[verifier::type_invariant]
    spec fn inv(&self) -> bool {
        self.wf()
    }

    /// The date in the form `YYYYMMDD`.
    pub open spec fn date_text(&self) -> Seq<char> {
        year_text(self.year_spec()) + two_digits(self.month_spec() as nat)
            + two_digits(self.day_spec() as nat)
    }

    /// The instant in the form `YYYYMMDDTHHMMSSZ`.
    pub open spec fn timestamp_text(&self) -> Seq<char> {
        self.date_text() + seq!['T'] + two_digits(self.hour_spec() as nat)
            + two_digits(self.minute_spec() as nat) + two_digits(self.second_spec() as nat)
            + seq!['Z']
    }

    /// The instant with the given parts, or `None` where they name no real
    /// date and time of day.
    pub fn from_ymd_hms(year: i32, month: u32, day: u32, hour: u32, minute: u32, second: u32) -> (r: Option<SigningTime>)
        ensures
            r is Some <==> valid_parts(year as int, month as int, day as int, hour as int, minute as int, second as int),
            r matches Some(t) ==> t.year_spec() == year && t.month_spec() == month
                && t.day_spec() == day && t.hour_spec() == hour
                && t.minute_spec() == minute && t.second_spec() == second,
    {
        if month < 1 || month > 12 || day < 1 || hour >= 24 || minute >= 60 || second >= 60 {
            return None;
        }
        let leap = year % 4 == 0 && (year % 100 != 0 || year % 400 == 0);
        let last: u32 = if month == 2 {
            if leap { 29 } else { 28 }
        } else if month == 4 || month == 6 || month == 9 || month == 11 {
            30
        } else {
            31
        };
        if day > last {
            return None;
        }
        Some(SigningTime { year, month, day, hour, minute, second })
    }

    /// The current time of the system clock; `None` where the clock reads
    /// before 1970 or beyond the range of civil dates.
    pub fn now() -> (r: Option<SigningTime>)
        ensures
            r matches Some(t) ==> t.wf(),
    {
        match unix_seconds_now() {
            Some(secs) => {
                if secs > i64::MAX as u64 {
                    None
                } else {
                    civil_from_unix(secs as i64)
                }
            },
            None => None,
        }
    }

    /// 1970-01-01T00:00:00Z.
    pub fn unix_epoch() -> (r: SigningTime)
        ensures
            r.year_spec() == 1970 && r.month_spec() == 1 && r.day_spec() == 1,
            r.hour_spec() == 0 && r.minute_spec() == 0 && r.second_spec() == 0,
    {
        SigningTime { year: 1970, month: 1, day: 1, hour: 0, minute: 0, second: 0 }
    }

    pub fn year(&self) -> (r: i32)
        ensures r == self.year_spec(),
    {
        self.year
    }

    pub fn month(&self) -> (r: u32)
        ensures r == self.month_spec(),
    {
        self.month
    }

    pub fn day(&self) -> (r: u32)
        ensures r == self.day_spec(),
    {
        self.day
    }

    pub fn hour(&self) -> (r: u32)
        ensures r == self.hour_spec(),
    {
        self.hour
    }

    pub fn minute(&self) -> (r: u32)
        ensures r == self.minute_spec(),
    {
        self.minute
    }

    pub fn second(&self) -> (r: u32)
        ensures r == self.second_spec(),
    {
        self.second
    }

    /// Appends the date in the form `YYYYMMDD`.
    pub fn push_date(&self, s: &mut String)
        ensures
            final(s)@ == old(s)@ + self.date_text(),
    {
        proof {
            use_type_invariant(self);
        }
        push_year(s, self.year);
        push_two_digits(s, self.month as u64);
        push_two_digits(s, self.day as u64);
        assert(final(s)@ =~= old(s)@ + self.date_text());
    }

    /// Appends the instant in the form `YYYYMMDDTHHMMSSZ`.
    pub fn push_timestamp(&self, s: &mut String)
        ensures
            final(s)@ == old(s)@ + self.timestamp_text(),
    {
        proof {
            use_type_invariant(self);
        }
        self.push_date(s);
        push_char(s, 'T');
        push_two_digits(s, self.hour as u64);
        push_two_digits(s, self.minute as u64);
        push_two_digits(s, self.second as u64);
        push_char(s, 'Z');
        assert(final(s)@ =~= old(s)@ + self.timestamp_text());
    }

    /// The date in the form `YYYYMMDD`.
    pub fn date_string(&self) -> (r: String)
        ensures
            r@ == self.date_text(),
    {
        let mut s = String::new();
        self.push_date(&mut s);
        assert(s@ =~= self.date_text());
        s
    }

    /// The instant in the form `YYYYMMDDTHHMMSSZ`.
    pub fn timestamp_string(&self) -> (r: String)
        ensures
            r@ == self.timestamp_text(),
    {
        let mut s = String::new();
        self.push_timestamp(&mut s);
        assert(s@ =~= self.timestamp_text());
        s
    }
}

fn push_four_digits(s: &mut String, n: u64)
    ensures
        final(s)@ == old(s)@ + four_digits(n as nat),
{
    if n < 1000 {
        push_char(s, '0');
    }
    if n < 100 {
        push_char(s, '0');
    }
    if n < 10 {
        push_char(s, '0');
    }
    push_decimal(s, n);
    assert(final(s)@ =~= old(s)@ + four_digits(n as nat));
}

fn push_year(s: &mut String, year: i32)
    ensures
        final(s)@ == old(s)@ + year_text(year as int),
{
    if 0 <= year && year <= 9999 {
        push_four_digits(s, year as u64);
    } else if year < 0 {
        push_char(s, '-');
        push_four_digits(s, (-(year as i64)) as u64);
    } else {
        push_char(s, '+');
        push_four_digits(s, year as u64);
    }
    assert(final(s)@ =~= old(s)@ + year_text(year as int));
}

/// Relies on `std::time::SystemTime::now` and `duration_since`: the whole
/// seconds since the Unix epoch, or `None` where the clock reads earlier.
#[verifier::external_body]
fn unix_seconds_now() -> (r: Option<u64>) {
    std::time::SystemTime::now().duration_since(std::time::UNIX_EPOCH).ok().map(|d| d.as_secs())
}

/// Relies on `chrono::DateTime::from_timestamp` and the `Datelike` and
/// `Timelike` accessors of its result: `None` for an instant outside
/// chrono's range, else a real date (month 1 to 12, a day that its month
/// has), an hour below 24, a minute and a second below 60.
#[verifier::external_body]
fn civil_from_unix(secs: i64) -> (r: Option<SigningTime>)
    ensures
        r matches Some(t) ==> t.wf(),
{
    chrono::DateTime::from_timestamp(secs, 0).map(|t| SigningTime {
        year: t.year(),
        month: t.month(),
        day: t.day(),
        hour: t.hour(),
        minute: t.minute(),
        second: t.second(),
    })
}

} // verus!
