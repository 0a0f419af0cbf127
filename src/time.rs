//! Clock times (`HH:MM`), swim durations (`HH:MM:SS.fff` read, `HH:MM:SS.ff`
//! written) and calendar dates (`YYYY-MM-DD`).
use vstd::prelude::*;

use chrono::{Datelike, NaiveDate, NaiveTime, Timelike};

use crate::error::DecodeError;
use crate::number::{pad2_text, pad4_text, push_pad2, push_pad4};

verus! {

#[verifier::external_type_specification]
#[verifier::external_body]
pub struct ExParseError(chrono::ParseError);

/// Hour, minute, second and nanosecond of the time of day that chrono reads
/// from a text with a strftime pattern; `None` where it reads none.
pub uninterp spec fn chrono_time_fields(s: Seq<char>, fmt: Seq<char>) -> Option<(u32, u32, u32, u32)>;

/// Year, month and day of the date that chrono reads from a `%Y-%m-%d` text.
pub uninterp spec fn chrono_date_fields(s: Seq<char>) -> Option<(i32, u32, u32)>;

/// Relies on chrono's `NaiveTime::parse_from_str`, read through `Timelike`:
/// the result depends on the text and the pattern alone; an hour is below
/// 24, a minute and a second below 60, and the nanosecond below two billion
/// (a leap second runs past one billion).
#[verifier::external_body]
fn parse_time_fields(s: &str, fmt: &str) -> (r: Result<(u32, u32, u32, u32), chrono::ParseError>)
    ensures
        r is Ok <==> chrono_time_fields(s@, fmt@) is Some,
        r matches Ok(f) ==> chrono_time_fields(s@, fmt@) == Some(f) && f.0 < 24 && f.1 < 60
            && f.2 < 60 && f.3 < 2_000_000_000,
{
    match NaiveTime::parse_from_str(s, fmt) {
        Ok(t) => Ok((t.hour(), t.minute(), t.second(), t.nanosecond())),
        Err(e) => Err(e),
    }
}

/// Relies on chrono's `FromStr for NaiveDate`, read through `Datelike`: the
/// result depends on the text alone, and a `NaiveDate` is a real date of the
/// proleptic Gregorian calendar.
#[verifier::external_body]
fn parse_date_fields(s: &str) -> (r: Result<(i32, u32, u32), chrono::ParseError>)
    ensures
        r is Ok <==> chrono_date_fields(s@) is Some,
        r matches Ok(f) ==> chrono_date_fields(s@) == Some(f) && is_calendar_date(f.0, f.1, f.2),
{
    match s.parse::<NaiveDate>() {
        Ok(d) => Ok((d.year(), d.month(), d.day())),
        Err(e) => Err(e),
    }
}

// ---------------------------------------------------------------- clock time

/// A time of day to the minute, as scheduling fields hold it.
#[derive(Debug, Clone, Copy, PartialEq, Eq)]
pub struct ClockTime {
    hour: u32,
    minute: u32,
}

/// The `HH:MM` text of a clock time.
pub open spec fn clock_text(hour: nat, minute: nat) -> Seq<char> {
    pad2_text(hour) + seq![':'] + pad2_text(minute)
}

/// The text written for an optional clock time: nothing where it is absent.
pub open spec fn opt_clock_text(t: Option<ClockTime>) -> Seq<char> {
    match t {
        Some(c) => clock_text(c.hour_of(), c.minute_of()),
        None => Seq::empty(),
    }
}

impl ClockTime {
    #[verifier::type_invariant]
    spec fn valid(self) -> bool {
        self.hour < 24 && self.minute < 60
    }

    pub closed spec fn hour_of(self) -> nat {
        self.hour as nat
    }

    pub closed spec fn minute_of(self) -> nat {
        self.minute as nat
    }

    /// The time `hour:minute`; `None` unless the hour is below 24 and the
    /// minute below 60.
    pub fn from_hm(hour: u32, minute: u32) -> (r: Option<ClockTime>)
        ensures
            r is Some <==> hour < 24 && minute < 60,
            r matches Some(t) ==> t.hour_of() == hour && t.minute_of() == minute,
    {
        if hour < 24 && minute < 60 {
            Some(ClockTime { hour, minute })
        } else {
            None
        }
    }

    pub fn hour(&self) -> (r: u32)
        ensures
            r == self.hour_of(),
            r < 24,
    {
        proof { use_type_invariant(self); }
        self.hour
    }

    pub fn minute(&self) -> (r: u32)
        ensures
            r == self.minute_of(),
            r < 60,
    {
        proof { use_type_invariant(self); }
        self.minute
    }

    /// Reads a clock time with the pattern `%H:%M`; any other text is an
    /// `InvalidTime` error.
    pub fn decode(s: &str) -> (r: Result<ClockTime, DecodeError>)
        ensures
            r is Ok <==> chrono_time_fields(s@, "%H:%M"@) is Some,
            r matches Ok(t) ==> chrono_time_fields(s@, "%H:%M"@) matches Some(f) && t.hour_of()
                == f.0 && t.minute_of() == f.1,
            r matches Err(e) ==> e == DecodeError::InvalidTime,
    {
        match parse_time_fields(s, "%H:%M") {
            Ok(f) => Ok(ClockTime { hour: f.0, minute: f.1 }),
            Err(_) => Err(DecodeError::InvalidTime),
        }
    }

    /// Writes the time as `HH:MM`, each part with two digits.
    pub fn encode(&self) -> (r: String)
        ensures
            r@ == clock_text(self.hour_of(), self.minute_of()),
    {
        let mut out = String::new();
        push_pad2(&mut out, self.hour as u64);
        proof { reveal_strlit(":"); }
        out.append(":");
        push_pad2(&mut out, self.minute as u64);
        assert(out@ =~= clock_text(self.hour_of(), self.minute_of()));
        out
    }
}


// ------------------------------------------------------------ swim duration

/// An elapsed race time, to the millisecond.
#[derive(Debug, Clone, Copy, PartialEq, Eq, Structural)]
pub struct SwimDuration {
    pub milliseconds: u64,
}

/// The milliseconds from midnight to a time of day given by its fields; a
/// leap second's nanoseconds (one billion and more) count on past second 59.
pub open spec fn millis_since_midnight(hour: nat, minute: nat, second: nat, nano: nat) -> nat {
    ((hour * 60 + minute) * 60 + second) * 1000 + nano / 1_000_000
}

/// Index of the first `c` in `s`, or the length of `s` if none.
pub open spec fn index_of(s: Seq<char>, c: char) -> nat
    decreases s.len(),
{
    if s.len() == 0 {
        0
    } else if s[0] == c {
        0
    } else {
        1 + index_of(s.drop_first(), c)
    }
}

pub open spec fn zeros(n: int) -> Seq<char> {
    Seq::new(if n > 0 { n as nat } else { 0 }, |k: int| '0')
}

/// `s` with the part after its first `.` (up to a second `.`, if any)
/// right-padded with zeros to three digits.
pub open spec fn padded_fraction(s: Seq<char>) -> Seq<char> {
    let i = index_of(s, '.') as int;
    if i >= s.len() {
        s
    } else {
        let rest = s.subrange(i + 1, s.len() as int);
        let j = index_of(rest, '.') as int;
        let frac = rest.subrange(0, j);
        s.subrange(0, i + 1) + frac + zeros(3 - frac.len()) + rest.subrange(j, rest.len() as int)
    }
}

/// The duration that a swim-time text stands for: the text with its
/// fraction padded to milliseconds, read as a time of day, measured from
/// midnight.
pub open spec fn swim_field(s: Seq<char>) -> Result<u64, DecodeError> {
    match chrono_time_fields(padded_fraction(s), "%H:%M:%S.%3f"@) {
        Some(f) => Ok(millis_since_midnight(f.0 as nat, f.1 as nat, f.2 as nat, f.3 as nat) as u64),
        None => Err(DecodeError::InvalidTime),
    }
}

/// Hundredths of a second in `ms` milliseconds, rounded to the nearest, a
/// half upwards.
pub open spec fn centis_of(ms: nat) -> nat {
    ms / 10 + if ms % 10 >= 5 { 1nat } else { 0nat }
}

/// The written text of a swim duration: total hours (any number of them),
/// minutes of the hour, seconds of the minute, and two fractional digits,
/// each part with at least two digits.
pub open spec fn swim_text(ms: nat) -> Seq<char> {
    let c = centis_of(ms);
    pad2_text(c / 360000) + seq![':'] + pad2_text((c / 6000) % 60) + seq![':'] + pad2_text(
        (c / 100) % 60,
    ) + seq!['.'] + pad2_text(c % 100)
}

/// The text written for an optional swim duration: nothing where it is
/// absent.
pub open spec fn opt_swim_text(d: Option<SwimDuration>) -> Seq<char> {
    match d {
        Some(x) => swim_text(x.milliseconds as nat),
        None => Seq::empty(),
    }
}

pub proof fn lemma_index_of(s: Seq<char>, c: char, i: int)
    requires
        0 <= i <= s.len(),
        forall|k: int| 0 <= k < i ==> s[k] != c,
        i == s.len() || s[i] == c,
    ensures
        index_of(s, c) == i,
    decreases s.len(),
{
    if s.len() > 0 && s[0] != c {
        lemma_index_of(s.drop_first(), c, i - 1);
    }
}

pub fn find_char(s: &str, from: usize, c: char) -> (r: usize)
    requires
        from <= s@.len(),
    ensures
        r == from + index_of(s@.subrange(from as int, s@.len() as int), c),
        from <= r <= s@.len(),
        r < s@.len() ==> s@[r as int] == c,
{
    let n = s.unicode_len();
    let mut i = from;
    while i < n
        invariant
            from <= i <= n,
            n == s@.len(),
            forall|k: int| from <= k < i ==> s@[k] != c,
        decreases n - i,
    {
        if s.get_char(i) == c {
            proof {
                lemma_index_of(s@.subrange(from as int, n as int), c, i - from);
            }
            return i;
        }
        i = i + 1;
    }
    proof {
        lemma_index_of(s@.subrange(from as int, n as int), c, i - from);
    }
    i
}

/// The text with its fraction right-padded with zeros to three digits.
pub fn pad_fraction(s: &str) -> (r: String)
    ensures
        r@ == padded_fraction(s@),
{
    let n = s.unicode_len();
    let i = find_char(s, 0, '.');
    assert(s@.subrange(0, n as int) =~= s@);
    if i >= n {
        return String::from_str(s);
    }
    let j = find_char(s, i + 1, '.');
    let mut out = String::from_str(s.substring_char(0, j));
    let ghost rest = s@.subrange(i + 1, n as int);
    let ghost frac = rest.subrange(0, j - i - 1);
    proof {
        reveal_strlit("0");
        reveal_strlit("00");
        reveal_strlit("000");
    }
    let len = j - i - 1;
    if len == 0 {
        out.append("000");
    } else if len == 1 {
        out.append("00");
    } else if len == 2 {
        out.append("0");
    }
    out.append(s.substring_char(j, n));
    assert(s@.subrange(0, j as int) =~= s@.subrange(0, i + 1) + frac);
    assert(rest.subrange(j - i - 1, rest.len() as int) =~= s@.subrange(j as int, n as int));
    assert(out@ =~= padded_fraction(s@));
    out
}

impl SwimDuration {
    pub fn from_milliseconds(milliseconds: u64) -> (r: SwimDuration)
        ensures
            r.milliseconds == milliseconds,
    {
        SwimDuration { milliseconds }
    }

    /// The duration from midnight to the time of day with these fields, as
    /// chrono measures it.
    pub fn from_time_fields(hour: u32, minute: u32, second: u32, nano: u32) -> (r: SwimDuration)
        requires
            hour < 24,
            minute < 60,
            second < 60,
        ensures
            r.milliseconds == millis_since_midnight(
                hour as nat,
                minute as nat,
                second as nat,
                nano as nat,
            ),
    {
        let secs = (hour as u64 * 60 + minute as u64) * 60 + second as u64;
        SwimDuration { milliseconds: secs * 1000 + nano as u64 / 1_000_000 }
    }

    /// Whole milliseconds.
    pub fn num_milliseconds(&self) -> (r: u64)
        ensures
            r == self.milliseconds,
    {
        self.milliseconds
    }

    /// Whole seconds.
    pub fn num_seconds(&self) -> (r: u64)
        ensures
            r == self.milliseconds / 1000,
    {
        self.milliseconds / 1000
    }

    /// Whole minutes.
    pub fn num_minutes(&self) -> (r: u64)
        ensures
            r == self.milliseconds / 60_000,
    {
        self.milliseconds / 60_000
    }

    /// Whole hours.
    pub fn num_hours(&self) -> (r: u64)
        ensures
            r == self.milliseconds / 3_600_000,
    {
        self.milliseconds / 3_600_000
    }

    /// Reads a swim duration `HH:MM:SS.fff`: the fraction is right-padded
    /// with zeros to three digits, the text read as a time of day, and the
    /// duration measured from midnight. Unreadable text is `InvalidTime`.
    pub fn decode(s: &str) -> (r: Result<SwimDuration, DecodeError>)
        ensures
            r matches Ok(d) ==> swim_field(s@) == Ok::<u64, DecodeError>(d.milliseconds),
            r matches Err(e) ==> swim_field(s@) == Err::<u64, DecodeError>(e),
    {
        let padded = pad_fraction(s);
        match parse_time_fields(padded.as_str(), "%H:%M:%S.%3f") {
            Ok(f) => Ok(SwimDuration::from_time_fields(f.0, f.1, f.2, f.3)),
            Err(_) => Err(DecodeError::InvalidTime),
        }
    }

    /// Writes the duration as `HH:MM:SS.ff`: total hours, minutes of the
    /// hour, seconds of the minute and hundredths, rounded to the nearest.
    pub fn encode(&self) -> (r: String)
        ensures
            r@ == swim_text(self.milliseconds as nat),
    {
        let ms = self.milliseconds;
        let c = ms / 10 + if ms % 10 >= 5 { 1 } else { 0 };
        let mut out = String::new();
        proof {
            reveal_strlit(":");
            reveal_strlit(".");
        }
        push_pad2(&mut out, c / 360000);
        out.append(":");
        push_pad2(&mut out, (c / 6000) % 60);
        out.append(":");
        push_pad2(&mut out, (c / 100) % 60);
        out.append(".");
        push_pad2(&mut out, c % 100);
        assert(out@ =~= swim_text(ms as nat));
        out
    }
}

// --------------------------------------------------------------------- date

pub open spec fn is_leap_year(y: int) -> bool {
    (y % 4 == 0 && y % 100 != 0) || y % 400 == 0
}

pub open spec fn days_in_month(y: int, m: int) -> int {
    if m == 2 {
        if is_leap_year(y) { 29 } else { 28 }
    } else if m == 4 || m == 6 || m == 9 || m == 11 {
        30
    } else {
        31
    }
}

/// Whether `year-month-day` is a date of the proleptic Gregorian calendar.
pub open spec fn is_calendar_date(year: i32, month: u32, day: u32) -> bool {
    1 <= month <= 12 && 1 <= day <= days_in_month(year as int, month as int)
}

/// The `YYYY-MM-DD` text of a date; a year outside `0..=9999` carries its
/// sign and at least four digits.
pub open spec fn date_text(year: int, month: nat, day: nat) -> Seq<char> {
    let y = if 0 <= year <= 9999 {
        pad4_text(year as nat)
    } else if year < 0 {
        seq!['-'] + pad4_text((-year) as nat)
    } else {
        seq!['+'] + pad4_text(year as nat)
    };
    y + seq!['-'] + pad2_text(month) + seq!['-'] + pad2_text(day)
}

/// The text written for a date.
pub open spec fn date_text_of(d: Date) -> Seq<char> {
    date_text(d.year_of() as int, d.month_of() as nat, d.day_of() as nat)
}

/// A calendar date.
#[derive(Debug, Clone, Copy, PartialEq, Eq)]
pub struct Date {
    year: i32,
    month: u32,
    day: u32,
}

impl Date {
    #[verifier::type_invariant]
    spec fn valid(self) -> bool {
        is_calendar_date(self.year, self.month, self.day)
    }

    pub closed spec fn year_of(self) -> i32 {
        self.year
    }

    pub closed spec fn month_of(self) -> u32 {
        self.month
    }

    pub closed spec fn day_of(self) -> u32 {
        self.day
    }

    /// The date `year-month-day`; `None` unless it is a calendar date.
    pub fn from_ymd(year: i32, month: u32, day: u32) -> (r: Option<Date>)
        ensures
            r is Some <==> is_calendar_date(year, month, day),
            r matches Some(d) ==> d.year_of() == year && d.month_of() == month && d.day_of()
                == day,
    {
        let leap = (year % 4 == 0 && year % 100 != 0) || year % 400 == 0;
        let days: u32 = if month == 2 {
            if leap { 29 } else { 28 }
        } else if month == 4 || month == 6 || month == 9 || month == 11 {
            30
        } else {
            31
        };
        if 1 <= month && month <= 12 && 1 <= day && day <= days {
            Some(Date { year, month, day })
        } else {
            None
        }
    }

    pub fn year(&self) -> (r: i32)
        ensures
            r == self.year_of(),
    {
        self.year
    }

    pub fn month(&self) -> (r: u32)
        ensures
            r == self.month_of(),
    {
        self.month
    }

    pub fn day(&self) -> (r: u32)
        ensures
            r == self.day_of(),
    {
        self.day
    }

    /// Reads a `YYYY-MM-DD` date; unreadable text is `InvalidDate`.
    pub fn decode(s: &str) -> (r: Result<Date, DecodeError>)
        ensures
            r is Ok <==> chrono_date_fields(s@) is Some,
            r matches Ok(d) ==> chrono_date_fields(s@) == Some(
                (d.year_of(), d.month_of(), d.day_of()),
            ),
            r matches Err(e) ==> e == DecodeError::InvalidDate,
    {
        match parse_date_fields(s) {
            Ok(f) => Ok(Date { year: f.0, month: f.1, day: f.2 }),
            Err(_) => Err(DecodeError::InvalidDate),
        }
    }

    /// Writes the date as `YYYY-MM-DD`.
    pub fn encode(&self) -> (r: String)
        ensures
            r@ == date_text(self.year_of() as int, self.month_of() as nat, self.day_of() as nat),
    {
        let mut out = String::new();
        proof {
            reveal_strlit("-");
            reveal_strlit("+");
        }
        if 0 <= self.year && self.year <= 9999 {
            push_pad4(&mut out, self.year as u64);
        } else if self.year < 0 {
            out.append("-");
            push_pad4(&mut out, (-(self.year as i64)) as u64);
        } else {
            out.append("+");
            push_pad4(&mut out, self.year as u64);
        }
        out.append("-");
        push_pad2(&mut out, self.month as u64);
        out.append("-");
        push_pad2(&mut out, self.day as u64);
        assert(out@ =~= date_text(self.year as int, self.month as nat, self.day as nat));
        out
    }
}

impl Date {
    /// The first of January 1970.
    pub fn epoch() -> (r: Date)
        ensures
            r.year_of() == 1970 && r.month_of() == 1 && r.day_of() == 1,
    {
        Date { year: 1970, month: 1, day: 1 }
    }
}

impl Default for Date {
    /// The first of January 1970.
    fn default() -> (r: Date)
        ensures
            r.year_of() == 1970 && r.month_of() == 1 && r.day_of() == 1,
    {
        Date::epoch()
    }
}

} // verus!
