//! Calendar value types and duration arithmetic used for scheduling.
//!
//! `Time`, `Date` and `DateTime` are plain value types without range
//! validation; ordering is lexicographic over the fields in declaration
//! order. `add_duration` advances one second at a time for the magnitude of
//! a nonnegative duration, with rollover at second 60, minute 60 and hour 24;
//! the day table has no leap-year adjustment.

use vstd::prelude::*;

verus! {

use core::cmp::Ordering;
use vstd::string::StringExecFns;

#[derive(PartialEq, Eq, Structural, Clone, Copy, Debug)]
pub struct Time {
    pub hour: u16,
    pub minute: u16,
    pub second: u16,
}

#[derive(PartialEq, Eq, Structural, Clone, Copy, Debug)]
pub struct Date {
    pub year: u16,
    pub month: u16,
    pub day: u16,
}

#[derive(PartialEq, Eq, Structural, Clone, Copy, Debug)]
pub struct DateTime {
    pub date: Date,
    pub time: Time,
}

#[derive(PartialEq, Eq, Structural, Clone, Copy, Debug)]
pub struct Duration(pub i16);

/// Lexicographic order over (hour, minute, second).
pub open spec fn time_lt(a: Time, b: Time) -> bool {
    ||| a.hour < b.hour
    ||| (a.hour == b.hour && a.minute < b.minute)
    ||| (a.hour == b.hour && a.minute == b.minute && a.second < b.second)
}

/// Lexicographic order over (year, month, day).
pub open spec fn date_lt(a: Date, b: Date) -> bool {
    ||| a.year < b.year
    ||| (a.year == b.year && a.month < b.month)
    ||| (a.year == b.year && a.month == b.month && a.day < b.day)
}

/// Lexicographic order over (date, time).
pub open spec fn datetime_lt(a: DateTime, b: DateTime) -> bool {
    date_lt(a.date, b.date) || (a.date == b.date && time_lt(a.time, b.time))
}

pub open spec fn datetime_ge(a: DateTime, b: DateTime) -> bool {
    !datetime_lt(a, b)
}

/// One second forward: rollover at second 60, minute 60 and hour 24.
pub open spec fn time_step(t: Time) -> Time {
    if t.second + 1 == 60 {
        if t.minute + 1 == 60 {
            if t.hour + 1 == 24 {
                Time { hour: 0, minute: 0, second: 0 }
            } else {
                Time { hour: (t.hour + 1) as u16, minute: 0, second: 0 }
            }
        } else {
            Time { hour: t.hour, minute: (t.minute + 1) as u16, second: 0 }
        }
    } else {
        Time { hour: t.hour, minute: t.minute, second: (t.second + 1) as u16 }
    }
}

/// `n` seconds forward, one step at a time; a nonpositive count is a no-op.
pub open spec fn time_plus(t: Time, n: int) -> Time
    decreases n,
{
    if n <= 0 {
        t
    } else {
        time_step(time_plus(t, n - 1))
    }
}

/// Day count per month: 31 for {1,3,5,7,8,10,12}, 28 for 2, 30 for anything
/// else, out-of-range values included; no leap years.
pub open spec fn days_in_month(month: u16) -> u16 {
    if month == 1 || month == 3 || month == 5 || month == 7 || month == 8 || month == 10
        || month == 12 {
        31
    } else if month == 2 {
        28
    } else {
        30
    }
}

/// One second forward on a full timestamp: an hour rollover rolls the day,
/// the day rolls the month once it equals the month's day count, and month 12
/// rolls the year.
pub open spec fn datetime_step(dt: DateTime) -> DateTime {
    let t = dt.time;
    let d = dt.date;
    if t.second + 1 == 60 {
        if t.minute + 1 == 60 {
            if t.hour + 1 == 24 {
                let midnight = Time { hour: 0, minute: 0, second: 0 };
                if d.day == days_in_month(d.month) {
                    if d.month == 12 {
                        DateTime {
                            date: Date { year: (d.year + 1) as u16, month: 1, day: 1 },
                            time: midnight,
                        }
                    } else {
                        DateTime {
                            date: Date { year: d.year, month: (d.month + 1) as u16, day: 1 },
                            time: midnight,
                        }
                    }
                } else {
                    DateTime {
                        date: Date { year: d.year, month: d.month, day: (d.day + 1) as u16 },
                        time: midnight,
                    }
                }
            } else {
                DateTime {
                    date: d,
                    time: Time { hour: (t.hour + 1) as u16, minute: 0, second: 0 },
                }
            }
        } else {
            DateTime {
                date: d,
                time: Time { hour: t.hour, minute: (t.minute + 1) as u16, second: 0 },
            }
        }
    } else {
        DateTime {
            date: d,
            time: Time { hour: t.hour, minute: t.minute, second: (t.second + 1) as u16 },
        }
    }
}

/// `n` seconds forward on a full timestamp; a nonpositive count is a no-op.
pub open spec fn datetime_plus(dt: DateTime, n: int) -> DateTime
    decreases n,
{
    if n <= 0 {
        dt
    } else {
        datetime_step(datetime_plus(dt, n - 1))
    }
}

/// Elapsed seconds from `b` to `a`, both taken to lie on the same day.
pub open spec fn time_diff_seconds(a: Time, b: Time) -> int {
    (a.hour - b.hour) * 3600 + (a.minute - b.minute) * 60 + (a.second - b.second)
}

pub open spec fn time_valid(t: Time) -> bool {
    t.hour < 24 && t.minute < 60 && t.second < 60
}

pub open spec fn time_total_seconds(t: Time) -> int {
    t.hour * 3600 + t.minute * 60 + t.second
}

proof fn lemma_time_plus_bounds(t: Time, n: int)
    requires
        0 <= n,
    ensures
        time_plus(t, n).hour <= t.hour + n,
        time_plus(t, n).minute <= t.minute + n,
        time_plus(t, n).second <= t.second + n,
    decreases n,
{
    if n > 0 {
        lemma_time_plus_bounds(t, n - 1);
    }
}

proof fn lemma_time_plus_total(t: Time, n: int)
    requires
        time_valid(t),
        0 <= n,
        time_total_seconds(t) + n < 86400,
    ensures
        time_valid(time_plus(t, n)),
        time_total_seconds(time_plus(t, n)) == time_total_seconds(t) + n,
    decreases n,
{
    if n > 0 {
        lemma_time_plus_total(t, n - 1);
    }
}

/// Law: for a nonnegative duration `d` and a valid time `t`, when advancing
/// `t` by `d` does not cross a day boundary, the elapsed time from `t` to the
/// advanced time is exactly `d`.
pub proof fn lemma_since_add_duration(t: Time, d: Duration)
    requires
        0 <= d.0,
        time_valid(t),
        time_total_seconds(t) + d.0 < 86400,
    ensures
        time_diff_seconds(time_plus(t, d.0 as int), t) == d.0,
{
    lemma_time_plus_total(t, d.0 as int);
}

impl Time {
    pub fn from_hms(hour: u16, minute: u16, second: u16) -> (r: Self)
        ensures
            r == (Time { hour, minute, second }),
    {
        Self { hour, minute, second }
    }

    pub fn hour(&self) -> (r: u16)
        ensures
            r == self.hour,
    {
        self.hour
    }

    pub fn minute(&self) -> (r: u16)
        ensures
            r == self.minute,
    {
        self.minute
    }

    pub fn second(&self) -> (r: u16)
        ensures
            r == self.second,
    {
        self.second
    }

    /// Elapsed seconds since `othertime`, assuming both lie on the same day;
    /// the difference may be negative. The caller answers for the difference
    /// fitting the signed second count.
    pub fn since(&self, othertime: &Time) -> (r: Duration)
        requires
            i16::MIN <= time_diff_seconds(*self, *othertime) <= i16::MAX,
        ensures
            r.0 == time_diff_seconds(*self, *othertime),
    {
        let total: i32 = (self.hour as i32 - othertime.hour as i32) * 3600 + (self.minute as i32
            - othertime.minute as i32) * 60 + (self.second as i32 - othertime.second as i32);
        Duration(total as i16)
    }

    /// Advance by `dur`, one second at a time; a duration that is zero or
    /// negative leaves the time unchanged. The bounds in `requires` keep the
    /// unvalidated fields from overflowing their machine type.
    pub fn add_duration(self, dur: Duration) -> (r: Self)
        requires
            dur.0 > 0 ==> self.hour + dur.0 <= u16::MAX && self.minute + dur.0 <= u16::MAX
                && self.second + dur.0 <= u16::MAX,
        ensures
            r == time_plus(self, dur.0 as int),
    {
        let mut t = self;
        let mut i: i16 = dur.0;
        while i > 0
            invariant
                i <= dur.0,
                dur.0 > 0 ==> i >= 0,
                dur.0 <= 0 ==> i == dur.0,
                dur.0 > 0 ==> self.hour + dur.0 <= u16::MAX && self.minute + dur.0 <= u16::MAX
                    && self.second + dur.0 <= u16::MAX,
                t == time_plus(self, dur.0 - i),
            decreases i,
        {
            proof {
                lemma_time_plus_bounds(self, dur.0 - i);
            }
            t.second = t.second + 1;
            if t.second == 60 {
                t.second = 0;
                t.minute = t.minute + 1;
                if t.minute == 60 {
                    t.minute = 0;
                    t.hour = t.hour + 1;
                    if t.hour == 24 {
                        t.hour = 0;
                    }
                }
            }
            i = i - 1;
        }
        t
    }
}

impl Date {
    pub fn get_days_in_month(month: u16) -> (r: u16)
        ensures
            r == days_in_month(month),
    {
        match month {
            1 | 3 | 5 | 7 | 8 | 10 | 12 => 31,
            2 => 28,
            _ => 30,
        }
    }

    pub fn from_ymd(year: u16, month: u16, day: u16) -> (r: Self)
        ensures
            r == (Date { year, month, day }),
    {
        Self { year, month, day }
    }

    pub fn year(&self) -> (r: u16)
        ensures
            r == self.year,
    {
        self.year
    }

    pub fn month(&self) -> (r: u16)
        ensures
            r == self.month,
    {
        self.month
    }

    pub fn day(&self) -> (r: u16)
        ensures
            r == self.day,
    {
        self.day
    }

    pub fn with_hms(self, hour: u16, minute: u16, second: u16) -> (r: DateTime)
        ensures
            r == (DateTime { date: self, time: Time { hour, minute, second } }),
    {
        DateTime { date: self, time: Time::from_hms(hour, minute, second) }
    }
}

proof fn lemma_datetime_plus_bounds(dt: DateTime, n: int)
    requires
        0 <= n,
    ensures
        datetime_plus(dt, n).time.hour <= dt.time.hour + n,
        datetime_plus(dt, n).time.minute <= dt.time.minute + n,
        datetime_plus(dt, n).time.second <= dt.time.second + n,
        datetime_plus(dt, n).date.year <= dt.date.year + n,
        datetime_plus(dt, n).date.month <= dt.date.month + n,
        datetime_plus(dt, n).date.day <= dt.date.day + n,
    decreases n,
{
    if n > 0 {
        lemma_datetime_plus_bounds(dt, n - 1);
    }
}

impl DateTime {
    /// Advance by `dur`, one second at a time, rolling the calendar date
    /// forward on each hour rollover; a duration that is zero or negative
    /// leaves the timestamp unchanged.
    pub fn add_duration(self, dur: Duration) -> (r: Self)
        requires
            dur.0 > 0 ==> datetime_add_in_range(self, dur.0 as int),
        ensures
            r == datetime_plus(self, dur.0 as int),
    {
        let mut dt = self;
        let mut i: i16 = dur.0;
        while i > 0
            invariant
                i <= dur.0,
                dur.0 > 0 ==> i >= 0,
                dur.0 <= 0 ==> i == dur.0,
                dur.0 > 0 ==> datetime_add_in_range(self, dur.0 as int),
                dt == datetime_plus(self, dur.0 - i),
            decreases i,
        {
            proof {
                lemma_datetime_plus_bounds(self, dur.0 - i);
            }
            dt.time.second = dt.time.second + 1;
            if dt.time.second == 60 {
                dt.time.second = 0;
                dt.time.minute = dt.time.minute + 1;
                if dt.time.minute == 60 {
                    dt.time.minute = 0;
                    dt.time.hour = dt.time.hour + 1;
                    if dt.time.hour == 24 {
                        dt.time.hour = 0;
                        if dt.date.day == Date::get_days_in_month(dt.date.month) {
                            dt.date.day = 1;
                            if dt.date.month == 12 {
                                dt.date.month = 1;
                                dt.date.year = dt.date.year + 1;
                            } else {
                                dt.date.month = dt.date.month + 1;
                            }
                        } else {
                            dt.date.day = dt.date.day + 1;
                        }
                    }
                }
            }
            i = i - 1;
        }
        dt
    }
}

/// Whether advancing `dt` by `n` seconds stays clear of overflowing the
/// unvalidated 16-bit fields; each field can grow by at most one per second.
pub open spec fn datetime_add_in_range(dt: DateTime, n: int) -> bool {
    &&& dt.time.hour + n <= u16::MAX
    &&& dt.time.minute + n <= u16::MAX
    &&& dt.time.second + n <= u16::MAX
    &&& dt.date.year + n <= u16::MAX
    &&& dt.date.month + n <= u16::MAX
    &&& dt.date.day + n <= u16::MAX
}

/// Truncating signed division, as the machine performs it.
pub open spec fn div_trunc(a: int, b: int) -> int {
    if a >= 0 {
        a / b
    } else {
        -((-a) / b)
    }
}

impl Duration {
    pub fn seconds(&self) -> (r: i16)
        ensures
            r == self.0,
    {
        self.0
    }

    pub fn minutes(&self) -> (r: i16)
        ensures
            r == div_trunc(self.0 as int, 60),
    {
        let v = self.0 as i32;
        let q: i32 = if v >= 0 {
            v / 60
        } else {
            -((-v) / 60)
        };
        q as i16
    }

    pub fn hours(&self) -> (r: i16)
        ensures
            r == div_trunc(self.0 as int, 3600),
    {
        let v = self.0 as i32;
        let q: i32 = if v >= 0 {
            v / 3600
        } else {
            -((-v) / 3600)
        };
        q as i16
    }
}

impl PartialOrd for Time {
    fn partial_cmp(&self, other: &Self) -> (r: Option<Ordering>) {
        if self.hour < other.hour {
            Some(Ordering::Less)
        } else if self.hour > other.hour {
            Some(Ordering::Greater)
        } else if self.minute < other.minute {
            Some(Ordering::Less)
        } else if self.minute > other.minute {
            Some(Ordering::Greater)
        } else if self.second < other.second {
            Some(Ordering::Less)
        } else if self.second > other.second {
            Some(Ordering::Greater)
        } else {
            Some(Ordering::Equal)
        }
    }
}

impl vstd::std_specs::cmp::PartialOrdSpecImpl for Time {
    open spec fn obeys_partial_cmp_spec() -> bool {
        true
    }

    open spec fn partial_cmp_spec(&self, other: &Self) -> Option<Ordering> {
        if time_lt(*self, *other) {
            Some(Ordering::Less)
        } else if time_lt(*other, *self) {
            Some(Ordering::Greater)
        } else {
            Some(Ordering::Equal)
        }
    }
}

impl PartialOrd for Date {
    fn partial_cmp(&self, other: &Self) -> (r: Option<Ordering>) {
        if self.year < other.year {
            Some(Ordering::Less)
        } else if self.year > other.year {
            Some(Ordering::Greater)
        } else if self.month < other.month {
            Some(Ordering::Less)
        } else if self.month > other.month {
            Some(Ordering::Greater)
        } else if self.day < other.day {
            Some(Ordering::Less)
        } else if self.day > other.day {
            Some(Ordering::Greater)
        } else {
            Some(Ordering::Equal)
        }
    }
}

impl vstd::std_specs::cmp::PartialOrdSpecImpl for Date {
    open spec fn obeys_partial_cmp_spec() -> bool {
        true
    }

    open spec fn partial_cmp_spec(&self, other: &Self) -> Option<Ordering> {
        if date_lt(*self, *other) {
            Some(Ordering::Less)
        } else if date_lt(*other, *self) {
            Some(Ordering::Greater)
        } else {
            Some(Ordering::Equal)
        }
    }
}

impl PartialOrd for DateTime {
    fn partial_cmp(&self, other: &Self) -> (r: Option<Ordering>) {
        if self.date.year < other.date.year {
            Some(Ordering::Less)
        } else if self.date.year > other.date.year {
            Some(Ordering::Greater)
        } else if self.date.month < other.date.month {
            Some(Ordering::Less)
        } else if self.date.month > other.date.month {
            Some(Ordering::Greater)
        } else if self.date.day < other.date.day {
            Some(Ordering::Less)
        } else if self.date.day > other.date.day {
            Some(Ordering::Greater)
        } else if self.time.hour < other.time.hour {
            Some(Ordering::Less)
        } else if self.time.hour > other.time.hour {
            Some(Ordering::Greater)
        } else if self.time.minute < other.time.minute {
            Some(Ordering::Less)
        } else if self.time.minute > other.time.minute {
            Some(Ordering::Greater)
        } else if self.time.second < other.time.second {
            Some(Ordering::Less)
        } else if self.time.second > other.time.second {
            Some(Ordering::Greater)
        } else {
            Some(Ordering::Equal)
        }
    }
}

impl vstd::std_specs::cmp::PartialOrdSpecImpl for DateTime {
    open spec fn obeys_partial_cmp_spec() -> bool {
        true
    }

    open spec fn partial_cmp_spec(&self, other: &Self) -> Option<Ordering> {
        if datetime_lt(*self, *other) {
            Some(Ordering::Less)
        } else if datetime_lt(*other, *self) {
            Some(Ordering::Greater)
        } else {
            Some(Ordering::Equal)
        }
    }
}

/// The view of the one-character string literal for decimal digit `d`.
pub open spec fn digit_str(d: int) -> Seq<char> {
    if d == 0 {
        "0"@
    } else if d == 1 {
        "1"@
    } else if d == 2 {
        "2"@
    } else if d == 3 {
        "3"@
    } else if d == 4 {
        "4"@
    } else if d == 5 {
        "5"@
    } else if d == 6 {
        "6"@
    } else if d == 7 {
        "7"@
    } else if d == 8 {
        "8"@
    } else {
        "9"@
    }
}

/// Decimal rendering of a nonnegative number, most significant digit first,
/// without leading zeroes.
pub open spec fn dec_rep(n: int) -> Seq<char>
    decreases n,
{
    if n < 10 {
        digit_str(n)
    } else {
        dec_rep(n / 10) + digit_str(n % 10)
    }
}

fn push_digit(s: &mut String, d: u16)
    requires
        d < 10,
    ensures
        final(s)@ == old(s)@ + digit_str(d as int),
{
    let piece: &str = match d {
        0 => "0",
        1 => "1",
        2 => "2",
        3 => "3",
        4 => "4",
        5 => "5",
        6 => "6",
        7 => "7",
        8 => "8",
        _ => "9",
    };
    s.append(piece);
}

/// Decimal text of `n`, as the status record prints it.
pub fn u16_to_record(n: u16) -> (s: String)
    ensures
        s@ == dec_rep(n as int),
    decreases n,
{
    if n < 10 {
        let mut s = String::new();
        push_digit(&mut s, n);
        proof {
            assert(s@ =~= dec_rep(n as int));
        }
        s
    } else {
        assert(n / 10 < n) by (nonlinear_arith)
            requires
                n >= 10,
        ;
        let mut s = u16_to_record(n / 10);
        push_digit(&mut s, n % 10);
        s
    }
}

/// The textual form of a time in a status record: hour, minute and second in
/// decimal, separated by colons.
pub open spec fn time_record(t: Time) -> Seq<char> {
    dec_rep(t.hour as int) + ":"@ + dec_rep(t.minute as int) + ":"@ + dec_rep(t.second as int)
}

/// The textual form of a date in a status record: year, month and day in
/// decimal, separated by colons.
pub open spec fn date_record(d: Date) -> Seq<char> {
    dec_rep(d.year as int) + ":"@ + dec_rep(d.month as int) + ":"@ + dec_rep(d.day as int)
}

/// The textual form of a timestamp in a status record: date, a colon, time.
pub open spec fn datetime_record(dt: DateTime) -> Seq<char> {
    date_record(dt.date) + ":"@ + time_record(dt.time)
}

impl Time {
    /// The status-record text for this time.
    pub fn record(&self) -> (s: String)
        ensures
            s@ == time_record(*self),
    {
        let mut s = u16_to_record(self.hour);
        s.append(":");
        let m = u16_to_record(self.minute);
        s.append(m.as_str());
        s.append(":");
        let sec = u16_to_record(self.second);
        s.append(sec.as_str());
        s
    }
}

impl Date {
    /// The status-record text for this date.
    pub fn record(&self) -> (s: String)
        ensures
            s@ == date_record(*self),
    {
        let mut s = u16_to_record(self.year);
        s.append(":");
        let m = u16_to_record(self.month);
        s.append(m.as_str());
        s.append(":");
        let d = u16_to_record(self.day);
        s.append(d.as_str());
        s
    }
}

impl DateTime {
    /// The status-record text for this timestamp.
    pub fn record(&self) -> (s: String)
        ensures
            s@ == datetime_record(*self),
    {
        let mut s = self.date.record();
        s.append(":");
        let t = self.time.record();
        s.append(t.as_str());
        s
    }
}

} // verus!
