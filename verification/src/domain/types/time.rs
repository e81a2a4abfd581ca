use chrono::{Datelike, Offset, TimeZone};
use crate::text::{
    abs, nat_digits,
    int_error_message, int_error_text, lemma_digits_free_of, lemma_padded_nat_digits,
    lemma_parse_padded_nat, lemma_split_once, padded_int, padded_int_string, padded_nat,
    padded_nat_string, parse_int, parse_int_spec, split_on, split_once_exact,
};
use vstd::prelude::*;

verus! {

// ---------------------------------------------------------------------------
// Year and month
// ---------------------------------------------------------------------------

/// A calendar month of a year, written `YYYY-MM`.
#[derive(Debug, Clone, Copy)]
pub struct YM {
    pub year: i32,
    pub month: u32,
}

/// The outcome of reading a year and month from text: the year and month, or
/// the message that says what is wrong.
pub open spec fn ym_parse(s: Seq<char>) -> Result<(int, int), Seq<char>> {
    let parts = split_on(s, '-');
    if parts.len() != 2 {
        Err("Invalid YM format"@)
    } else {
        match parse_int_spec(parts[0], true, i32::MIN as int, i32::MAX as int) {
            Err(k) => Err("Invalid year: "@ + int_error_message(k)),
            Ok(y) => match parse_int_spec(parts[1], false, 0, u32::MAX as int) {
                Err(k) => Err("Invalid month: "@ + int_error_message(k)),
                Ok(m) => if m < 1 || m > 12 {
                    Err("Month must be between 1 and 12"@)
                } else {
                    Ok((y, m))
                },
            },
        }
    }
}

/// A year and month written as `{:04}-{:02}`.
pub open spec fn ym_text(year: int, month: int) -> Seq<char> {
    padded_int(year, 4) + "-"@ + padded_nat(month as nat, 2)
}

impl YM {
    /// Reads `YYYY-MM`: two pieces around a single `-`, a year that fits an
    /// `i32`, a month that fits a `u32` and lies between 1 and 12.
    pub fn try_from_str(s: &str) -> (r: Result<YM, String>)
        ensures
            match r {
                Ok(v) => ym_parse(s@) == Ok::<(int, int), Seq<char>>((v.year as int, v.month as int)),
                Err(e) => ym_parse(s@) == Err::<(int, int), Seq<char>>(e@),
            },
    {
        let parts = split_once_exact(s, '-');
        let (ys, ms) = match parts {
            None => {
                return Err(String::from_str("Invalid YM format"));
            },
            Some(p) => p,
        };
        let year = match parse_int(ys, true, -2147483648i64, 2147483647i64) {
            Err(k) => {
                let m = String::from_str("Invalid year: ");
                return Err(m.concat(int_error_text(k)));
            },
            Ok(y) => y,
        };
        let month = match parse_int(ms, false, 0i64, 4294967295i64) {
            Err(k) => {
                let m = String::from_str("Invalid month: ");
                return Err(m.concat(int_error_text(k)));
            },
            Ok(m) => m,
        };
        if month < 1 || month > 12 {
            return Err(String::from_str("Month must be between 1 and 12"));
        }
        Ok(YM { year: year as i32, month: month as u32 })
    }

    /// `YYYY-MM`, the year zero-padded to four characters and the month to two.
    pub fn to_text(&self) -> (r: String)
        ensures
            r@ == ym_text(self.year as int, self.month as int),
    {
        let y = padded_int_string(self.year as i64, 4);
        proof { reveal_strlit("-"); }
        let y = y.concat("-");
        let m = padded_nat_string(self.month as u64, 2);
        y.concat(m.as_str())
    }
}

/// Writing a year and month, then reading the text, gives them back, for every
/// year from 0 on and every month from 1 to 12.
pub proof fn lemma_ym_text_parse(year: int, month: int)
    requires
        0 <= year <= i32::MAX,
        1 <= month <= 12,
    ensures
        ym_parse(ym_text(year, month)) == Ok::<(int, int), Seq<char>>((year, month)),
{
    let a = padded_nat(year as nat, 4);
    let b = padded_nat(month as nat, 2);
    reveal_strlit("-");
    assert(ym_text(year, month) == a + seq!['-'] + b);
    lemma_padded_nat_digits(year as nat, 4);
    lemma_padded_nat_digits(month as nat, 2);
    lemma_digits_free_of(a, '-');
    lemma_digits_free_of(b, '-');
    lemma_split_once(a, b, '-');
    lemma_parse_padded_nat(year as nat, 4, true, i32::MIN as int, i32::MAX as int);
    lemma_parse_padded_nat(month as nat, 2, false, 0, u32::MAX as int);
}

} // verus!

verus! {

// ---------------------------------------------------------------------------
// Calendar dates
// ---------------------------------------------------------------------------

/// The first and the last year that a calendar date can have.
pub const MIN_YEAR: i32 = -262143;

pub const MAX_YEAR: i32 = 262142;

pub open spec fn is_leap_year(y: int) -> bool {
    y % 4 == 0 && (y % 100 != 0 || y % 400 == 0)
}

pub open spec fn days_in_month(y: int, m: int) -> int {
    if m == 2 {
        if is_leap_year(y) { 29 } else { 28 }
    } else if m == 4 || m == 6 || m == 9 || m == 11 {
        30
    } else {
        31
    }
}

/// A day that exists in the proleptic Gregorian calendar, within the years a
/// date can have.
pub open spec fn valid_ymd(y: int, m: int, d: int) -> bool {
    &&& MIN_YEAR <= y <= MAX_YEAR
    &&& 1 <= m <= 12
    &&& 1 <= d <= days_in_month(y, m)
}

/// A calendar date without a time zone.
#[derive(Debug, Clone, Copy)]
pub struct Date {
    year: i32,
    month: u32,
    day: u32,
}

impl Date {
    #[verifier::type_invariant]
    spec fn names_a_day(self) -> bool {
        valid_ymd(self.year as int, self.month as int, self.day as int)
    }
}

impl View for Date {
    type V = (int, int, int);

    closed spec fn view(&self) -> (int, int, int) {
        (self.year as int, self.month as int, self.day as int)
    }
}

/// The year of a date as chrono writes `%Y`: four digits for the years 0 to
/// 9999, else a sign and at least four digits.
pub open spec fn year_text(y: int) -> Seq<char> {
    if 0 <= y < 10000 {
        padded_nat(y as nat, 4)
    } else if y >= 10000 {
        seq!['+'] + nat_digits(y as nat)
    } else {
        seq!['-'] + padded_nat(abs(y), 4)
    }
}

/// A date written as chrono's `%Y{sep}%m{sep}%d`.
pub open spec fn date_text(ymd: (int, int, int), sep: char) -> Seq<char> {
    year_text(ymd.0) + seq![sep] + padded_nat(ymd.1 as nat, 2) + seq![sep] + padded_nat(
        ymd.2 as nat,
        2,
    )
}

/// What chrono's `NaiveDate::parse_from_str(s, "%Y-%m-%d")` gives for `s`: the
/// year, month and day of the date, or the text of the parse error.
pub uninterp spec fn chrono_parse_ymd(s: Seq<char>) -> Result<(int, int, int), Seq<char>>;

/// `chrono::NaiveDate::from_ymd_opt`: a date exactly when the year, month and
/// day name a day of the calendar within the years that chrono supports
/// (chrono's documentation and `MIN_YEAR`/`MAX_YEAR` in its source).
#[verifier::external_body]
fn naive_date_from_ymd(year: i32, month: u32, day: u32) -> (r: Option<Date>)
    ensures
        r is Some <==> valid_ymd(year as int, month as int, day as int),
        r matches Some(d) ==> d@ == (year as int, month as int, day as int),
{
    chrono::NaiveDate::from_ymd_opt(year, month, day).map(
        |d| Date { year: d.year(), month: d.month(), day: d.day() },
    )
}

/// `chrono::NaiveDate::parse_from_str(s, "%Y-%m-%d")`: the claim is that the
/// outcome is `chrono_parse_ymd` of the text (the error given by its message)
/// and that a date chrono gives is a valid calendar day.
#[verifier::external_body]
fn naive_date_parse(s: &str) -> (r: Result<Date, String>)
    ensures
        match r {
            Ok(d) => chrono_parse_ymd(s@) == Ok::<(int, int, int), Seq<char>>(d@) && valid_ymd(
                d@.0,
                d@.1,
                d@.2,
            ),
            Err(e) => chrono_parse_ymd(s@) == Err::<(int, int, int), Seq<char>>(e@),
        },
{
    chrono::NaiveDate::parse_from_str(s, "%Y-%m-%d").map(
        |d| Date { year: d.year(), month: d.month(), day: d.day() },
    ).map_err(|e| e.to_string())
}

/// chrono's `format("%Y-%m-%d")` of a date: the claim is the text that
/// chrono's `write_year` and its two-digit month and day give (see
/// `date_text`).
#[verifier::external_body]
fn naive_date_format(d: &Date) -> (r: String)
    requires
        valid_ymd(d@.0, d@.1, d@.2),
    ensures
        r@ == date_text(d@, '-'),
{
    let nd = chrono::NaiveDate::from_ymd_opt(d.year, d.month, d.day).unwrap();
    nd.format("%Y-%m-%d").to_string()
}

impl Date {
    pub fn year(&self) -> (r: i32)
        ensures
            r == self@.0,
    {
        self.year
    }

    pub fn month(&self) -> (r: u32)
        ensures
            r == self@.1,
    {
        self.month
    }

    pub fn day(&self) -> (r: u32)
        ensures
            r == self@.2,
    {
        self.day
    }

    /// The date with this year, month and day, when it is a day of the calendar.
    pub fn from_ymd_opt(year: i32, month: u32, day: u32) -> (r: Option<Date>)
        ensures
            r is Some <==> valid_ymd(year as int, month as int, day as int),
            r matches Some(d) ==> d@ == (year as int, month as int, day as int),
    {
        naive_date_from_ymd(year, month, day)
    }

    /// Every date names a day of the calendar.
    pub fn check_valid(&self)
        ensures
            valid_ymd(self@.0, self@.1, self@.2),
    {
        proof { use_type_invariant(self); }
    }
}

} // verus!

verus! {

/// Reading a value of type `T` from text.
pub trait ParseFromRfc3339<T> {
    fn parse_from_rfc3339(s: &str) -> Result<T, String>;
}

/// Writing a value as text.
pub trait ToRfc3339 {
    fn to_rfc3339(&self) -> String;
}

/// Making a value of type `T` from a count of seconds since the Unix epoch.
pub trait FromTimestamp<T> {
    fn from_timestamp(timestamp: i64) -> Result<T, String>;
}

/// The count of seconds since the Unix epoch.
pub trait ToTimestamp {
    fn to_timestamp(&self) -> i64;
}

impl ParseFromRfc3339<Date> for Date {
    /// Reads `YYYY-MM-DD` with chrono (`chrono_parse_ymd`).
    fn parse_from_rfc3339(s: &str) -> (r: Result<Date, String>)
        ensures
            match r {
                Ok(d) => chrono_parse_ymd(s@) == Ok::<(int, int, int), Seq<char>>(d@),
                Err(e) => chrono_parse_ymd(s@) == Err::<(int, int, int), Seq<char>>(e@),
            },
    {
        naive_date_parse(s)
    }
}

impl ToRfc3339 for Date {
    /// `YYYY-MM-DD` as chrono writes it.
    fn to_rfc3339(&self) -> (r: String)
        ensures
            r@ == date_text(self@, '-'),
    {
        proof { use_type_invariant(self); }
        naive_date_format(self)
    }
}

impl YM {
    /// The first day of the month.
    pub fn to_date(&self) -> (r: Date)
        requires
            valid_ymd(self.year as int, self.month as int, 1),
        ensures
            r@ == (self.year as int, self.month as int, 1int),
    {
        match Date::from_ymd_opt(self.year, self.month, 1) {
            Some(d) => d,
            None => vstd::pervasive::unreached(),
        }
    }

    /// The year and month of a date (whose first day is a date too).
    pub fn from_date(d: &Date) -> (r: YM)
        ensures
            r.year as int == d@.0,
            r.month as int == d@.1,
            valid_ymd(r.year as int, r.month as int, 1),
    {
        d.check_valid();
        YM { year: d.year(), month: d.month() }
    }
}

} // verus!

verus! {

// ---------------------------------------------------------------------------
// Instants
// ---------------------------------------------------------------------------

/// The first and the last second, counted from the Unix epoch, that chrono
/// can represent (`-262143-01-01T00:00:00Z` and `262142-12-31T23:59:59Z`).
pub const MIN_TIMESTAMP: i64 = -8334601228800;

pub const MAX_TIMESTAMP: i64 = 8210266876799;

/// Seconds and nanoseconds that `chrono::DateTime::from_timestamp` accepts:
/// seconds within chrono's range, nanoseconds under one second, or under two
/// in the last second of a minute (a leap second).
pub open spec fn chrono_timestamp_valid(secs: int, nanos: int) -> bool {
    &&& MIN_TIMESTAMP <= secs <= MAX_TIMESTAMP
    &&& 0 <= nanos
    &&& (nanos < NANOS_PER_SEC || (nanos < 2 * NANOS_PER_SEC && secs % 60 == 59))
}

/// A UTC offset that chrono's `FixedOffset::east_opt` accepts.
pub open spec fn offset_valid(offset: int) -> bool {
    -86400 < offset < 86400
}

/// The UTC offset of Japan Standard Time, in seconds.
pub const JST_OFFSET: i32 = 32400;

pub const NANOS_PER_SEC: u64 = 1_000_000_000;

/// An instant in the machine's time zone: seconds and nanoseconds since the
/// Unix epoch, and the zone's offset from UTC at that instant, in seconds.
#[derive(Debug, Clone, Copy)]
pub struct LocalDateTime {
    secs: i64,
    nanos: u32,
    offset: i32,
}

/// An instant with a fixed offset from UTC (see `LocalDateTime`).
#[derive(Debug, Clone, Copy)]
pub struct FixedDateTime {
    secs: i64,
    nanos: u32,
    offset: i32,
}

impl LocalDateTime {
    #[verifier::type_invariant]
    spec fn representable(self) -> bool {
        chrono_timestamp_valid(self.secs as int, self.nanos as int) && offset_valid(self.offset as int)
    }
}

impl FixedDateTime {
    #[verifier::type_invariant]
    spec fn representable(self) -> bool {
        chrono_timestamp_valid(self.secs as int, self.nanos as int) && offset_valid(self.offset as int)
    }
}

impl View for LocalDateTime {
    type V = (int, int, int);

    closed spec fn view(&self) -> (int, int, int) {
        (self.secs as int, self.nanos as int, self.offset as int)
    }
}

impl View for FixedDateTime {
    type V = (int, int, int);

    closed spec fn view(&self) -> (int, int, int) {
        (self.secs as int, self.nanos as int, self.offset as int)
    }
}

/// Whole seconds between two instants, truncated toward zero (what chrono's
/// `num_seconds` of the difference gives).
pub open spec fn whole_seconds_between(later: (int, int, int), earlier: (int, int, int)) -> int {
    let total = (later.0 - earlier.0) * NANOS_PER_SEC + (later.1 - earlier.1);
    if total >= 0 {
        total / (NANOS_PER_SEC as int)
    } else {
        -((-total) / (NANOS_PER_SEC as int))
    }
}

/// chrono's `signed_duration_since(..).num_seconds()` for two instants given as
/// (seconds, nanoseconds, offset).
pub uninterp spec fn chrono_num_seconds_between(later: (int, int, int), earlier: (int, int, int)) -> int;

/// chrono's `to_rfc3339` of an instant given as (seconds, nanoseconds, offset).
pub uninterp spec fn chrono_rfc3339_text(dt: (int, int, int)) -> Seq<char>;

/// The proleptic Gregorian date (year, month, day) of the day `z` days after
/// 1970-01-01.
pub open spec fn civil_from_days(z: int) -> (int, int, int) {
    let z = z + 719468;
    let era = z / 146097;
    let doe = z - era * 146097;
    let yoe = (doe - doe / 1460 + doe / 36524 - doe / 146096) / 365;
    let y = yoe + era * 400;
    let doy = doe - (365 * yoe + yoe / 4 - yoe / 100);
    let mp = (5 * doy + 2) / 153;
    let d = doy - (153 * mp + 2) / 5 + 1;
    let m = if mp < 10 {
        mp + 3
    } else {
        mp - 9
    };
    (if m <= 2 {
        y + 1
    } else {
        y
    }, m, d)
}

/// The calendar date (year, month, day) of an instant seen at a UTC offset,
/// as chrono's proleptic Gregorian calendar gives it: the date of the day
/// that holds the local wall-clock time.
pub open spec fn chrono_calendar_date(secs: int, offset: int) -> (int, int, int) {
    civil_from_days((secs + offset) / 86400)
}

/// What `chrono::DateTime::parse_from_rfc3339` gives for a text: the instant
/// as (seconds, nanoseconds, offset), or the text of the error.
pub uninterp spec fn chrono_parse_rfc3339(s: Seq<char>) -> Result<(int, int, int), Seq<char>>;

/// `chrono::Local::now()`, the current instant. The claim is that chrono
/// represents it, with nanoseconds under one second (chrono reads them from
/// the system clock); the instant itself depends on the time.
#[verifier::external_body]
pub fn now() -> (r: LocalDateTime)
    ensures
        r@.1 < NANOS_PER_SEC,
{
    let dt = chrono::Local::now();
    let (secs, nanos) = (dt.timestamp(), dt.timestamp_subsec_nanos());
    LocalDateTime { secs, nanos, offset: dt.offset().fix().local_minus_utc() }
}

/// `chrono::Local.timestamp_opt(ts, 0).single()`: the instant `ts` seconds
/// after the epoch in the machine's zone. The claim is that chrono gives one
/// exactly when `ts` lies within its range (`DateTime::from_timestamp`, after
/// which the machine's offset at a UTC instant is always single), and that
/// it is that instant with no nanoseconds; its offset is the machine's.
#[verifier::external_body]
fn local_timestamp_opt(ts: i64) -> (r: Option<LocalDateTime>)
    ensures
        r is Some <==> MIN_TIMESTAMP <= ts <= MAX_TIMESTAMP,
        r matches Some(d) ==> d@.0 == ts as int && d@.1 == 0,
{
    chrono::Local.timestamp_opt(ts, 0).single().map(
        |dt| LocalDateTime { secs: dt.timestamp(), nanos: 0, offset: dt.offset().fix().local_minus_utc() },
    )
}

/// chrono's `signed_duration_since(..).num_seconds()` of two instants, each
/// rebuilt with `DateTime::from_timestamp` (which chrono documents to give back
/// the instant whose timestamp was taken). The claim: the result is
/// `chrono_num_seconds_between` of the two, and, when neither lies in a leap
/// second, the number of whole seconds between them truncated toward zero
/// (chrono's documentation of `num_seconds`).
#[verifier::external_body]
fn num_seconds_between(later: &LocalDateTime, earlier: &LocalDateTime) -> (r: i64)
    requires
        chrono_timestamp_valid(later@.0, later@.1),
        chrono_timestamp_valid(earlier@.0, earlier@.1),
    ensures
        r as int == chrono_num_seconds_between(later@, earlier@),
        later@.1 < NANOS_PER_SEC && earlier@.1 < NANOS_PER_SEC ==> r as int == whole_seconds_between(later@, earlier@),
{
    let a = chrono::DateTime::from_timestamp(later.secs, later.nanos).unwrap();
    let b = chrono::DateTime::from_timestamp(earlier.secs, earlier.nanos).unwrap();
    a.signed_duration_since(b).num_seconds()
}

/// chrono's `format("%Y/%m/%d")` of an instant seen at its offset: the claim
/// is the date of the instant at that offset (`chrono_calendar_date`), written
/// as `date_text`.
#[verifier::external_body]
fn date_slash_text(secs: i64, nanos: u32, offset: i32) -> (r: String)
    requires
        chrono_timestamp_valid(secs as int, nanos as int),
        offset_valid(offset as int),
    ensures
        r@ == date_text(chrono_calendar_date(secs as int, offset as int), '/'),
{
    let off = chrono::FixedOffset::east_opt(offset).unwrap();
    let dt = chrono::DateTime::from_timestamp(secs, nanos).unwrap().with_timezone(&off);
    dt.format("%Y/%m/%d").to_string()
}

/// chrono's `to_rfc3339` of an instant seen at its offset
/// (`chrono_rfc3339_text`).
#[verifier::external_body]
fn rfc3339_text(secs: i64, nanos: u32, offset: i32) -> (r: String)
    requires
        chrono_timestamp_valid(secs as int, nanos as int),
        offset_valid(offset as int),
    ensures
        r@ == chrono_rfc3339_text((secs as int, nanos as int, offset as int)),
{
    let off = chrono::FixedOffset::east_opt(offset).unwrap();
    let dt = chrono::DateTime::from_timestamp(secs, nanos).unwrap().with_timezone(&off);
    dt.to_rfc3339()
}

/// `chrono::DateTime::parse_from_rfc3339`: the claim is that the outcome is
/// `chrono_parse_rfc3339` of the text.
#[verifier::external_body]
fn fixed_parse_rfc3339(s: &str) -> (r: Result<FixedDateTime, String>)
    ensures
        match r {
            Ok(d) => chrono_parse_rfc3339(s@) == Ok::<(int, int, int), Seq<char>>(d@),
            Err(e) => chrono_parse_rfc3339(s@) == Err::<(int, int, int), Seq<char>>(e@),
        },
{
    chrono::DateTime::parse_from_rfc3339(s).map(
        |dt| FixedDateTime { secs: dt.timestamp(), nanos: dt.timestamp_subsec_nanos(), offset: dt.offset().local_minus_utc() },
    ).map_err(|e| e.to_string())
}

/// `chrono::Local::now().offset()`: the machine's current offset from UTC,
/// in seconds. The claim is that it is an offset chrono represents; which one
/// depends on the machine's zone and the current time.
#[verifier::external_body]
fn current_local_offset() -> (r: i32)
    ensures
        offset_valid(r as int),
{
    chrono::Local::now().offset().fix().local_minus_utc()
}

/// `chrono::Local.from_local_datetime(..).single()` of the wall-clock time
/// `wall` seconds (and `nanos` nanoseconds) after 1970-01-01T00:00:00: the
/// time in the machine's zone that shows that wall-clock reading, as its
/// seconds, nanoseconds and offset. The claim is what holds of every outcome:
/// a time it gives keeps the nanoseconds, shows that reading (its seconds
/// plus its offset are `wall`) and has an offset chrono represents. Whether
/// it gives one depends on the machine's zone (none where the reading falls
/// in a gap or an overlap), and is left unsaid.
#[verifier::external_body]
fn local_from_wall_clock(wall: i64, nanos: u32) -> (r: Option<(i64, u32, i32)>)
    ensures
        r matches Some(t) ==> t.1 == nanos && t.0 + t.2 == wall && offset_valid(t.2 as int),
{
    let naive = chrono::DateTime::from_timestamp(wall, nanos)?.naive_utc();
    let dt = chrono::Local.from_local_datetime(&naive).single()?;
    Some((dt.timestamp(), dt.timestamp_subsec_nanos(), dt.offset().fix().local_minus_utc()))
}

/// The UTC wall-clock time of `d`, shifted by the machine's current offset
/// and read as a local time: a time it gives keeps the nanoseconds of `d`,
/// and its local wall-clock time is that of `d` moved by a valid offset.
/// There is none where the shifted reading leaves chrono's range, or the
/// machine's zone has no single local time for it.
fn local_from_shifted_utc(d: &FixedDateTime) -> (r: Option<LocalDateTime>)
    ensures
        r matches Some(t) ==> t@.1 == d@.1 && exists|o: int| #[trigger] offset_valid(o) && t@.0 + t@.2 == d@.0 + o,
{
    proof { use_type_invariant(d); }
    let o = current_local_offset();
    let wall = d.secs + o as i64;
    if wall < MIN_TIMESTAMP || wall > MAX_TIMESTAMP {
        return None;
    }
    match local_from_wall_clock(wall, d.nanos) {
        Some((secs, nanos, offset)) => {
            let r = LocalDateTime::from_parts(secs, nanos, offset);
            assert(r matches Some(t) ==> offset_valid(o as int) && t@.0 + t@.2 == d@.0 + o);
            r
        },
        None => None,
    }
}

impl FixedDateTime {
    pub fn timestamp(&self) -> (r: i64)
        ensures
            r == self@.0,
    {
        self.secs
    }

    pub fn offset_seconds(&self) -> (r: i32)
        ensures
            r == self@.2,
    {
        self.offset
    }
}

impl LocalDateTime {
    pub fn subsec_nanos(&self) -> (r: u32)
        ensures
            r == self@.1,
    {
        self.nanos
    }

    pub fn offset_seconds(&self) -> (r: i32)
        ensures
            r == self@.2,
    {
        self.offset
    }

    /// The instant of the given seconds, nanoseconds and offset, when chrono
    /// represents it; nothing otherwise.
    pub fn from_parts(secs: i64, nanos: u32, offset: i32) -> (r: Option<LocalDateTime>)
        ensures
            r is Some <==> chrono_timestamp_valid(secs as int, nanos as int) && offset_valid(
                offset as int,
            ),
            r matches Some(d) ==> d@ == (secs as int, nanos as int, offset as int),
    {
        if secs < MIN_TIMESTAMP || secs > MAX_TIMESTAMP || offset <= -86400 || offset >= 86400 {
            return None;
        }
        let nanos_ok = if (nanos as u64) < NANOS_PER_SEC {
            true
        } else {
            let rem = secs % 60;
            (nanos as u64) < 2 * NANOS_PER_SEC && (rem == 59 || rem == -1)
        };
        if nanos_ok {
            Some(LocalDateTime { secs, nanos, offset })
        } else {
            None
        }
    }

    /// The same instant in Japan Standard Time (chrono's `with_timezone`
    /// keeps the instant and takes the new offset).
    pub fn to_jst(&self) -> (r: FixedDateTime)
        ensures
            r@ == (self@.0, self@.1, JST_OFFSET as int),
    {
        proof { use_type_invariant(self); }
        FixedDateTime { secs: self.secs, nanos: self.nanos, offset: JST_OFFSET }
    }

    /// The instant is one that chrono represents.
    pub fn check_valid(&self)
        ensures
            chrono_timestamp_valid(self@.0, self@.1),
            offset_valid(self@.2),
    {
        proof { use_type_invariant(self); }
    }
}

/// Whole seconds from `earlier` to `later`, as chrono counts them.
pub fn seconds_since(later: &LocalDateTime, earlier: &LocalDateTime) -> (r: i64)
    ensures
        r as int == chrono_num_seconds_between(later@, earlier@),
        later@.1 < NANOS_PER_SEC && earlier@.1 < NANOS_PER_SEC ==> r as int == whole_seconds_between(later@, earlier@),
{
    later.check_valid();
    earlier.check_valid();
    num_seconds_between(later, earlier)
}

/// The local date of an instant, written `YYYY/MM/DD`.
pub fn date_slash_of(d: &LocalDateTime) -> (r: String)
    ensures
        r@ == date_text(chrono_calendar_date(d@.0, d@.2), '/'),
{
    d.check_valid();
    date_slash_text(d.secs, d.nanos, d.offset)
}

/// The message given when a time's wall-clock reading has no single local
/// time on this machine.
pub open spec fn no_single_local_time() -> Seq<char> {
    "no single local time for this wall-clock time"@
}

impl ParseFromRfc3339<LocalDateTime> for LocalDateTime {
    /// Reads an RFC 3339 time with chrono; on success the UTC wall-clock time it
    /// names is read as a local time of the machine (see `local_from_shifted_utc`):
    /// the result keeps the nanoseconds, and its local wall-clock time is the
    /// UTC one moved by a valid offset. A wall-clock time with no single local
    /// time (or none that this type represents) is refused with
    /// `no_single_local_time`.
    fn parse_from_rfc3339(s: &str) -> (r: Result<LocalDateTime, String>)
        ensures
            r matches Ok(t) ==> chrono_parse_rfc3339(s@) matches Ok(p) && t@.1 == p.1 && exists|o: int|
                #[trigger] offset_valid(o) && t@.0 + t@.2 == p.0 + o,
            r matches Err(e) ==> match chrono_parse_rfc3339(s@) {
                Err(m) => e@ == m,
                Ok(_) => e@ == no_single_local_time(),
            },
    {
        match fixed_parse_rfc3339(s) {
            Ok(d) => {
                proof { use_type_invariant(&d); }
                match local_from_shifted_utc(&d) {
                    Some(t) => Ok(t),
                    None => Err(String::from_str("no single local time for this wall-clock time")),
                }
            },
            Err(e) => Err(e),
        }
    }
}

impl FromTimestamp<LocalDateTime> for LocalDateTime {
    /// The instant `timestamp` seconds after the epoch, for every timestamp
    /// within chrono's range; `Invalid timestamp` outside it.
    fn from_timestamp(timestamp: i64) -> (r: Result<LocalDateTime, String>)
        ensures
            r is Ok <==> MIN_TIMESTAMP <= timestamp <= MAX_TIMESTAMP,
            match r {
                Ok(d) => d@.0 == timestamp as int && d@.1 == 0,
                Err(e) => e@ == "Invalid timestamp"@,
            },
    {
        match local_timestamp_opt(timestamp) {
            Some(d) => Ok(d),
            None => Err(String::from_str("Invalid timestamp")),
        }
    }
}

impl ToTimestamp for LocalDateTime {
    fn to_timestamp(&self) -> (r: i64)
        ensures
            r == self@.0,
    {
        self.secs
    }
}

impl ToRfc3339 for LocalDateTime {
    fn to_rfc3339(&self) -> (r: String)
        ensures
            r@ == chrono_rfc3339_text(self@),
    {
        proof { use_type_invariant(self); }
        rfc3339_text(self.secs, self.nanos, self.offset)
    }
}

} // verus!
