//! Timestamps for log lines: a time given as seconds and nanoseconds since
//! the Unix epoch, written as an RFC 3339 UTC date-time.
use vstd::prelude::*;

verus! {

/// How many fractional digits a timestamp carries.
#[derive(Clone, Copy, PartialEq, Eq, Structural, Debug)]
pub enum Precision {
    /// Nine digits, or none when the nanoseconds are zero.
    Smart,
    Seconds,
    Millis,
    Micros,
    Nanos,
}

/// The time lies in year 10000 or later, which four year digits cannot hold.
#[derive(Clone, Copy, PartialEq, Eq, Structural, Debug)]
pub struct FormatError;

/// The first second of year 10000.
pub const YEAR_10000_SECS: u64 = 253_402_300_800;

pub const SECS_PER_DAY: u64 = 86400;

pub open spec fn is_leap_year(y: int) -> bool {
    y % 4 == 0 && (y % 100 != 0 || y % 400 == 0)
}

pub open spec fn days_in_year(y: int) -> nat {
    if is_leap_year(y) {
        366
    } else {
        365
    }
}

pub open spec fn days_in_month(y: int, m: int) -> nat {
    if m == 2 {
        if is_leap_year(y) {
            29
        } else {
            28
        }
    } else if m == 4 || m == 6 || m == 9 || m == 11 {
        30
    } else {
        31
    }
}

/// The year, and the day within it (from zero), that lies `days` days after
/// January 1st of year `y`.
pub open spec fn year_and_day(y: int, days: nat) -> (int, nat)
    decreases days,
{
    if days < days_in_year(y) {
        (y, days)
    } else {
        year_and_day(y + 1, (days - days_in_year(y)) as nat)
    }
}

/// The month, and the day within it (from one), of the day that lies `days`
/// days after the first of month `m` of year `y`.
pub open spec fn month_and_day(y: int, m: int, days: nat) -> (int, nat)
    decreases 12 - m,
{
    if m >= 12 || days < days_in_month(y, m) {
        (m, days + 1)
    } else {
        month_and_day(y, m + 1, (days - days_in_month(y, m)) as nat)
    }
}

/// The calendar date (year, month, day) of the day `days` days after
/// 1970-01-01.
pub open spec fn civil_date(days: nat) -> (int, int, int) {
    let (y, yd) = year_and_day(1970, days);
    let (m, d) = month_and_day(y, 1, yd);
    (y, m, d as int)
}

/// The ASCII digit of `n`'s last decimal place.
pub open spec fn digit(n: int) -> u8 {
    (48 + n % 10) as u8
}

pub open spec fn fraction(nanos: int, precision: Precision) -> Seq<u8> {
    let dot: u8 = 46;
    let z: u8 = 90;
    if precision == Precision::Seconds || (nanos == 0 && precision == Precision::Smart) {
        seq![z]
    } else if precision == Precision::Millis {
        seq![dot, digit(nanos / 100_000_000), digit(nanos / 10_000_000), digit(nanos / 1_000_000), z]
    } else if precision == Precision::Micros {
        seq![
            dot,
            digit(nanos / 100_000_000),
            digit(nanos / 10_000_000),
            digit(nanos / 1_000_000),
            digit(nanos / 100_000),
            digit(nanos / 10_000),
            digit(nanos / 1_000),
            z,
        ]
    } else {
        seq![
            dot,
            digit(nanos / 100_000_000),
            digit(nanos / 10_000_000),
            digit(nanos / 1_000_000),
            digit(nanos / 100_000),
            digit(nanos / 10_000),
            digit(nanos / 1_000),
            digit(nanos / 100),
            digit(nanos / 10),
            digit(nanos),
            z,
        ]
    }
}

/// `YYYY-MM-DDTHH:MM:SS` followed by the fraction that `precision` asks for
/// and `Z`, for the time `secs` seconds and `nanos` nanoseconds after the
/// Unix epoch.
pub open spec fn rfc3339(secs: int, nanos: int, precision: Precision) -> Seq<u8> {
    date_time(secs) + fraction(nanos, precision)
}

/// `YYYY-MM-DDTHH:MM:SS` for the time `secs` seconds after the Unix epoch.
pub open spec fn date_time(secs: int) -> Seq<u8> {
    let (y, mon, mday) = civil_date((secs / 86400) as nat);
    let sod = secs % 86400;
    let hour = sod / 3600;
    let min = sod / 60 % 60;
    let sec = sod % 60;
    let dash: u8 = 45;
    let colon: u8 = 58;
    let t: u8 = 84;
    seq![
        digit(y / 1000),
        digit(y / 100),
        digit(y / 10),
        digit(y),
        dash,
        digit(mon / 10),
        digit(mon),
        dash,
        digit(mday / 10),
        digit(mday),
        t,
        digit(hour / 10),
        digit(hour),
        colon,
        digit(min / 10),
        digit(min),
        colon,
        digit(sec / 10),
        digit(sec),
    ]
}

pub open spec fn ascii_text(bytes: Seq<u8>) -> Seq<char> {
    bytes.map_values(|b: u8| b as char)
}

/// Relies on `String::from_utf8`: bytes below 128 are valid UTF-8, each
/// decoding to the char of the same value.
#[verifier::external_body]
fn ascii_string(bytes: Vec<u8>) -> (r: String)
    requires
        forall|i: int| 0 <= i < bytes@.len() ==> bytes@[i] < 128,
    ensures
        r@ == ascii_text(bytes@),
{
    String::from_utf8(bytes).unwrap_or_default()
}

fn is_leap(y: u64) -> (r: bool)
    ensures
        r == is_leap_year(y as int),
{
    y % 4 == 0 && (y % 100 != 0 || y % 400 == 0)
}

fn year_length(y: u64) -> (r: u64)
    ensures
        r == days_in_year(y as int),
{
    if is_leap(y) {
        366
    } else {
        365
    }
}

fn month_length(y: u64, m: u64) -> (r: u64)
    ensures
        r == days_in_month(y as int, m as int),
{
    if m == 2 {
        if is_leap(y) {
            29
        } else {
            28
        }
    } else if m == 4 || m == 6 || m == 9 || m == 11 {
        30
    } else {
        31
    }
}

/// The calendar date of the day `days` days after 1970-01-01.
pub fn date_of_day(days: u64) -> (r: (u64, u64, u64))
    ensures
        (r.0 as int, r.1 as int, r.2 as int) == civil_date(days as nat),
        1 <= r.1 <= 12,
        1 <= r.2,
{
    let mut year: u64 = 1970;
    let mut rem: u64 = days;
    while rem >= year_length(year)
        invariant
            1970 <= year,
            365 * (year - 1970) <= days - rem,
            rem <= days,
            year_and_day(year as int, rem as nat) == year_and_day(1970, days as nat),
        decreases rem,
    {
        rem = rem - year_length(year);
        year = year + 1;
    }
    let ghost yd = rem;
    let mut month: u64 = 1;
    while month < 12 && rem >= month_length(year, month)
        invariant
            1 <= month <= 12,
            rem <= yd,
            month_and_day(year as int, month as int, rem as nat) == month_and_day(
                year as int,
                1,
                yd as nat,
            ),
            rem < days_in_year(year as int),
        decreases 12 - month,
    {
        rem = rem - month_length(year, month);
        month = month + 1;
    }
    (year, month, rem + 1)
}

fn digit_of(n: u64) -> (r: u8)
    ensures
        r == digit(n as int),
        r < 128,
{
    (48 + n % 10) as u8
}

fn date_time_bytes(secs: u64) -> (r: Vec<u8>)
    ensures
        r@ == date_time(secs as int),
        forall|i: int| 0 <= i < r@.len() ==> r@[i] < 128,
{
    let (year, mon, mday) = date_of_day(secs / SECS_PER_DAY);
    let sod = secs % SECS_PER_DAY;
    let hour = sod / 3600;
    let min = sod / 60 % 60;
    let sec = sod % 60;
    let buf: Vec<u8> = vec![
        digit_of(year / 1000),
        digit_of(year / 100),
        digit_of(year / 10),
        digit_of(year),
        45,
        digit_of(mon / 10),
        digit_of(mon),
        45,
        digit_of(mday / 10),
        digit_of(mday),
        84,
        digit_of(hour / 10),
        digit_of(hour),
        58,
        digit_of(min / 10),
        digit_of(min),
        58,
        digit_of(sec / 10),
        digit_of(sec),
    ];
    assert(buf@ =~= date_time(secs as int));
    buf
}

fn fraction_bytes(nanos: u32, precision: Precision) -> (r: Vec<u8>)
    ensures
        r@ == fraction(nanos as int, precision),
        forall|i: int| 0 <= i < r@.len() ==> r@[i] < 128,
{
    let n = nanos as u64;
    let r: Vec<u8> = if precision == Precision::Seconds || (nanos == 0 && precision
        == Precision::Smart) {
        vec![90]
    } else if precision == Precision::Millis {
        vec![46, digit_of(n / 100_000_000), digit_of(n / 10_000_000), digit_of(n / 1_000_000), 90]
    } else if precision == Precision::Micros {
        vec![
            46,
            digit_of(n / 100_000_000),
            digit_of(n / 10_000_000),
            digit_of(n / 1_000_000),
            digit_of(n / 100_000),
            digit_of(n / 10_000),
            digit_of(n / 1_000),
            90,
        ]
    } else {
        vec![
            46,
            digit_of(n / 100_000_000),
            digit_of(n / 10_000_000),
            digit_of(n / 1_000_000),
            digit_of(n / 100_000),
            digit_of(n / 10_000),
            digit_of(n / 1_000),
            digit_of(n / 100),
            digit_of(n / 10),
            digit_of(n),
            90,
        ]
    };
    assert(r@ =~= fraction(nanos as int, precision));
    r
}

/// Writes the time `secs_since_epoch` seconds and `nanos` nanoseconds after
/// the Unix epoch as an RFC 3339 UTC date-time, with the fractional digits
/// that `precision` asks for; times in year 10000 or later are refused.
pub fn format_system_time(secs_since_epoch: u64, nanos: u32, precision: Precision) -> (r: Result<
    String,
    FormatError,
>)
    ensures
        r is Err <==> secs_since_epoch >= YEAR_10000_SECS,
        r matches Ok(s) ==> s@ == ascii_text(
            rfc3339(secs_since_epoch as int, nanos as int, precision),
        ),
{
    if secs_since_epoch >= YEAR_10000_SECS {
        return Err(FormatError);
    }
    let mut buf = date_time_bytes(secs_since_epoch);
    let mut tail = fraction_bytes(nanos, precision);
    let ghost head = buf@;
    let ghost frac = tail@;
    buf.append(&mut tail);
    assert(buf@ =~= rfc3339(secs_since_epoch as int, nanos as int, precision));
    assert forall|i: int| 0 <= i < buf@.len() implies buf@[i] < 128 by {
        if i < head.len() {
            assert(buf@[i] == head[i]);
        } else {
            assert(buf@[i] == frac[i - head.len()]);
        }
    }
    Ok(ascii_string(buf))
}

} // verus!
