//! The battle times of the Clash Royale API, such as `20211014T123745.000Z`.

use vstd::prelude::*;
use vstd::string::StringSliceAdditionalSpecFns;
use vstd::utf8::is_char_boundary;

verus! {

/// The parts of a battle time, as the text gives them.
#[derive(Debug, Clone, Copy, PartialEq, Eq, Structural)]
pub struct BattleTime {
    pub year: i32,
    pub month: u32,
    pub day: u32,
    pub hour: u32,
    pub minute: u32,
    pub second: u32,
    pub millis: u32,
}

/// Why a battle time cannot be read.
#[derive(Debug, Clone, Copy, PartialEq, Eq, Structural)]
pub enum BattleTimeError {
    /// The text is not 20 bytes long.
    IncorrectString,
    /// A field is not a number.
    InvalidDigit,
}

impl BattleTimeError {
    /// The message of this error.
    pub fn message(&self) -> (r: &'static str)
        ensures
            *self is IncorrectString ==> r@ == "incorrect string"@,
            *self is InvalidDigit ==> r@ == "invalid digit found in string"@,
    {
        match self {
            BattleTimeError::IncorrectString => "incorrect string",
            BattleTimeError::InvalidDigit => "invalid digit found in string",
        }
    }
}

pub open spec fn is_digit(c: u8) -> bool {
    48 <= c <= 57
}

pub open spec fn all_digits(s: Seq<u8>) -> bool {
    forall|i: int| 0 <= i < s.len() ==> is_digit(#[trigger] s[i])
}

/// The number written by a sequence of decimal digits.
pub open spec fn digits_value(s: Seq<u8>) -> int
    decreases s.len(),
{
    if s.len() == 0 {
        0
    } else {
        digits_value(s.drop_last()) * 10 + (s.last() - 48)
    }
}

/// How an unsigned integer is read from text: an optional `+`, then at least one digit.
pub open spec fn parse_unsigned(s: Seq<u8>) -> Option<int> {
    let d = if s.len() > 0 && s[0] == 43 { s.drop_first() } else { s };
    if d.len() > 0 && all_digits(d) { Some(digits_value(d)) } else { None }
}

/// How a signed integer is read from text: an optional `+` or `-`, then at least one digit.
pub open spec fn parse_signed(s: Seq<u8>) -> Option<int> {
    if s.len() > 0 && s[0] == 45 {
        let d = s.drop_first();
        if d.len() > 0 && all_digits(d) { Some(-digits_value(d)) } else { None }
    } else {
        parse_unsigned(s)
    }
}

/// The field of a battle time between two byte positions.
pub open spec fn field(b: Seq<u8>, start: int, end: int) -> Seq<u8> {
    b.subrange(start, end)
}

/// The battle time a text holds: year `[0, 4)`, month `[4, 6)`, day `[6, 8)`,
/// hour `[9, 11)`, minute `[11, 13)`, second `[13, 15)`, milliseconds `[16, 19)`.
pub open spec fn battle_time_from_bytes(b: Seq<u8>) -> Result<BattleTime, BattleTimeError> {
    if b.len() != 20 {
        Err(BattleTimeError::IncorrectString)
    } else {
        match (
            parse_signed(field(b, 0, 4)),
            parse_unsigned(field(b, 4, 6)),
            parse_unsigned(field(b, 6, 8)),
            parse_unsigned(field(b, 9, 11)),
            parse_unsigned(field(b, 11, 13)),
            parse_unsigned(field(b, 13, 15)),
            parse_unsigned(field(b, 16, 19)),
        ) {
            (Some(y), Some(mo), Some(d), Some(h), Some(mi), Some(s), Some(ms)) => Ok(BattleTime {
                year: y as i32,
                month: mo as u32,
                day: d as u32,
                hour: h as u32,
                minute: mi as u32,
                second: s as u32,
                millis: ms as u32,
            }),
            _ => Err(BattleTimeError::InvalidDigit),
        }
    }
}

/// Whether each field that is read starts and ends on a character boundary:
/// fields are read in order and reading stops at the first one that is not a number.
pub open spec fn battle_time_slices_ok(b: Seq<u8>) -> bool {
    b.len() == 20 ==> {
        &&& is_char_boundary(b, 4)
        &&& parse_signed(field(b, 0, 4)) is Some ==> {
            &&& is_char_boundary(b, 6)
            &&& parse_unsigned(field(b, 4, 6)) is Some ==> {
                &&& is_char_boundary(b, 8)
                &&& parse_unsigned(field(b, 6, 8)) is Some ==> {
                    &&& is_char_boundary(b, 9)
                    &&& is_char_boundary(b, 11)
                    &&& parse_unsigned(field(b, 9, 11)) is Some ==> {
                        &&& is_char_boundary(b, 13)
                        &&& parse_unsigned(field(b, 11, 13)) is Some ==> {
                            &&& is_char_boundary(b, 15)
                            &&& parse_unsigned(field(b, 13, 15)) is Some ==> {
                                &&& is_char_boundary(b, 16)
                                &&& is_char_boundary(b, 19)
                            }
                        }
                    }
                }
            }
        }
    }
}

proof fn lemma_digits_value_bound(s: Seq<u8>)
    requires
        all_digits(s),
    ensures
        0 <= digits_value(s),
        s.len() <= 4 ==> digits_value(s) < 10000,
        s.len() <= 3 ==> digits_value(s) < 1000,
        s.len() <= 2 ==> digits_value(s) < 100,
        s.len() <= 1 ==> digits_value(s) < 10,
    decreases s.len(),
{
    if s.len() > 0 {
        assert(all_digits(s.drop_last()));
        lemma_digits_value_bound(s.drop_last());
    }
}

/// Reads the digits of `b[start..end]`.
fn read_digits(b: &[u8], start: usize, end: usize) -> (r: Option<u32>)
    requires
        start <= end <= b@.len(),
        end - start <= 4,
    ensures
        r is Some <==> all_digits(b@.subrange(start as int, end as int)),
        r matches Some(v) ==> v == digits_value(b@.subrange(start as int, end as int)),
{
    let mut value: u32 = 0;
    let mut i: usize = start;
    while i < end
        invariant
            start <= i <= end <= b@.len(),
            end - start <= 4,
            all_digits(b@.subrange(start as int, i as int)),
            value == digits_value(b@.subrange(start as int, i as int)),
            value < 10000,
        decreases end - i,
    {
        let c = b[i];
        if c < 48 || c > 57 {
            proof {
                assert(b@.subrange(start as int, end as int)[i - start] == c);
            }
            return None;
        }
        proof {
            let next = b@.subrange(start as int, i as int + 1);
            assert(next.drop_last() == b@.subrange(start as int, i as int));
            assert(all_digits(next));
            lemma_digits_value_bound(next);
        }
        value = value * 10 + (c - 48) as u32;
        i = i + 1;
    }
    Some(value)
}

/// Reads an unsigned field `b[start..end]`.
fn read_unsigned(b: &[u8], start: usize, end: usize) -> (r: Option<u32>)
    requires
        start < end <= b@.len(),
        end - start <= 4,
    ensures
        r is Some <==> parse_unsigned(b@.subrange(start as int, end as int)) is Some,
        r matches Some(v) ==> parse_unsigned(b@.subrange(start as int, end as int)) == Some(v as int),
{
    let ghost s = b@.subrange(start as int, end as int);
    if b[start] == 43 {
        proof {
            assert(s.drop_first() == b@.subrange(start as int + 1, end as int));
        }
        if start + 1 == end {
            return None;
        }
        read_digits(b, start + 1, end)
    } else {
        read_digits(b, start, end)
    }
}

/// Reads a signed field `b[start..end]`.
fn read_signed(b: &[u8], start: usize, end: usize) -> (r: Option<i32>)
    requires
        start < end <= b@.len(),
        end - start <= 4,
    ensures
        r is Some <==> parse_signed(b@.subrange(start as int, end as int)) is Some,
        r matches Some(v) ==> parse_signed(b@.subrange(start as int, end as int)) == Some(v as int),
{
    let ghost s = b@.subrange(start as int, end as int);
    if b[start] == 45 {
        proof {
            assert(s.drop_first() == b@.subrange(start as int + 1, end as int));
        }
        if start + 1 == end {
            return None;
        }
        match read_digits(b, start + 1, end) {
            Some(v) => {
                proof {
                    lemma_digits_value_bound(s.drop_first());
                }
                Some(-(v as i32))
            },
            None => None,
        }
    } else {
        match read_unsigned(b, start, end) {
            Some(v) => {
                proof {
                    let d = if s.len() > 0 && s[0] == 43 { s.drop_first() } else { s };
                    lemma_digits_value_bound(d);
                }
                Some(v as i32)
            },
            None => None,
        }
    }
}

/// Reads a battle time of the Clash Royale API (`YYYYMMDDTHHMMSS.mmmZ`).
pub fn parse_clash_royale_battle_time(v: &str) -> (r: Result<BattleTime, BattleTimeError>)
    requires
        battle_time_slices_ok(v.spec_bytes()),
    ensures
        r == battle_time_from_bytes(v.spec_bytes()),
{
    let b = v.as_bytes();
    if b.len() != 20 {
        return Err(BattleTimeError::IncorrectString);
    }
    let year = match read_signed(b, 0, 4) {
        Some(x) => x,
        None => return Err(BattleTimeError::InvalidDigit),
    };
    let month = match read_unsigned(b, 4, 6) {
        Some(x) => x,
        None => return Err(BattleTimeError::InvalidDigit),
    };
    let day = match read_unsigned(b, 6, 8) {
        Some(x) => x,
        None => return Err(BattleTimeError::InvalidDigit),
    };
    let hour = match read_unsigned(b, 9, 11) {
        Some(x) => x,
        None => return Err(BattleTimeError::InvalidDigit),
    };
    let minute = match read_unsigned(b, 11, 13) {
        Some(x) => x,
        None => return Err(BattleTimeError::InvalidDigit),
    };
    let second = match read_unsigned(b, 13, 15) {
        Some(x) => x,
        None => return Err(BattleTimeError::InvalidDigit),
    };
    let millis = match read_unsigned(b, 16, 19) {
        Some(x) => x,
        None => return Err(BattleTimeError::InvalidDigit),
    };
    Ok(BattleTime { year, month, day, hour, minute, second, millis })
}

/// The ASCII digit of a number from 0 to 9.
pub open spec fn digit_byte(n: int) -> u8 {
    (n + 48) as u8
}

/// The battle time as the API writes it, `YYYYMMDDTHHMMSS.mmmZ`, each field
/// in decimal padded with zeros.
pub open spec fn battle_time_text(t: BattleTime) -> Seq<u8> {
    let y = t.year as int;
    seq![
        digit_byte(y / 1000), digit_byte((y / 100) % 10), digit_byte((y / 10) % 10), digit_byte(y % 10),
        digit_byte((t.month as int) / 10), digit_byte((t.month as int) % 10),
        digit_byte((t.day as int) / 10), digit_byte((t.day as int) % 10),
        84u8,
        digit_byte((t.hour as int) / 10), digit_byte((t.hour as int) % 10),
        digit_byte((t.minute as int) / 10), digit_byte((t.minute as int) % 10),
        digit_byte((t.second as int) / 10), digit_byte((t.second as int) % 10),
        46u8,
        digit_byte((t.millis as int) / 100), digit_byte(((t.millis as int) / 10) % 10), digit_byte((t.millis as int) % 10),
        90u8,
    ]
}

proof fn lemma_two_digits(n: int)
    requires
        0 <= n < 100,
    ensures
        parse_unsigned(seq![digit_byte(n / 10), digit_byte(n % 10)]) == Some(n),
{
    let s = seq![digit_byte(n / 10), digit_byte(n % 10)];
    reveal_with_fuel(digits_value, 3);
    assert(s.drop_last().drop_last() =~= Seq::<u8>::empty());
    assert(s.drop_last() =~= seq![digit_byte(n / 10)]);
    assert(all_digits(s));
}

proof fn lemma_three_digits(n: int)
    requires
        0 <= n < 1000,
    ensures
        parse_unsigned(seq![digit_byte(n / 100), digit_byte((n / 10) % 10), digit_byte(n % 10)]) == Some(n),
{
    let s = seq![digit_byte(n / 100), digit_byte((n / 10) % 10), digit_byte(n % 10)];
    reveal_with_fuel(digits_value, 4);
    assert(s.drop_last().drop_last().drop_last() =~= Seq::<u8>::empty());
    assert(s.drop_last().drop_last() =~= seq![digit_byte(n / 100)]);
    assert(s.drop_last() =~= seq![digit_byte(n / 100), digit_byte((n / 10) % 10)]);
    assert(all_digits(s));
}

proof fn lemma_four_digits(n: int)
    requires
        0 <= n < 10000,
    ensures
        parse_signed(seq![digit_byte(n / 1000), digit_byte((n / 100) % 10), digit_byte((n / 10) % 10), digit_byte(n % 10)])
            == Some(n),
{
    let s = seq![digit_byte(n / 1000), digit_byte((n / 100) % 10), digit_byte((n / 10) % 10), digit_byte(n % 10)];
    reveal_with_fuel(digits_value, 5);
    assert(s.drop_last().drop_last().drop_last().drop_last() =~= Seq::<u8>::empty());
    assert(s.drop_last().drop_last().drop_last() =~= seq![digit_byte(n / 1000)]);
    assert(s.drop_last().drop_last() =~= seq![digit_byte(n / 1000), digit_byte((n / 100) % 10)]);
    assert(s.drop_last() =~= seq![digit_byte(n / 1000), digit_byte((n / 100) % 10), digit_byte((n / 10) % 10)]);
    assert(all_digits(s));
}

/// A battle time written as the API writes it is read back as that battle
/// time: the year from the first four digits, then month, day, hour,
/// minute and second from two digits each, and the milliseconds from three.
pub proof fn lemma_battle_time_text_read_back(t: BattleTime)
    requires
        0 <= t.year <= 9999,
        t.month < 100,
        t.day < 100,
        t.hour < 100,
        t.minute < 100,
        t.second < 100,
        t.millis < 1000,
    ensures
        battle_time_text(t).len() == 20,
        battle_time_from_bytes(battle_time_text(t)) == Ok::<BattleTime, BattleTimeError>(t),
{
    let b = battle_time_text(t);
    let y = t.year as int;
    lemma_four_digits(y);
    lemma_two_digits(t.month as int);
    lemma_two_digits(t.day as int);
    lemma_two_digits(t.hour as int);
    lemma_two_digits(t.minute as int);
    lemma_two_digits(t.second as int);
    lemma_three_digits(t.millis as int);
    assert(field(b, 0, 4) =~= seq![digit_byte(y / 1000), digit_byte((y / 100) % 10), digit_byte((y / 10) % 10), digit_byte(y % 10)]);
    assert(field(b, 4, 6) =~= seq![digit_byte((t.month as int) / 10), digit_byte((t.month as int) % 10)]);
    assert(field(b, 6, 8) =~= seq![digit_byte((t.day as int) / 10), digit_byte((t.day as int) % 10)]);
    assert(field(b, 9, 11) =~= seq![digit_byte((t.hour as int) / 10), digit_byte((t.hour as int) % 10)]);
    assert(field(b, 11, 13) =~= seq![digit_byte((t.minute as int) / 10), digit_byte((t.minute as int) % 10)]);
    assert(field(b, 13, 15) =~= seq![digit_byte((t.second as int) / 10), digit_byte((t.second as int) % 10)]);
    assert(field(b, 16, 19) =~= seq![digit_byte((t.millis as int) / 100), digit_byte(((t.millis as int) / 10) % 10), digit_byte((t.millis as int) % 10)]);
}

// DATES ----------------------------------------------------------------------

/// The first year `chrono` dates can hold.
pub const MIN_DATE_YEAR: i32 = -262143;
/// The last year `chrono` dates can hold.
pub const MAX_DATE_YEAR: i32 = 262142;

/// Whether a year of the proleptic Gregorian calendar is a leap year (the
/// year is shifted by a multiple of 400 years to keep it positive).
pub open spec fn is_leap_year(year: int) -> bool {
    let y = year + 280000;
    y % 4 == 0 && (y % 100 != 0 || y % 400 == 0)
}

/// The number of days of a month (1 to 12) of a year.
pub open spec fn days_in_month(year: int, month: int) -> int {
    if month == 2 {
        if is_leap_year(year) { 29 } else { 28 }
    } else if month == 4 || month == 6 || month == 9 || month == 11 {
        30
    } else {
        31
    }
}

/// Whether `chrono` makes a UTC date and time of these fields: a year it
/// can hold, a day of the month, and a time of the day where milliseconds
/// from 1000 on stand for a leap second, after second 59 only.
pub open spec fn valid_utc_date_time(year: i32, month: u32, day: u32, hour: u32, minute: u32, second: u32, milli: u32) -> bool {
    &&& MIN_DATE_YEAR <= year <= MAX_DATE_YEAR
    &&& 1 <= month <= 12
    &&& 1 <= day <= days_in_month(year as int, month as int)
    &&& hour < 24
    &&& minute < 60
    &&& second < 60
    &&& milli < 2000
    &&& (milli >= 1000 ==> second == 59)
}

/// Whether a year of the proleptic Gregorian calendar is a leap year: one
/// divisible by 4, except the centuries not divisible by 400.
pub open spec fn gregorian_leap_year(year: int) -> bool {
    (year % 4 == 0 && year % 100 != 0) || year % 400 == 0
}

/// Whether a time of the day is one `chrono` reads: hours, minutes and
/// seconds in range, and milliseconds below 1000 (or below 2000 in a leap
/// second, after second 59).
pub open spec fn time_of_day_ok(hour: u32, minute: u32, second: u32, milli: u32) -> bool {
    hour < 24 && minute < 60 && second < 60 && (milli < 1000 || (second == 59 && milli < 2000))
}

/// The days of the months follow the Gregorian calendar: January, March,
/// May, July, August, October and December have 31 days; April, June,
/// September and November 30; February 29 in leap years and 28 otherwise;
/// there is no month 0 nor 13 and no day 0.
pub proof fn lemma_battle_date_calendar(year: i32, month: u32, day: u32, hour: u32, minute: u32, second: u32, milli: u32)
    requires
        MIN_DATE_YEAR <= year <= MAX_DATE_YEAR,
        time_of_day_ok(hour, minute, second, milli),
    ensures
        (month == 1 || month == 3 || month == 5 || month == 7 || month == 8 || month == 10 || month == 12)
            ==> (valid_utc_date_time(year, month, day, hour, minute, second, milli) <==> 1 <= day <= 31),
        (month == 4 || month == 6 || month == 9 || month == 11)
            ==> (valid_utc_date_time(year, month, day, hour, minute, second, milli) <==> 1 <= day <= 30),
        month == 2 ==> (valid_utc_date_time(year, month, day, hour, minute, second, milli)
            <==> (1 <= day <= 28 || (day == 29 && gregorian_leap_year(year as int)))),
        (month == 0 || month > 12) ==> !valid_utc_date_time(year, month, day, hour, minute, second, milli),
        day == 0 ==> !valid_utc_date_time(year, month, day, hour, minute, second, milli),
{
    let y = year as int;
    assert((y + 280000) % 4 == y % 4);
    assert((y + 280000) % 100 == y % 100);
    assert((y + 280000) % 400 == y % 400);
}

/// A date is made of a year `chrono` holds and a time of the day it reads,
/// and of nothing else.
pub proof fn lemma_battle_date_time_of_day(year: i32, month: u32, day: u32, hour: u32, minute: u32, second: u32, milli: u32)
    requires
        1 <= month <= 12,
        1 <= day <= 28,
    ensures
        valid_utc_date_time(year, month, day, hour, minute, second, milli)
            <==> (MIN_DATE_YEAR <= year <= MAX_DATE_YEAR && time_of_day_ok(hour, minute, second, milli)),
{
}

/// Whether a year is a leap year.
fn leap_year(year: i32) -> (r: bool)
    requires
        MIN_DATE_YEAR <= year <= MAX_DATE_YEAR,
    ensures
        r == is_leap_year(year as int),
{
    let y: u32 = (year + 280000) as u32;
    y % 4 == 0 && (y % 100 != 0 || y % 400 == 0)
}

/// Whether the fields of a battle time make a UTC date and time, as
/// `chrono` checks them before it builds one.
pub fn is_valid_battle_date(time: BattleTime) -> (r: bool)
    ensures
        r == valid_utc_date_time(time.year, time.month, time.day, time.hour, time.minute, time.second, time.millis),
{
    if time.year < MIN_DATE_YEAR || time.year > MAX_DATE_YEAR || time.month < 1 || time.month > 12 || time.day < 1 {
        return false;
    }
    let days: u32 = if time.month == 2 {
        if leap_year(time.year) { 29 } else { 28 }
    } else if time.month == 4 || time.month == 6 || time.month == 9 || time.month == 11 {
        30
    } else {
        31
    };
    if time.day > days || time.hour >= 24 || time.minute >= 60 || time.second >= 60 || time.millis >= 2000 {
        return false;
    }
    !(time.millis >= 1000 && time.second != 59)
}

} // verus!
