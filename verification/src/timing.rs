//! Time helpers: RFC 3339 rendering of instants and the relative durations a
//! caller writes as a count followed by a unit letter.

use vstd::prelude::*;
use crate::error::{Error, ErrorKind, Result};
use crate::text::{collect_chars, owned, push_str};

verus! {

/// Seconds in one day.
pub const SECONDS_PER_DAY: i64 = 86_400;

/// Days a month and a year stand for in a relative duration.
pub const DAYS_PER_MONTH: i64 = 30;

pub const DAYS_PER_YEAR: i64 = 365;

/// A relative duration in both of the units its callers ask for.
pub struct RelativeDuration {
    pub days: i64,
    pub seconds: i64,
}

/// A whitespace character, as `char::is_whitespace` (the Unicode
/// `White_Space` property) reports it.
pub open spec fn is_unicode_whitespace(c: char) -> bool {
    let v = c as u32;
    ||| 0x09 <= v <= 0x0d
    ||| v == 0x20
    ||| v == 0x85
    ||| v == 0xa0
    ||| v == 0x1680
    ||| 0x2000 <= v <= 0x200a
    ||| v == 0x2028
    ||| v == 0x2029
    ||| v == 0x202f
    ||| v == 0x205f
    ||| v == 0x3000
}

/// `s` with leading whitespace removed, as `str::trim_start` does.
pub open spec fn trim_start(s: Seq<char>) -> Seq<char>
    decreases s.len(),
{
    if s.len() > 0 && is_unicode_whitespace(s[0]) {
        trim_start(s.drop_first())
    } else {
        s
    }
}

/// `s` with trailing whitespace removed, as `str::trim_end` does.
pub open spec fn trim_end(s: Seq<char>) -> Seq<char>
    decreases s.len(),
{
    if s.len() > 0 && is_unicode_whitespace(s.last()) {
        trim_end(s.drop_last())
    } else {
        s
    }
}

/// `s` with whitespace removed at both ends, as `str::trim` does.
pub open spec fn trim(s: Seq<char>) -> Seq<char> {
    trim_end(trim_start(s))
}

pub open spec fn is_digit(c: char) -> bool {
    '0' <= c && c <= '9'
}

/// The value of a run of decimal digits.
pub open spec fn digits_value(d: Seq<char>) -> nat
    decreases d.len(),
{
    if d.len() == 0 {
        0
    } else {
        digits_value(d.drop_last()) * 10 + ((d.last() as u32) - 0x30) as nat
    }
}

pub open spec fn all_digits(d: Seq<char>) -> bool {
    forall|i: int| 0 <= i < d.len() ==> is_digit(#[trigger] d[i])
}

/// The integer `i64::from_str` reads from `t`: an optional `+` or `-` and at
/// least one digit, within the range of `i64`.
pub open spec fn parse_i64(t: Seq<char>) -> Option<int> {
    let negative = t.len() > 0 && t[0] == '-';
    let unsigned = if t.len() > 0 && (t[0] == '+' || t[0] == '-') {
        t.drop_first()
    } else {
        t
    };
    let magnitude = digits_value(unsigned) as int;
    let value = if negative { -magnitude } else { magnitude };
    if unsigned.len() > 0 && all_digits(unsigned) && i64::MIN <= value <= i64::MAX {
        Some(value)
    } else {
        None
    }
}

/// Days one unit letter stands for.
pub open spec fn unit_days(unit: char) -> Option<int> {
    if unit == 'd' {
        Some(1)
    } else if unit == 'm' {
        Some(DAYS_PER_MONTH as int)
    } else if unit == 'y' {
        Some(DAYS_PER_YEAR as int)
    } else {
        None
    }
}

/// The whole days a relative duration names: after trimming, a positive
/// count followed by `d`, `m` (30 days) or `y` (365 days), whose span in
/// seconds fits an `i64`.
pub open spec fn relative_duration_days(text: Seq<char>) -> Option<int> {
    let t = trim(text);
    if t.len() == 0 {
        None
    } else {
        match parse_i64(t.drop_last()) {
            None => None,
            Some(count) => if count <= 0 {
                None
            } else {
                match unit_days(t.last()) {
                    None => None,
                    Some(factor) => if count * factor * SECONDS_PER_DAY <= i64::MAX {
                        Some(count * factor)
                    } else {
                        None
                    },
                }
            },
        }
    }
}

/// Parse a relative duration into the number of whole days it names.
///
/// The count returned always survives a multiply by seconds-per-day.
pub fn parse_relative_duration_days(text: &str) -> (r: Result<i64>)
    ensures
        match relative_duration_days(text@) {
            Some(days) => r matches Ok(d) && d == days,
            None => r is Err,
        },
        r matches Err(e) ==> e.kind == ErrorKind::Parse,
        r matches Ok(d) ==> d * SECONDS_PER_DAY <= i64::MAX,
{
    let duration = parse_relative_duration(text)?;
    Ok(duration.days)
}

/// Parse a relative duration written as a count followed by one unit letter.
#[verifier::spinoff_prover]
pub fn parse_relative_duration(text: &str) -> (r: Result<RelativeDuration>)
    ensures
        match relative_duration_days(text@) {
            Some(days) => r matches Ok(d) && d.days == days && d.seconds == days * SECONDS_PER_DAY,
            None => r is Err,
        },
        r matches Err(e) ==> e.kind == ErrorKind::Parse,
{
    let chars = collect_chars(text);
    let (start, end) = trim_bounds(&chars);
    let ghost t = chars@.subrange(start as int, end as int);
    if end == start {
        return Err(build_duration_syntax_error(text));
    }
    let unit = chars[end - 1];
    proof {
        assert(t.drop_last() =~= chars@.subrange(start as int, end - 1));
    }
    let count = match parse_i64_chars(&chars, start, end - 1) {
        Some(c) => c,
        None => {
            return Err(build_duration_syntax_error(text));
        },
    };
    proof {
        assert(t.drop_last() =~= chars@.subrange(start as int, end - 1));
    }
    if count <= 0 {
        let mut message = owned("Duration must be positive: ");
        push_str(&mut message, text);
        return Err(Error::build_parse_error(message));
    }
    let days = if unit == 'd' {
        Some(count)
    } else if unit == 'm' {
        count.checked_mul(DAYS_PER_MONTH)
    } else if unit == 'y' {
        count.checked_mul(DAYS_PER_YEAR)
    } else {
        return Err(build_duration_syntax_error(text));
    };
    let d: i64 = match days {
        Some(d) => d,
        None => {
            proof {
                lemma_mul_monotone_positive(count as int, unit_days(unit)->0);
            }
            return Err(build_duration_out_of_range_error(text));
        },
    };
    proof {
        if unit == 'd' {
            assert(unit_days(unit) == Some(1int));
            assert(d == count);
        } else if unit == 'm' {
            assert(unit_days(unit) == Some(30int));
            assert(d == count * 30);
        } else {
            assert(unit_days(unit) == Some(365int));
            assert(d == count * 365);
        }
        assert(d == count * unit_days(unit)->0);
    }
    let seconds: i64 = match d.checked_mul(SECONDS_PER_DAY) {
        Some(s) => s,
        None => {
            proof {
                if unit == 'd' {
                    assert(d == count * unit_days(unit)->0);
                } else if unit == 'm' {
                    assert(d == count * unit_days(unit)->0);
                } else {
                    assert(d == count * unit_days(unit)->0);
                }
            }
            return Err(build_duration_out_of_range_error(text));
        },
    };
    proof {
        assert(seconds / SECONDS_PER_DAY == d) by (nonlinear_arith)
            requires
                seconds == d * SECONDS_PER_DAY,
        ;
        assert(trim(text@) == t);
        assert(t.last() == unit);
        assert(parse_i64(t.drop_last()) == Some(count as int));
        if unit == 'd' {
            assert(d == count * unit_days(unit)->0);
        } else if unit == 'm' {
            assert(d == count * unit_days(unit)->0);
        } else {
            assert(d == count * unit_days(unit)->0);
        }
        assert(relative_duration_days(text@) == Some(d as int));
    }
    Ok(RelativeDuration { days: seconds / SECONDS_PER_DAY, seconds })
}

proof fn lemma_mul_monotone_positive(count: int, factor: int)
    requires
        count > 0,
        factor >= 1,
    ensures
        count * factor * SECONDS_PER_DAY >= count * factor,
        count * factor >= count,
{
    assert(count * factor >= count) by (nonlinear_arith)
        requires
            count > 0,
            factor >= 1,
    ;
    assert(count * factor * SECONDS_PER_DAY >= count * factor) by (nonlinear_arith)
        requires
            count * factor > 0,
    ;
}

/// The part of `chars` that `str::trim` keeps.
fn trim_bounds(chars: &Vec<char>) -> (r: (usize, usize))
    ensures
        r.0 <= r.1 <= chars.len(),
        trim(chars@) == chars@.subrange(r.0 as int, r.1 as int),
{
    let mut start: usize = 0;
    proof {
        assert(chars@.subrange(0, chars@.len() as int) =~= chars@);
    }
    while start < chars.len() && is_whitespace(chars[start])
        invariant
            start <= chars.len(),
            trim_start(chars@) == trim_start(chars@.subrange(start as int, chars@.len() as int)),
        decreases chars.len() - start,
    {
        proof {
            assert(chars@.subrange(start as int, chars@.len() as int).drop_first()
                =~= chars@.subrange(start + 1, chars@.len() as int));
        }
        start = start + 1;
    }
    let ghost front = chars@.subrange(start as int, chars@.len() as int);
    let mut end = chars.len();
    while end > start && is_whitespace(chars[end - 1])
        invariant
            start <= end <= chars.len(),
            front == chars@.subrange(start as int, chars@.len() as int),
            trim_end(front) == trim_end(chars@.subrange(start as int, end as int)),
        decreases end,
    {
        proof {
            assert(chars@.subrange(start as int, end as int).drop_last() =~= chars@.subrange(
                start as int,
                end - 1,
            ));
        }
        end = end - 1;
    }
    (start, end)
}

/// Whether `c` is whitespace, as `char::is_whitespace` reports it.
pub fn is_whitespace(c: char) -> (r: bool)
    ensures
        r == is_unicode_whitespace(c),
{
    let v = c as u32;
    (0x09 <= v && v <= 0x0d) || v == 0x20 || v == 0x85 || v == 0xa0 || v == 0x1680 || (0x2000
        <= v && v <= 0x200a) || v == 0x2028 || v == 0x2029 || v == 0x202f || v == 0x205f || v
        == 0x3000
}

/// Read an `i64` from `chars[lo..hi]` as `i64::from_str` does.
fn parse_i64_chars(chars: &Vec<char>, lo: usize, hi: usize) -> (r: Option<i64>)
    requires
        lo <= hi <= chars.len(),
    ensures
        match parse_i64(chars@.subrange(lo as int, hi as int)) {
            Some(v) => r == Some(v as i64),
            None => r is None,
        },
{
    let ghost t = chars@.subrange(lo as int, hi as int);
    let negative = lo < hi && chars[lo] == '-';
    let first = if lo < hi && (chars[lo] == '+' || chars[lo] == '-') {
        lo + 1
    } else {
        lo
    };
    let ghost unsigned = chars@.subrange(first as int, hi as int);
    proof {
        if lo < hi && (chars@[lo as int] == '+' || chars@[lo as int] == '-') {
            assert(t.drop_first() =~= unsigned);
        } else {
            assert(t =~= unsigned);
        }
    }
    if first == hi {
        return None;
    }
    // The largest magnitude an i64 can carry, reached only by a negative value.
    let limit: u64 = 9_223_372_036_854_775_808;
    let mut magnitude: u64 = 0;
    let mut i = first;
    proof {
        assert(chars@.subrange(first as int, first as int) =~= seq![]);
    }
    while i < hi
        invariant
            first <= i <= hi <= chars.len(),
            unsigned == chars@.subrange(first as int, hi as int),
            t == chars@.subrange(lo as int, hi as int),
            unsigned == (if t.len() > 0 && (t[0] == '+' || t[0] == '-') {
                t.drop_first()
            } else {
                t
            }),
            negative == (t.len() > 0 && t[0] == '-'),
            limit == 9_223_372_036_854_775_808,
            magnitude <= limit,
            magnitude == digits_value(chars@.subrange(first as int, i as int)),
            all_digits(chars@.subrange(first as int, i as int)),
        decreases hi - i,
    {
        let c = chars[i];
        proof {
            assert(chars@.subrange(first as int, i + 1).drop_last() =~= chars@.subrange(
                first as int,
                i as int,
            ));
        }
        if !('0' <= c && c <= '9') {
            proof {
                assert(unsigned[i - first] == c);
                assert(!is_digit(unsigned[i - first]));
                assert(!all_digits(unsigned));
            }
            return None;
        }
        let digit = (c as u32 - 0x30) as u64;
        assert(digit <= 9);
        if magnitude > (limit - digit) / 10 {
            proof {
                let k = i - first + 1;
                assert(unsigned.take(k) =~= chars@.subrange(first as int, i + 1));
                assert(unsigned.take(k).drop_last() =~= chars@.subrange(first as int, i as int));
                assert(digits_value(unsigned.take(k)) == magnitude * 10 + digit);
                assert(magnitude * 10 + digit > limit) by (nonlinear_arith)
                    requires
                        magnitude > (limit - digit) / 10,
                        digit <= 9,
                        limit == 9_223_372_036_854_775_808,
                ;
                lemma_digits_value_grows(unsigned, k, unsigned.len() as int);
                assert(unsigned.take(unsigned.len() as int) =~= unsigned);
            }
            return None;
        }
        magnitude = magnitude * 10 + digit;
        proof {
            assert(all_digits(chars@.subrange(first as int, i + 1)));
        }
        i = i + 1;
    }
    if negative {
        if magnitude == limit {
            Some(-9_223_372_036_854_775_807i64 - 1)
        } else {
            Some(-(magnitude as i64))
        }
    } else {
        if magnitude == limit {
            None
        } else {
            Some(magnitude as i64)
        }
    }
}

/// A longer run of digits is worth at least as much as its prefix.
pub proof fn lemma_digits_value_grows(d: Seq<char>, i: int, j: int)
    requires
        0 <= i <= j <= d.len(),
    ensures
        digits_value(d.take(i)) <= digits_value(d.take(j)),
    decreases j - i,
{
    if i < j {
        lemma_digits_value_grows(d, i, j - 1);
        assert(d.take(j).drop_last() =~= d.take(j - 1));
    }
}

/// Report a duration whose shape the parser does not accept.
fn build_duration_syntax_error(duration: &str) -> (e: Error)
    ensures
        e.kind == ErrorKind::Parse,
{
    let mut message = owned("Invalid duration '");
    push_str(&mut message, duration);
    push_str(&mut message, "'. Expected <number><unit> with unit d, m or y");
    Error::build_parse_error(message)
}

/// Report a duration too large for any instant to be measured against.
fn build_duration_out_of_range_error(duration: &str) -> (e: Error)
    ensures
        e.kind == ErrorKind::Parse,
{
    let mut message = owned("Duration is too large: ");
    push_str(&mut message, duration);
    Error::build_parse_error(message)
}

/// An instant as `time::OffsetDateTime` reports it, held as plain fields:
/// the calendar date, the time of day and the offset from UTC.
#[derive(Debug, Clone, Copy, PartialEq, Eq, Structural)]
pub struct DateTimeFields {
    pub year: i32,
    pub month: u8,
    pub day: u8,
    pub hour: u8,
    pub minute: u8,
    pub second: u8,
    pub nanosecond: u32,
    pub offset_hours: i8,
    pub offset_minutes: i8,
    pub offset_seconds: i8,
}

/// A leap year of the proleptic Gregorian calendar.
pub open spec fn is_leap_year(year: int) -> bool {
    year % 4 == 0 && (year % 100 != 0 || year % 400 == 0)
}

/// The number of days in `month` of `year`.
pub open spec fn days_in_month(year: int, month: int) -> int {
    if month == 2 {
        if is_leap_year(year) {
            29
        } else {
            28
        }
    } else if month == 4 || month == 6 || month == 9 || month == 11 {
        30
    } else {
        31
    }
}

impl DateTimeFields {
    /// The fields name an instant the time crate can hold: a date of its
    /// year range, a time of day, and an offset of at most 25:59:59 whose
    /// parts share one sign.
    pub open spec fn valid(self) -> bool {
        &&& -9999 <= self.year <= 9999
        &&& 1 <= self.month <= 12
        &&& 1 <= self.day <= days_in_month(self.year as int, self.month as int)
        &&& self.hour < 24
        &&& self.minute < 60
        &&& self.second < 60
        &&& self.nanosecond < 1_000_000_000
        &&& -25 <= self.offset_hours <= 25
        &&& -59 <= self.offset_minutes <= 59
        &&& -59 <= self.offset_seconds <= 59
        &&& (self.offset_hours < 0 || self.offset_minutes < 0 || self.offset_seconds < 0) ==> (
        self.offset_hours <= 0 && self.offset_minutes <= 0 && self.offset_seconds <= 0)
    }

    /// The offset is UTC itself.
    pub open spec fn is_utc(self) -> bool {
        self.offset_hours == 0 && self.offset_minutes == 0 && self.offset_seconds == 0
    }

    /// Whether the fields name an instant the time crate can hold.
    pub fn is_valid(&self) -> (r: bool)
        ensures
            r == self.valid(),
    {
        let leap = self.year % 4 == 0 && (self.year % 100 != 0 || self.year % 400 == 0);
        let month_days: u8 = if self.month == 2 {
            if leap {
                29
            } else {
                28
            }
        } else if self.month == 4 || self.month == 6 || self.month == 9 || self.month == 11 {
            30
        } else {
            31
        };
        let negative = self.offset_hours < 0 || self.offset_minutes < 0 || self.offset_seconds < 0;
        -9999 <= self.year && self.year <= 9999 && 1 <= self.month && self.month <= 12 && 1
            <= self.day && self.day <= month_days && self.hour < 24 && self.minute < 60
            && self.second < 60 && self.nanosecond < 1_000_000_000 && -25 <= self.offset_hours
            && self.offset_hours <= 25 && -59 <= self.offset_minutes && self.offset_minutes <= 59
            && -59 <= self.offset_seconds && self.offset_seconds <= 59 && (!negative || (
        self.offset_hours <= 0 && self.offset_minutes <= 0 && self.offset_seconds <= 0))
    }
}

/// `n` (below 100) as two decimal digits.
pub open spec fn two_digits(n: int) -> Seq<char> {
    seq![crate::text::digit_char((n / 10) as nat), crate::text::digit_char((n % 10) as nat)]
}

/// `n` (below 10 000) as four decimal digits.
pub open spec fn four_digits(n: int) -> Seq<char> {
    two_digits(n / 100) + two_digits(n % 100)
}

/// The absolute value of `n`.
pub open spec fn magnitude(n: int) -> int {
    if n < 0 {
        -n
    } else {
        n
    }
}

/// The offset part of an RFC 3339 time: `Z` for UTC, else the sign, hours
/// and minutes.
pub open spec fn rfc3339_offset(f: DateTimeFields) -> Seq<char> {
    if f.is_utc() {
        seq!['Z']
    } else {
        seq![
            if f.offset_hours < 0 || f.offset_minutes < 0 || f.offset_seconds < 0 {
                '-'
            } else {
                '+'
            },
        ] + two_digits(magnitude(f.offset_hours as int)) + seq![':'] + two_digits(
            magnitude(f.offset_minutes as int),
        )
    }
}

/// The RFC 3339 text of `f` to the whole second:
/// `YYYY-MM-DDTHH:MM:SS` followed by the offset.
pub open spec fn rfc3339_text(f: DateTimeFields) -> Seq<char> {
    four_digits(f.year as int) + seq!['-'] + two_digits(f.month as int) + seq!['-'] + two_digits(
        f.day as int,
    ) + seq!['T'] + two_digits(f.hour as int) + seq![':'] + two_digits(f.minute as int) + seq![':']
        + two_digits(f.second as int) + rfc3339_offset(f)
}

/// RFC 3339 can write `f`: a four-digit year, an offset below 24 hours,
/// and no seconds in the offset.
pub open spec fn rfc3339_writable(f: DateTimeFields) -> bool {
    0 <= f.year <= 9999 && -23 <= f.offset_hours <= 23 && f.offset_seconds == 0
}

/// Calls `time::OffsetDateTime::now_utc` and reports the instant's fields
/// through its getters (`year`, `month`, `day`, `hour`, `minute`, `second`,
/// `nanosecond`, and `offset().as_hms()`). The instant depends on the clock;
/// what is stated is what the crate guarantees of every value it holds, and
/// that the offset is UTC.
#[verifier::external_body]
fn now_utc() -> (f: DateTimeFields)
    ensures
        f.valid(),
        f.is_utc(),
{
    let dt = ::time::OffsetDateTime::now_utc();
    let (offset_hours, offset_minutes, offset_seconds) = dt.offset().as_hms();
    DateTimeFields {
        year: dt.year(),
        month: u8::from(dt.month()),
        day: dt.day(),
        hour: dt.hour(),
        minute: dt.minute(),
        second: dt.second(),
        nanosecond: dt.nanosecond(),
        offset_hours,
        offset_minutes,
        offset_seconds,
    }
}

/// Builds the `time::OffsetDateTime` the fields name (the constructors
/// accept every valid field set) and calls its `format` with the well-known
/// RFC 3339 description. The crate refuses a year outside 0..=9999, an
/// offset of 24 hours or more and an offset with a seconds part, and
/// otherwise writes the date, `T`, the time, and `Z` for UTC or the signed
/// offset's hours and minutes; a zero nanosecond adds no fraction.
#[verifier::external_body]
fn format_rfc3339(f: DateTimeFields) -> (r: core::result::Result<String, String>)
    requires
        f.valid(),
        f.nanosecond == 0,
    ensures
        r is Ok <==> rfc3339_writable(f),
        r matches Ok(text) ==> text@ == rfc3339_text(f),
{
    let month = ::time::Month::try_from(f.month).unwrap();
    let date = ::time::Date::from_calendar_date(f.year, month, f.day).unwrap();
    let clock = ::time::Time::from_hms_nano(f.hour, f.minute, f.second, f.nanosecond).unwrap();
    let offset = ::time::UtcOffset::from_hms(f.offset_hours, f.offset_minutes, f.offset_seconds).unwrap();
    let dt = ::time::OffsetDateTime::new_in_offset(date, clock, offset);
    match dt.format(&::time::format_description::well_known::Rfc3339) {
        Ok(text) => Ok(text),
        Err(e) => Err(e.to_string()),
    }
}

pub open spec fn format_failure_message(detail: Seq<char>) -> Seq<char> {
    "Failed to format timestamp: "@ + detail
}

/// Render an instant as RFC 3339 with seconds precision (no subseconds).
pub fn format_timestamp_rfc3339(dt: DateTimeFields) -> (r: Result<String>)
    requires
        dt.valid(),
    ensures
        r is Ok <==> rfc3339_writable(dt),
        r matches Ok(text) ==> text@ == rfc3339_text(dt),
        r matches Err(e) ==> e.kind == ErrorKind::Config && exists|detail: Seq<char>|
            e.message@ == #[trigger] format_failure_message(detail),
{
    let zeroed = DateTimeFields { nanosecond: 0, ..dt };
    match format_rfc3339(zeroed) {
        Ok(text) => Ok(text),
        Err(detail) => {
            let mut message = owned("Failed to format timestamp: ");
            push_str(&mut message, detail.as_str());
            proof {
                assert(message@ == format_failure_message(detail@));
            }
            Err(Error::build_config_error(message))
        },
    }
}

/// The current UTC instant in RFC 3339 format, with seconds precision.
pub fn generate_current_timestamp() -> (r: Result<String>)
    ensures
        exists|now: DateTimeFields|
            #![trigger rfc3339_text(now)]
            now.valid() && now.is_utc() && (r is Ok <==> rfc3339_writable(now)) && (r matches Ok(
                text,
            ) ==> text@ == rfc3339_text(now)),
        r matches Err(e) ==> e.kind == ErrorKind::Config,
{
    let now = now_utc();
    let r = format_timestamp_rfc3339(now);
    proof {
        let _ = rfc3339_text(now);
    }
    r
}

} // verus!
