//! Plain-value model of the calendar values that jiff computes, the text
//! that the EXIF date-time formats produce, and the calls into jiff.

use vstd::prelude::*;

verus! {

/// The EXIF date-time format without a UTC offset.
pub const EXIF_FMT_NO_OFFSET: &'static str = "%Y:%m:%d %H:%M:%S";

/// The EXIF date-time format with a UTC offset (accepted by most platforms).
pub const EXIF_FMT_OFFSET: &'static str = "%Y:%m:%d %H:%M:%S%:z";

/// ISO 8601 with fractional seconds and a UTC offset.
pub const ISO_FMT_OFFSET: &'static str = "%Y-%m-%dT%H:%M:%S%.f%:z";

/// The largest absolute UTC offset, in seconds, that jiff represents (25:59:59).
pub const MAX_OFFSET_SECONDS: i32 = 93599;

/// A civil (time-zone-less) date and time, field by field.
#[derive(Clone, Copy, Debug, PartialEq, Eq, Structural)]
pub struct CivilDateTime {
    pub year: i16,
    pub month: i8,
    pub day: i8,
    pub hour: i8,
    pub minute: i8,
    pub second: i8,
    pub subsec_nanosecond: i32,
}

/// A civil date.
#[derive(Clone, Copy, Debug, PartialEq, Eq, Structural)]
pub struct CivilDate {
    pub year: i16,
    pub month: i8,
    pub day: i8,
}

/// A civil time of day.
#[derive(Clone, Copy, Debug, PartialEq, Eq, Structural)]
pub struct CivilTime {
    pub hour: i8,
    pub minute: i8,
    pub second: i8,
    pub subsec_nanosecond: i32,
}

/// An instant with the fixed UTC offset it was read with: the local civil
/// date-time, the offset in seconds and the instant (seconds and nanoseconds
/// since the Unix epoch).
#[derive(Clone, Copy, Debug, PartialEq, Eq, Structural)]
pub struct ZonedTime {
    pub datetime: CivilDateTime,
    pub offset_seconds: i32,
    pub timestamp_seconds: i64,
    pub timestamp_nanos: i32,
}

/// The two fields that the date-time conversions read from a broken-down time
/// parsed with a `strftime`-style format: its UTC offset, if one was parsed, and
/// the civil date-time that it forms, if its fields form one.
#[derive(Clone, Copy, Debug, PartialEq, Eq, Structural)]
pub struct BrokenDownParts {
    pub offset_seconds: Option<i32>,
    pub datetime: Option<CivilDateTime>,
}

/// The UTC offset written in an RFC 9557 / ISO 8601 date-time string.
#[derive(Clone, Copy, Debug, PartialEq, Eq, Structural)]
pub enum WrittenOffset {
    /// `Z`
    Zulu,
    /// A numeric offset, in seconds, with the sign as written (`-00:00` is negative).
    Numeric { seconds: i32, negative: bool },
}

/// The pieces of an RFC 9557 / ISO 8601 date-time string, as written.
#[derive(Clone, Copy, Debug, PartialEq, Eq, Structural)]
pub struct DateTimePieces {
    pub date: CivilDate,
    pub time: Option<CivilTime>,
    pub offset: Option<WrittenOffset>,
    /// whether a bracketed time zone annotation (`[America/New_York]`) was written
    pub has_time_zone_annotation: bool,
}

pub open spec fn is_leap_year(y: int) -> bool {
    (y % 4 == 0 && y % 100 != 0) || y % 400 == 0
}

pub open spec fn days_in_month(y: int, m: int) -> int {
    if m == 2 {
        if is_leap_year(y) { 29 } else { 28 }
    } else if m == 4 || m == 6 || m == 9 || m == 11 {
        30
    } else {
        31
    }
}

impl CivilDate {
    /// The ranges within which jiff represents a civil date.
    pub open spec fn wf(self) -> bool {
        &&& -9999 <= self.year <= 9999
        &&& 1 <= self.month <= 12
        &&& 1 <= self.day <= days_in_month(self.year as int, self.month as int)
    }
}

impl CivilTime {
    /// The ranges within which jiff represents a time of day.
    pub open spec fn wf(self) -> bool {
        &&& 0 <= self.hour <= 23
        &&& 0 <= self.minute <= 59
        &&& 0 <= self.second <= 59
        &&& 0 <= self.subsec_nanosecond <= 999_999_999
    }
}

impl CivilDateTime {
    /// The ranges within which jiff represents a civil date-time.
    pub open spec fn wf(self) -> bool {
        &&& self.date().wf()
        &&& self.time().wf()
    }

    pub open spec fn date(self) -> CivilDate {
        CivilDate { year: self.year, month: self.month, day: self.day }
    }

    pub open spec fn time(self) -> CivilTime {
        CivilTime {
            hour: self.hour,
            minute: self.minute,
            second: self.second,
            subsec_nanosecond: self.subsec_nanosecond,
        }
    }

    /// The same date-time with the fraction of a second dropped.
    pub open spec fn spec_truncated(self) -> CivilDateTime {
        CivilDateTime { subsec_nanosecond: 0, ..self }
    }

    pub open spec fn from_parts_spec(date: CivilDate, time: CivilTime) -> CivilDateTime {
        CivilDateTime {
            year: date.year,
            month: date.month,
            day: date.day,
            hour: time.hour,
            minute: time.minute,
            second: time.second,
            subsec_nanosecond: time.subsec_nanosecond,
        }
    }

    /// Joins a date and a time of day into a date-time.
    pub fn from_parts(date: CivilDate, time: CivilTime) -> (r: CivilDateTime)
        ensures
            r == CivilDateTime::from_parts_spec(date, time),
            r.date() == date,
            r.time() == time,
    {
        CivilDateTime {
            year: date.year,
            month: date.month,
            day: date.day,
            hour: time.hour,
            minute: time.minute,
            second: time.second,
            subsec_nanosecond: time.subsec_nanosecond,
        }
    }

    /// The ISO 8601 text of the date-time (`Display` of jiff's civil date-time).
    pub fn to_string(&self) -> (r: String)
        ensures
            self.wf() && 0 <= self.year && self.subsec_nanosecond == 0 ==> r@ == iso_text(*self),
    {
        iso_string(self)
    }

    /// Drops the fraction of a second.
    pub fn truncated(&self) -> (r: CivilDateTime)
        ensures
            r == self.spec_truncated(),
            self.wf() ==> r.wf(),
    {
        CivilDateTime { subsec_nanosecond: 0, ..*self }
    }
}

pub open spec fn offset_in_range(seconds: int) -> bool {
    -93599 <= seconds <= 93599
}

/// The number of days from 1970-01-01 to a date of the proleptic Gregorian
/// calendar (negative before it).
pub open spec fn days_from_civil(year: int, month: int, day: int) -> int {
    let y = if month <= 2 { year - 1 } else { year };
    let era = y / 400;
    let yoe = y - era * 400;
    let mp = if month > 2 { month - 3 } else { month + 9 };
    let doy = (153 * mp + 2) / 5 + day - 1;
    let doe = yoe * 365 + yoe / 4 - yoe / 100 + doy;
    era * 146097 + doe - 719468
}

/// The whole seconds from 1970-01-01T00:00:00 to a civil date-time.
pub open spec fn civil_seconds(dt: CivilDateTime) -> int {
    days_from_civil(dt.year as int, dt.month as int, dt.day as int) * 86400 + dt.hour * 3600 + dt.minute * 60
        + dt.second
}

impl ZonedTime {
    /// The instant in nanoseconds since the Unix epoch.
    pub open spec fn instant_nanos(self) -> int {
        self.timestamp_seconds * 1_000_000_000 + self.timestamp_nanos
    }

    /// Within jiff's ranges; the fraction of a second of the instant has the
    /// sign of its seconds (either may be zero); and the instant is the civil
    /// date-time less the offset.
    pub open spec fn wf(self) -> bool {
        &&& self.datetime.wf()
        &&& offset_in_range(self.offset_seconds as int)
        &&& -999_999_999 <= self.timestamp_nanos <= 999_999_999
        &&& self.timestamp_seconds > 0 ==> self.timestamp_nanos >= 0
        &&& self.timestamp_seconds < 0 ==> self.timestamp_nanos <= 0
        &&& self.instant_nanos() == (civil_seconds(self.datetime) - self.offset_seconds) * 1_000_000_000
            + self.datetime.subsec_nanosecond
    }
}

/// Two instants given as seconds and a fraction of the same sign are equal
/// exactly when both parts are.
pub proof fn lemma_instant_parts(a: ZonedTime, b: ZonedTime)
    requires
        a.wf(),
        b.wf(),
    ensures
        a.instant_nanos() == b.instant_nanos() <==> (a.timestamp_seconds == b.timestamp_seconds
            && a.timestamp_nanos == b.timestamp_nanos),
{
}

// ---- The text of the EXIF formats

/// The character of a decimal digit.
pub open spec fn digit_char(n: int) -> char {
    (n + 48) as char
}

/// A number below 100 written with two digits.
pub open spec fn two_digits(n: int) -> Seq<char> {
    seq![digit_char(n / 10), digit_char(n % 10)]
}

/// A number below 1000 written with three digits.
pub open spec fn three_digits(n: int) -> Seq<char> {
    seq![digit_char(n / 100), digit_char((n / 10) % 10), digit_char(n % 10)]
}

/// A number below 10000 written with four digits.
pub open spec fn four_digits(n: int) -> Seq<char> {
    seq![digit_char(n / 1000), digit_char((n / 100) % 10), digit_char((n / 10) % 10), digit_char(n % 10)]
}

pub open spec fn abs(n: int) -> int {
    if n < 0 { -n } else { n }
}

/// A UTC offset as `%:z` writes it: `[+-]HH:MM`, and `:SS` when the seconds are not zero.
pub open spec fn offset_text(seconds: int) -> Seq<char> {
    let a = abs(seconds);
    let sign = if seconds < 0 { '-' } else { '+' };
    seq![sign] + two_digits(a / 3600) + seq![':'] + two_digits((a / 60) % 60) + if a % 60 != 0 {
        seq![':'] + two_digits(a % 60)
    } else {
        Seq::empty()
    }
}

/// A year as `%Y` writes it: zero-padded to four places, the sign counting
/// as one of them.
pub open spec fn year_text(y: int) -> Seq<char> {
    if y >= 0 {
        four_digits(y)
    } else if -y >= 1000 {
        seq!['-'] + four_digits(-y)
    } else {
        seq!['-'] + three_digits(-y)
    }
}

/// `YYYY:MM:DD HH:MM:SS`
pub open spec fn exif_text(dt: CivilDateTime) -> Seq<char> {
    year_text(dt.year as int) + seq![':'] + two_digits(dt.month as int) + seq![':'] + two_digits(
        dt.day as int,
    ) + seq![' '] + two_digits(dt.hour as int) + seq![':'] + two_digits(dt.minute as int) + seq![
        ':',
    ] + two_digits(dt.second as int)
}

/// `YYYY:MM:DD HH:MM:SS`, followed by the offset when there is one.
pub open spec fn exif_text_with_offset(dt: CivilDateTime, offset: Option<i32>) -> Seq<char> {
    match offset {
        Some(o) => exif_text(dt) + offset_text(o as int),
        None => exif_text(dt),
    }
}

/// `YYYY-MM-DDTHH:MM:SS`, the ISO 8601 text of a date-time without a fraction of a second.
pub open spec fn iso_text(dt: CivilDateTime) -> Seq<char> {
    four_digits(dt.year as int) + seq!['-'] + two_digits(dt.month as int) + seq!['-'] + two_digits(
        dt.day as int,
    ) + seq!['T'] + two_digits(dt.hour as int) + seq![':'] + two_digits(dt.minute as int) + seq![
        ':',
    ] + two_digits(dt.second as int)
}

pub open spec fn exif_fmt_no_offset_text() -> Seq<char> {
    seq!['%', 'Y', ':', '%', 'm', ':', '%', 'd', ' ', '%', 'H', ':', '%', 'M', ':', '%', 'S']
}

pub open spec fn exif_fmt_offset_text() -> Seq<char> {
    exif_fmt_no_offset_text() + seq!['%', ':', 'z']
}

pub open spec fn iso_fmt_offset_text() -> Seq<char> {
    seq!['%', 'Y', '-', '%', 'm', '-', '%', 'd', 'T', '%', 'H', ':', '%', 'M', ':', '%', 'S', '%', '.', 'f', '%', ':', 'z']
}

/// The format that writes a date-time with the given optional offset.
pub open spec fn exif_format_for(offset: Option<i32>) -> Seq<char> {
    match offset {
        Some(_) => exif_fmt_offset_text(),
        None => exif_fmt_no_offset_text(),
    }
}

pub proof fn lemma_format_constants()
    ensures
        EXIF_FMT_NO_OFFSET@ == exif_fmt_no_offset_text(),
        EXIF_FMT_OFFSET@ == exif_fmt_offset_text(),
        ISO_FMT_OFFSET@ == iso_fmt_offset_text(),
{
    reveal_strlit("%Y:%m:%d %H:%M:%S");
    reveal_strlit("%Y:%m:%d %H:%M:%S%:z");
    reveal_strlit("%Y-%m-%dT%H:%M:%S%.f%:z");
    assert(ISO_FMT_OFFSET@ =~= iso_fmt_offset_text());
    assert(EXIF_FMT_NO_OFFSET@ =~= exif_fmt_no_offset_text());
    assert(EXIF_FMT_OFFSET@ =~= exif_fmt_offset_text());
}

// ---- Calls into jiff

#[verifier::external_type_specification]
#[verifier::external_body]
pub struct ExJiffError(jiff::Error);

/// What `jiff::Zoned::strptime` gives for a format and the input bytes.
pub uninterp spec fn zoned_strptime_result(format: Seq<char>, input: Seq<u8>) -> Option<ZonedTime>;

/// What `jiff::civil::DateTime::strptime` gives for a format and the input bytes.
pub uninterp spec fn datetime_strptime_result(format: Seq<char>, input: Seq<u8>) -> Option<CivilDateTime>;

/// What `<jiff::civil::DateTime as FromStr>::from_str` gives for a string.
pub uninterp spec fn datetime_from_str_result(input: Seq<char>) -> Option<CivilDateTime>;

/// What `jiff::fmt::rfc2822::parse` gives for a string.
pub uninterp spec fn rfc2822_parse_result(input: Seq<char>) -> Option<ZonedTime>;

/// What `jiff::fmt::strtime::parse` gives for a format and the input bytes,
/// read as its offset and its civil date-time.
pub uninterp spec fn strtime_parse_result(format: Seq<char>, input: Seq<u8>) -> Option<BrokenDownParts>;

/// What `jiff::fmt::temporal::DateTimeParser::parse_pieces` gives for the input bytes.
pub uninterp spec fn temporal_pieces_result(input: Seq<u8>) -> Option<DateTimePieces>;

/// Calls `jiff::Zoned::strptime`; the zoned value is read as its civil
/// date-time, its offset and its instant. Only for the EXIF and ISO 8601
/// formats with a numeric offset: they hold no `%Q`, so no time zone database
/// is consulted and the result depends on the format and the input alone.
/// Claims that the result is the named one and, when present, a well-formed
/// jiff value (its instant is its civil time less its offset).
#[verifier::external_body]
pub(crate) fn zoned_strptime(format: &str, input: &[u8]) -> (r: Option<ZonedTime>)
    requires
        format@ == exif_fmt_offset_text() || format@ == iso_fmt_offset_text(),
    ensures
        r == zoned_strptime_result(format@, input@),
        r matches Some(z) ==> z.wf(),
{
    match jiff::Zoned::strptime(format, input) {
        Ok(z) => Some(ZonedTime {
            datetime: CivilDateTime { year: z.year(), month: z.month(), day: z.day(), hour: z.hour(),
                minute: z.minute(), second: z.second(), subsec_nanosecond: z.subsec_nanosecond() },
            offset_seconds: z.offset().seconds(),
            timestamp_seconds: z.timestamp().as_second(),
            timestamp_nanos: z.timestamp().subsec_nanosecond(),
        }),
        Err(_) => None,
    }
}

/// Calls `jiff::civil::DateTime::strptime`. Claims only that the result is the
/// named one and, when present, within jiff's ranges.
#[verifier::external_body]
pub(crate) fn datetime_strptime(format: &str, input: &[u8]) -> (r: Option<CivilDateTime>)
    ensures
        r == datetime_strptime_result(format@, input@),
        r matches Some(d) ==> d.wf(),
{
    match jiff::civil::DateTime::strptime(format, input) {
        Ok(d) => Some(CivilDateTime { year: d.year(), month: d.month(), day: d.day(), hour: d.hour(),
            minute: d.minute(), second: d.second(), subsec_nanosecond: d.subsec_nanosecond() }),
        Err(_) => None,
    }
}

/// A zoned value agrees with the RFC 9557 text it was read from: the text
/// reads as pieces with a bracketed time zone annotation; and when it writes a
/// time and a numeric offset that the value's offset equals, the value's civil
/// date-time is the one written.
pub open spec fn agrees_with_text(z: ZonedTime, input: Seq<char>) -> bool {
    &&& temporal_pieces_result(vstd::utf8::encode_utf8(input)) matches Some(p)
    &&& p.has_time_zone_annotation
    &&& match (p.time, p.offset) {
        (Some(t), Some(WrittenOffset::Numeric { seconds, .. })) => z.offset_seconds == seconds ==> z.datetime
            == CivilDateTime::from_parts_spec(p.date, t),
        _ => true,
    }
}

/// Calls `<jiff::Zoned as FromStr>::from_str` (RFC 9557 text, which names a
/// time zone). The result depends on the time zone database of the machine,
/// so no name is given to it. Claims that a result is a well-formed jiff value
/// read from text that `parse_pieces` reads the same way with a time zone
/// annotation (jiff refuses text without one); and that when the value's
/// offset is the numeric offset written, its civil date-time is the one
/// written. jiff's default parser places the instant with the zone's offset or
/// with the written one, so the civil time can differ from the text only when
/// the two offsets differ (jiff accepts a written offset that equals the
/// zone's rounded to the minute). What the zone's offset is, and the civil
/// time for text with `Z`, without an offset or with another offset, is left
/// unsaid.
#[verifier::external_body]
pub(crate) fn zoned_from_str(input: &str) -> (r: Option<ZonedTime>)
    ensures
        r matches Some(z) ==> z.wf() && agrees_with_text(z, input@),
{
    match input.parse::<jiff::Zoned>() {
        Ok(z) => Some(ZonedTime {
            datetime: CivilDateTime { year: z.year(), month: z.month(), day: z.day(), hour: z.hour(),
                minute: z.minute(), second: z.second(), subsec_nanosecond: z.subsec_nanosecond() },
            offset_seconds: z.offset().seconds(),
            timestamp_seconds: z.timestamp().as_second(),
            timestamp_nanos: z.timestamp().subsec_nanosecond(),
        }),
        Err(_) => None,
    }
}

/// Calls `<jiff::civil::DateTime as FromStr>::from_str`. Claims only that the
/// result is the named one and, when present, within jiff's ranges.
#[verifier::external_body]
pub(crate) fn datetime_from_str(input: &str) -> (r: Option<CivilDateTime>)
    ensures
        r == datetime_from_str_result(input@),
        r matches Some(d) ==> d.wf(),
{
    match input.parse::<jiff::civil::DateTime>() {
        Ok(d) => Some(CivilDateTime { year: d.year(), month: d.month(), day: d.day(), hour: d.hour(),
            minute: d.minute(), second: d.second(), subsec_nanosecond: d.subsec_nanosecond() }),
        Err(_) => None,
    }
}

/// Calls `jiff::fmt::rfc2822::parse`, which yields fixed-offset values (no
/// time zone database is consulted). Claims that the result is the named one
/// and, when present, a well-formed jiff value (its instant is its civil time
/// less its offset).
#[verifier::external_body]
pub(crate) fn rfc2822_parse(input: &str) -> (r: Option<ZonedTime>)
    ensures
        r == rfc2822_parse_result(input@),
        r matches Some(z) ==> z.wf(),
{
    match jiff::fmt::rfc2822::parse(input) {
        Ok(z) => Some(ZonedTime {
            datetime: CivilDateTime { year: z.year(), month: z.month(), day: z.day(), hour: z.hour(),
                minute: z.minute(), second: z.second(), subsec_nanosecond: z.subsec_nanosecond() },
            offset_seconds: z.offset().seconds(),
            timestamp_seconds: z.timestamp().as_second(),
            timestamp_nanos: z.timestamp().subsec_nanosecond(),
        }),
        Err(_) => None,
    }
}

/// Calls `jiff::fmt::strtime::parse`; the broken-down time is read as its offset
/// and as what `to_datetime` makes of it. Claims only that the result is the
/// named one and that the parts are within jiff's ranges.
#[verifier::external_body]
pub(crate) fn strtime_parse(format: &str, input: &[u8]) -> (r: Option<BrokenDownParts>)
    ensures
        r == strtime_parse_result(format@, input@),
        r matches Some(p) ==> (p.datetime matches Some(d) ==> d.wf()),
        r matches Some(p) ==> (p.offset_seconds matches Some(o) ==> offset_in_range(o as int)),
{
    match jiff::fmt::strtime::parse(format, input) {
        Ok(tm) => Some(BrokenDownParts {
            offset_seconds: tm.offset().map(|o| o.seconds()),
            datetime: match tm.to_datetime() {
                Ok(d) => Some(CivilDateTime { year: d.year(), month: d.month(), day: d.day(), hour: d.hour(),
                    minute: d.minute(), second: d.second(), subsec_nanosecond: d.subsec_nanosecond() }),
                Err(_) => None,
            },
        }),
        Err(_) => None,
    }
}

/// Calls `jiff::fmt::temporal::DateTimeParser::parse_pieces` with the default
/// parser. Claims only that the result is the named one and that the date and
/// time are within jiff's ranges.
#[verifier::external_body]
pub(crate) fn temporal_parse_pieces(input: &[u8]) -> (r: Result<DateTimePieces, jiff::Error>)
    ensures
        r is Ok <==> temporal_pieces_result(input@) is Some,
        r matches Ok(p) ==> temporal_pieces_result(input@) == Some(p),
        r matches Ok(p) ==> p.date.wf() && (p.time matches Some(t) ==> t.wf()),
{
    let p = jiff::fmt::temporal::DateTimeParser::new().parse_pieces(input)?;
    Ok(DateTimePieces {
        date: CivilDate { year: p.date().year(), month: p.date().month(), day: p.date().day() },
        time: p.time().map(|t| CivilTime { hour: t.hour(), minute: t.minute(), second: t.second(),
            subsec_nanosecond: t.subsec_nanosecond() }),
        offset: p.offset().map(|o| match o {
            jiff::fmt::temporal::PiecesOffset::Numeric(n) =>
                WrittenOffset::Numeric { seconds: n.offset().seconds(), negative: n.is_negative() },
            _ => WrittenOffset::Zulu,
        }),
        has_time_zone_annotation: p.time_zone_annotation().is_some(),
    })
}

/// Calls `jiff::civil::DateTime::in_tz` and reads the offset of the result.
/// The answer depends on the time zone database of the machine, so no name is
/// given to it; claims only that an offset that comes back is within jiff's range.
#[verifier::external_body]
pub(crate) fn offset_in_time_zone(dt: &CivilDateTime, time_zone: &str) -> (r: Result<i32, jiff::Error>)
    ensures
        r matches Ok(o) ==> offset_in_range(o as int),
{
    let d = jiff::civil::DateTime::new(dt.year, dt.month, dt.day, dt.hour, dt.minute, dt.second,
        dt.subsec_nanosecond)?;
    Ok(d.in_tz(time_zone)?.offset().seconds())
}

/// Calls `jiff::tz::Offset::from_seconds`: documented to fail exactly when the
/// number of seconds is outside -93,599..=93,599.
#[verifier::external_body]
pub(crate) fn offset_from_seconds(seconds: i32) -> (r: Result<i32, jiff::Error>)
    ensures
        r is Ok <==> offset_in_range(seconds as int),
        r matches Ok(o) ==> o == seconds,
{
    Ok(jiff::tz::Offset::from_seconds(seconds)?.seconds())
}

/// Calls `jiff::fmt::strtime::BrokenDownTime::to_string` on the broken-down time
/// of a civil date-time with an optional offset (built with
/// `BrokenDownTime::from` and `set_offset`). The source shows that the two EXIF
/// formats fail only for a missing field, so for them and a date-time within
/// jiff's ranges the call succeeds with the documented zero-padded text. What
/// other formats give is left unsaid.
#[verifier::external_body]
pub(crate) fn strftime(format: &str, dt: &CivilDateTime, offset: Option<i32>) -> (r: Result<String, jiff::Error>)
    ensures
        format@ == exif_format_for(offset) && dt.wf() && (offset matches Some(o) ==> offset_in_range(o as int))
            ==> r is Ok && r->Ok_0@ == exif_text_with_offset(*dt, offset),
{
    let d = jiff::civil::DateTime::new(dt.year, dt.month, dt.day, dt.hour, dt.minute, dt.second,
        dt.subsec_nanosecond)?;
    let mut tm = jiff::fmt::strtime::BrokenDownTime::from(d);
    tm.set_offset(match offset { Some(s) => Some(jiff::tz::Offset::from_seconds(s)?), None => None });
    tm.to_string(format)
}

/// Calls `Display` of `jiff::civil::DateTime` (ISO 8601). For a date-time within
/// jiff's ranges, with a year from 0 to 9999 and no fraction of a second, the
/// text is `YYYY-MM-DDTHH:MM:SS`; other date-times are left unsaid.
#[verifier::external_body]
pub(crate) fn iso_string(dt: &CivilDateTime) -> (r: String)
    ensures
        dt.wf() && 0 <= dt.year && dt.subsec_nanosecond == 0 ==> r@ == iso_text(*dt),
{
    match jiff::civil::DateTime::new(dt.year, dt.month, dt.day, dt.hour, dt.minute, dt.second,
        dt.subsec_nanosecond) {
        Ok(d) => d.to_string(),
        Err(e) => e.to_string(),
    }
}

} // verus!
