//! A date-time read from any of the formats that cameras and Immich write.

use vstd::prelude::*;
use crate::civil::{
    datetime_from_str, datetime_strptime, exif_fmt_no_offset_text, exif_fmt_offset_text, exif_text,
    agrees_with_text, temporal_pieces_result, exif_text_with_offset, iso_fmt_offset_text, lemma_format_constants, rfc2822_parse, strftime, zoned_from_str,
    zoned_strptime, CivilDateTime, ZonedTime, EXIF_FMT_NO_OFFSET, EXIF_FMT_OFFSET, ISO_FMT_OFFSET,
    datetime_from_str_result, datetime_strptime_result, rfc2822_parse_result, zoned_strptime_result,
};
use crate::text::{lemma_trimmed_idempotent, trim, trimmed};
use vstd::utf8::encode_utf8;

verus! {

/// A parsed date-time: its civil value to the second, the zoned value when the
/// text carried an offset or a time zone, and whether the text was in an EXIF
/// format.
#[derive(Clone, Copy, Debug)]
pub struct ParsedDateTime {
    pub civil: CivilDateTime,
    pub zoned: Option<ZonedTime>,
    pub is_exif: bool,
}

pub open spec fn from_zoned(z: ZonedTime, is_exif: bool) -> ParsedDateTime {
    ParsedDateTime { civil: z.datetime.spec_truncated(), zoned: Some(z), is_exif }
}

pub open spec fn from_civil(d: CivilDateTime, is_exif: bool) -> ParsedDateTime {
    ParsedDateTime { civil: d.spec_truncated(), zoned: None, is_exif }
}

/// The first format that reads the text decides the result, in this order:
/// EXIF with offset, EXIF, RFC 9557, ISO 8601 with offset, ISO 8601, RFC 2822.
pub open spec fn first_reading(
    exif_offset: Option<ZonedTime>,
    exif: Option<CivilDateTime>,
    rfc9557: Option<ZonedTime>,
    iso_offset: Option<ZonedTime>,
    iso: Option<CivilDateTime>,
    rfc2822: Option<ZonedTime>,
) -> Option<ParsedDateTime> {
    if let Some(z) = exif_offset {
        Some(from_zoned(z, true))
    } else if let Some(d) = exif {
        Some(from_civil(d, true))
    } else if let Some(z) = rfc9557 {
        Some(from_zoned(z, false))
    } else if let Some(z) = iso_offset {
        Some(from_zoned(z, false))
    } else if let Some(d) = iso {
        Some(from_civil(d, false))
    } else if let Some(z) = rfc2822 {
        Some(from_zoned(z, false))
    } else {
        None
    }
}

/// The bytes of `+00:00`.
pub open spec fn utc_offset_bytes() -> Seq<u8> {
    seq![43u8, 48u8, 48u8, 58u8, 48u8, 48u8]
}

/// ISO 8601 text made fit for `%Y-%m-%dT%H:%M:%S%.f%:z`: a space at byte 10
/// becomes `T`, and a trailing `Z` becomes `+00:00`.
pub open spec fn iso_offset_candidate(input: Seq<u8>) -> Seq<u8> {
    let b = if input.len() > 10 && input[10] == 32u8 {
        input.update(10, 84u8)
    } else {
        input
    };
    if b.len() > 0 && b.last() == 90u8 {
        b.drop_last() + utc_offset_bytes()
    } else {
        b
    }
}

/// What the ISO 8601 reading with an offset gives for trimmed text.
pub open spec fn iso_offset_reading(text: Seq<char>) -> Option<ZonedTime> {
    zoned_strptime_result(iso_fmt_offset_text(), iso_offset_candidate(encode_utf8(text)))
}

/// What the RFC 9557 reading of a text can give: nothing, or a well-formed
/// zoned value that keeps the civil date-time the text writes.
pub open spec fn rfc9557_fits(text: Seq<char>, rfc9557: Option<ZonedTime>) -> bool {
    rfc9557 matches Some(z) ==> z.wf() && agrees_with_text(z, text)
}

/// The text reads as RFC 9557 pieces with a bracketed time zone annotation,
/// which a zoned RFC 9557 reading needs.
pub open spec fn has_zone_annotation(text: Seq<char>) -> bool {
    temporal_pieces_result(encode_utf8(text)) matches Some(p) && p.has_time_zone_annotation
}

/// Without a time zone annotation there is no RFC 9557 reading: the only
/// reading that fits such a text is none.
pub proof fn lemma_no_annotation_no_rfc9557(text: Seq<char>, rfc9557: Option<ZonedTime>)
    requires
        rfc9557_fits(text, rfc9557),
        !has_zone_annotation(text),
    ensures
        rfc9557 is None,
{
}

/// Reading a text and reading its trimmed text admit the same results: the
/// same RFC 9557 readings fit both, and each gives the same result for both.
/// A text without a time zone annotation therefore reads the same, whatever
/// white space surrounds it.
pub proof fn lemma_reading_ignores_surrounding_space(s: Seq<char>, rfc9557: Option<ZonedTime>)
    ensures
        rfc9557_fits(trimmed(trimmed(s)), rfc9557) == rfc9557_fits(trimmed(s), rfc9557),
        reading_of(trimmed(trimmed(s)), rfc9557) == reading_of(trimmed(s), rfc9557),
        has_zone_annotation(trimmed(trimmed(s))) == has_zone_annotation(trimmed(s)),
{
    lemma_trimmed_idempotent(s);
}

/// The result of reading trimmed text, given what the RFC 9557 reading gave.
pub open spec fn reading_of(text: Seq<char>, rfc9557: Option<ZonedTime>) -> Option<ParsedDateTime> {
    let bytes = encode_utf8(text);
    first_reading(
        zoned_strptime_result(exif_fmt_offset_text(), bytes),
        datetime_strptime_result(exif_fmt_no_offset_text(), bytes),
        rfc9557,
        iso_offset_reading(text),
        datetime_from_str_result(text),
        rfc2822_parse_result(text),
    )
}

/// The EXIF text of a parsed date-time: its zoned value with the offset, or
/// its civil value.
pub open spec fn format_text(p: ParsedDateTime) -> Seq<char> {
    match p.zoned {
        Some(z) => exif_text_with_offset(z.datetime, Some(z.offset_seconds)),
        None => exif_text(p.civil),
    }
}

/// Two parsed date-times are equal when both are zoned at the same instant,
/// or both are unzoned with the same civil value.
pub open spec fn same_time(a: ParsedDateTime, b: ParsedDateTime) -> bool {
    match (a.zoned, b.zoned) {
        (Some(x), Some(y)) => x.timestamp_seconds == y.timestamp_seconds && x.timestamp_nanos
            == y.timestamp_nanos,
        (None, None) => a.civil == b.civil,
        _ => false,
    }
}

impl ParsedDateTime {
    /// The values jiff can represent, as every parse yields.
    pub open spec fn wf(self) -> bool {
        &&& self.civil.wf()
        &&& self.zoned matches Some(z) ==> z.wf()
    }

    /// Reads a date-time from text in one of the supported formats, after
    /// trimming white space. The RFC 9557 reading, which looks a time zone up
    /// in the machine's database, is made on the trimmed text, and its result
    /// agrees with the civil date-time that text writes.
    pub fn new(input: &str) -> (r: Option<ParsedDateTime>)
        ensures
            exists|rfc9557: Option<ZonedTime>|
                #[trigger] rfc9557_fits(trimmed(input@), rfc9557) && r == reading_of(trimmed(input@), rfc9557),
            !has_zone_annotation(trimmed(input@)) ==> r == reading_of(trimmed(input@), None),
            r matches Some(p) ==> p.wf() && p.civil.subsec_nanosecond == 0,
    {
        let text = trim(input);
        let bytes = text.as_bytes();
        proof {
            lemma_format_constants();
            lemma_trimmed_idempotent(input@);
            assert(rfc9557_fits(trimmed(input@), None));
        }
        if let Some(z) = zoned_strptime(EXIF_FMT_OFFSET, bytes) {
            let r = Some(Self::zoned_reading(z, true));
            assert(r == reading_of(trimmed(input@), None));
            r
        } else if let Some(d) = datetime_strptime(EXIF_FMT_NO_OFFSET, bytes) {
            let r = Some(Self::civil_reading(d, true));
            assert(r == reading_of(trimmed(input@), None));
            r
        } else {
            let rfc9557 = zoned_from_str(text);
            assert(rfc9557_fits(trimmed(input@), rfc9557));
            proof {
                if !has_zone_annotation(trimmed(input@)) {
                    lemma_no_annotation_no_rfc9557(trimmed(input@), rfc9557);
                }
            }
            Self::reading_with(text, rfc9557)
        }
    }

    /// Reads a date-time from text, after trimming white space, given what the
    /// RFC 9557 reading of the trimmed text gave.
    pub fn reading_with(input: &str, rfc9557: Option<ZonedTime>) -> (r: Option<ParsedDateTime>)
        requires
            rfc9557 matches Some(z) ==> z.wf(),
        ensures
            r == reading_of(trimmed(input@), rfc9557),
            r matches Some(p) ==> p.wf() && p.civil.subsec_nanosecond == 0,
    {
        let input = trim(input);
        let bytes = input.as_bytes();
        proof {
            lemma_format_constants();
        }
        if let Some(z) = zoned_strptime(EXIF_FMT_OFFSET, bytes) {
            Some(Self::zoned_reading(z, true))
        } else if let Some(d) = datetime_strptime(EXIF_FMT_NO_OFFSET, bytes) {
            Some(Self::civil_reading(d, true))
        } else if let Some(z) = rfc9557 {
            Some(Self::zoned_reading(z, false))
        } else if let Some(p) = Self::try_iso_with_offset(input) {
            Some(p)
        } else if let Some(d) = datetime_from_str(input) {
            Some(Self::civil_reading(d, false))
        } else if let Some(z) = rfc2822_parse(input) {
            Some(Self::zoned_reading(z, false))
        } else {
            None
        }
    }

    fn zoned_reading(z: ZonedTime, is_exif: bool) -> (r: ParsedDateTime)
        ensures
            r == from_zoned(z, is_exif),
    {
        ParsedDateTime { civil: z.datetime.truncated(), zoned: Some(z), is_exif }
    }

    fn civil_reading(d: CivilDateTime, is_exif: bool) -> (r: ParsedDateTime)
        ensures
            r == from_civil(d, is_exif),
    {
        ParsedDateTime { civil: d.truncated(), zoned: None, is_exif }
    }

    /// Reads ISO 8601 with a UTC offset but no IANA time zone, accepting a
    /// space in place of `T` and `Z` for `+00:00`.
    pub fn try_iso_with_offset(input: &str) -> (r: Option<ParsedDateTime>)
        ensures
            r == (match iso_offset_reading(input@) {
                Some(z) => Some(from_zoned(z, false)),
                None => None,
            }),
            r matches Some(p) ==> p.wf(),
    {
        let mut buf = input.as_bytes_vec();
        if buf.len() > 10 && buf[10] == 32u8 {
            buf.set(10, 84u8);
        }
        let ghost b = buf@;
        if buf.len() > 0 && buf[buf.len() - 1] == 90u8 {
            buf.pop();
            buf.push(43u8);
            buf.push(48u8);
            buf.push(48u8);
            buf.push(58u8);
            buf.push(48u8);
            buf.push(48u8);
            assert(buf@ =~= b.drop_last() + utc_offset_bytes());
        }
        assert(buf@ == iso_offset_candidate(encode_utf8(input@)));
        proof {
            reveal_strlit("%Y-%m-%dT%H:%M:%S%.f%:z");
            assert(ISO_FMT_OFFSET@ =~= iso_fmt_offset_text());
        }
        match zoned_strptime(ISO_FMT_OFFSET, buf.as_slice()) {
            Some(z) => Some(Self::zoned_reading(z, false)),
            None => None,
        }
    }

    /// Formats as an EXIF date-time: with the offset when zoned.
    pub fn format(&self) -> (r: String)
        ensures
            self.wf() ==> r@ == format_text(*self),
    {
        proof {
            lemma_format_constants();
        }
        let res = match &self.zoned {
            Some(z) => strftime(EXIF_FMT_OFFSET, &z.datetime, Some(z.offset_seconds)),
            None => strftime(EXIF_FMT_NO_OFFSET, &self.civil, None),
        };
        match res {
            Ok(s) => s,
            Err(_) => String::new(),
        }
    }
}

impl PartialEq for ParsedDateTime {
    fn eq(&self, other: &Self) -> (r: bool) {
        match (&self.zoned, &other.zoned) {
            (Some(a), Some(b)) => a.timestamp_seconds == b.timestamp_seconds && a.timestamp_nanos
                == b.timestamp_nanos,
            (None, None) => self.civil == other.civil,
            _ => false,
        }
    }
}

impl vstd::std_specs::cmp::PartialEqSpecImpl for ParsedDateTime {
    open spec fn obeys_eq_spec() -> bool {
        true
    }

    open spec fn eq_spec(&self, other: &Self) -> bool {
        same_time(*self, *other)
    }
}

/// Equality of parsed date-times is reflexive, symmetric and transitive.
pub proof fn lemma_same_time_equivalence(a: ParsedDateTime, b: ParsedDateTime, c: ParsedDateTime)
    ensures
        same_time(a, a),
        same_time(a, b) ==> same_time(b, a),
        same_time(a, b) && same_time(b, c) ==> same_time(a, c),
{
}

/// Two zoned readings with the same civil date-time and the same offset are
/// the same instant, so they are equal.
pub proof fn lemma_same_civil_and_offset(a: ParsedDateTime, b: ParsedDateTime)
    requires
        a.wf(),
        b.wf(),
        a.zoned matches Some(x) && b.zoned matches Some(y) && x.datetime == y.datetime && x.offset_seconds
            == y.offset_seconds,
    ensures
        same_time(a, b),
{
    crate::civil::lemma_instant_parts(a.zoned->Some_0, b.zoned->Some_0);
}

/// A zoned date-time never equals an unzoned one.
pub proof fn lemma_zoned_never_equals_unzoned(a: ParsedDateTime, b: ParsedDateTime)
    requires
        a.zoned is Some,
        b.zoned is None,
    ensures
        !same_time(a, b),
        !same_time(b, a),
{
}

} // verus!
