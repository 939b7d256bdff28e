//! The EXIF `DateTimeOriginal` value: a civil date-time with an optional offset.

use vstd::prelude::*;
use crate::civil::{
    exif_fmt_no_offset_text, exif_fmt_offset_text, exif_format_for, exif_text_with_offset,
    lemma_format_constants, offset_in_range, strftime, strtime_parse, strtime_parse_result,
    BrokenDownParts, CivilDateTime, EXIF_FMT_NO_OFFSET, EXIF_FMT_OFFSET,
};
use vstd::utf8::encode_utf8;

verus! {

/// A date-time as EXIF holds it.
#[derive(Clone, Copy, Debug, PartialEq, Eq, Structural)]
pub struct ExifDateTime {
    pub datetime: CivilDateTime,
    /// the UTC offset in seconds
    pub offset: Option<i32>,
    /// whether it was read from one of the EXIF formats
    pub was_std: bool,
}

/// A text in an EXIF format that does not name a real date-time, such as
/// `2024:02:30 10:00:00`.
#[derive(Clone, Copy, Debug, PartialEq, Eq, Structural)]
pub struct InvalidExifDateTime;

/// Whether a parse in an EXIF format holds all the parts the conversion reads.
pub open spec fn reading_complete(p: Option<BrokenDownParts>, with_offset: bool) -> bool {
    p matches Some(x) ==> (x.datetime is Some && (with_offset ==> x.offset_seconds is Some))
}

/// The text reads (or does not) in the EXIF formats to a real date-time.
pub open spec fn std_readable(input: Seq<u8>) -> bool {
    let with_offset = strtime_parse_result(exif_fmt_offset_text(), input);
    &&& reading_complete(with_offset, true)
    &&& with_offset is None ==> reading_complete(
        strtime_parse_result(exif_fmt_no_offset_text(), input),
        false,
    )
}

/// The date-time that the EXIF formats read from the text, the format with an
/// offset first.
pub open spec fn std_reading(input: Seq<u8>) -> Option<ExifDateTime> {
    match strtime_parse_result(exif_fmt_offset_text(), input) {
        Some(p) => Some(
            ExifDateTime {
                datetime: p.datetime->Some_0,
                offset: Some(p.offset_seconds->Some_0),
                was_std: true,
            },
        ),
        None => match strtime_parse_result(exif_fmt_no_offset_text(), input) {
            Some(p) => Some(ExifDateTime { datetime: p.datetime->Some_0, offset: None, was_std: true }),
            None => None,
        },
    }
}

impl ExifDateTime {
    /// The values jiff can represent.
    pub open spec fn wf(self) -> bool {
        &&& self.datetime.wf()
        &&& self.offset matches Some(o) ==> offset_in_range(o as int)
    }

    /// The EXIF text of the date-time, with the offset when there is one.
    pub open spec fn text(self) -> Seq<char> {
        exif_text_with_offset(self.datetime, self.offset)
    }

    /// A date-time that was not read from an EXIF format.
    pub fn nonstd(datetime: CivilDateTime, offset: Option<i32>) -> (r: Self)
        ensures
            r == (ExifDateTime { datetime, offset, was_std: false }),
    {
        Self { datetime, offset, was_std: false }
    }

    /// Reads a date-time in one of the EXIF formats, the one with an offset first.
    pub fn parse_std(input: &str) -> (r: Option<Self>)
        requires
            std_readable(encode_utf8(input@)),
        ensures
            r == std_reading(encode_utf8(input@)),
            r matches Some(d) ==> d.wf(),
    {
        match Self::parse_std_offset(input) {
            Some(d) => Some(d),
            None => Self::parse_std_no_offset(input),
        }
    }

    /// Reads a date-time in one of the EXIF formats; a text that fits a format
    /// but names no real date-time is an error.
    pub fn try_parse_std(input: &str) -> (r: Result<Option<Self>, InvalidExifDateTime>)
        ensures
            r is Ok <==> std_readable(encode_utf8(input@)),
            r matches Ok(d) ==> d == std_reading(encode_utf8(input@)),
            r matches Ok(Some(d)) ==> d.wf(),
    {
        proof {
            lemma_format_constants();
        }
        let bytes = input.as_bytes();
        let with_offset = strtime_parse(EXIF_FMT_OFFSET, bytes);
        let complete = match with_offset {
            Some(p) => p.datetime.is_some() && p.offset_seconds.is_some(),
            None => match strtime_parse(EXIF_FMT_NO_OFFSET, bytes) {
                Some(p) => p.datetime.is_some(),
                None => true,
            },
        };
        if complete {
            Ok(Self::parse_std(input))
        } else {
            Err(InvalidExifDateTime)
        }
    }

    fn parse_std_offset(input: &str) -> (r: Option<Self>)
        requires
            reading_complete(strtime_parse_result(exif_fmt_offset_text(), encode_utf8(input@)), true),
        ensures
            r == (match strtime_parse_result(exif_fmt_offset_text(), encode_utf8(input@)) {
                Some(p) => Some(
                    ExifDateTime {
                        datetime: p.datetime->Some_0,
                        offset: Some(p.offset_seconds->Some_0),
                        was_std: true,
                    },
                ),
                None => None,
            }),
            r matches Some(d) ==> d.wf(),
    {
        proof {
            lemma_format_constants();
        }
        match strtime_parse(EXIF_FMT_OFFSET, input.as_bytes()) {
            Some(p) => match (p.offset_seconds, p.datetime) {
                (Some(o), Some(d)) => Some(Self { offset: Some(o), datetime: d, was_std: true }),
                _ => None,
            },
            None => None,
        }
    }

    fn parse_std_no_offset(input: &str) -> (r: Option<Self>)
        requires
            reading_complete(strtime_parse_result(exif_fmt_no_offset_text(), encode_utf8(input@)), false),
        ensures
            r == (match strtime_parse_result(exif_fmt_no_offset_text(), encode_utf8(input@)) {
                Some(p) => Some(ExifDateTime { datetime: p.datetime->Some_0, offset: None, was_std: true }),
                None => None,
            }),
            r matches Some(d) ==> d.wf(),
    {
        proof {
            lemma_format_constants();
        }
        match strtime_parse(EXIF_FMT_NO_OFFSET, input.as_bytes()) {
            Some(p) => match p.datetime {
                Some(d) => Some(Self { offset: None, datetime: d, was_std: true }),
                None => None,
            },
            None => None,
        }
    }

    /// Formats in the EXIF format that fits: with the offset when there is one.
    pub fn fmt_datetime(&self) -> (r: Result<String, jiff::Error>)
        ensures
            self.wf() ==> r is Ok && r->Ok_0@ == self.text(),
    {
        proof {
            lemma_format_constants();
        }
        let format = match self.offset {
            Some(_) => EXIF_FMT_OFFSET,
            None => EXIF_FMT_NO_OFFSET,
        };
        assert(format@ == exif_format_for(self.offset));
        strftime(format, &self.datetime, self.offset)
    }

    /// The displayed text: the EXIF text followed by a line break.
    pub fn to_string(&self) -> (r: String)
        requires
            self.wf(),
        ensures
            r@ == self.text() + seq!['\n'],
    {
        match self.fmt_datetime() {
            Ok(s) => {
                let mut out = s;
                out.append("\n");
                proof {
                    reveal_strlit("\n");
                }
                out
            },
            Err(_) => String::new(),
        }
    }
}

} // verus!
