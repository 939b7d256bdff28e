//! The conversation with a long-running `exiftool -stay_open` process: the
//! command text that asks for a batch of files, the line that ends an answer,
//! and the reading of one answer record.

use vstd::prelude::*;
use crate::exif::datetime::{std_readable, std_reading, ExifDateTime, InvalidExifDateTime};
use crate::exif::{AssetExif, GPS};
use vstd::utf8::encode_utf8;

verus! {

/// The tags read from each file.
pub open spec fn exif_tags() -> Seq<Seq<char>> {
    seq![
        seq!['D', 'a', 't', 'e', 'T', 'i', 'm', 'e', 'O', 'r', 'i', 'g', 'i', 'n', 'a', 'l'],
        seq!['G', 'P', 'S', 'L', 'a', 't', 'i', 't', 'u', 'd', 'e'],
        seq!['G', 'P', 'S', 'L', 'o', 'n', 'g', 'i', 't', 'u', 'd', 'e'],
        seq!['D', 'e', 's', 'c', 'r', 'i', 'p', 't', 'i', 'o', 'n'],
    ]
}

pub open spec fn dash(s: Seq<char>) -> Seq<char> {
    seq!['-'] + s
}

/// The lines that ask exiftool for the tags of the given files, as JSON with
/// numeric values: `-json`, `-n`, one `-TAG` line per tag, one line per path,
/// then `-execute`.
pub open spec fn command_lines_text(paths: Seq<Seq<char>>) -> Seq<Seq<char>> {
    seq![seq!['-', 'j', 's', 'o', 'n'], seq!['-', 'n']] + exif_tags().map_values(|t: Seq<char>| dash(t))
        + paths + seq![seq!['-', 'e', 'x', 'e', 'c', 'u', 't', 'e']]
}

/// The line that exiftool writes at the end of each answer.
pub open spec fn ready_text() -> Seq<char> {
    seq!['{', 'r', 'e', 'a', 'd', 'y', '}']
}

pub open spec fn line_views(v: Seq<String>) -> Seq<Seq<char>> {
    v.map_values(|s: String| s@)
}

fn push_line(out: &mut Vec<String>, line: &str)
    ensures
        final(out)@.len() == old(out)@.len() + 1,
        forall|i: int| 0 <= i < old(out)@.len() ==> final(out)@[i] == old(out)@[i],
        final(out)@.last()@ == line@,
{
    out.push(String::from_str(line));
}

/// The lines to write to exiftool's standard input for one batch of files.
pub fn command_lines(paths: &Vec<String>) -> (r: Vec<String>)
    ensures
        line_views(r@) == command_lines_text(line_views(paths@)),
{
    let mut out: Vec<String> = Vec::new();
    push_line(&mut out, "-json");
    push_line(&mut out, "-n");
    push_line(&mut out, "-DateTimeOriginal");
    push_line(&mut out, "-GPSLatitude");
    push_line(&mut out, "-GPSLongitude");
    push_line(&mut out, "-Description");
    proof {
        reveal_strlit("-json");
        reveal_strlit("-n");
        reveal_strlit("-DateTimeOriginal");
        reveal_strlit("-GPSLatitude");
        reveal_strlit("-GPSLongitude");
        reveal_strlit("-Description");
        reveal_strlit("-execute");
        let expected = seq![seq!['-', 'j', 's', 'o', 'n'], seq!['-', 'n']] + exif_tags().map_values(
            |t: Seq<char>| dash(t),
        );
        assert("-json"@ =~= expected[0]);
        assert("-n"@ =~= expected[1]);
        assert("-DateTimeOriginal"@ =~= expected[2]);
        assert("-GPSLatitude"@ =~= expected[3]);
        assert("-GPSLongitude"@ =~= expected[4]);
        assert("-Description"@ =~= expected[5]);
        assert(line_views(out@) =~= expected);
    }
    let ghost head = line_views(out@);
    let mut i: usize = 0;
    while i < paths.len()
        invariant
            0 <= i <= paths.len(),
            line_views(out@) == head + line_views(paths@).take(i as int),
        decreases paths.len() - i,
    {
        let ghost before = out@;
        out.push(paths[i].clone());
        proof {
            assert(line_views(paths@).take(i + 1) =~= line_views(paths@).take(i as int) + seq![paths@[i as int]@]);
            assert(line_views(out@) =~= line_views(before) + seq![paths@[i as int]@]);
        }
        i = i + 1;
    }
    push_line(&mut out, "-execute");
    proof {
        assert(line_views(paths@).take(paths@.len() as int) =~= line_views(paths@));
        assert("-execute"@ =~= seq!['-', 'e', 'x', 'e', 'c', 'u', 't', 'e']);
        assert(line_views(out@) =~= command_lines_text(line_views(paths@)));
    }
    out
}

/// Whether a line read from exiftool ends an answer: `{ready}` followed only
/// by white space.
pub fn is_ready_line(line: &str) -> (r: bool)
    ensures
        r == (crate::text::trim_end(line@) == ready_text()),
{
    let t = crate::text::trim_end_str(line);
    proof {
        reveal_strlit("{ready}");
        assert("{ready}"@ =~= ready_text());
    }
    crate::text::str_eq(t, "{ready}")
}

/// One asset read from exiftool's answer: its date is read in the EXIF
/// formats (a date in another format is dropped), its position is kept when
/// both coordinates are there.
pub fn asset_exif_from<L>(
    source_file: String,
    date_time_original: Option<String>,
    latitude: Option<L>,
    longitude: Option<L>,
    description: Option<String>,
) -> (r: Result<AssetExif<L>, InvalidExifDateTime>)
    ensures
        r is Err <==> (date_time_original matches Some(s) && !std_readable(encode_utf8(s@))),
        r matches Ok(a) ==> {
            &&& a.source_file == source_file
            &&& a.description == description
            &&& a.gps is Some <==> latitude is Some && longitude is Some
            &&& a.gps matches Some(g) ==> latitude == Some(g.latitude) && longitude == Some(g.longitude)
            &&& a.date_time matches Some((d, _)) ==> d.wf()
            &&& match date_time_original {
                None => a.date_time is None,
                Some(s) => match std_reading(encode_utf8(s@)) {
                    Some(d) => a.date_time == Some((d, s)),
                    None => a.date_time is None,
                },
            }
        },
{
    let date_time = match date_time_original {
        None => None,
        Some(s) => match ExifDateTime::try_parse_std(s.as_str()) {
            Ok(Some(d)) => Some((d, s)),
            Ok(None) => None,
            Err(e) => return Err(e),
        },
    };
    Ok(AssetExif { source_file, date_time, gps: GPS::from_opts(latitude, longitude), description })
}

} // verus!
