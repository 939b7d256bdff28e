//! A narrow view of the pull file: for each asset, whether it is the still of
//! a live photo and the EXIF fields that Immich keeps.

use vstd::prelude::*;
use crate::keyed::KeyedList;
use crate::civil::{
    offset_from_seconds, offset_in_range, offset_in_time_zone, temporal_parse_pieces,
    temporal_pieces_result, CivilDateTime, WrittenOffset,
};
use crate::exif::datetime::ExifDateTime;
use crate::exif::GPS;
use crate::text::{
    decimal_value, parse_i32, path_file_stem, path_file_stem_result, path_parent, path_parent_result, str_eq,
    to_owned,
};
use vstd::utf8::encode_utf8;

verus! {

/// The assets of the pull file, keyed by path relative to the library. `L` is
/// the type of a coordinate.
pub struct ImmichData<L> {
    pub assets: KeyedList<Asset<L>>,
}

pub struct Asset<L> {
    pub is_live_photo: bool,
    pub exif_info: Option<ImmichExif<L>>,
}

/// The EXIF fields that Immich keeps. `L` is the type of a coordinate.
pub struct ImmichExif<L> {
    /// 2020-01-31T04:21:49+00:00
    /// 2018-10-07T15:54:57.356+00:00
    pub date_time_original: Option<String>,
    /// America/Los_Angeles, UTC-5, UTC
    pub time_zone: Option<String>,
    pub latitude: Option<L>,
    pub longitude: Option<L>,
    pub description: Option<String>,
}

/// The extensions tried for the still of a live photo, in order.
pub open spec fn live_photo_exts() -> Seq<Seq<char>> {
    seq![
        seq!['h', 'e', 'i', 'c'],
        seq!['H', 'E', 'I', 'C'],
        seq!['j', 'p', 'g'],
        seq!['J', 'P', 'G'],
        seq!['j', 'p', 'e', 'g'],
        seq!['J', 'P', 'E', 'G'],
    ]
}

/// `dir/stem.ext`
pub open spec fn sibling_path(dir: Seq<char>, stem: Seq<char>, ext: Seq<char>) -> Seq<char> {
    dir + seq!['/'] + stem + seq!['.'] + ext
}

/// An asset that may be the still of a live photo.
pub trait LivePhoto {
    spec fn spec_is_live_photo(&self) -> bool;

    fn is_live_photo_still(&self) -> (r: bool)
        ensures
            r == self.spec_is_live_photo(),
    ;
}

impl<L> LivePhoto for Asset<L> {
    open spec fn spec_is_live_photo(&self) -> bool {
        self.is_live_photo
    }

    fn is_live_photo_still(&self) -> (r: bool) {
        self.is_live_photo
    }
}

/// The first of the extensions, from the `i`-th on, that names a live photo in
/// the map.
pub open spec fn first_live_photo<A: LivePhoto>(
    m: Map<Seq<char>, A>,
    dir: Seq<char>,
    stem: Seq<char>,
    i: int,
) -> Option<A>
    decreases 6 - i,
{
    if i < 0 || i >= 6 {
        None
    } else {
        let key = sibling_path(dir, stem, live_photo_exts()[i]);
        if m.contains_key(key) && m[key].spec_is_live_photo() {
            Some(m[key])
        } else {
            first_live_photo(m, dir, stem, i + 1)
        }
    }
}

/// The asset for a path: its own entry, or else the still of the live photo
/// that the file belongs to (Apple splits a live photo in two files).
pub open spec fn resolve<A: LivePhoto>(m: Map<Seq<char>, A>, rel_path: Seq<char>) -> Option<A> {
    if m.contains_key(rel_path) {
        Some(m[rel_path])
    } else {
        match (path_file_stem_result(rel_path), path_parent_result(rel_path)) {
            (Some(stem), Some(dir)) => first_live_photo(m, dir, stem, 0),
            _ => None,
        }
    }
}

proof fn lemma_first_live_photo<A: LivePhoto>(m: Map<Seq<char>, A>, dir: Seq<char>, stem: Seq<char>, i: int)
    ensures
        first_live_photo(m, dir, stem, i) matches Some(a) ==> a.spec_is_live_photo() && exists|j: int|
            i <= j < 6 && m.contains_key(sibling_path(dir, stem, live_photo_exts()[j])) && m[sibling_path(
                dir,
                stem,
                live_photo_exts()[j],
            )] == a,
    decreases 6 - i,
{
    if 0 <= i < 6 {
        lemma_first_live_photo(m, dir, stem, i + 1);
    }
}

/// A path that is a key resolves to its own asset; a path that is not
/// resolves, if at all, to the still of a live photo stored under the same
/// directory and stem with one of the live-photo extensions.
pub proof fn lemma_resolve<A: LivePhoto>(m: Map<Seq<char>, A>, rel_path: Seq<char>)
    ensures
        m.contains_key(rel_path) ==> resolve(m, rel_path) == Some(m[rel_path]),
        resolve(m, rel_path) matches Some(a) ==> (!m.contains_key(rel_path) ==> {
            &&& a.spec_is_live_photo()
            &&& path_file_stem_result(rel_path) matches Some(stem)
            &&& path_parent_result(rel_path) matches Some(dir)
            &&& exists|j: int|
                0 <= j < 6 && m.contains_key(sibling_path(dir, stem, live_photo_exts()[j])) && m[sibling_path(
                    dir,
                    stem,
                    live_photo_exts()[j],
                )] == a
        }),
{
    if !m.contains_key(rel_path) {
        if let (Some(stem), Some(dir)) = (path_file_stem_result(rel_path), path_parent_result(rel_path)) {
            lemma_first_live_photo(m, dir, stem, 0);
        }
    }
}

/// The extensions of the still of a live photo, written out.
pub open spec fn still_exts() -> Seq<Seq<char>> {
    seq![
        seq!['h', 'e', 'i', 'c'],
        seq!['H', 'E', 'I', 'C'],
        seq!['j', 'p', 'g'],
        seq!['J', 'P', 'G'],
        seq!['j', 'p', 'e', 'g'],
        seq!['J', 'P', 'E', 'G'],
    ]
}

proof fn lemma_first_live_photo_found<A: LivePhoto>(
    m: Map<Seq<char>, A>,
    dir: Seq<char>,
    stem: Seq<char>,
    i: int,
    j: int,
)
    requires
        0 <= i <= j < 6,
        m.contains_key(sibling_path(dir, stem, live_photo_exts()[j])),
        m[sibling_path(dir, stem, live_photo_exts()[j])].spec_is_live_photo(),
    ensures
        first_live_photo(m, dir, stem, i) is Some,
    decreases j - i,
{
    if i < j {
        let key = sibling_path(dir, stem, live_photo_exts()[i]);
        if !(m.contains_key(key) && m[key].spec_is_live_photo()) {
            lemma_first_live_photo_found(m, dir, stem, i + 1, j);
        }
    }
}

/// A file that is not a key finds the still of its live photo whenever one of
/// `dir/stem.heic`, `.HEIC`, `.jpg`, `.JPG`, `.jpeg` or `.JPEG` is the key of a
/// live photo; and it then finds the first of them, in that order. A key finds
/// its own asset.
pub proof fn lemma_resolve_finds_live_photo<A: LivePhoto>(m: Map<Seq<char>, A>, rel_path: Seq<char>, k: int)
    requires
        0 <= k < 6,
        !m.contains_key(rel_path),
        path_file_stem_result(rel_path) is Some,
        path_parent_result(rel_path) is Some,
        m.contains_key(
            sibling_path(path_parent_result(rel_path)->Some_0, path_file_stem_result(rel_path)->Some_0, still_exts()[k]),
        ),
        m[sibling_path(
            path_parent_result(rel_path)->Some_0,
            path_file_stem_result(rel_path)->Some_0,
            still_exts()[k],
        )].spec_is_live_photo(),
    ensures
        resolve(m, rel_path) matches Some(a) && a.spec_is_live_photo(),
        (forall|j: int|
            0 <= j < k ==> !(#[trigger] m.contains_key(
                sibling_path(path_parent_result(rel_path)->Some_0, path_file_stem_result(rel_path)->Some_0, still_exts()[j]),
            ) && m[sibling_path(
                path_parent_result(rel_path)->Some_0,
                path_file_stem_result(rel_path)->Some_0,
                still_exts()[j],
            )].spec_is_live_photo())) ==> resolve(m, rel_path) == Some(
            m[sibling_path(
                path_parent_result(rel_path)->Some_0,
                path_file_stem_result(rel_path)->Some_0,
                still_exts()[k],
            )],
        ),
{
    let dir = path_parent_result(rel_path)->Some_0;
    let stem = path_file_stem_result(rel_path)->Some_0;
    assert(live_photo_exts() =~= still_exts());
    lemma_first_live_photo_found(m, dir, stem, 0, k);
    lemma_first_live_photo(m, dir, stem, 0);
    if forall|j: int|
        0 <= j < k ==> !(#[trigger] m.contains_key(sibling_path(dir, stem, still_exts()[j])) && m[sibling_path(
            dir,
            stem,
            still_exts()[j],
        )].spec_is_live_photo()) {
        lemma_first_live_photo_skips(m, dir, stem, 0, k);
    }
}

proof fn lemma_first_live_photo_skips<A: LivePhoto>(m: Map<Seq<char>, A>, dir: Seq<char>, stem: Seq<char>, i: int, k: int)
    requires
        0 <= i <= k < 6,
        forall|j: int|
            i <= j < k ==> !(#[trigger] m.contains_key(sibling_path(dir, stem, live_photo_exts()[j])) && m[sibling_path(
                dir,
                stem,
                live_photo_exts()[j],
            )].spec_is_live_photo()),
        m.contains_key(sibling_path(dir, stem, live_photo_exts()[k])),
        m[sibling_path(dir, stem, live_photo_exts()[k])].spec_is_live_photo(),
    ensures
        first_live_photo(m, dir, stem, i) == Some(m[sibling_path(dir, stem, live_photo_exts()[k])]),
    decreases k - i,
{
    if i < k {
        lemma_first_live_photo_skips(m, dir, stem, i + 1, k);
    }
}

/// The asset for a local file among assets keyed by relative path: the entry
/// of its path, or else the still of the live photo it belongs to.
pub fn resolve_in<'a, A: LivePhoto>(assets: &'a KeyedList<A>, rel_path: &str) -> (r: Option<&'a A>)
    requires
        assets.wf(),
    ensures
        r matches Some(a) ==> resolve(assets.view(), rel_path@) == Some(*a),
        r is None ==> resolve(assets.view(), rel_path@) is None,
{
    if let Some(entry) = assets.get(rel_path) {
        return Some(entry);
    }
    let stem = match path_file_stem(rel_path) {
        Some(s) => s,
        None => return None,
    };
    let dir = match path_parent(rel_path) {
        Some(d) => d,
        None => return None,
    };
    let mut i: usize = 0;
    while i < 6
        invariant
            assets.wf(),
            0 <= i <= 6,
            !assets.view().contains_key(rel_path@),
            path_file_stem_result(rel_path@) == Some(stem@),
            path_parent_result(rel_path@) == Some(dir@),
            first_live_photo(assets.view(), dir@, stem@, 0) == first_live_photo(
                assets.view(),
                dir@,
                stem@,
                i as int,
            ),
        decreases 6 - i,
    {
        let candidate = sibling(dir, stem, live_photo_ext(i));
        if let Some(entry) = assets.get(candidate.as_str()) {
            if entry.is_live_photo_still() {
                return Some(entry);
            }
        }
        i = i + 1;
    }
    None
}

fn live_photo_ext(i: usize) -> (r: &'static str)
    requires
        i < 6,
    ensures
        r@ == live_photo_exts()[i as int],
{
    proof {
        reveal_strlit("heic");
        reveal_strlit("HEIC");
        reveal_strlit("jpg");
        reveal_strlit("JPG");
        reveal_strlit("jpeg");
        reveal_strlit("JPEG");
    }
    let r = if i == 0 {
        "heic"
    } else if i == 1 {
        "HEIC"
    } else if i == 2 {
        "jpg"
    } else if i == 3 {
        "JPG"
    } else if i == 4 {
        "jpeg"
    } else {
        "JPEG"
    };
    assert(r@ =~= live_photo_exts()[i as int]);
    r
}

/// `dir/stem.ext`
pub fn sibling(dir: &str, stem: &str, ext: &str) -> (r: String)
    ensures
        r@ == sibling_path(dir@, stem@, ext@),
{
    let mut s = String::from_str(dir);
    s.append("/");
    s.append(stem);
    s.append(".");
    s.append(ext);
    proof {
        reveal_strlit("/");
        reveal_strlit(".");
    }
    s
}

impl<L> ImmichData<L> {
    pub open spec fn wf(&self) -> bool {
        self.assets.wf()
    }

    /// No assets.
    pub fn new() -> (r: Self)
        ensures
            r.wf(),
            r.assets.view() == Map::<Seq<char>, Asset<L>>::empty(),
    {
        ImmichData { assets: KeyedList::new() }
    }

    /// Sets the asset of a path.
    pub fn insert_asset(&mut self, rel_path: String, asset: Asset<L>)
        requires
            old(self).wf(),
        ensures
            final(self).wf(),
            final(self).assets.view() == old(self).assets.view().insert(rel_path@, asset),
    {
        self.assets.insert(rel_path, asset);
    }

    /// The asset for a local file: the entry of its path, or else the still of
    /// the live photo it belongs to.
    pub fn resolve_asset(&self, rel_path: &str) -> (r: Option<&Asset<L>>)
        requires
            self.wf(),
        ensures
            r matches Some(a) ==> resolve(self.assets.view(), rel_path@) == Some(*a),
            r is None ==> resolve(self.assets.view(), rel_path@) is None,
    {
        resolve_in(&self.assets, rel_path)
    }
}

/// Why a date of Immich could not be read.
pub enum ImmichDateError {
    /// not an RFC 9557 / ISO 8601 date-time
    Parse(jiff::Error),
    MissingTime,
    /// an offset other than `+00:00` was written
    UnexpectedOffset(WrittenOffset),
    /// a time zone was written in the date
    UnexpectedTimeZone,
    /// `UTC` followed by a sign but not by a number of hours
    InvalidUtcOffset,
    /// `UTC±N` with more than 25 hours
    OffsetOutOfRange,
    /// the time zone is unknown, or the date has no offset in it
    TimeZone(jiff::Error),
}

/// The kinds of `ImmichDateError`.
#[derive(PartialEq, Eq, Structural)]
pub enum ImmichDateErrorKind {
    Parse,
    MissingTime,
    UnexpectedOffset,
    UnexpectedTimeZone,
    InvalidUtcOffset,
    OffsetOutOfRange,
    TimeZone,
}

pub open spec fn error_kind(e: ImmichDateError) -> ImmichDateErrorKind {
    match e {
        ImmichDateError::Parse(_) => ImmichDateErrorKind::Parse,
        ImmichDateError::MissingTime => ImmichDateErrorKind::MissingTime,
        ImmichDateError::UnexpectedOffset(_) => ImmichDateErrorKind::UnexpectedOffset,
        ImmichDateError::UnexpectedTimeZone => ImmichDateErrorKind::UnexpectedTimeZone,
        ImmichDateError::InvalidUtcOffset => ImmichDateErrorKind::InvalidUtcOffset,
        ImmichDateError::OffsetOutOfRange => ImmichDateErrorKind::OffsetOutOfRange,
        ImmichDateError::TimeZone(_) => ImmichDateErrorKind::TimeZone,
    }
}

pub open spec fn result_kind(r: Result<Option<ExifDateTime>, ImmichDateError>) -> Result<
    Option<ExifDateTime>,
    ImmichDateErrorKind,
> {
    match r {
        Ok(v) => Ok(v),
        Err(e) => Err(error_kind(e)),
    }
}

/// The only offset Immich writes in `dateTimeOriginal`.
pub open spec fn is_plus_zero(o: WrittenOffset) -> bool {
    o == WrittenOffset::Numeric { seconds: 0, negative: false }
}

/// `UTC` followed by `+` or `-`: the rest, from the sign on.
pub open spec fn utc_suffix(tz: Seq<char>) -> Option<Seq<char>> {
    if tz.len() > 3 && tz[0] == 'U' && tz[1] == 'T' && tz[2] == 'C' && (tz[3] == '+' || tz[3] == '-') {
        Some(tz.skip(3))
    } else {
        None
    }
}

/// The offset, in seconds, of `UTC±N`, as an error kind when the hours are
/// not a number or the offset is out of range.
pub open spec fn utc_offset(suffix: Seq<char>) -> Result<i32, ImmichDateErrorKind> {
    match decimal_value(suffix) {
        Some(h) => if i32::MIN <= h <= i32::MAX {
            if offset_in_range(h * 3600) {
                Ok((h * 3600) as i32)
            } else {
                Err(ImmichDateErrorKind::OffsetOutOfRange)
            }
        } else {
            Err(ImmichDateErrorKind::InvalidUtcOffset)
        },
        None => Err(ImmichDateErrorKind::InvalidUtcOffset),
    }
}

/// A time zone `UTC±N` whose hours fit in `i32` but whose seconds (`N * 3600`)
/// do not: reading the date multiplies the hours in `i32`, which overflows.
pub open spec fn utc_hours_overflow(time_zone: Option<String>) -> bool {
    time_zone matches Some(tz) && utc_suffix(tz@) matches Some(suffix) && decimal_value(suffix) matches Some(h)
        && i32::MIN <= h <= i32::MAX && !(i32::MIN <= h * 3600 <= i32::MAX)
}

/// Whether a time zone is written `UTC` followed by a sign.
fn is_utc_signed(tz: &str) -> (r: bool)
    ensures
        r == utc_suffix(tz@) is Some,
{
    let n = tz.unicode_len();
    n > 3 && tz.get_char(0) == 'U' && tz.get_char(1) == 'T' && tz.get_char(2) == 'C' && (tz.get_char(3) == '+'
        || tz.get_char(3) == '-')
}

/// What reading the date of Immich's EXIF gives, given the offset that the
/// time zone database gives for a named time zone (`None` when it fails).
pub open spec fn date_time_reading<L>(e: ImmichExif<L>, zone_offset: Option<i32>) -> Result<
    Option<ExifDateTime>,
    ImmichDateErrorKind,
> {
    match e.date_time_original {
        None => Ok(None),
        Some(s) => match temporal_pieces_result(encode_utf8(s@)) {
            None => Err(ImmichDateErrorKind::Parse),
            Some(p) => match p.time {
                None => Err(ImmichDateErrorKind::MissingTime),
                Some(t) => if p.offset matches Some(o) && !is_plus_zero(o) {
                    Err(ImmichDateErrorKind::UnexpectedOffset)
                } else if p.has_time_zone_annotation {
                    Err(ImmichDateErrorKind::UnexpectedTimeZone)
                } else {
                    let dt = CivilDateTime::from_parts_spec(p.date, t);
                    match e.time_zone {
                        None => Ok(Some(ExifDateTime { datetime: dt, offset: None, was_std: false })),
                        Some(tz) => match utc_suffix(tz@) {
                            Some(suffix) => match utc_offset(suffix) {
                                Ok(o) => Ok(Some(ExifDateTime { datetime: dt, offset: Some(o), was_std: false })),
                                Err(k) => Err(k),
                            },
                            None => match zone_offset {
                                Some(o) => Ok(Some(ExifDateTime { datetime: dt, offset: Some(o), was_std: false })),
                                None => Err(ImmichDateErrorKind::TimeZone),
                            },
                        },
                    }
                },
            },
        },
    }
}

/// The civil date-time and the named time zone whose offset reading the
/// date needs from the time zone database: when the date reads with a time,
/// no offset but `+00:00`, no annotation, and the time zone is not `UTC±N`.
pub open spec fn zone_query_spec<L>(e: ImmichExif<L>) -> Option<(CivilDateTime, Seq<char>)> {
    match e.date_time_original {
        None => None,
        Some(s) => match temporal_pieces_result(encode_utf8(s@)) {
            None => None,
            Some(p) => match p.time {
                None => None,
                Some(t) => if p.offset matches Some(o) && !is_plus_zero(o) {
                    None
                } else if p.has_time_zone_annotation {
                    None
                } else {
                    match e.time_zone {
                        None => None,
                        Some(tz) => if utc_suffix(tz@) is Some {
                            None
                        } else {
                            Some((CivilDateTime::from_parts_spec(p.date, t), tz@))
                        },
                    }
                },
            },
        },
    }
}

/// The offset a lookup gave, when it gave one.
pub open spec fn lookup_offset(lookup: Result<i32, jiff::Error>) -> Option<i32> {
    match lookup {
        Ok(o) => Some(o),
        Err(_) => None,
    }
}

/// Without a named time zone to look up, reading the date does not depend on
/// what a lookup would give.
pub proof fn lemma_no_query_no_lookup<L>(e: ImmichExif<L>, a: Option<i32>, b: Option<i32>)
    requires
        zone_query_spec(e) is None,
    ensures
        date_time_reading(e, a) == date_time_reading(e, b),
{
}

impl<L> ImmichExif<L> {
    /// What reading the date needs looked up in the time zone database: the
    /// civil date-time and the named time zone, or nothing.
    pub fn zone_query(&self) -> (q: Option<(CivilDateTime, String)>)
        ensures
            match zone_query_spec(*self) {
                Some((dt, tz)) => q matches Some((qd, qt)) && qd == dt && qt@ == tz && qd.wf(),
                None => q is None,
            },
    {
        let dt_text = match &self.date_time_original {
            None => return None,
            Some(s) => s,
        };
        let pieces = match temporal_parse_pieces(dt_text.as_str().as_bytes()) {
            Ok(p) => p,
            Err(_) => return None,
        };
        let time = match pieces.time {
            Some(t) => t,
            None => return None,
        };
        if let Some(offset) = pieces.offset {
            let plus_zero = match offset {
                WrittenOffset::Numeric { seconds, negative } => seconds == 0 && !negative,
                WrittenOffset::Zulu => false,
            };
            if !plus_zero {
                return None;
            }
        }
        if pieces.has_time_zone_annotation {
            return None;
        }
        let tz = match &self.time_zone {
            None => return None,
            Some(tz) => tz,
        };
        if is_utc_signed(tz.as_str()) {
            None
        } else {
            Some((CivilDateTime::from_parts(pieces.date, time), to_owned(tz.as_str())))
        }
    }

    /// Reads the date of Immich, given what looking the named time zone up
    /// gave (used only when `zone_query` asks for a lookup): the civil
    /// date-time is read from the date, which carries no offset but a
    /// meaningless `+00:00`, and the offset comes from the time zone field.
    pub fn date_time_with_zone_offset(&self, lookup: Result<i32, jiff::Error>) -> (r: Result<
        Option<ExifDateTime>,
        ImmichDateError,
    >)
        requires
            !utc_hours_overflow(self.time_zone),
            lookup matches Ok(o) ==> offset_in_range(o as int),
        ensures
            result_kind(r) == date_time_reading(*self, lookup_offset(lookup)),
            r matches Ok(Some(d)) ==> d.wf(),
            r matches Err(ImmichDateError::TimeZone(e)) ==> lookup == Err::<i32, jiff::Error>(e),
    {
        let dt_text = match &self.date_time_original {
            None => {
                assert(result_kind(Ok(None)) == date_time_reading(*self, lookup_offset(lookup)));
                return Ok(None);
            },
            Some(s) => s,
        };
        let pieces = match temporal_parse_pieces(dt_text.as_str().as_bytes()) {
            Ok(p) => p,
            Err(e) => {
                return Err(ImmichDateError::Parse(e));
            },
        };
        let time = match pieces.time {
            Some(t) => t,
            None => {
                return Err(ImmichDateError::MissingTime);
            },
        };
        let dt = CivilDateTime::from_parts(pieces.date, time);
        if let Some(offset) = pieces.offset {
            let plus_zero = match offset {
                WrittenOffset::Numeric { seconds, negative } => seconds == 0 && !negative,
                WrittenOffset::Zulu => false,
            };
            if !plus_zero {
                return Err(ImmichDateError::UnexpectedOffset(offset));
            }
        }
        if pieces.has_time_zone_annotation {
            return Err(ImmichDateError::UnexpectedTimeZone);
        }
        let tz = match &self.time_zone {
            None => {
                return Ok(Some(ExifDateTime::nonstd(dt, None)));
            },
            Some(tz) => tz,
        };
        if is_utc_signed(tz.as_str()) {
            let n = tz.as_str().unicode_len();
            let suffix = tz.as_str().substring_char(3, n);
            assert(suffix@ =~= tz@.skip(3));
            match parse_i32(suffix) {
                None => Err(ImmichDateError::InvalidUtcOffset),
                Some(hours) => {
                    let seconds: i64 = hours as i64 * 3600;
                    if -93599 <= seconds && seconds <= 93599 {
                        match offset_from_seconds(seconds as i32) {
                            Ok(o) => Ok(Some(ExifDateTime::nonstd(dt, Some(o)))),
                            Err(_) => Err(ImmichDateError::OffsetOutOfRange),
                        }
                    } else {
                        Err(ImmichDateError::OffsetOutOfRange)
                    }
                },
            }
        } else {
            match lookup {
                Ok(o) => Ok(Some(ExifDateTime::nonstd(dt, Some(o)))),
                Err(e) => Err(ImmichDateError::TimeZone(e)),
            }
        }
    }

    /// The date of Immich, which is written with a `+00:00` offset that means
    /// nothing: the civil date-time is read from it and the offset comes from
    /// the time zone field (`UTC±N`, or a named zone looked up in the time zone
    /// database). The lookup, made only when `zone_query` asks for one, is
    /// made on exactly the civil date-time and zone name it gives.
    pub fn date_time(&self) -> (r: Result<Option<ExifDateTime>, ImmichDateError>)
        requires
            !utc_hours_overflow(self.time_zone),
        ensures
            zone_query_spec(*self) is None ==> result_kind(r) == date_time_reading(*self, None),
            exists|zone_offset: Option<i32>|
                (zone_offset matches Some(o) ==> offset_in_range(o as int)) && result_kind(r)
                    == date_time_reading(*self, zone_offset),
            r matches Ok(Some(d)) ==> d.wf(),
    {
        let lookup = match self.zone_query() {
            Some((dt, tz)) => offset_in_time_zone(&dt, tz.as_str()),
            None => Ok(0),
        };
        let r = self.date_time_with_zone_offset(lookup);
        proof {
            if zone_query_spec(*self) is None {
                lemma_no_query_no_lookup(*self, lookup_offset(lookup), None);
            }
        }
        r
    }

    /// Whether the time zone is `UTC±N` with a number of hours that fits in
    /// `i32` but overflows it once turned into seconds.
    pub fn utc_offset_overflows(&self) -> (r: bool)
        ensures
            r == utc_hours_overflow(self.time_zone),
    {
        let tz = match &self.time_zone {
            None => return false,
            Some(tz) => tz,
        };
        if !is_utc_signed(tz.as_str()) {
            return false;
        }
        let n = tz.as_str().unicode_len();
        let suffix = tz.as_str().substring_char(3, n);
        assert(suffix@ =~= tz@.skip(3));
        match parse_i32(suffix) {
            None => false,
            Some(hours) => {
                let seconds: i64 = hours as i64 * 3600;
                seconds < -2147483648i64 || seconds > 2147483647i64
            },
        }
    }

    /// The position, when both coordinates are known.
    pub fn gps(&self) -> (r: Option<GPS<L>>)
        where L: Copy,
        ensures
            r is Some <==> self.latitude is Some && self.longitude is Some,
            r matches Some(g) ==> self.latitude == Some(g.latitude) && self.longitude == Some(g.longitude),
    {
        GPS::from_opts(self.latitude, self.longitude)
    }
}

} // verus!
