//! Planning: how each field of a local asset compares with what Immich holds,
//! and what to do about it.

use vstd::prelude::*;
use crate::exif::datetime::ExifDateTime;
use crate::exif::{AssetExif, GPS};
use crate::civil::{exif_text_with_offset, offset_in_range};
use crate::immich::local::{
    date_time_reading, error_kind, result_kind, utc_hours_overflow, ImmichDateError,
    ImmichDateErrorKind, ImmichExif,
};
use crate::keyed::KeyedList;
use crate::plan_file::{
    counted, stats_with, AssetState, FieldState, FieldStats, File, Fix, Reason, Summary,
};
use crate::text::{
    opt_str_eq, path_extension, path_extension_result, str_eq, strip_prefix, to_owned,
};

verus! {

/// Arguments of the planner.
pub struct Args {
    /// Path to local photo library
    pub local_path: String,
    /// Path to output from `Pull` step
    pub immich_data: String,
    /// Output file path
    pub output: String,
}

/// The file name of a path, empty when it has none.
pub open spec fn file_name_text(path: Seq<char>) -> Seq<char> {
    match crate::text::path_file_name_result(path) {
        Some(n) => n,
        None => Seq::empty(),
    }
}

pub(crate) fn file_name_of(path: &str) -> (r: String)
    ensures
        r@ == file_name_text(path@),
{
    match crate::text::path_file_name(path) {
        Some(n) => to_owned(n),
        None => String::new(),
    }
}

impl Args {
    /// The file name of the pull file, as shown while loading it.
    pub fn immich_data_file_name(&self) -> (r: String)
        ensures
            r@ == file_name_text(self.immich_data@),
    {
        file_name_of(self.immich_data.as_str())
    }

    /// The file name of the plan file, as shown while writing it.
    pub fn output_file_name(&self) -> (r: String)
        ensures
            r@ == file_name_text(self.output@),
    {
        file_name_of(self.output.as_str())
    }
}

/// `EXIF text` + line break: what displaying a date-time writes.
pub open spec fn shown(d: ExifDateTime) -> Seq<char> {
    d.text() + seq!['\n']
}

/// A local date that agrees with Immich: good when it was in an EXIF format,
/// else to be rewritten in one.
pub open spec fn repair_or_good(local: ExifDateTime, old: Seq<char>) -> FieldState<Seq<char>> {
    if local.was_std {
        FieldState::Good
    } else {
        FieldState::Fixable(Fix::Repair { new: shown(local), old })
    }
}

/// The state of a local date when both sides have one.
pub open spec fn date_time_both(local: ExifDateTime, old: Seq<char>, immich: ExifDateTime) -> FieldState<
    Seq<char>,
> {
    let replace = FieldState::Fixable(Fix::ReplaceWithImmich { old, new: immich.text() });
    match (local.offset, immich.offset) {
        (None, None) => if local.datetime == immich.datetime {
            repair_or_good(local, old)
        } else {
            replace
        },
        (None, Some(_)) => replace,
        (Some(_), None) => repair_or_good(local, old),
        (Some(_), Some(_)) => if local.offset == immich.offset && local.datetime == immich.datetime {
            repair_or_good(local, old)
        } else {
            replace
        },
    }
}

/// The state of the date of an asset.
pub open spec fn date_time_state(
    local: Option<(ExifDateTime, Seq<char>)>,
    immich: Option<ExifDateTime>,
) -> FieldState<Seq<char>> {
    match (local, immich) {
        (None, None) => FieldState::Unfixable(Reason::NoSources),
        (None, Some(d)) => FieldState::Fixable(Fix::AddImmich(shown(d))),
        (Some((l, old)), None) => repair_or_good(l, old),
        (Some((l, old)), Some(i)) => date_time_both(l, old, i),
    }
}

pub open spec fn local_view(local: Option<(ExifDateTime, String)>) -> Option<(ExifDateTime, Seq<char>)> {
    match local {
        Some((d, s)) => Some((d, s@)),
        None => None,
    }
}

/// The state of the date of an asset.
pub fn assess_date_time(
    local: Option<(ExifDateTime, String)>,
    immich: Option<ExifDateTime>,
) -> (r: Result<FieldState<String>, jiff::Error>)
    requires
        local matches Some((d, _)) ==> d.wf(),
        immich matches Some(d) ==> d.wf(),
    ensures
        r is Ok,
        r matches Ok(s) ==> s@ == date_time_state(local_view(local), immich),
{
    match (local, immich) {
        (None, None) => Ok(FieldState::Unfixable(Reason::NoSources)),
        (None, Some(dt)) => Ok(FieldState::Fixable(Fix::AddImmich(dt.to_string()))),
        (Some((local, old)), None) => {
            if local.was_std {
                Ok(FieldState::Good)
            } else {
                Ok(FieldState::Fixable(Fix::Repair { new: local.to_string(), old }))
            }
        },
        (Some((local, old)), Some(immich)) => assess_date_time_d(local, old, immich),
    }
}

/// The state of a local date when Immich has one too.
pub fn assess_date_time_d(local: ExifDateTime, old: String, immich: ExifDateTime) -> (r: Result<
    FieldState<String>,
    jiff::Error,
>)
    requires
        local.wf(),
        immich.wf(),
    ensures
        r is Ok,
        r matches Ok(s) ==> s@ == date_time_both(local, old@, immich),
{
    let same = match (local.offset, immich.offset) {
        (None, None) => local.datetime == immich.datetime,
        (None, Some(_)) => false,
        (Some(_), None) => true,
        (Some(a), Some(b)) => a == b && local.datetime == immich.datetime,
    };
    if same {
        if local.was_std {
            Ok(FieldState::Good)
        } else {
            Ok(FieldState::Fixable(Fix::Repair { new: local.to_string(), old }))
        }
    } else {
        let new = immich.fmt_datetime()?;
        Ok(FieldState::Fixable(Fix::ReplaceWithImmich { old, new }))
    }
}

/// The state of a field that Immich can fill in or replace: `same` tells
/// whether the two values agree, and matters only when both are there.
pub open spec fn field_state<T>(local: Option<T>, immich: Option<T>, same: bool) -> FieldState<T> {
    match (local, immich) {
        (None, None) => FieldState::Unfixable(Reason::NoSources),
        (None, Some(i)) => FieldState::Fixable(Fix::AddImmich(i)),
        (Some(_), None) => FieldState::Good,
        (Some(l), Some(i)) => if same {
            FieldState::Good
        } else {
            FieldState::Fixable(Fix::ReplaceWithImmich { old: l, new: i })
        },
    }
}

/// The state of the position of an asset; `same` tells whether the two
/// positions agree (within the tolerance of the coordinates' type).
pub fn assess_gps_state<L>(local: Option<GPS<L>>, immich: Option<GPS<L>>, same: bool) -> (r: FieldState<GPS<L>>)
    ensures
        r == field_state(local, immich, same),
{
    match (local, immich) {
        (None, None) => FieldState::Unfixable(Reason::NoSources),
        (None, Some(imm)) => FieldState::Fixable(Fix::AddImmich(imm)),
        (Some(_), None) => FieldState::Good,
        (Some(loc), Some(imm)) => {
            if same {
                FieldState::Good
            } else {
                FieldState::Fixable(Fix::ReplaceWithImmich { old: loc, new: imm })
            }
        },
    }
}

pub open spec fn opt_view(s: Option<String>) -> Option<Seq<char>> {
    match s {
        Some(v) => Some(v@),
        None => None,
    }
}

pub open spec fn opt_str_view(s: Option<&str>) -> Option<Seq<char>> {
    match s {
        Some(v) => Some(v@),
        None => None,
    }
}

/// The state of the description of an asset.
pub open spec fn description_state(local: Option<Seq<char>>, immich: Option<Seq<char>>) -> FieldState<
    Seq<char>,
> {
    field_state(local, immich, local == immich)
}

/// The state of the description of an asset.
pub fn assess_description_state(local: Option<String>, immich: Option<&str>) -> (r: FieldState<String>)
    ensures
        r@ == description_state(opt_view(local), opt_str_view(immich)),
{
    match (local, immich) {
        (None, None) => FieldState::Unfixable(Reason::NoSources),
        (None, Some(i)) => FieldState::Fixable(Fix::AddImmich(to_owned(i))),
        (Some(_), None) => FieldState::Good,
        (Some(loc), Some(imm)) => {
            if str_eq(loc.as_str(), imm) {
                FieldState::Good
            } else {
                FieldState::Fixable(Fix::ReplaceWithImmich { old: loc, new: to_owned(imm) })
            }
        },
    }
}

/// The leading bytes of a JPEG file.
pub open spec fn is_jpeg_magic(magic: Seq<u8>) -> bool {
    magic[0] == 0xFF && magic[1] == 0xD8
}

/// The leading bytes of a RIFF (WebP) file: `RIFF`.
pub open spec fn is_riff_magic(magic: Seq<u8>) -> bool {
    magic[0] == 82 && magic[1] == 73 && magic[2] == 70 && magic[3] == 70
}

/// The state of the extension of a file, given its lower-cased extension and
/// its leading bytes: a PNG or HEIC name on a JPEG file should be `jpg`, a PNG
/// name on a RIFF file should be `webp`.
pub open spec fn file_ext_state(ext: Seq<char>, magic: Seq<u8>) -> FieldState<Seq<char>> {
    if (ext == seq!['p', 'n', 'g'] || ext == seq!['h', 'e', 'i', 'c']) && is_jpeg_magic(magic) {
        FieldState::Fixable(Fix::Repair { old: ext, new: seq!['j', 'p', 'g'] })
    } else if ext == seq!['p', 'n', 'g'] && is_riff_magic(magic) {
        FieldState::Fixable(Fix::Repair { old: ext, new: seq!['w', 'e', 'b', 'p'] })
    } else {
        FieldState::Good
    }
}

/// What `str::to_lowercase` gives for a string.
pub uninterp spec fn lowercase_result(s: Seq<char>) -> Seq<char>;

/// Calls `str::to_lowercase`; claims only that the result is the named one.
#[verifier::external_body]
pub(crate) fn to_lowercase(s: &str) -> (r: String)
    ensures
        r@ == lowercase_result(s@),
{
    s.to_lowercase()
}

/// The lower-cased extension of a path, empty when it has none.
pub open spec fn lower_extension(path: Seq<char>) -> Seq<char> {
    match path_extension_result(path) {
        Some(e) => lowercase_result(e),
        None => Seq::empty(),
    }
}

/// The state of the extension of a file, given its path and its first bytes.
pub fn assess_file_ext_state(path: &str, magic: &[u8]) -> (r: FieldState<String>)
    requires
        magic@.len() >= 4,
    ensures
        r@ == file_ext_state(lower_extension(path@), magic@),
{
    let ext = match path_extension(path) {
        Some(e) => to_lowercase(e),
        None => String::new(),
    };
    let is_jpeg = magic[0] == 0xFFu8 && magic[1] == 0xD8u8;
    let is_riff = magic[0] == 82u8 && magic[1] == 73u8 && magic[2] == 70u8 && magic[3] == 70u8;
    proof {
        reveal_strlit("png");
        reveal_strlit("heic");
        reveal_strlit("jpg");
        reveal_strlit("webp");
        assert("png"@ =~= seq!['p', 'n', 'g']);
        assert("heic"@ =~= seq!['h', 'e', 'i', 'c']);
        assert("jpg"@ =~= seq!['j', 'p', 'g']);
        assert("webp"@ =~= seq!['w', 'e', 'b', 'p']);
    }
    let is_png = str_eq(ext.as_str(), "png");
    let is_heic = str_eq(ext.as_str(), "heic");
    if (is_png || is_heic) && is_jpeg {
        FieldState::Fixable(Fix::Repair { old: ext, new: String::from_str("jpg") })
    } else if is_png && is_riff {
        FieldState::Fixable(Fix::Repair { old: ext, new: String::from_str("webp") })
    } else {
        FieldState::Good
    }
}

/// A file of the local library is an asset when it has an extension other
/// than `xmp` (sidecar files).
pub open spec fn is_local_asset_path(path: Seq<char>) -> bool {
    path_extension_result(path) matches Some(e) && e != seq!['x', 'm', 'p']
}

/// Whether a file of the local library is an asset to assess.
pub fn is_local_asset(path: &str) -> (r: bool)
    ensures
        r == is_local_asset_path(path@),
{
    proof {
        reveal_strlit("xmp");
        assert("xmp"@ =~= seq!['x', 'm', 'p']);
    }
    match path_extension(path) {
        Some(e) => !str_eq(e, "xmp"),
        None => false,
    }
}

/// Why assessing an asset failed.
pub enum AssessError {
    /// the date of Immich could not be read
    ImmichDate(ImmichDateError),
    /// a date could not be formatted
    Format(jiff::Error),
}

pub open spec fn immich_description<L>(immich: Option<&ImmichExif<L>>) -> Option<Seq<char>> {
    match immich {
        Some(e) => opt_view(e.description),
        None => None,
    }
}

pub open spec fn immich_gps<L>(immich: Option<&ImmichExif<L>>) -> Option<GPS<L>> {
    match immich {
        Some(e) => match (e.latitude, e.longitude) {
            (Some(a), Some(b)) => Some(GPS { latitude: a, longitude: b }),
            _ => None,
        },
        None => None,
    }
}

/// What reading the date of Immich's EXIF for an asset gives (nothing when
/// Immich has no EXIF for it), given the offset of a named time zone.
pub open spec fn immich_date_reading<L>(immich: Option<&ImmichExif<L>>, zone_offset: Option<i32>) -> Result<
    Option<ExifDateTime>,
    ImmichDateErrorKind,
> {
    match immich {
        Some(e) => date_time_reading(*e, zone_offset),
        None => Ok(None),
    }
}

pub open spec fn local_date_wf<L>(local: AssetExif<L>) -> bool {
    local.date_time matches Some((d, _)) ==> d.wf()
}

/// The state of every field of a local asset against what Immich holds for
/// it. `gps_same` tells whether the two positions agree; `magic` holds the
/// first bytes of the file.
pub fn assess_state<L: Copy>(
    local: AssetExif<L>,
    immich: Option<&ImmichExif<L>>,
    gps_same: bool,
    magic: &[u8],
) -> (r: Result<AssetState<L>, AssessError>)
    requires
        local_date_wf(local),
        magic@.len() >= 4,
        immich matches Some(e) ==> !utc_hours_overflow(e.time_zone),
    ensures
        exists|zone_offset: Option<i32>|
            (zone_offset matches Some(o) ==> offset_in_range(o as int)) && match #[trigger] immich_date_reading(
                immich,
                zone_offset,
            ) {
                Ok(d) => r is Ok && r->Ok_0.date_time@ == date_time_state(local_view(local.date_time), d),
                Err(k) => r matches Err(AssessError::ImmichDate(e)) && error_kind(e) == k,
            },
        r matches Ok(s) ==> {
            &&& s.gps == field_state(local.gps, immich_gps(immich), gps_same)
            &&& s.description@ == description_state(
                opt_view(local.description),
                immich_description(immich),
            )
            &&& s.file_extension@ == file_ext_state(lower_extension(local.source_file@), magic@)
        },
        immich is None ==> r is Ok,
{
    let ghost zone_offset: Option<i32>;
    let immich_date = match immich {
        Some(e) => {
            let read = e.date_time();
            proof {
                zone_offset = choose|zo: Option<i32>|
                    (zo matches Some(o) ==> offset_in_range(o as int)) && result_kind(read) == date_time_reading(
                        *e,
                        zo,
                    );
            }
            match read {
                Ok(d) => d,
                Err(err) => {
                    assert(immich_date_reading(immich, zone_offset) == Err::<Option<ExifDateTime>, _>(
                        error_kind(err),
                    ));
                    return Err(AssessError::ImmichDate(err));
                },
            }
        },
        None => {
            proof {
                zone_offset = None;
            }
            None
        },
    };
    assert(immich_date_reading(immich, zone_offset) == Ok::<_, ImmichDateErrorKind>(immich_date));
    let date_time = match assess_date_time(local.date_time, immich_date) {
        Ok(s) => s,
        Err(err) => return Err(AssessError::Format(err)),
    };
    let immich_gps = match immich {
        Some(e) => e.gps(),
        None => None,
    };
    let gps = assess_gps_state(local.gps, immich_gps, gps_same);
    let immich_desc: Option<&str> = match immich {
        Some(e) => match &e.description {
            Some(d) => Some(d.as_str()),
            None => None,
        },
        None => None,
    };
    let description = assess_description_state(local.description, immich_desc);
    let file_extension = assess_file_ext_state(local.source_file.as_str(), magic);
    Ok(AssetState { date_time, gps, description, file_extension })
}

/// The path of a file relative to the local library, or the whole path when
/// it lies outside.
pub fn relative_path(local_path: &str, source_file: &str) -> (r: String)
    ensures
        local_path@.is_prefix_of(source_file@) ==> r@ == source_file@.skip(local_path@.len() as int),
        !local_path@.is_prefix_of(source_file@) ==> r@ == source_file@,
{
    match strip_prefix(source_file, local_path) {
        Some(rest) => to_owned(rest),
        None => to_owned(source_file),
    }
}

/// What one worker found over the assets it processed. `L` is the type of a
/// coordinate.
pub struct WorkerResult<L> {
    pub linked: u32,
    /// assets with something to fix, by relative path
    pub issued: Vec<(String, AssetState<L>)>,
    /// relative paths with no Immich asset
    pub orphaned: Vec<String>,
    pub date_time: FieldStats,
    pub gps: FieldStats,
    pub description: FieldStats,
    pub file_extension: FieldStats,
}

/// Each field of each processed asset is counted once: every field's counters
/// add up to the number of assets, linked or orphaned.
pub open spec fn counts_consistent(linked: int, orphaned: int, stats: Seq<FieldStats>) -> bool {
    forall|i: int| 0 <= i < stats.len() ==> crate::plan_file::stats_total(#[trigger] stats[i]) == linked + orphaned
}

impl<L> WorkerResult<L> {
    pub open spec fn all_stats(&self) -> Seq<FieldStats> {
        seq![self.date_time, self.gps, self.description, self.file_extension]
    }

    pub open spec fn consistent(&self) -> bool {
        counts_consistent(self.linked as int, self.orphaned@.len() as int, self.all_stats())
    }

    /// Nothing processed yet.
    pub fn new() -> (r: Self)
        ensures
            r.linked == 0,
            r.issued@.len() == 0,
            r.orphaned@.len() == 0,
            r.all_stats() == seq![FieldStats::new_spec(), FieldStats::new_spec(), FieldStats::new_spec(), FieldStats::new_spec()],
            r.consistent(),
    {
        WorkerResult {
            linked: 0,
            issued: Vec::new(),
            orphaned: Vec::new(),
            date_time: FieldStats::new(),
            gps: FieldStats::new(),
            description: FieldStats::new(),
            file_extension: FieldStats::new(),
        }
    }

    /// Counts the state of each field of one asset.
    pub fn add_entry(&mut self, entry: &AssetState<L>)
        requires
            counted(old(self).date_time, entry.date_time) < u32::MAX,
            counted(old(self).gps, entry.gps) < u32::MAX,
            counted(old(self).description, entry.description) < u32::MAX,
            counted(old(self).file_extension, entry.file_extension) < u32::MAX,
        ensures
            final(self).date_time == stats_with(old(self).date_time, entry.date_time),
            final(self).gps == stats_with(old(self).gps, entry.gps),
            final(self).description == stats_with(old(self).description, entry.description),
            final(self).file_extension == stats_with(old(self).file_extension, entry.file_extension),
            final(self).linked == old(self).linked,
            final(self).issued == old(self).issued,
            final(self).orphaned == old(self).orphaned,
    {
        self.date_time.add_state(&entry.date_time);
        self.gps.add_state(&entry.gps);
        self.description.add_state(&entry.description);
        self.file_extension.add_state(&entry.file_extension);
    }

    /// Records one processed asset: counted as linked when Immich has it and
    /// as an orphan otherwise, its fields counted, and kept when some field is
    /// not good.
    pub fn record_asset(&mut self, rel_path: String, linked: bool, state: AssetState<L>)
        requires
            linked ==> old(self).linked < u32::MAX,
            counted(old(self).date_time, state.date_time) < u32::MAX,
            counted(old(self).gps, state.gps) < u32::MAX,
            counted(old(self).description, state.description) < u32::MAX,
            counted(old(self).file_extension, state.file_extension) < u32::MAX,
        ensures
            final(self).linked == if linked { old(self).linked + 1 } else { old(self).linked as int },
            final(self).orphaned@ == if linked { old(self).orphaned@ } else { old(self).orphaned@.push(rel_path) },
            final(self).date_time == stats_with(old(self).date_time, state.date_time),
            final(self).gps == stats_with(old(self).gps, state.gps),
            final(self).description == stats_with(old(self).description, state.description),
            final(self).file_extension == stats_with(old(self).file_extension, state.file_extension),
            final(self).issued@ == if state.spec_is_perfect() {
                old(self).issued@
            } else {
                old(self).issued@.push((rel_path, state))
            },
            old(self).consistent() ==> final(self).consistent(),
    {
        if linked {
            self.linked = self.linked + 1;
        } else {
            self.orphaned.push(rel_path.clone());
        }
        self.add_entry(&state);
        if !state.is_perfect() {
            self.issued.push((rel_path, state));
        }
        proof {
            if old(self).consistent() {
                let a = old(self).all_stats();
                let b = self.all_stats();
                assert(crate::plan_file::stats_total(a[0]) == old(self).linked + old(self).orphaned@.len());
                assert(crate::plan_file::stats_total(a[1]) == old(self).linked + old(self).orphaned@.len());
                assert(crate::plan_file::stats_total(a[2]) == old(self).linked + old(self).orphaned@.len());
                assert(crate::plan_file::stats_total(a[3]) == old(self).linked + old(self).orphaned@.len());
                assert(forall|i: int| 0 <= i < 4 ==> crate::plan_file::stats_total(#[trigger] b[i]) == crate::plan_file::stats_total(a[i]) + 1);
            }
        }
    }
}

/// The per-field counters summed.
pub open spec fn stats_sum(a: FieldStats, b: FieldStats) -> FieldStats {
    FieldStats {
        ok: (a.ok + b.ok) as u32,
        fixable: (a.fixable + b.fixable) as u32,
        unfixable: (a.unfixable + b.unfixable) as u32,
    }
}

pub open spec fn stats_fit(a: FieldStats, b: FieldStats) -> bool {
    &&& a.ok + b.ok <= u32::MAX
    &&& a.fixable + b.fixable <= u32::MAX
    &&& a.unfixable + b.unfixable <= u32::MAX
}

fn add_stats(stats: &mut FieldStats, rhs: FieldStats)
    requires
        stats_fit(*old(stats), rhs),
    ensures
        *final(stats) == stats_sum(*old(stats), rhs),
{
    stats.add_stats(rhs);
}

impl Summary {
    pub open spec fn all_stats(&self) -> Seq<FieldStats> {
        seq![self.date_time, self.gps, self.description, self.file_extension]
    }

    /// Adds what a worker found.
    pub fn add_result<L>(&mut self, res: &WorkerResult<L>)
        requires
            old(self).linked + res.linked + old(self).orphaned + res.orphaned@.len() <= u32::MAX,
            stats_fit(old(self).date_time, res.date_time),
            stats_fit(old(self).gps, res.gps),
            stats_fit(old(self).description, res.description),
            stats_fit(old(self).file_extension, res.file_extension),
        ensures
            final(self).linked == old(self).linked + res.linked,
            final(self).orphaned == old(self).orphaned + res.orphaned@.len(),
            final(self).total == final(self).linked + final(self).orphaned,
            final(self).date_time == stats_sum(old(self).date_time, res.date_time),
            final(self).gps == stats_sum(old(self).gps, res.gps),
            final(self).description == stats_sum(old(self).description, res.description),
            final(self).file_extension == stats_sum(old(self).file_extension, res.file_extension),
            counts_consistent(old(self).linked as int, old(self).orphaned as int, old(self).all_stats())
                && res.consistent() ==> counts_consistent(
                final(self).linked as int,
                final(self).orphaned as int,
                final(self).all_stats(),
            ),
    {
        self.linked = self.linked + res.linked;
        self.orphaned = self.orphaned + res.orphaned.len() as u32;
        self.total = self.linked + self.orphaned;
        add_stats(&mut self.date_time, res.date_time);
        add_stats(&mut self.gps, res.gps);
        add_stats(&mut self.description, res.description);
        add_stats(&mut self.file_extension, res.file_extension);
        proof {
            let a = old(self).all_stats();
            let r = res.all_stats();
            let b = self.all_stats();
            assert(forall|i: int| 0 <= i < 4 ==> crate::plan_file::stats_total(#[trigger] b[i])
                == crate::plan_file::stats_total(a[i]) + crate::plan_file::stats_total(r[i]));
        }
    }
}

/// The map after inserting the entries in order.
pub open spec fn inserted_all<V>(m: Map<Seq<char>, V>, entries: Seq<(String, V)>) -> Map<Seq<char>, V>
    decreases entries.len(),
{
    if entries.len() == 0 {
        m
    } else {
        inserted_all(m.insert(entries[0].0@, entries[0].1), entries.drop_first())
    }
}

proof fn lemma_inserted_all_push<V>(m: Map<Seq<char>, V>, entries: Seq<(String, V)>, e: (String, V))
    ensures
        inserted_all(m, entries.push(e)) == inserted_all(m, entries).insert(e.0@, e.1),
    decreases entries.len(),
{
    if entries.len() == 0 {
        assert(entries.push(e).drop_first() =~= Seq::<(String, V)>::empty());
        assert(entries.push(e)[0] == e);
        assert(inserted_all(m.insert(e.0@, e.1), Seq::<(String, V)>::empty()) == m.insert(e.0@, e.1));
    } else {
        assert(entries.push(e).drop_first() =~= entries.drop_first().push(e));
        assert(entries.push(e)[0] == entries[0]);
        lemma_inserted_all_push(m.insert(entries[0].0@, entries[0].1), entries.drop_first(), e);
    }
}

/// The orphans as keys of a set.
pub open spec fn orphan_entries(orphans: Seq<String>) -> Seq<(String, ())> {
    orphans.map_values(|s: String| (s, ()))
}

impl<L> File<L> {
    /// Adds what a worker found: its counts, its assets with something to fix,
    /// and its orphans.
    pub fn add_result(&mut self, res: WorkerResult<L>)
        requires
            old(self).wf(),
            old(self).summary.linked + res.linked + old(self).summary.orphaned + res.orphaned@.len() <= u32::MAX,
            stats_fit(old(self).summary.date_time, res.date_time),
            stats_fit(old(self).summary.gps, res.gps),
            stats_fit(old(self).summary.description, res.description),
            stats_fit(old(self).summary.file_extension, res.file_extension),
        ensures
            final(self).wf(),
            final(self).summary.linked == old(self).summary.linked + res.linked,
            final(self).summary.orphaned == old(self).summary.orphaned + res.orphaned@.len(),
            final(self).summary.total == final(self).summary.linked + final(self).summary.orphaned,
            final(self).assets.view() == inserted_all(old(self).assets.view(), res.issued@),
            final(self).orphans.view() == inserted_all(old(self).orphans.view(), orphan_entries(res.orphaned@)),
            counts_consistent(
                old(self).summary.linked as int,
                old(self).summary.orphaned as int,
                old(self).summary.all_stats(),
            ) && res.consistent() ==> counts_consistent(
                final(self).summary.linked as int,
                final(self).summary.orphaned as int,
                final(self).summary.all_stats(),
            ),
    {
        self.summary.add_result(&res);
        let ghost summary = self.summary;
        let WorkerResult { issued, orphaned, .. } = res;
        let ghost start = self.assets.view();
        let mut i: usize = 0;
        let n = issued.len();
        let mut issued = issued;
        let ghost all = issued@;
        let mut rest: Vec<(String, AssetState<L>)> = Vec::new();
        // entries are moved out from the back, so walk them in reverse into `rest`
        while issued.len() > 0
            invariant
                issued@.len() + rest@.len() == all.len(),
                forall|j: int| 0 <= j < issued@.len() ==> issued@[j] == all[j],
                forall|j: int| 0 <= j < rest@.len() ==> rest@[j] == all[all.len() - 1 - j],
            decreases issued@.len(),
        {
            let e = issued.pop().unwrap();
            rest.push(e);
        }
        while rest.len() > 0
            invariant
                self.assets.wf(),
                self.orphans.wf(),
                self.summary == summary,
                self.orphans.view() == old(self).orphans.view(),
                rest@.len() <= all.len(),
                forall|j: int| 0 <= j < rest@.len() ==> rest@[j] == all[all.len() - 1 - j],
                self.assets.view() == inserted_all(start, all.take(all.len() - rest@.len())),
            decreases rest@.len(),
        {
            let ghost k = all.len() - rest@.len();
            let (key, value) = rest.pop().unwrap();
            proof {
                assert(all.take(k + 1) =~= all.take(k).push(all[k]));
                lemma_inserted_all_push(start, all.take(k), all[k]);
            }
            self.assets.insert(key, value);
        }
        proof {
            assert(all.take(all.len() as int) =~= all);
        }
        let ghost ostart = self.orphans.view();
        assert(ostart == old(self).orphans.view());
        let ghost oall = orphan_entries(orphaned@);
        let mut j: usize = 0;
        while j < orphaned.len()
            invariant
                self.orphans.wf(),
                self.assets.wf(),
                self.summary == summary,
                self.assets.view() == inserted_all(start, all),
                0 <= j <= orphaned@.len(),
                oall == orphan_entries(orphaned@),
                self.orphans.view() == inserted_all(ostart, oall.take(j as int)),
            decreases orphaned@.len() - j,
        {
            proof {
                assert(oall.take(j + 1) =~= oall.take(j as int).push(oall[j as int]));
                lemma_inserted_all_push(ostart, oall.take(j as int), oall[j as int]);
            }
            self.orphans.insert(orphaned[j].clone(), ());
            j = j + 1;
        }
        proof {
            assert(oall.take(orphaned@.len() as int) =~= oall);
        }
    }
}

/// The date field is unfixable exactly when neither side has a date; it is
/// good only for a local date written in an EXIF format; a date only Immich
/// has is added; and a local EXIF date that agrees with Immich's (same civil
/// time, same offset or none on both sides) is good.
pub proof fn lemma_date_time_state(local: Option<(ExifDateTime, Seq<char>)>, immich: Option<ExifDateTime>)
    ensures
        date_time_state(local, immich) is Unfixable <==> local is None && immich is None,
        date_time_state(local, immich) is Good ==> (local matches Some((d, _)) && d.was_std),
        immich matches Some(d) ==> (local is None ==> date_time_state(local, immich) == FieldState::<Seq<char>>::Fixable(
            Fix::AddImmich(shown(d)),
        )),
        local matches Some((l, _)) ==> (immich matches Some(i) ==> (l.was_std && l.offset == i.offset
            && l.datetime == i.datetime ==> date_time_state(local, immich) is Good)),
{
}

/// A field is unfixable exactly when neither side has a value, and good
/// exactly when the local value is there and Immich has none or the same.
pub proof fn lemma_field_state<T>(local: Option<T>, immich: Option<T>, same: bool)
    ensures
        field_state(local, immich, same) is Unfixable <==> local is None && immich is None,
        field_state(local, immich, same) is Good <==> local is Some && (immich is None || same),
        field_state(local, immich, same) is Fixable ==> immich is Some,
{
}

/// When both dates are there, the local one is kept only if it was written in
/// an EXIF format and names the same civil date-time with the same offset (or
/// neither side has an offset, or only the local one has); otherwise it is
/// replaced by Immich's date in EXIF format, or rewritten in EXIF format when
/// it agrees but was written otherwise.
pub proof fn lemma_both_dates(local: ExifDateTime, old: Seq<char>, immich: ExifDateTime)
    ensures
        local.offset is Some && immich.offset is Some && (local.offset != immich.offset || local.datetime
            != immich.datetime) ==> date_time_both(local, old, immich) == FieldState::<Seq<char>>::Fixable(
            Fix::ReplaceWithImmich { old, new: exif_text_with_offset(immich.datetime, immich.offset) },
        ),
        local.offset is None && immich.offset is Some ==> date_time_both(local, old, immich)
            == FieldState::<Seq<char>>::Fixable(
            Fix::ReplaceWithImmich { old, new: exif_text_with_offset(immich.datetime, immich.offset) },
        ),
        local.offset is None && immich.offset is None && local.datetime != immich.datetime ==> date_time_both(
            local,
            old,
            immich,
        ) == FieldState::<Seq<char>>::Fixable(
            Fix::ReplaceWithImmich { old, new: exif_text_with_offset(immich.datetime, None) },
        ),
        date_time_both(local, old, immich) is Good <==> local.was_std && match (local.offset, immich.offset) {
            (Some(a), Some(b)) => a == b && local.datetime == immich.datetime,
            (None, Some(_)) => false,
            (Some(_), None) => true,
            (None, None) => local.datetime == immich.datetime,
        },
        date_time_both(local, old, immich) matches FieldState::Fixable(Fix::Repair { new, old: o }) ==> {
            &&& !local.was_std
            &&& o == old
            &&& new == exif_text_with_offset(local.datetime, local.offset) + seq!['\n']
        },
{
}

/// A file keeps its name unless it is named `png` or `heic` (lower-cased) and
/// starts like a JPEG (`FF D8`), when it should be `jpg`, or is named `png` and
/// starts like a RIFF file (`RIFF`), when it should be `webp`. Every other
/// name, `jpeg` and `jpg` included, is good whatever the file holds.
pub proof fn lemma_file_ext_state(ext: Seq<char>, magic: Seq<u8>)
    requires
        magic.len() >= 4,
    ensures
        file_ext_state(ext, magic) is Fixable ==> ext == seq!['p', 'n', 'g'] || ext == seq!['h', 'e', 'i', 'c'],
        ext != seq!['p', 'n', 'g'] && ext != seq!['h', 'e', 'i', 'c'] ==> file_ext_state(ext, magic)
            == FieldState::<Seq<char>>::Good,
        (ext == seq!['p', 'n', 'g'] || ext == seq!['h', 'e', 'i', 'c']) && magic[0] == 0xFFu8 && magic[1]
            == 0xD8u8 ==> file_ext_state(ext, magic) == FieldState::<Seq<char>>::Fixable(
            Fix::Repair { old: ext, new: seq!['j', 'p', 'g'] },
        ),
        ext == seq!['p', 'n', 'g'] && !(magic[0] == 0xFFu8 && magic[1] == 0xD8u8) && magic[0] == 82u8
            && magic[1] == 73u8 && magic[2] == 70u8 && magic[3] == 70u8 ==> file_ext_state(ext, magic)
            == FieldState::<Seq<char>>::Fixable(Fix::Repair { old: ext, new: seq!['w', 'e', 'b', 'p'] }),
        ext == seq!['h', 'e', 'i', 'c'] && !(magic[0] == 0xFFu8 && magic[1] == 0xD8u8) ==> file_ext_state(
            ext,
            magic,
        ) == FieldState::<Seq<char>>::Good,
        !(magic[0] == 0xFFu8 && magic[1] == 0xD8u8) && !(magic[0] == 82u8 && magic[1] == 73u8 && magic[2]
            == 70u8 && magic[3] == 70u8) ==> file_ext_state(ext, magic) == FieldState::<Seq<char>>::Good,
{
}

/// When both descriptions are there, the field is good exactly when they are
/// the same text, and otherwise the local one is replaced by Immich's.
pub proof fn lemma_both_descriptions(local: Seq<char>, immich: Seq<char>)
    ensures
        description_state(Some(local), Some(immich)) is Good <==> local == immich,
        local != immich ==> description_state(Some(local), Some(immich)) == FieldState::<Seq<char>>::Fixable(
            Fix::ReplaceWithImmich { old: local, new: immich },
        ),
        description_state(Some(local), None) == FieldState::<Seq<char>>::Good,
        description_state(None, Some(immich)) == FieldState::<Seq<char>>::Fixable(Fix::AddImmich(immich)),
        description_state(None, None) == FieldState::<Seq<char>>::Unfixable(Reason::NoSources),
{
}

} // verus!
