//! The planner that reads Immich metadata from the pull file.

pub mod datetime;
pub mod exiftool;
pub mod file;

use vstd::prelude::*;
use self::datetime::{format_text, reading_of, rfc9557_fits, same_time, ParsedDateTime};
use self::exiftool::AssetExif;
use self::file::{counted, stats_with, AssetState, FieldState, FixesFile};
use crate::civil::ZonedTime;
use crate::commands::plan::{
    file_name_of, file_name_text, is_jpeg_magic, is_riff_magic, lower_extension, opt_str_view, opt_view,
    to_lowercase,
};
use crate::pull::file::AssetExif as ImmichExif;
use crate::text::{
    ends_with, path_extension, sorted_strings, str_eq, strings_sorted, strip_prefix, to_owned, trimmed,
};

verus! {

/// Arguments of the planner.
pub struct Args {
    /// Path to local photo library
    pub local_path: String,
    /// Path to output from `Pull` step
    pub immich_data: String,
    /// Output file path
    pub output: String,
}

impl Args {
    /// The file name of the pull file, as shown while loading it.
    pub fn immich_data_file_name(&self) -> (r: String)
        ensures
            r@ == file_name_text(self.immich_data@),
    {
        file_name_of(self.immich_data.as_str())
    }
}

/// The state of the date of an asset, given its local text and what both
/// dates read as: the date of Immich wins when there is one; the field is good
/// when the local date was in an EXIF format and equals the winner; otherwise
/// the winner, in EXIF format, is the fix.
pub open spec fn date_state(
    local_text: Option<Seq<char>>,
    local: Option<ParsedDateTime>,
    immich: Option<ParsedDateTime>,
) -> FieldState<Seq<char>> {
    let target = match (local, immich) {
        (_, Some(i)) => Some(i),
        (Some(l), None) => Some(l),
        (None, None) => None,
    };
    match target {
        None => FieldState::Unfixable,
        Some(t) => if local matches Some(l) && l.is_exif && same_time(l, t) {
            FieldState::Good
        } else {
            FieldState::Fixable { is: local_text, fix: format_text(t) }
        },
    }
}

/// What the RFC 9557 reading of an optional text can give: nothing without a
/// text, and a reading that fits the trimmed text with one.
pub open spec fn text_fits(text: Option<Seq<char>>, rfc9557: Option<ZonedTime>) -> bool {
    match text {
        Some(t) => rfc9557_fits(trimmed(t), rfc9557),
        None => rfc9557 is None,
    }
}

/// What a text reads as, given what the RFC 9557 reading of it gave.
pub open spec fn read_text(text: Option<Seq<char>>, rfc9557: Option<ZonedTime>) -> Option<ParsedDateTime> {
    match text {
        Some(t) => reading_of(trimmed(t), rfc9557),
        None => None,
    }
}

/// The state of the date of an asset, given its local text and what the local
/// and the Immich dates read as.
pub fn date_time_state_of(
    local_text: Option<&str>,
    local: Option<ParsedDateTime>,
    immich: Option<ParsedDateTime>,
) -> (r: FieldState<String>)
    requires
        local matches Some(p) ==> p.wf(),
        immich matches Some(p) ==> p.wf(),
    ensures
        r@ == date_state(opt_str_view(local_text), local, immich),
{
    let target = match (&local, &immich) {
        (_, Some(i)) => *i,
        (Some(l), None) => *l,
        (None, None) => return FieldState::Unfixable,
    };
    if let Some(l) = &local {
        if l.is_exif && *l == target {
            return FieldState::Good;
        }
    }
    let is = match local_text {
        Some(s) => Some(to_owned(s)),
        None => None,
    };
    FieldState::Fixable { is, fix: target.format() }
}

impl<L: Copy> AssetExif<L> {
    /// The state of the date of an asset: both dates are read in any supported
    /// format, then compared as `date_time_state_of` says.
    pub fn assess_date_time_state(&self, immich: Option<&str>) -> (r: FieldState<String>)
        ensures
            exists|local_rfc9557: Option<ZonedTime>, immich_rfc9557: Option<ZonedTime>|
                text_fits(opt_view(self.date_time_original), local_rfc9557) && text_fits(
                    opt_str_view(immich),
                    immich_rfc9557,
                ) && r@ == date_state(
                    opt_view(self.date_time_original),
                    read_text(opt_view(self.date_time_original), local_rfc9557),
                    read_text(opt_str_view(immich), immich_rfc9557),
                ),
    {
        let local_text: Option<&str> = match &self.date_time_original {
            Some(s) => Some(s.as_str()),
            None => None,
        };
        let local = match local_text {
            Some(s) => ParsedDateTime::new(s),
            None => None,
        };
        let immich_parsed = match immich {
            Some(s) => ParsedDateTime::new(s),
            None => None,
        };
        let r = date_time_state_of(local_text, local, immich_parsed);
        proof {
            let lr: Option<ZonedTime> = match local_text {
                Some(s) => choose|x: Option<ZonedTime>| #![trigger rfc9557_fits(trimmed(s@), x)] rfc9557_fits(trimmed(s@), x) && local == reading_of(trimmed(s@), x),
                None => None,
            };
            let ir: Option<ZonedTime> = match immich {
                Some(s) => choose|x: Option<ZonedTime>| #![trigger rfc9557_fits(trimmed(s@), x)] rfc9557_fits(trimmed(s@), x) && immich_parsed == reading_of(trimmed(s@), x),
                None => None,
            };
            assert(local == read_text(opt_view(self.date_time_original), lr));
            assert(text_fits(opt_view(self.date_time_original), lr));
            assert(text_fits(opt_str_view(immich), ir));
            assert(immich_parsed == read_text(opt_str_view(immich), ir));
        }
        r
    }

    /// The state of the position of an asset; `near` tells whether the two
    /// positions agree within the tolerance of the coordinates' type.
    pub fn assess_gps_state(&self, immich: Option<(L, L)>, near: bool) -> (r: FieldState<(L, L)>)
        ensures
            r == (match (self.spec_gps(), immich) {
                (None, None) => FieldState::Unfixable,
                (None, Some(imm)) => FieldState::Fixable { is: None, fix: imm },
                (Some(_), None) => FieldState::Good,
                (Some(loc), Some(imm)) => if near {
                    FieldState::Good
                } else {
                    FieldState::Fixable { is: Some(loc), fix: imm }
                },
            }),
    {
        match (self.gps(), immich) {
            (None, None) => FieldState::Unfixable,
            (None, Some(imm)) => FieldState::Fixable { is: None, fix: imm },
            (Some(_), None) => FieldState::Good,
            (Some(loc), Some(imm)) => {
                if near {
                    FieldState::Good
                } else {
                    FieldState::Fixable { is: Some(loc), fix: imm }
                }
            },
        }
    }

    /// The state of the description of an asset.
    pub fn assess_desc_state(&self, immich: Option<&str>) -> (r: FieldState<String>)
        ensures
            r@ == desc_state(opt_view(self.description), opt_str_view(immich)),
    {
        match (&self.description, immich) {
            (None, None) => FieldState::Unfixable,
            (None, Some(imm)) => FieldState::Fixable { is: None, fix: to_owned(imm) },
            (Some(_), None) => FieldState::Good,
            (Some(loc), Some(imm)) => {
                if str_eq(loc.as_str(), imm) {
                    FieldState::Good
                } else {
                    FieldState::Fixable { is: Some(to_owned(loc.as_str())), fix: to_owned(imm) }
                }
            },
        }
    }

    /// The state of the extension of the file, given its first bytes.
    pub fn assess_file_ext_state(&self, magic: &[u8]) -> (r: FieldState<String>)
        requires
            magic@.len() >= 4,
        ensures
            r@ == ext_state(lower_extension(self.source_file@), magic@),
    {
        let ext = match path_extension(self.source_file.as_str()) {
            Some(e) => to_lowercase(e),
            None => String::new(),
        };
        let is_jpeg = magic[0] == 0xFFu8 && magic[1] == 0xD8u8;
        let is_riff = magic[0] == 82u8 && magic[1] == 73u8 && magic[2] == 70u8 && magic[3] == 70u8;
        proof {
            reveal_strlit("png");
            reveal_strlit("heic");
            reveal_strlit("jpg");
            reveal_strlit("webp");
            assert("png"@ =~= seq!['p', 'n', 'g']);
            assert("heic"@ =~= seq!['h', 'e', 'i', 'c']);
            assert("jpg"@ =~= seq!['j', 'p', 'g']);
            assert("webp"@ =~= seq!['w', 'e', 'b', 'p']);
        }
        let is_png = str_eq(ext.as_str(), "png");
        let is_heic = str_eq(ext.as_str(), "heic");
        if (is_png || is_heic) && is_jpeg {
            FieldState::Fixable { is: Some(ext), fix: String::from_str("jpg") }
        } else if is_png && is_riff {
            FieldState::Fixable { is: Some(ext), fix: String::from_str("webp") }
        } else {
            FieldState::Good
        }
    }

    /// The state of every field of a local asset against what the pull file
    /// holds for it; `gps_near` tells whether the two positions agree, `magic`
    /// holds the first bytes of the file.
    pub fn assess_state<V>(&self, immich: Option<&ImmichExif<L, V>>, gps_near: bool, magic: &[u8]) -> (r: AssetState<L>)
        requires
            magic@.len() >= 4,
        ensures
            exists|local_rfc9557: Option<ZonedTime>, immich_rfc9557: Option<ZonedTime>|
                text_fits(opt_view(self.date_time_original), local_rfc9557) && text_fits(
                    immich_date_text(immich),
                    immich_rfc9557,
                ) && r.date_time@ == date_state(
                    opt_view(self.date_time_original),
                    read_text(opt_view(self.date_time_original), local_rfc9557),
                    read_text(immich_date_text(immich), immich_rfc9557),
                ),
            r.gps == self.assess_gps_spec(immich_position(immich), gps_near),
            r.description@ == desc_state(
                opt_view(self.description),
                immich_desc_text(immich),
            ),
            r.file_extension@ == ext_state(lower_extension(self.source_file@), magic@),
    {
        let immich_date: Option<&str> = match immich {
            Some(e) => match &e.date_time_original {
                Some(s) => Some(s.as_str()),
                None => None,
            },
            None => None,
        };
        let immich_desc: Option<&str> = match immich {
            Some(e) => match &e.description {
                Some(s) => Some(s.as_str()),
                None => None,
            },
            None => None,
        };
        let immich_gps = match immich {
            Some(e) => e.gps(),
            None => None,
        };
        AssetState {
            date_time: self.assess_date_time_state(immich_date),
            gps: self.assess_gps_state(immich_gps, gps_near),
            description: self.assess_desc_state(immich_desc),
            file_extension: self.assess_file_ext_state(magic),
        }
    }

    pub open spec fn assess_gps_spec(&self, immich: Option<(L, L)>, near: bool) -> FieldState<(L, L)> {
        match (self.spec_gps(), immich) {
            (None, None) => FieldState::Unfixable,
            (None, Some(imm)) => FieldState::Fixable { is: None, fix: imm },
            (Some(_), None) => FieldState::Good,
            (Some(loc), Some(imm)) => if near {
                FieldState::Good
            } else {
                FieldState::Fixable { is: Some(loc), fix: imm }
            },
        }
    }
}

/// The state of a description: kept when Immich has none or the same one,
/// else filled in or replaced from Immich; unfixable when neither has one.
pub open spec fn desc_state(local: Option<Seq<char>>, immich: Option<Seq<char>>) -> FieldState<Seq<char>> {
    match (local, immich) {
        (None, None) => FieldState::Unfixable,
        (None, Some(imm)) => FieldState::Fixable { is: None, fix: imm },
        (Some(_), None) => FieldState::Good,
        (Some(loc), Some(imm)) => if loc == imm {
            FieldState::Good
        } else {
            FieldState::Fixable { is: Some(loc), fix: imm }
        },
    }
}

/// The date text of the pull file's EXIF for an asset, when there is one.
pub open spec fn immich_date_text<L, V>(immich: Option<&ImmichExif<L, V>>) -> Option<Seq<char>> {
    match immich {
        Some(e) => opt_view(e.date_time_original),
        None => None,
    }
}

/// The description of the pull file's EXIF for an asset, when there is one.
pub open spec fn immich_desc_text<L, V>(immich: Option<&ImmichExif<L, V>>) -> Option<Seq<char>> {
    match immich {
        Some(e) => opt_view(e.description),
        None => None,
    }
}

pub open spec fn immich_position<L: Copy, V>(immich: Option<&ImmichExif<L, V>>) -> Option<(L, L)> {
    match immich {
        Some(e) => e.spec_gps(),
        None => None,
    }
}

/// The state of the extension of a file, given its lower-cased extension and
/// its first bytes.
pub open spec fn ext_state(ext: Seq<char>, magic: Seq<u8>) -> FieldState<Seq<char>> {
    if (ext == seq!['p', 'n', 'g'] || ext == seq!['h', 'e', 'i', 'c']) && is_jpeg_magic(magic) {
        FieldState::Fixable { is: Some(ext), fix: seq!['j', 'p', 'g'] }
    } else if ext == seq!['p', 'n', 'g'] && is_riff_magic(magic) {
        FieldState::Fixable { is: Some(ext), fix: seq!['w', 'e', 'b', 'p'] }
    } else {
        FieldState::Good
    }
}

/// Whether exiftool's record is of a sidecar (`.xmp`) file, which is skipped.
pub fn is_sidecar(source_file: &str) -> (r: bool)
    ensures
        r == seq!['.', 'x', 'm', 'p'].is_suffix_of(source_file@),
{
    proof {
        reveal_strlit(".xmp");
        assert(".xmp"@ =~= seq!['.', 'x', 'm', 'p']);
    }
    ends_with(source_file, ".xmp")
}

impl<L> FixesFile<L> {
    /// Records a local asset with no Immich asset.
    pub fn record_orphan(&mut self, rel_path: String)
        requires
            old(self).summary.total < u32::MAX,
            old(self).summary.orphaned < u32::MAX,
        ensures
            final(self).summary == (file::Summary {
                total: (old(self).summary.total + 1) as u32,
                orphaned: (old(self).summary.orphaned + 1) as u32,
                ..old(self).summary
            }),
            final(self).orphans@ == old(self).orphans@.push(rel_path),
            final(self).assets == old(self).assets,
            old(self).counts_consistent() ==> final(self).counts_consistent(),
    {
        self.summary.total = self.summary.total + 1;
        self.summary.orphaned = self.summary.orphaned + 1;
        self.orphans.push(rel_path);
    }

    /// Records an assessed local asset: its fields are counted, and it is kept
    /// when some field can be fixed.
    pub fn record_assessed(&mut self, rel_path: String, state: AssetState<L>)
        requires
            old(self).wf(),
            old(self).summary.total < u32::MAX,
            counted(old(self).summary.date_time, state.date_time) < u32::MAX,
            counted(old(self).summary.gps, state.gps) < u32::MAX,
            counted(old(self).summary.description, state.description) < u32::MAX,
            counted(old(self).summary.file_extension, state.file_extension) < u32::MAX,
        ensures
            final(self).wf(),
            final(self).summary.total == old(self).summary.total + 1,
            final(self).summary.orphaned == old(self).summary.orphaned,
            final(self).summary.date_time == stats_with(old(self).summary.date_time, state.date_time),
            final(self).summary.gps == stats_with(old(self).summary.gps, state.gps),
            final(self).summary.description == stats_with(old(self).summary.description, state.description),
            final(self).summary.file_extension == stats_with(old(self).summary.file_extension, state.file_extension),
            final(self).assets.view() == if state.spec_has_fixes() {
                old(self).assets.view().insert(rel_path@, state)
            } else {
                old(self).assets.view()
            },
            final(self).orphans == old(self).orphans,
            old(self).counts_consistent() ==> final(self).counts_consistent(),
    {
        self.summary.total = self.summary.total + 1;
        self.summary.add_entry(&state);
        if state.has_fixes() {
            self.assets.insert(rel_path, state);
        }
    }

    /// Puts the orphans in byte-wise order, keeping each of them.
    pub fn sort_orphans(&mut self)
        ensures
            strings_sorted(final(self).orphans@),
            final(self).orphans@.to_multiset() == old(self).orphans@.to_multiset(),
            final(self).summary == old(self).summary,
            final(self).assets == old(self).assets,
            old(self).counts_consistent() ==> final(self).counts_consistent(),
    {
        self.orphans = sorted_strings(&self.orphans);
        proof {
            vstd::seq_lib::to_multiset_len(self.orphans@);
            vstd::seq_lib::to_multiset_len(old(self).orphans@);
        }
    }
}

/// The path of a file relative to the local library, or the whole path when
/// it lies outside.
pub fn relative_path(local_path: &str, source_file: &str) -> (r: String)
    ensures
        local_path@.is_prefix_of(source_file@) ==> r@ == source_file@.skip(local_path@.len() as int),
        !local_path@.is_prefix_of(source_file@) ==> r@ == source_file@,
{
    match strip_prefix(source_file, local_path) {
        Some(rest) => to_owned(rest),
        None => to_owned(source_file),
    }
}

/// The date field is good only when the local date was in an EXIF format and
/// equals the target; it is unfixable only when neither date reads; when the
/// Immich date reads, any fix is that date in EXIF format.
pub proof fn lemma_date_state(
    local_text: Option<Seq<char>>,
    local: Option<ParsedDateTime>,
    immich: Option<ParsedDateTime>,
)
    ensures
        date_state(local_text, local, immich) is Unfixable <==> local is None && immich is None,
        date_state(local_text, local, immich) is Good ==> (local matches Some(l) && l.is_exif),
        immich matches Some(i) ==> (date_state(local_text, local, immich) is Fixable ==> date_state(
            local_text,
            local,
            immich,
        ) == (FieldState::Fixable { is: local_text, fix: format_text(i) })),
        local matches Some(l) ==> (l.is_exif && immich is None ==> date_state(local_text, local, immich) is Good),
{
    if let Some(l) = local {
        crate::plan::datetime::lemma_same_time_equivalence(l, l, l);
    }
}

/// The date field is good only when the local date was read from an EXIF
/// format and is the same moment as the target (Immich's date when there is
/// one, else the local date itself): for zoned readings the same instant
/// (seconds and nanoseconds since the epoch), for unzoned ones the same civil
/// date-time; a zoned and an unzoned reading are never the same. Zoned
/// readings at different instants, whatever their civil times, are fixed
/// with the target's text.
pub proof fn lemma_date_good_only_at_same_moment(
    local_text: Option<Seq<char>>,
    local: Option<ParsedDateTime>,
    immich: Option<ParsedDateTime>,
)
    ensures
        date_state(local_text, local, immich) is Good ==> {
            &&& local matches Some(l)
            &&& l.is_exif
            &&& ({
                let t = match immich {
                    Some(i) => i,
                    None => l,
                };
                match (l.zoned, t.zoned) {
                    (Some(a), Some(b)) => a.timestamp_seconds == b.timestamp_seconds && a.timestamp_nanos
                        == b.timestamp_nanos,
                    (None, None) => l.civil == t.civil,
                    _ => false,
                }
            })
        },
        local matches Some(l) ==> (immich matches Some(i) ==> (l.zoned matches Some(a) ==> (i.zoned matches Some(
            b,
        ) ==> (a.timestamp_seconds != b.timestamp_seconds || a.timestamp_nanos != b.timestamp_nanos
            ==> date_state(local_text, local, immich) == (FieldState::<Seq<char>>::Fixable {
            is: local_text,
            fix: format_text(i),
        }))))),
{
}

/// A file keeps its name unless it is named `png` or `heic` (lower-cased) and
/// starts like a JPEG (`FF D8`), when it should be `jpg`, or is named `png` and
/// starts like a RIFF file, when it should be `webp`; any other name, `jpeg`
/// included, is good whatever the file holds.
pub proof fn lemma_ext_state(ext: Seq<char>, magic: Seq<u8>)
    requires
        magic.len() >= 4,
    ensures
        ext_state(ext, magic) is Fixable ==> ext == seq!['p', 'n', 'g'] || ext == seq!['h', 'e', 'i', 'c'],
        ext != seq!['p', 'n', 'g'] && ext != seq!['h', 'e', 'i', 'c'] ==> ext_state(ext, magic)
            == FieldState::<Seq<char>>::Good,
        (ext == seq!['p', 'n', 'g'] || ext == seq!['h', 'e', 'i', 'c']) && magic[0] == 0xFFu8 && magic[1]
            == 0xD8u8 ==> ext_state(ext, magic) == (FieldState::<Seq<char>>::Fixable {
            is: Some(ext),
            fix: seq!['j', 'p', 'g'],
        }),
        ext == seq!['p', 'n', 'g'] && !(magic[0] == 0xFFu8 && magic[1] == 0xD8u8) && magic[0] == 82u8
            && magic[1] == 73u8 && magic[2] == 70u8 && magic[3] == 70u8 ==> ext_state(ext, magic)
            == (FieldState::<Seq<char>>::Fixable { is: Some(ext), fix: seq!['w', 'e', 'b', 'p'] }),
        !(magic[0] == 0xFFu8 && magic[1] == 0xD8u8) && !(magic[0] == 82u8 && magic[1] == 73u8 && magic[2]
            == 70u8 && magic[3] == 70u8) ==> ext_state(ext, magic) == FieldState::<Seq<char>>::Good,
{
}

/// When both descriptions are there, the field is good exactly when they are
/// the same text, and otherwise Immich's replaces the local one.
pub proof fn lemma_desc_state(local: Seq<char>, immich: Seq<char>)
    ensures
        desc_state(Some(local), Some(immich)) is Good <==> local == immich,
        local != immich ==> desc_state(Some(local), Some(immich)) == (FieldState::<Seq<char>>::Fixable {
            is: Some(local),
            fix: immich,
        }),
        desc_state(Some(local), None) == FieldState::<Seq<char>>::Good,
        desc_state(None, Some(immich)) == (FieldState::<Seq<char>>::Fixable { is: None, fix: immich }),
        desc_state(None, None) == FieldState::<Seq<char>>::Unfixable,
{
}

} // verus!
