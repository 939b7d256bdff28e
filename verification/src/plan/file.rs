//! The fixes file: for each local asset with something to fix, the state of
//! each field, with counts over all assets.

use vstd::prelude::*;
use crate::keyed::KeyedList;

verus! {

/// The fixes file. `L` is the type of a coordinate.
pub struct FixesFile<L> {
    pub summary: Summary,
    /// keyed by path relative to the local library
    pub assets: KeyedList<AssetState<L>>,
    pub orphans: Vec<String>,
}

#[derive(Clone, Copy, Debug)]
pub struct Summary {
    pub total: u32,
    pub orphaned: u32,
    pub date_time: FieldStats,
    pub gps: FieldStats,
    pub description: FieldStats,
    pub file_extension: FieldStats,
}

#[derive(Clone, Copy, Debug, PartialEq, Eq, Structural)]
pub struct FieldStats {
    pub ok: u32,
    pub fixable: u32,
    pub unfixable: u32,
}

/// The state of each field of one asset. `L` is the type of a coordinate.
pub struct AssetState<L> {
    pub date_time: FieldState<String>,
    pub gps: FieldState<(L, L)>,
    pub description: FieldState<String>,
    pub file_extension: FieldState<String>,
}

#[derive(Clone, Copy, Debug, PartialEq)]
pub enum FieldState<T> {
    /// Both sides agree (written `ok` in the file)
    Good,
    /// Neither side has data
    Unfixable,
    /// Local copy is dirty, missing, or badly formatted
    Fixable { is: Option<T>, fix: T },
}

impl<T: View> View for FieldState<T> {
    type V = FieldState<T::V>;

    open spec fn view(&self) -> FieldState<T::V> {
        match self {
            FieldState::Good => FieldState::Good,
            FieldState::Unfixable => FieldState::Unfixable,
            FieldState::Fixable { is, fix } => FieldState::Fixable {
                is: match is {
                    Some(v) => Some(v@),
                    None => None,
                },
                fix: fix@,
            },
        }
    }
}

impl<L> AssetState<L> {
    pub open spec fn spec_has_fixes(&self) -> bool {
        ||| self.date_time is Fixable
        ||| self.gps is Fixable
        ||| self.description is Fixable
        ||| self.file_extension is Fixable
    }

    /// Whether some field can be fixed.
    pub fn has_fixes(&self) -> (r: bool)
        ensures
            r == self.spec_has_fixes(),
    {
        matches!(self.date_time, FieldState::Fixable { .. }) || matches!(self.gps, FieldState::Fixable { .. })
            || matches!(self.description, FieldState::Fixable { .. }) || matches!(
            self.file_extension,
            FieldState::Fixable { .. }
        )
    }
}

/// The counter that a field state adds to.
pub open spec fn counted<T>(stats: FieldStats, state: FieldState<T>) -> int {
    match state {
        FieldState::Good => stats.ok as int,
        FieldState::Fixable { .. } => stats.fixable as int,
        FieldState::Unfixable => stats.unfixable as int,
    }
}

/// The stats with one more field in the given state.
pub open spec fn stats_with<T>(stats: FieldStats, state: FieldState<T>) -> FieldStats {
    match state {
        FieldState::Good => FieldStats { ok: (stats.ok + 1) as u32, ..stats },
        FieldState::Fixable { .. } => FieldStats { fixable: (stats.fixable + 1) as u32, ..stats },
        FieldState::Unfixable => FieldStats { unfixable: (stats.unfixable + 1) as u32, ..stats },
    }
}

pub open spec fn stats_total(stats: FieldStats) -> int {
    stats.ok + stats.fixable + stats.unfixable
}

impl FieldStats {
    pub open spec fn zero() -> FieldStats {
        FieldStats { ok: 0, fixable: 0, unfixable: 0 }
    }

    /// No field counted yet.
    pub fn new() -> (r: Self)
        ensures
            r == FieldStats::zero(),
    {
        FieldStats { ok: 0, fixable: 0, unfixable: 0 }
    }

    /// Counts one more field in the given state.
    pub fn add_entry<T>(&mut self, entry: &FieldState<T>)
        requires
            counted(*old(self), *entry) < u32::MAX,
        ensures
            *final(self) == stats_with(*old(self), *entry),
            stats_total(*final(self)) == stats_total(*old(self)) + 1,
    {
        match entry {
            FieldState::Good => self.ok = self.ok + 1,
            FieldState::Fixable { .. } => self.fixable = self.fixable + 1,
            FieldState::Unfixable => self.unfixable = self.unfixable + 1,
        }
    }
}

impl Summary {
    /// Nothing counted yet.
    pub fn new() -> (r: Self)
        ensures
            r.total == 0 && r.orphaned == 0,
            r.date_time == FieldStats::zero() && r.gps == FieldStats::zero(),
            r.description == FieldStats::zero() && r.file_extension == FieldStats::zero(),
    {
        Summary {
            total: 0,
            orphaned: 0,
            date_time: FieldStats::new(),
            gps: FieldStats::new(),
            description: FieldStats::new(),
            file_extension: FieldStats::new(),
        }
    }

    /// Counts the state of each field of one asset.
    pub fn add_entry<L>(&mut self, entry: &AssetState<L>)
        requires
            counted(old(self).date_time, entry.date_time) < u32::MAX,
            counted(old(self).gps, entry.gps) < u32::MAX,
            counted(old(self).description, entry.description) < u32::MAX,
            counted(old(self).file_extension, entry.file_extension) < u32::MAX,
        ensures
            final(self).date_time == stats_with(old(self).date_time, entry.date_time),
            final(self).gps == stats_with(old(self).gps, entry.gps),
            final(self).description == stats_with(old(self).description, entry.description),
            final(self).file_extension == stats_with(old(self).file_extension, entry.file_extension),
            final(self).total == old(self).total,
            final(self).orphaned == old(self).orphaned,
    {
        self.date_time.add_entry(&entry.date_time);
        self.gps.add_entry(&entry.gps);
        self.description.add_entry(&entry.description);
        self.file_extension.add_entry(&entry.file_extension);
    }
}

impl Summary {
    /// Each field of each assessed asset is counted once: every field's
    /// counters add up to the assets that are not orphans.
    pub open spec fn consistent(&self) -> bool {
        &&& stats_total(self.date_time) + self.orphaned == self.total
        &&& stats_total(self.gps) + self.orphaned == self.total
        &&& stats_total(self.description) + self.orphaned == self.total
        &&& stats_total(self.file_extension) + self.orphaned == self.total
    }
}

impl<L> FixesFile<L> {
    pub open spec fn wf(&self) -> bool {
        self.assets.wf()
    }

    /// The counts agree with each other and with the list of orphans.
    pub open spec fn counts_consistent(&self) -> bool {
        &&& self.summary.consistent()
        &&& self.summary.orphaned == self.orphans@.len()
    }

    /// An empty fixes file.
    pub fn new() -> (r: Self)
        ensures
            r.wf(),
            r.summary.total == 0 && r.summary.orphaned == 0,
            r.assets.view() == Map::<Seq<char>, AssetState<L>>::empty(),
            r.orphans@.len() == 0,
            r.counts_consistent(),
    {
        FixesFile { summary: Summary::new(), assets: KeyedList::new(), orphans: Vec::new() }
    }
}

} // verus!
