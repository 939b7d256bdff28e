//! The plan: for each local asset with something to fix, the state of each
//! field, with counts over all assets.

use vstd::prelude::*;
use crate::exif::GPS;
use crate::keyed::KeyedList;

verus! {

/// The plan file. `L` is the type of a coordinate.
pub struct File<L> {
    pub summary: Summary,
    /// keyed by path relative to the local library
    pub assets: KeyedList<AssetState<L>>,
    /// paths relative to the local library with no Immich asset
    pub orphans: KeyedList<()>,
}

#[derive(Clone, Copy, Debug)]
pub struct Summary {
    /// # assets local
    pub total: u32,
    /// # assets local & immich
    pub linked: u32,
    /// # assets only local
    pub orphaned: u32,
    pub date_time: FieldStats,
    pub gps: FieldStats,
    pub description: FieldStats,
    pub file_extension: FieldStats,
}

#[derive(Clone, Copy, Debug, PartialEq, Eq, Structural)]
pub struct FieldStats {
    pub ok: u32,
    pub fixable: u32,
    pub unfixable: u32,
}

/// The state of each field of one asset. `L` is the type of a coordinate.
pub struct AssetState<L> {
    pub date_time: FieldState<String>,
    pub gps: FieldState<GPS<L>>,
    pub description: FieldState<String>,
    pub file_extension: FieldState<String>,
}

#[derive(Clone, Debug, PartialEq)]
pub enum FieldState<T> {
    Good,
    Unfixable(Reason<T>),
    Fixable(Fix<T>),
}

#[derive(Clone, Debug, PartialEq)]
pub enum Fix<T> {
    AddImmich(T),
    ReplaceWithImmich { old: T, new: T },
    Repair { old: T, new: T },
}

#[derive(Clone, Debug, PartialEq)]
pub enum Reason<T> {
    NoSources,
    Incomplete(T),
    Corrupted(T),
}

impl<T: View> View for Fix<T> {
    type V = Fix<T::V>;

    open spec fn view(&self) -> Fix<T::V> {
        match self {
            Fix::AddImmich(v) => Fix::AddImmich(v@),
            Fix::ReplaceWithImmich { old, new } => Fix::ReplaceWithImmich { old: old@, new: new@ },
            Fix::Repair { old, new } => Fix::Repair { old: old@, new: new@ },
        }
    }
}

impl<T: View> View for Reason<T> {
    type V = Reason<T::V>;

    open spec fn view(&self) -> Reason<T::V> {
        match self {
            Reason::NoSources => Reason::NoSources,
            Reason::Incomplete(v) => Reason::Incomplete(v@),
            Reason::Corrupted(v) => Reason::Corrupted(v@),
        }
    }
}

impl<T: View> View for FieldState<T> {
    type V = FieldState<T::V>;

    open spec fn view(&self) -> FieldState<T::V> {
        match self {
            FieldState::Good => FieldState::Good,
            FieldState::Unfixable(r) => FieldState::Unfixable(r@),
            FieldState::Fixable(f) => FieldState::Fixable(f@),
        }
    }
}

impl<L> AssetState<L> {
    /// Every field is good.
    pub open spec fn spec_is_perfect(&self) -> bool {
        &&& self.date_time is Good
        &&& self.gps is Good
        &&& self.description is Good
        &&& self.file_extension is Good
    }

    /// Whether every field is good.
    pub fn is_perfect(&self) -> (r: bool)
        ensures
            r == self.spec_is_perfect(),
    {
        matches!(self.date_time, FieldState::Good) && matches!(self.gps, FieldState::Good)
            && matches!(self.description, FieldState::Good) && matches!(
            self.file_extension,
            FieldState::Good
        )
    }
}

/// The counter of a field's stats that a field state adds to.
pub open spec fn counted<T>(stats: FieldStats, state: FieldState<T>) -> int {
    match state {
        FieldState::Good => stats.ok as int,
        FieldState::Fixable(_) => stats.fixable as int,
        FieldState::Unfixable(_) => stats.unfixable as int,
    }
}

/// The stats with one more field in the given state.
pub open spec fn stats_with<T>(stats: FieldStats, state: FieldState<T>) -> FieldStats {
    match state {
        FieldState::Good => FieldStats { ok: (stats.ok + 1) as u32, ..stats },
        FieldState::Fixable(_) => FieldStats { fixable: (stats.fixable + 1) as u32, ..stats },
        FieldState::Unfixable(_) => FieldStats { unfixable: (stats.unfixable + 1) as u32, ..stats },
    }
}

/// The total over the three counters.
pub open spec fn stats_total(stats: FieldStats) -> int {
    stats.ok + stats.fixable + stats.unfixable
}

impl FieldStats {
    /// No field counted yet.
    pub fn new() -> (r: Self)
        ensures
            r == (FieldStats { ok: 0, fixable: 0, unfixable: 0 }),
    {
        FieldStats { ok: 0, fixable: 0, unfixable: 0 }
    }

    /// Counts one more field in the given state.
    pub fn add_state<T>(&mut self, state: &FieldState<T>)
        requires
            counted(*old(self), *state) < u32::MAX,
        ensures
            *final(self) == stats_with(*old(self), *state),
            stats_total(*final(self)) == stats_total(*old(self)) + 1,
    {
        match state {
            FieldState::Good => self.ok = self.ok + 1,
            FieldState::Fixable(_) => self.fixable = self.fixable + 1,
            FieldState::Unfixable(_) => self.unfixable = self.unfixable + 1,
        }
    }

    /// Adds the counters of other stats.
    pub fn add_stats(&mut self, rhs: FieldStats)
        requires
            old(self).ok + rhs.ok <= u32::MAX,
            old(self).fixable + rhs.fixable <= u32::MAX,
            old(self).unfixable + rhs.unfixable <= u32::MAX,
        ensures
            final(self).ok == old(self).ok + rhs.ok,
            final(self).fixable == old(self).fixable + rhs.fixable,
            final(self).unfixable == old(self).unfixable + rhs.unfixable,
    {
        self.ok = self.ok + rhs.ok;
        self.fixable = self.fixable + rhs.fixable;
        self.unfixable = self.unfixable + rhs.unfixable;
    }
}

impl Summary {
    /// Nothing counted yet.
    pub fn new() -> (r: Self)
        ensures
            r.total == 0 && r.linked == 0 && r.orphaned == 0,
            r.date_time == FieldStats::new_spec(),
            r.gps == FieldStats::new_spec(),
            r.description == FieldStats::new_spec(),
            r.file_extension == FieldStats::new_spec(),
    {
        Summary {
            total: 0,
            linked: 0,
            orphaned: 0,
            date_time: FieldStats::new(),
            gps: FieldStats::new(),
            description: FieldStats::new(),
            file_extension: FieldStats::new(),
        }
    }
}

/// The rows of the summary table: each field's name with its counts.
pub open spec fn summary_rows_spec(s: Summary) -> Seq<(Seq<char>, FieldStats)> {
    seq![
        (seq!['D', 'a', 't', 'e', ' ', 'T', 'i', 'm', 'e'], s.date_time),
        (seq!['G', 'P', 'S'], s.gps),
        (seq!['D', 'e', 's', 'c', 'r', 'i', 'p', 't', 'i', 'o', 'n'], s.description),
        (seq!['F', 'i', 'l', 'e', ' ', 'E', 'x', 't', 'e', 'n', 's', 'i', 'o', 'n'], s.file_extension),
    ]
}

impl Summary {
    /// The rows of the summary table, in order: date and time, GPS,
    /// description, file extension.
    pub fn table_rows(&self) -> (r: Vec<(String, FieldStats)>)
        ensures
            r@.map_values(|row: (String, FieldStats)| (row.0@, row.1)) == summary_rows_spec(*self),
    {
        proof {
            reveal_strlit("Date Time");
            reveal_strlit("GPS");
            reveal_strlit("Description");
            reveal_strlit("File Extension");
        }
        let mut rows: Vec<(String, FieldStats)> = Vec::new();
        rows.push((String::from_str("Date Time"), self.date_time));
        rows.push((String::from_str("GPS"), self.gps));
        rows.push((String::from_str("Description"), self.description));
        rows.push((String::from_str("File Extension"), self.file_extension));
        proof {
            assert("Date Time"@ =~= seq!['D', 'a', 't', 'e', ' ', 'T', 'i', 'm', 'e']);
            assert("GPS"@ =~= seq!['G', 'P', 'S']);
            assert("Description"@ =~= seq!['D', 'e', 's', 'c', 'r', 'i', 'p', 't', 'i', 'o', 'n']);
            assert("File Extension"@ =~= seq!['F', 'i', 'l', 'e', ' ', 'E', 'x', 't', 'e', 'n', 's', 'i', 'o', 'n']);
            assert(rows@.map_values(|row: (String, FieldStats)| (row.0@, row.1)) =~= summary_rows_spec(*self));
        }
        rows
    }
}

impl FieldStats {
    pub open spec fn new_spec() -> FieldStats {
        FieldStats { ok: 0, fixable: 0, unfixable: 0 }
    }
}

impl<L> File<L> {
    pub open spec fn wf(&self) -> bool {
        &&& self.assets.wf()
        &&& self.orphans.wf()
    }

    /// An empty plan.
    pub fn new() -> (r: Self)
        ensures
            r.wf(),
            r.summary.total == 0 && r.summary.linked == 0 && r.summary.orphaned == 0,
            r.summary.date_time == FieldStats::new_spec() && r.summary.gps == FieldStats::new_spec(),
            r.summary.description == FieldStats::new_spec() && r.summary.file_extension == FieldStats::new_spec(),
            r.assets.view() == Map::<Seq<char>, AssetState<L>>::empty(),
            r.orphans.view() == Map::<Seq<char>, ()>::empty(),
    {
        File { summary: Summary::new(), assets: KeyedList::new(), orphans: KeyedList::new() }
    }
}

} // verus!
