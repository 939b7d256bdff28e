//! Albums as the Immich API returns them, as untyped JSON: the puller keeps
//! only the ids of an album's assets and adds the album's activities to it.

use vstd::prelude::*;
use crate::text::str_eq;

verus! {

/// A JSON value. `N` is the type of a number.
pub enum Json<N> {
    Null,
    Bool(bool),
    Number(N),
    Str(String),
    Array(Vec<Json<N>>),
    /// the members in order; a name written twice is read at its first place
    Object(Vec<(String, Json<N>)>),
}

/// `i` is the first place of a member with the given name.
pub open spec fn is_first_member<N>(members: Seq<(String, Json<N>)>, name: Seq<char>, i: int) -> bool {
    &&& 0 <= i < members.len()
    &&& members[i].0@ == name
    &&& forall|j: int| 0 <= j < i ==> #[trigger] members[j].0@ != name
}

/// Some member has the given name.
pub open spec fn has_member<N>(members: Seq<(String, Json<N>)>, name: Seq<char>) -> bool {
    exists|i: int| 0 <= i < members.len() && #[trigger] members[i].0@ == name
}

/// The first place of a member with the given name.
pub open spec fn first_member<N>(members: Seq<(String, Json<N>)>, name: Seq<char>) -> int {
    choose|i: int| is_first_member(members, name, i)
}

/// The value of the member with the given name, for an object that has one.
pub open spec fn member<N>(value: Json<N>, name: Seq<char>) -> Option<Json<N>> {
    match value {
        Json::Object(ms) => if has_member(ms@, name) {
            Some(ms@[first_member(ms@, name)].1)
        } else {
            None
        },
        _ => None,
    }
}

pub open spec fn id_name() -> Seq<char> {
    seq!['i', 'd']
}

pub open spec fn assets_name() -> Seq<char> {
    seq!['a', 's', 's', 'e', 't', 's']
}

pub open spec fn activities_name() -> Seq<char> {
    seq!['a', 'c', 't', 'i', 'v', 'i', 't', 'i', 'e', 's']
}

/// An asset reduced to its id: when it has a string `id`, the object with
/// that member alone; otherwise the asset as it was.
pub open spec fn asset_ref_of<N>(asset: Json<N>, reduced: Json<N>) -> bool {
    match member(asset, id_name()) {
        Some(Json::Str(id)) => {
            &&& reduced matches Json::Object(ms)
            &&& ms@.len() == 1
            &&& ms@[0].0@ == id_name()
            &&& ms@[0].1 matches Json::Str(s)
            &&& s@ == id@
        },
        _ => reduced == asset,
    }
}

/// The album with each of its assets reduced to its id, when its `assets`
/// member is an array; the album as it was otherwise.
pub open spec fn album_stripped<N>(before: Json<N>, after: Json<N>) -> bool {
    match before {
        Json::Object(ms) => if has_member(ms@, assets_name()) && ms@[first_member(ms@, assets_name())].1 is Array {
            let i = first_member(ms@, assets_name());
            &&& after matches Json::Object(ns)
            &&& ns@.len() == ms@.len()
            &&& forall|j: int| 0 <= j < ms@.len() && j != i ==> #[trigger] ns@[j] == ms@[j]
            &&& ns@[i].0 == ms@[i].0
            &&& ms@[i].1 matches Json::Array(xs)
            &&& ns@[i].1 matches Json::Array(ys)
            &&& ys@.len() == xs@.len()
            &&& forall|k: int| 0 <= k < xs@.len() ==> asset_ref_of(#[trigger] xs@[k], ys@[k])
        } else {
            after == before
        },
        _ => after == before,
    }
}

proof fn lemma_first_member<N>(members: Seq<(String, Json<N>)>, name: Seq<char>, i: int)
    requires
        is_first_member(members, name, i),
    ensures
        has_member(members, name),
        first_member(members, name) == i,
{
    let k = first_member(members, name);
    assert(is_first_member(members, name, k));
    if k < i {
        assert(members[k].0@ != name);
    } else if i < k {
        assert(members[i].0@ != name);
    }
}

/// The first place of a member with the given name.
fn find_member<N>(members: &Vec<(String, Json<N>)>, name: &str) -> (r: Option<usize>)
    ensures
        r matches Some(i) ==> is_first_member(members@, name@, i as int) && first_member(members@, name@) == i,
        r is None ==> !has_member(members@, name@),
{
    let mut i: usize = 0;
    while i < members.len()
        invariant
            0 <= i <= members@.len(),
            forall|j: int| 0 <= j < i ==> #[trigger] members@[j].0@ != name@,
        decreases members@.len() - i,
    {
        if str_eq(members[i].0.as_str(), name) {
            proof {
                lemma_first_member(members@, name@, i as int);
            }
            return Some(i);
        }
        i = i + 1;
    }
    None
}

/// An asset reduced to its id, when it has a string `id`.
fn asset_ref<N>(asset: Json<N>) -> (r: Json<N>)
    ensures
        asset_ref_of(asset, r),
{
    proof {
        reveal_strlit("id");
        assert("id"@ =~= id_name());
    }
    match asset {
        Json::Object(mut ms) => match find_member(&ms, "id") {
            Some(i) => {
                let is_str = matches!(ms[i].1, Json::Str(_));
                if is_str {
                    let ghost before = ms@;
                    let (_name, id) = ms.remove(i);
                    match id {
                        Json::Str(s) => {
                            let mut out: Vec<(String, Json<N>)> = Vec::new();
                            out.push((String::from_str("id"), Json::Str(s)));
                            Json::Object(out)
                        },
                        _ => {
                            assert(false);
                            Json::Null
                        },
                    }
                } else {
                    Json::Object(ms)
                }
            },
            None => Json::Object(ms),
        },
        other => other,
    }
}

/// Each asset reduced to its id, in order.
fn asset_refs<N>(assets: Vec<Json<N>>) -> (r: Vec<Json<N>>)
    ensures
        r@.len() == assets@.len(),
        forall|k: int| 0 <= k < assets@.len() ==> asset_ref_of(#[trigger] assets@[k], r@[k]),
{
    let ghost all = assets@;
    let mut rest = assets;
    let mut reversed: Vec<Json<N>> = Vec::new();
    while rest.len() > 0
        invariant
            rest@.len() + reversed@.len() == all.len(),
            forall|j: int| 0 <= j < rest@.len() ==> rest@[j] == all[j],
            forall|j: int| 0 <= j < reversed@.len() ==> reversed@[j] == all[all.len() - 1 - j],
        decreases rest@.len(),
    {
        let a = rest.pop().unwrap();
        reversed.push(a);
    }
    let mut out: Vec<Json<N>> = Vec::new();
    while reversed.len() > 0
        invariant
            reversed@.len() + out@.len() == all.len(),
            forall|j: int| 0 <= j < reversed@.len() ==> reversed@[j] == all[all.len() - 1 - j],
            forall|k: int| 0 <= k < out@.len() ==> asset_ref_of(#[trigger] all[k], out@[k]),
        decreases reversed@.len(),
    {
        let a = reversed.pop().unwrap();
        let r = asset_ref(a);
        out.push(r);
    }
    out
}

/// An album as the API returns it. `N` is the type of a JSON number.
pub struct Album<N> {
    pub value: Json<N>,
}

impl<N> Album<N> {
    /// The album's `id`, when it is a string.
    pub fn id(&self) -> (r: Option<&str>)
        ensures
            r is Some <==> member(self.value, id_name()) matches Some(Json::Str(_)),
            r matches Some(s) ==> (member(self.value, id_name()) matches Some(Json::Str(t)) && t@ == s@),
    {
        proof {
            reveal_strlit("id");
            assert("id"@ =~= id_name());
        }
        match &self.value {
            Json::Object(ms) => match find_member(ms, "id") {
                Some(i) => match &ms[i].1 {
                    Json::Str(s) => Some(s.as_str()),
                    _ => None,
                },
                None => None,
            },
            _ => None,
        }
    }

    /// Sets the album's `activities` member: in place of the first one, or
    /// after the other members; an album that is not an object is left as is.
    pub fn set_activities(&mut self, activities: Json<N>)
        ensures
            match old(self).value {
                Json::Object(ms) => final(self).value matches Json::Object(ns) && if has_member(
                    ms@,
                    activities_name(),
                ) {
                    let i = first_member(ms@, activities_name());
                    ns@ == ms@.update(i, (ms@[i].0, activities))
                } else {
                    &&& ns@.len() == ms@.len() + 1
                    &&& ns@.take(ms@.len() as int) == ms@
                    &&& ns@.last().0@ == activities_name()
                    &&& ns@.last().1 == activities
                },
                _ => final(self).value == old(self).value,
            },
    {
        proof {
            reveal_strlit("activities");
            assert("activities"@ =~= activities_name());
        }
        let mut value = Json::Null;
        std::mem::swap(&mut value, &mut self.value);
        self.value = match value {
            Json::Object(mut ms) => {
                let ghost before = ms@;
                match find_member(&ms, "activities") {
                    Some(i) => {
                        let (name, _old) = ms.remove(i);
                        ms.insert(i, (name, activities));
                        assert(ms@ =~= before.update(i as int, (before[i as int].0, activities)));
                    },
                    None => {
                        ms.push((String::from_str("activities"), activities));
                        assert(ms@.take(before.len() as int) =~= before);
                    },
                }
                Json::Object(ms)
            },
            other => other,
        };
    }

    /// Reduces each of the album's assets to its id, when its `assets` member
    /// is an array.
    pub fn strip_asset_details(&mut self)
        ensures
            album_stripped(old(self).value, final(self).value),
    {
        proof {
            reveal_strlit("assets");
            assert("assets"@ =~= assets_name());
        }
        let mut value = Json::Null;
        std::mem::swap(&mut value, &mut self.value);
        self.value = match value {
            Json::Object(mut ms) => match find_member(&ms, "assets") {
                Some(i) => {
                    let is_array = matches!(ms[i].1, Json::Array(_));
                    if is_array {
                        let ghost before = ms@;
                        let (name, assets) = ms.remove(i);
                        let reduced = match assets {
                            Json::Array(items) => Json::Array(asset_refs(items)),
                            other => other,
                        };
                        ms.insert(i, (name, reduced));
                        assert forall|j: int| 0 <= j < before.len() && j != i implies #[trigger] ms@[j]
                            == before[j] by {
                            if j < i {
                            } else {
                            }
                        }
                        Json::Object(ms)
                    } else {
                        Json::Object(ms)
                    }
                },
                None => Json::Object(ms),
            },
            other => other,
        };
    }
}

} // verus!
