//! Pulling the metadata of an Immich server into the pull file.

pub mod file;

use vstd::prelude::*;
use crate::keyed::KeyedList;
use crate::text::{strip_prefix, to_owned};

verus! {

/// Arguments of the pull command.
pub struct Args {
    /// Immich server URL
    pub server_url: String,
    /// Immich API key
    pub api_key: String,
    /// Remote library path prefix (on the Immich server)
    pub remote_path: String,
    /// Output file path
    pub output: String,
}

/// The folders of the server that lie in the library: those whose path
/// starts with the remote library path.
pub open spec fn folders_in(all: Seq<Seq<char>>, remote_path: Seq<char>) -> Seq<Seq<char>> {
    all.filter(|p: Seq<char>| remote_path.is_prefix_of(p))
}

pub open spec fn string_views(v: Seq<String>) -> Seq<Seq<char>> {
    v.map_values(|s: String| s@)
}

/// The folders of the server that lie in the library, in order.
pub fn select_folders(all: &Vec<String>, remote_path: &str) -> (r: Vec<String>)
    ensures
        string_views(r@) == folders_in(string_views(all@), remote_path@),
{
    let mut out: Vec<String> = Vec::new();
    let mut i: usize = 0;
    while i < all.len()
        invariant
            0 <= i <= all.len(),
            string_views(out@) == folders_in(string_views(all@).take(i as int), remote_path@),
        decreases all.len() - i,
    {
        let ghost before = out@;
        let keep = strip_prefix(all[i].as_str(), remote_path).is_some();
        if keep {
            out.push(all[i].clone());
        }
        proof {
            let s = string_views(all@);
            assert(s.take(i + 1) =~= s.take(i as int).push(s[i as int]));
            assert(folders_in(s.take(i + 1), remote_path@) == folders_in(s.take(i as int), remote_path@) + (
            if remote_path@.is_prefix_of(s[i as int]) { seq![s[i as int]] } else { Seq::empty() })) by {
                Seq::filter_distributes_over_add(s.take(i as int), seq![s[i as int]], |p: Seq<char>| remote_path@.is_prefix_of(p));
                assert(s.take(i as int) + seq![s[i as int]] =~= s.take(i + 1));
                reveal_with_fuel(Seq::filter, 2);
            }
            if keep {
                assert(string_views(out@) =~= string_views(before).push(all@[i as int]@));
            }
        }
        i = i + 1;
    }
    proof {
        assert(string_views(all@).take(all@.len() as int) =~= string_views(all@));
    }
    out
}

/// The assets read from the server, keyed by path relative to the library,
/// with the number of errors met. `A` is the type of an asset.
pub struct FetchedAssets<A> {
    pub assets: KeyedList<A>,
    pub errors: u32,
}

impl<A> FetchedAssets<A> {
    pub open spec fn wf(&self) -> bool {
        self.assets.wf()
    }

    /// Nothing fetched yet.
    pub fn new() -> (r: Self)
        ensures
            r.wf(),
            r.assets.view() == Map::<Seq<char>, A>::empty(),
            r.errors == 0,
    {
        FetchedAssets { assets: KeyedList::new(), errors: 0 }
    }

    /// Counts an error: a folder that could not be read, or an asset outside
    /// the library.
    pub fn record_error(&mut self)
        requires
            old(self).errors < u32::MAX,
        ensures
            final(self).errors == old(self).errors + 1,
            final(self).assets == old(self).assets,
    {
        self.errors = self.errors + 1;
    }

    /// Keeps an asset under its path relative to the library when its original
    /// path starts with the library prefix; tells whether it did.
    pub fn add_asset(&mut self, original_path: &str, prefix: &str, asset: A) -> (r: bool)
        requires
            old(self).wf(),
        ensures
            final(self).wf(),
            r == prefix@.is_prefix_of(original_path@),
            r ==> final(self).assets.view() == old(self).assets.view().insert(
                original_path@.skip(prefix@.len() as int),
                asset,
            ),
            !r ==> final(self).assets.view() == old(self).assets.view(),
            final(self).errors == old(self).errors,
    {
        match strip_prefix(original_path, prefix) {
            Some(rel) => {
                self.assets.insert(to_owned(rel), asset);
                true
            },
            None => false,
        }
    }
}

impl<A> FetchedAssets<A> {
    /// Keeps an asset of a folder under its path relative to the library; an
    /// asset whose original path lies outside the library counts as an error.
    /// Tells whether the asset was kept.
    pub fn take_folder_asset(&mut self, original_path: &str, prefix: &str, asset: A) -> (r: bool)
        requires
            old(self).wf(),
            !prefix@.is_prefix_of(original_path@) ==> old(self).errors < u32::MAX,
        ensures
            final(self).wf(),
            r == prefix@.is_prefix_of(original_path@),
            r ==> final(self).assets.view() == old(self).assets.view().insert(
                original_path@.skip(prefix@.len() as int),
                asset,
            ) && final(self).errors == old(self).errors,
            !r ==> final(self).assets.view() == old(self).assets.view() && final(self).errors
                == old(self).errors + 1,
    {
        let kept = self.add_asset(original_path, prefix, asset);
        if !kept {
            self.record_error();
        }
        kept
    }
}

/// The albums read from the server, with the number of errors met.
/// `A` is the type of an album.
pub struct FetchedAlbums<A> {
    pub albums: Vec<A>,
    pub errors: u32,
}

impl<A> FetchedAlbums<A> {
    /// Nothing fetched yet.
    pub fn new() -> (r: Self)
        ensures
            r.albums@.len() == 0,
            r.errors == 0,
    {
        FetchedAlbums { albums: Vec::new(), errors: 0 }
    }

    /// The list of albums could not be read: no album, and one error.
    pub fn list_failed() -> (r: Self)
        ensures
            r.albums@.len() == 0,
            r.errors == 1,
    {
        FetchedAlbums { albums: Vec::new(), errors: 1 }
    }

    /// Counts an album whose details could not be read.
    pub fn record_error(&mut self)
        requires
            old(self).errors < u32::MAX,
        ensures
            final(self).errors == old(self).errors + 1,
            final(self).albums@ == old(self).albums@,
    {
        self.errors = self.errors + 1;
    }

    /// Keeps an album, after those already kept.
    pub fn add_album(&mut self, album: A)
        ensures
            final(self).albums@ == old(self).albums@.push(album),
            final(self).errors == old(self).errors,
    {
        self.albums.push(album);
    }
}

} // verus!
