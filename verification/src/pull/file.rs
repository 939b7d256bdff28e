//! The pull file (`immich_data.json`): what was read from an Immich server.
//! `L` is the type of a coordinate and `V` that of an untyped JSON value.

use vstd::prelude::*;
use crate::immich::local::{resolve, resolve_in, LivePhoto};
use crate::keyed::KeyedList;

pub use crate::immich::types::{AlbumAssetRef, AlbumResponse, AssetType};

verus! {

pub struct File<L, V> {
    pub pulled_at: String,
    pub server_url: String,
    pub remote_path: String,
    pub server: ServerAbout<V>,
    pub config: V,
    pub users: Vec<V>,
    pub tags: Vec<V>,
    pub people: Vec<V>,
    pub stacks: Vec<V>,
    pub map_markers: Vec<V>,
    pub albums: Vec<Album<V>>,
    /// Keyed by relative path (original path with `remote_path` stripped)
    pub assets: KeyedList<Asset<L, V>>,
}

pub struct Album<V> {
    pub album: AlbumDetail<V>,
    pub activities: Vec<V>,
}

/// [Docs](https://api.immich.app/models/AssetResponseDto)
pub struct Asset<L, V> {
    pub id: String,
    pub original_path: String,
    pub original_file_name: String,
    pub asset_type: AssetType,
    pub live_photo_video_id: Option<String>,
    pub is_favorite: bool,
    pub is_trashed: bool,
    pub is_archived: bool,
    pub exif_info: Option<AssetExif<L, V>>,
    /// the other fields, by name
    pub extra: Vec<(String, V)>,
}

/// [Docs](https://api.immich.app/models/ExifResponseDto)
pub struct AssetExif<L, V> {
    pub date_time_original: Option<String>,
    pub latitude: Option<L>,
    pub longitude: Option<L>,
    pub description: Option<String>,
    pub city: Option<String>,
    pub state: Option<String>,
    pub country: Option<String>,
    pub make: Option<String>,
    pub model: Option<String>,
    pub rating: Option<L>,
    /// the other fields, by name
    pub extra: Vec<(String, V)>,
}

/// [Docs](https://api.immich.app/endpoints/albums/getAlbumInfo)
pub struct AlbumDetail<V> {
    pub id: String,
    pub album_name: String,
    pub description: String,
    pub assets: Vec<AlbumAssetRef>,
    /// the other fields, by name
    pub extra: Vec<(String, V)>,
}

/// [Docs](https://api.immich.app/endpoints/server/getAboutInfo)
pub struct ServerAbout<V> {
    pub version: String,
    /// the other fields, by name
    pub extra: Vec<(String, V)>,
}

/// [Docs](https://api.immich.app/endpoints/people/getAllPeople)
pub struct PeopleResponse<V> {
    pub total: u64,
    pub hidden: u64,
    pub has_next_page: bool,
    pub people: Vec<V>,
}

impl<L, V> LivePhoto for Asset<L, V> {
    open spec fn spec_is_live_photo(&self) -> bool {
        self.live_photo_video_id is Some
    }

    fn is_live_photo_still(&self) -> (r: bool) {
        self.live_photo_video_id.is_some()
    }
}

impl<L: Copy, V> AssetExif<L, V> {
    pub open spec fn spec_gps(&self) -> Option<(L, L)> {
        match (self.latitude, self.longitude) {
            (Some(lat), Some(long)) => Some((lat, long)),
            _ => None,
        }
    }

    /// The position, when both coordinates are known.
    pub fn gps(&self) -> (r: Option<(L, L)>)
        ensures
            r == self.spec_gps(),
    {
        match (self.latitude, self.longitude) {
            (Some(lat), Some(long)) => Some((lat, long)),
            (_, _) => None,
        }
    }
}

impl<L, V> File<L, V> {
    pub open spec fn wf(&self) -> bool {
        self.assets.wf()
    }

    /// The asset for a local file: the entry of its path, or else the still of
    /// the live photo it belongs to.
    pub fn resolve_asset(&self, rel_path: &str) -> (r: Option<&Asset<L, V>>)
        requires
            self.wf(),
        ensures
            r matches Some(a) ==> resolve(self.assets.view(), rel_path@) == Some(*a),
            r is None ==> resolve(self.assets.view(), rel_path@) is None,
    {
        resolve_in(&self.assets, rel_path)
    }
}

} // verus!
