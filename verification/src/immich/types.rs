//! Records of the Immich API.

use vstd::prelude::*;

verus! {

/// [Docs](https://api.immich.app/models/AssetTypeEnum)
#[derive(Clone, Copy, Debug, PartialEq, Eq, Structural)]
pub enum AssetType {
    Image,
    Video,
    Audio,
    Other,
}

/// [Docs](https://api.immich.app/models/AlbumResponseDto)
#[derive(Clone, Debug)]
pub struct AlbumResponse {
    pub id: String,
    pub album_name: String,
    pub asset_count: u32,
}

/// [Docs](https://api.immich.app/models/AssetResponseDto)
/// Kept minimal so that albums only list the ids of their assets.
#[derive(Clone, Debug)]
pub struct AlbumAssetRef {
    pub id: String,
}

/// [Docs](https://api.immich.app/models/AssetResponseDto)
pub type AssetResponse<L, V> = crate::pull::file::Asset<L, V>;

/// [Docs](https://api.immich.app/models/ExifResponseDto)
pub type ExifInfo<L, V> = crate::pull::file::AssetExif<L, V>;

/// [Docs](https://api.immich.app/endpoints/albums/getAlbumInfo)
pub type AlbumDetail<V> = crate::pull::file::AlbumDetail<V>;

/// [Docs](https://api.immich.app/endpoints/server/getAboutInfo)
pub type ServerAbout<V> = crate::pull::file::ServerAbout<V>;

/// [Docs](https://api.immich.app/endpoints/people/getAllPeople)
pub type PeopleResponse<V> = crate::pull::file::PeopleResponse<V>;

} // verus!
