//! The metadata that exiftool reads from a local asset.

pub mod datetime;
pub mod exiftool;

use vstd::prelude::*;
use self::datetime::ExifDateTime;

verus! {

/// The metadata of one local asset. `L` is the type of a coordinate.
pub struct AssetExif<L> {
    pub source_file: String,
    /// parsed, original
    pub date_time: Option<(ExifDateTime, String)>,
    pub gps: Option<GPS<L>>,
    pub description: Option<String>,
}

/// A position. `L` is the type of a coordinate.
#[derive(Clone, Copy, Debug)]
pub struct GPS<L> {
    pub latitude: L,
    pub longitude: L,
}

impl<L> GPS<L> {
    /// A position when both coordinates are known.
    pub fn from_opts(latitude: Option<L>, longitude: Option<L>) -> (r: Option<Self>)
        ensures
            r is Some <==> latitude is Some && longitude is Some,
            r matches Some(g) ==> latitude == Some(g.latitude) && longitude == Some(g.longitude),
    {
        match (latitude, longitude) {
            (Some(latitude), Some(longitude)) => Some(GPS { latitude, longitude }),
            _ => None,
        }
    }
}

} // verus!
