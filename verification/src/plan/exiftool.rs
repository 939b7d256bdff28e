//! One record of exiftool's JSON answer, as the planner reads it.

use vstd::prelude::*;

verus! {

/// The tags of one file. `L` is the type of a coordinate.
pub struct AssetExif<L> {
    pub source_file: String,
    pub date_time_original: Option<String>,
    pub gps_latitude: Option<L>,
    pub gps_longitude: Option<L>,
    pub description: Option<String>,
}

impl<L: Copy> AssetExif<L> {
    pub open spec fn spec_gps(&self) -> Option<(L, L)> {
        match (self.gps_latitude, self.gps_longitude) {
            (Some(lat), Some(long)) => Some((lat, long)),
            _ => None,
        }
    }

    /// The position, when both coordinates are known.
    pub fn gps(&self) -> (r: Option<(L, L)>)
        ensures
            r == self.spec_gps(),
    {
        match (self.gps_latitude, self.gps_longitude) {
            (Some(lat), Some(long)) => Some((lat, long)),
            (_, _) => None,
        }
    }
}

/// An empty text counts as no text.
pub fn none_if_empty(s: Option<String>) -> (r: Option<String>)
    ensures
        r == (match s {
            Some(t) => if t@.len() == 0 { None } else { Some(t) },
            None => None,
        }),
{
    match s {
        Some(t) => if t.as_str().is_empty() { None } else { Some(t) },
        None => None,
    }
}

} // verus!
