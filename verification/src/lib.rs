//! Library side of a tool that compares the metadata of a local photo library
//! with the metadata kept by an Immich server and plans the fixes to apply.

pub mod civil;
pub mod text;
pub mod plan;
pub mod exif;
pub mod keyed;
pub mod plan_file;
pub mod immich;
pub mod commands;
pub mod pull;
pub mod fix;
pub mod scan;
