//! The data of an Immich server.

pub mod local;
pub mod remote;
pub mod types;
