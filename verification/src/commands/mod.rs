//! The commands of the tool.

pub mod plan;
pub mod pull;
