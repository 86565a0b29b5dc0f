//! Finding the cover of a track.

pub mod config;
pub mod embedded;
pub mod plugin;
