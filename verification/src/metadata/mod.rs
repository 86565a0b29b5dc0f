//! Answering queries for a track's metadata.

pub mod config;
pub mod extract;
pub mod plugin;
pub mod query;
pub mod response;
pub mod tags;
