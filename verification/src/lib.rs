//! Decision logic of an audio device: library scans, metadata answers,
//! multi-room playback scheduling and NetworkManager-backed networking.
//!
//! The crate computes and decides; programs around it perform the file,
//! process and sound-card work and hand plain values in and out.

pub mod artwork;
pub mod composition;
pub mod config_value;
pub mod encoding;
pub mod error;
pub mod library;
pub mod metadata;
pub mod multiroom;
pub mod network;
pub mod number;
pub mod paths;
pub mod request;
pub mod text;
pub mod text_map;
pub mod text_order;
pub mod topology;
pub mod ui_pack;
