//! The stage between what plays and what is heard: bytes go through as they are.

pub mod byte_flow;
pub mod pcm_flow;
pub mod plugin;
