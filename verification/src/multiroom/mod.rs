//! Playing the same audio in several rooms.

pub mod capture;
pub mod config;
pub mod device_card;
pub mod engagement;
pub mod plugin;
pub mod receiver;
pub mod render;
pub mod samples;
pub mod trace;
