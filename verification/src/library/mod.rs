//! The music library: its roots, and finding an album's track by its tags.

pub mod album;
pub mod roots;
pub mod scan;
