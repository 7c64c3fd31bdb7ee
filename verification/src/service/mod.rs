//! Services: plugins loaded from a manifest, with their configuration and
//! the voice channels they drive.

pub mod binding;
pub mod config;
