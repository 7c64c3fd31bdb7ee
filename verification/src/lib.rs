//! Host side of the FuwaNe plugin system: voice channels whose audio is fed by
//! WebAssembly plugins, the keys under which plugin state is stored, and the
//! encodings that carry channel and track identifiers across the plugin boundary.

use std::sync::Arc;
use vstd::prelude::*;

pub mod binding;
pub mod client;
pub mod event;
pub mod service;
pub mod text;

pub use binding::{Channel, SharedSpace};

verus! {

/// The space that every plugin may use freely.
pub struct OpenSpace;

/// The spaces a plugin can reach: its open space and the channels it shares
/// with the other plugins of its manager.
pub struct GlobalSpace<C, H> {
    pub open: OpenSpace,
    pub shared: Arc<SharedSpace<C, H>>,
}

} // verus!
