//! The source of a service's audio.

use vstd::prelude::*;

verus! {

/// Names the manager and channel whose audio a track plays.
pub struct WasmAudioReader {
    pub manager_id: u32,
    pub channel_id: u64,
}

} // verus!
