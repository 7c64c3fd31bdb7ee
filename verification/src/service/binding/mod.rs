//! The bindings of a service: its voice channels and the events it raises.

use vstd::prelude::*;

pub mod channel;
pub mod reader;

pub use channel::Channel;
pub use crate::binding::{make_cnf_text, BindingError, ChannelIdI64};

verus! {

/// A request to play `input` on the channel `channel_id`.
pub struct PlayData<I> {
    pub channel_id: u64,
    pub input: I,
}

/// What a service asks of its manager.
pub enum Event<I> {
    Play(PlayData<I>),
}

impl<I> Event<I> {
    /// Handles the event; no event of a service needs anything of the manager
    /// yet, so each succeeds and leaves the manager as it was.
    pub fn handle<M>(self, _manager: &mut M) -> (r: Result<(), BindingError>)
        ensures
            r is Ok,
            *final(_manager) == *old(_manager),
    {
        Ok(())
    }
}

} // verus!
