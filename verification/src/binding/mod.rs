//! The bindings that plugins call into: the channels that all plugins share,
//! and the pieces of the host calls that decide what happens.

use std::collections::HashMap;
use std::collections::hash_map::Entry;
use vstd::prelude::*;

use crate::text::{decimal, u64_to_decimal};
use channel::{AudioSender, Frame, STEREO_FRAME_BYTE_SIZE};
use wire::{be_value, decode_track_id, frame_from_bytes, TRACK_ID_BYTE_SIZE};

pub mod channel;
pub mod communication;
pub mod reader;
pub mod sync;
pub mod wire;

pub use channel::Channel;

verus! {

broadcast use vstd::std_specs::hash::group_hash_axioms;

/// A voice channel's identifier in the `i64` form that plugins pass around.
pub type ChannelIdI64 = i64;

/// The message that reports a channel which is not connected:
/// `The channel with the ID <id> is not currently connected.`
pub open spec fn cnf_text(channel_id: u64) -> Seq<char> {
    "The channel with the ID "@ + decimal(channel_id as nat) + " is not currently connected."@
}

/// Why a binding could not do what a plugin asked.
pub enum BindingError {
    /// No channel with the identifier is connected; `message` says so in words.
    ChannelNotConnected { channel_id: u64, message: String },
}

/// The channels that every plugin of a manager can reach, by identifier.
pub struct SharedSpace<C, H> {
    pub channels: HashMap<u64, Channel<C, H>>,
}

impl<C, H> Default for SharedSpace<C, H> {
    /// No channel is connected.
    fn default() -> (r: Self)
        ensures
            r.channels@ == Map::<u64, Channel<C, H>>::empty(),
    {
        SharedSpace { channels: HashMap::new() }
    }
}

impl<C, H> SharedSpace<C, H> {
    pub fn channels(&self) -> (r: &HashMap<u64, Channel<C, H>>)
        ensures
            r == &self.channels,
    {
        &self.channels
    }
}

/// Says that the channel with the identifier `channel_id` is not currently connected.
pub fn make_cnf_text(channel_id: u64) -> (r: String)
    ensures
        r@ == cnf_text(channel_id),
{
    let mut text = String::from_str("The channel with the ID ");
    let digits = u64_to_decimal(channel_id);
    text.append(digits.as_str());
    text.append(" is not currently connected.");
    text
}

/// The error for a channel that is not connected.
fn not_connected(channel_id: u64) -> (r: BindingError)
    ensures
        r matches BindingError::ChannelNotConnected { channel_id: id, message } && id == channel_id
            && message@ == cnf_text(channel_id),
{
    BindingError::ChannelNotConnected { channel_id, message: make_cnf_text(channel_id) }
}

/// The connected channel with the identifier `channel_id`.
pub fn get_channel<C, H>(shared_space: &SharedSpace<C, H>, channel_id: u64) -> (r: Result<
    &Channel<C, H>,
    BindingError,
>)
    ensures
        r is Ok <==> shared_space.channels@.contains_key(channel_id),
        r matches Ok(c) ==> *c == shared_space.channels@[channel_id],
        r matches Err(e) ==> e matches BindingError::ChannelNotConnected { channel_id: id, message }
            && id == channel_id && message@ == cnf_text(channel_id),
{
    match shared_space.channels.get(&channel_id) {
        Some(c) => Ok(c),
        None => Err(not_connected(channel_id)),
    }
}

/// The connected channel with the identifier `channel_id`, to change in place.
pub fn get_mut_channel<C, H>(shared_space: &mut SharedSpace<C, H>, channel_id: u64) -> (r: Result<
    &mut Channel<C, H>,
    BindingError,
>)
    ensures
        r is Ok <==> old(shared_space).channels@.contains_key(channel_id),
        r matches Ok(c) ==> *c == old(shared_space).channels@[channel_id]
            && final(shared_space).channels@ == old(shared_space).channels@.insert(
            channel_id,
            *final(c),
        ),
        r matches Err(e) ==> e matches BindingError::ChannelNotConnected { channel_id: id, message }
            && id == channel_id && message@ == cnf_text(channel_id) && final(shared_space).channels@
            == old(shared_space).channels@,
{
    match shared_space.channels.entry(channel_id) {
        Entry::Occupied(e) => Ok(e.into_mut()),
        Entry::Vacant(_) => Err(not_connected(channel_id)),
    }
}

/// Why a frame that a plugin sent cannot be delivered.
pub enum SendError {
    /// The track identifier is not sixteen bytes long.
    MalformedTrackId,
    /// The channel is not connected.
    Binding(BindingError),
    /// The channel has no track with this identifier.
    UnknownTrack(u128),
    /// The frame is not exactly one frame long.
    MalformedFrame,
}

/// Where a frame that a plugin sent goes: the queue of the track that
/// `track_id_bytes` names on the channel `channel_id`, and the frame itself.
///
/// The checks come in this order: the track identifier must be sixteen
/// bytes, the channel must be connected, the channel must have the track,
/// and the frame must be exactly one frame long.
pub fn route_audio_frame<C, H>(
    shared_space: &SharedSpace<C, H>,
    channel_id: u64,
    track_id_bytes: &[u8],
    frame_bytes: &[u8],
) -> (r: Result<(AudioSender, Frame), SendError>)
    ensures
        track_id_bytes@.len() != TRACK_ID_BYTE_SIZE ==> r matches Err(SendError::MalformedTrackId),
        track_id_bytes@.len() == TRACK_ID_BYTE_SIZE && !shared_space.channels@.contains_key(
            channel_id,
        ) ==> (r matches Err(
            SendError::Binding(BindingError::ChannelNotConnected { channel_id: id, message }),
        ) && id == channel_id && message@ == cnf_text(channel_id)),
        ({
            let track_id = be_value(track_id_bytes@);
            &&& track_id_bytes@.len() == TRACK_ID_BYTE_SIZE
            &&& shared_space.channels@.contains_key(channel_id)
            &&& !shared_space.channels@[channel_id].core_of().tracks@.contains_key(track_id as u128)
        }) ==> (r matches Err(SendError::UnknownTrack(t)) && t == be_value(track_id_bytes@)),
        ({
            let track_id = be_value(track_id_bytes@);
            &&& track_id_bytes@.len() == TRACK_ID_BYTE_SIZE
            &&& shared_space.channels@.contains_key(channel_id)
            &&& shared_space.channels@[channel_id].core_of().tracks@.contains_key(track_id as u128)
        }) ==> {
            let track_id = be_value(track_id_bytes@);
            let track = shared_space.channels@[channel_id].core_of().tracks@[track_id as u128];
            &&& (frame_bytes@.len() != STEREO_FRAME_BYTE_SIZE ==> r matches Err(
                SendError::MalformedFrame,
            ))
            &&& (frame_bytes@.len() == STEREO_FRAME_BYTE_SIZE ==> (r matches Ok((sender, frame))
                && sender == track.sender_of() && frame@ == frame_bytes@))
        },
{
    let track_id = match decode_track_id(track_id_bytes) {
        Some(t) => t,
        None => return Err(SendError::MalformedTrackId),
    };
    let channel = match get_channel(shared_space, channel_id) {
        Ok(c) => c,
        Err(e) => return Err(SendError::Binding(e)),
    };
    let sender = match channel.track_sender(track_id) {
        Some(s) => s,
        None => return Err(SendError::UnknownTrack(track_id)),
    };
    match frame_from_bytes(frame_bytes) {
        Some(frame) => Ok((sender, frame)),
        None => Err(SendError::MalformedFrame),
    }
}

} // verus!
