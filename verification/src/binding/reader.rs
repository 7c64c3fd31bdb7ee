//! Reading the audio that a plugin sends for a track.

use vstd::prelude::*;

use super::channel::{AudioReceiver, Frame, STEREO_FRAME_BYTE_SIZE};

verus! {

/// Where a read of audio ended.
pub enum FrameRead {
    /// A frame was copied to the front of the buffer; the count is the number
    /// of bytes copied, one frame.
    Filled(usize),
    /// A frame arrived but the buffer is too small to hold it; nothing was copied.
    FrameTooLarge,
    /// Every sender is gone and the queue is empty: the track has ended.
    Closed,
}

/// The source of a track's audio: the queue a plugin sends frames into.
///
/// Waiting on the queue blocks, and tokio's blocking calls panic inside an
/// asynchronous runtime, so the waiting is done by the voice driver's thread
/// outside this library, which hands what arrives to `read_frame`.
pub struct WasmAudioReader {
    pub(crate) channel_id: u64,
    pub receiver: AudioReceiver,
}

/// Copies `frame` to the front of `buf` when it fits.
///
/// If the buffer holds at least one frame, its first bytes become the frame,
/// the rest stay as they were, and the frame's length is reported.
/// Otherwise the buffer is left alone and the frame is reported too large.
pub fn copy_frame(frame: &Frame, buf: &mut [u8]) -> (r: FrameRead)
    ensures
        final(buf)@.len() == old(buf)@.len(),
        old(buf)@.len() >= STEREO_FRAME_BYTE_SIZE ==> (r matches FrameRead::Filled(n) && n
            == STEREO_FRAME_BYTE_SIZE) && final(buf)@ == frame@ + old(buf)@.skip(STEREO_FRAME_BYTE_SIZE as int),
        old(buf)@.len() < STEREO_FRAME_BYTE_SIZE ==> r == FrameRead::FrameTooLarge && final(buf)@
            == old(buf)@,
{
    let len = buf.len();
    if STEREO_FRAME_BYTE_SIZE > len {
        return FrameRead::FrameTooLarge;
    }
    let mut i: usize = 0;
    while i < STEREO_FRAME_BYTE_SIZE
        invariant
            i <= STEREO_FRAME_BYTE_SIZE <= len,
            buf@.len() == len,
            len == old(buf)@.len(),
            forall|j: int| 0 <= j < i ==> buf@[j] == frame@[j],
            forall|j: int| i <= j < len ==> buf@[j] == old(buf)@[j],
        decreases STEREO_FRAME_BYTE_SIZE - i,
    {
        buf[i] = frame[i];
        i = i + 1;
    }
    assert(buf@ =~= frame@ + old(buf)@.skip(STEREO_FRAME_BYTE_SIZE as int));
    FrameRead::Filled(STEREO_FRAME_BYTE_SIZE)
}

/// What a read gives for `received`, the next item of the queue: a frame is
/// copied to the front of `buf` as `copy_frame` does; `None`, which the queue
/// yields once every sender is gone, leaves `buf` alone and ends the track.
pub fn read_frame(received: Option<Frame>, buf: &mut [u8]) -> (r: FrameRead)
    ensures
        final(buf)@.len() == old(buf)@.len(),
        received is None ==> r is Closed && final(buf)@ == old(buf)@,
        received matches Some(frame) ==> {
            &&& old(buf)@.len() >= STEREO_FRAME_BYTE_SIZE ==> (r matches FrameRead::Filled(n) && n
                == STEREO_FRAME_BYTE_SIZE) && final(buf)@ == frame@ + old(buf)@.skip(
                STEREO_FRAME_BYTE_SIZE as int,
            )
            &&& old(buf)@.len() < STEREO_FRAME_BYTE_SIZE ==> r is FrameTooLarge && final(buf)@
                == old(buf)@
        },
{
    match received {
        Some(frame) => copy_frame(&frame, buf),
        None => FrameRead::Closed,
    }
}

impl WasmAudioReader {
    /// A reader of the queue `receiver`, for the channel `channel_id`.
    pub fn new(channel_id: u64, receiver: AudioReceiver) -> (r: Self)
        ensures
            r.channel_id_of() == channel_id,
            r.receiver_of() == receiver,
    {
        WasmAudioReader { channel_id, receiver }
    }

    /// The channel the audio is for.
    pub closed spec fn channel_id_of(&self) -> u64 {
        self.channel_id
    }

    /// The queue the audio comes through.
    pub closed spec fn receiver_of(&self) -> AudioReceiver {
        self.receiver
    }

    pub fn channel_id(&self) -> (r: &u64)
        ensures
            *r == self.channel_id_of(),
    {
        &self.channel_id
    }
}

} // verus!
