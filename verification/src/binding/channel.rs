//! Voice channels, their tracks and the pool of audio queues that feed them.

use std::collections::HashMap;
use std::sync::Arc;
use std::sync::atomic::{AtomicBool, Ordering};
use tokio::sync::RwLock;
use tokio::sync::mpsc::{Receiver, Sender};
use vstd::prelude::*;

use super::communication::ContextManager;
use super::sync::{clone_sender, lock, queue, share};
use crate::text::{decimal, u64_to_decimal};

verus! {

broadcast use vstd::std_specs::hash::group_hash_axioms;

/// Bytes in one 20 ms frame of stereo 32-bit float audio at 48 kHz.
pub const STEREO_FRAME_BYTE_SIZE: usize = 7680;

/// Capacity of each audio queue, in frames.
pub const AUDIO_QUEUE_CAPACITY: usize = 128;

/// Set once the track that used a queue is gone, so that the queue may be reused.
pub type IsMPSCReleased = Arc<AtomicBool>;

pub type Frame = [u8; STEREO_FRAME_BYTE_SIZE];

pub type AudioSender = Sender<Frame>;

pub type AudioReceiver = Arc<RwLock<Receiver<Frame>>>;

pub type AudioMPSC = (AudioSender, AudioReceiver);

pub type AcquiredAudioMPSC = (AudioMPSC, IsMPSCReleased);

/// `s` with the items at `i` and `j` exchanged.
pub open spec fn swapped<T>(s: Seq<T>, i: int, j: int) -> Seq<T> {
    s.update(i, s[j]).update(j, s[i])
}

/// The index of the first raised flag in `flags`, if any is raised.
pub open spec fn first_released(flags: Seq<bool>) -> Option<nat>
    decreases flags.len(),
{
    if flags.len() == 0 {
        None
    } else if flags[0] {
        Some(0)
    } else {
        match first_released(flags.drop_first()) {
            Some(i) => Some(i + 1),
            None => None,
        }
    }
}

/// `first_released` finds the first raised flag, and finds none exactly when
/// every flag is lowered.
pub proof fn lemma_first_released(flags: Seq<bool>)
    ensures
        first_released(flags) is None <==> forall|j: int| 0 <= j < flags.len() ==> !flags[j],
        first_released(flags) matches Some(i) ==> i < flags.len() && flags[i as int] && forall|
            j: int,
        |
            0 <= j < i ==> !flags[j],
    decreases flags.len(),
{
    if flags.len() > 0 {
        let rest = flags.drop_first();
        lemma_first_released(rest);
        assert forall|j: int| 1 <= j < flags.len() implies flags[j] == rest[j - 1] by {}
        if !flags[0] && first_released(rest) is None {
            assert forall|j: int| 0 <= j < flags.len() implies !flags[j] by {
                if j > 0 {
                    assert(!rest[j - 1]);
                }
            }
        }
        if !flags[0] && first_released(rest) is Some {
            let i = first_released(rest)->0;
            assert(rest[i as int]);
        }
    }
}

/// How the pool changes when `r` is handed out, given the released flags
/// `seen` that were read, in pool order, until one was found raised: the
/// queue whose flag was found raised is handed out again and exchanged with
/// the last one; if none was, every flag was read and a new queue is appended.
pub open spec fn acquired(
    before: Seq<AcquiredAudioMPSC>,
    after: Seq<AcquiredAudioMPSC>,
    seen: Seq<bool>,
    r: AcquiredAudioMPSC,
) -> bool {
    match first_released(seen) {
        Some(i) => {
            &&& seen.len() == i + 1
            &&& i < before.len()
            &&& r == before[i as int]
            &&& after == swapped(before, i as int, before.len() - 1)
        },
        None => {
            &&& seen.len() == before.len()
            &&& after == before.push(r)
        },
    }
}

/// Handing out a queue loses none: every queue of the pool is still in it, the
/// pool grows by at most one, and the queue handed out is the last one.
pub proof fn law_acquire_keeps_queues(
    before: Seq<AcquiredAudioMPSC>,
    after: Seq<AcquiredAudioMPSC>,
    seen: Seq<bool>,
    r: AcquiredAudioMPSC,
)
    requires
        acquired(before, after, seen, r),
    ensures
        after.len() == before.len() || after.len() == before.len() + 1,
        after.len() > 0 && after.last() == r,
        forall|j: int| 0 <= j < before.len() ==> after.contains(#[trigger] before[j]),
{
    match first_released(seen) {
        Some(i) => {
            let i = i as int;
            let last = before.len() - 1;
            assert forall|j: int| 0 <= j < before.len() implies after.contains(
                #[trigger] before[j],
            ) by {
                if j == i {
                    assert(after[last] == before[j]);
                } else if j == last {
                    assert(after[i] == before[j]);
                } else {
                    assert(after[j] == before[j]);
                }
            }
        },
        None => {
            assert forall|j: int| 0 <= j < before.len() implies after.contains(
                #[trigger] before[j],
            ) by {
                assert(after[j] == before[j]);
            }
        },
    }
}

/// A queue whose flag was read raised is handed out before any new queue is
/// opened: a new queue is opened only after every queue of the pool was read
/// in use, and a queue read in use is never handed out.
pub proof fn law_reuse_before_new_queue(
    before: Seq<AcquiredAudioMPSC>,
    after: Seq<AcquiredAudioMPSC>,
    seen: Seq<bool>,
    r: AcquiredAudioMPSC,
)
    requires
        acquired(before, after, seen, r),
    ensures
        after.len() > before.len() ==> seen.len() == before.len() && forall|j: int|
            0 <= j < seen.len() ==> !seen[j],
        after.len() == before.len() ==> seen.len() > 0 && seen.last() && r == before[seen.len()
            - 1] && forall|j: int| 0 <= j < seen.len() - 1 ==> !seen[j],
{
    lemma_first_released(seen);
}

/// The `i64` that carries the bits of the `u64` `v`: `v` itself below 2^63,
/// and `v - 2^64` from there on.
pub open spec fn i64_of_bits(v: u64) -> int {
    if v < 0x8000_0000_0000_0000 {
        v as int
    } else {
        v - 0x1_0000_0000_0000_0000
    }
}

/// A channel identifier held both as the `u64` that the voice gateway uses
/// and as the `i64` with the same bits that a plugin receives.
pub struct Id {
    pub u64: u64,
    pub i64: i64,
}

impl From<u64> for Id {
    fn from(id: u64) -> (r: Self)
        ensures
            r.u64 == id,
            r.i64 == i64_of_bits(id),
    {
        let v: i64 = id as i64;
        assert(v == i64_of_bits(id)) by (bit_vector)
            requires
                v == id as i64,
        ;
        Id { u64: id, i64: v }
    }
}

impl vstd::std_specs::convert::FromSpecImpl<u64> for Id {
    open spec fn obeys_from_spec() -> bool {
        true
    }

    open spec fn from_spec(v: u64) -> Self {
        Id { u64: v, i64: i64_of_bits(v) as i64 }
    }
}

/// A playing track: the handle that controls it and the queue its audio comes through.
pub struct TrackData<H> {
    pub channel_id: u64,
    pub handle: H,
    pub sender: AudioSender,
    is_released: IsMPSCReleased,
}

impl<H> TrackData<H> {
    /// The channel the track plays on.
    pub closed spec fn channel_of(&self) -> u64 {
        self.channel_id
    }

    /// The handle that controls the track.
    pub closed spec fn handle_of(&self) -> H {
        self.handle
    }

    /// The queue the track's audio is sent into.
    pub closed spec fn sender_of(&self) -> AudioSender {
        self.sender
    }

    /// The flag that is raised when this track is dropped.
    pub closed spec fn released_flag(&self) -> IsMPSCReleased {
        self.is_released
    }
}

impl<H> Drop for TrackData<H> {
    /// Raises the track's flag, so that its queue may be handed to a later track.
    fn drop(&mut self)
        opens_invariants none
        no_unwind
    {
        raise_flag(&self.is_released)
    }
}

/// Raises `flag`.
///
/// Calls `AtomicBool::store` with sequentially consistent ordering, which its
/// documentation says panics only for the `Acquire` and `AcqRel` orderings;
/// the contract claims the call returns normally and opens no invariant.
/// Verus sees nothing of the flag's value.
#[verifier::external_body]
fn raise_flag(flag: &AtomicBool)
    opens_invariants none
    no_unwind
{
    flag.store(true, Ordering::SeqCst)
}

/// What a channel holds besides its identifier: the voice call, the key of
/// its context, and its tracks by identifier.
pub struct Core<C, H> {
    pub call: C,
    pub ctx: ContextManager,
    pub tracks: HashMap<u128, TrackData<H>>,
}

/// A connected voice channel.
///
/// `C` is the voice call and `H` the handle of a playing track; the
/// application fills them in with the voice driver's types, and starts tracks
/// on the call itself before recording them here with `play`.
pub struct Channel<C, H> {
    pub id: Id,
    pub(crate) core: Core<C, H>,
    audio_mpsc: Vec<AcquiredAudioMPSC>,
    observed: Ghost<Seq<bool>>,
}

/// A copy of a pool entry: new handles on the same queue, lock and flag.
fn clone_slot(s: &AcquiredAudioMPSC) -> (r: AcquiredAudioMPSC)
    ensures
        r == *s,
{
    ((clone_sender(&s.0.0), share(&s.0.1)), share(&s.1))
}

/// Takes a queue whose track is gone: if its flag is raised, lowers it and
/// reports `true`; otherwise leaves it and reports `false`.
fn claim(flag: &IsMPSCReleased) -> bool {
    if flag.load(Ordering::SeqCst) {
        flag.store(false, Ordering::SeqCst);
        true
    } else {
        false
    }
}

impl<C, H> Channel<C, H> {
    /// The channel's identifier.
    pub closed spec fn id_of(&self) -> Id {
        self.id
    }

    /// The channel's call, context key and tracks.
    pub closed spec fn core_of(&self) -> Core<C, H> {
        self.core
    }

    /// The audio queues the channel has opened, in search order.
    pub closed spec fn pool(&self) -> Seq<AcquiredAudioMPSC> {
        self.audio_mpsc@
    }

    /// The released flags that the last `acquire` read, in pool order.
    pub closed spec fn observed_flags(&self) -> Seq<bool> {
        self.observed@
    }

    /// A channel with no tracks and no audio queues yet; its context key is
    /// the identifier in decimal.
    pub fn new(id: u64, call: C) -> (r: Self)
        ensures
            r.id_of().u64 == id,
            r.id_of().i64 == i64_of_bits(id),
            r.core_of().call == call,
            r.core_of().ctx@ == decimal(id as nat),
            r.core_of().tracks@ == Map::<u128, TrackData<H>>::empty(),
            r.pool() == Seq::<AcquiredAudioMPSC>::empty(),
    {
        let id_string = u64_to_decimal(id);
        Channel {
            id: Id::from(id),
            core: Core { call: call, ctx: ContextManager::with_key(id_string), tracks: HashMap::new() },
            audio_mpsc: Vec::new(),
            observed: Ghost(Seq::empty()),
        }
    }

    pub fn get_core(&self) -> (r: &Core<C, H>)
        ensures
            *r == self.core_of(),
    {
        &self.core
    }

    pub fn get_mut_core(&mut self) -> (r: &mut Core<C, H>)
        ensures
            *r == old(self).core_of(),
            final(self).core_of() == *final(r),
            final(self).id_of() == old(self).id_of(),
            final(self).pool() == old(self).pool(),
            final(self).observed_flags() == old(self).observed_flags(),
    {
        &mut self.core
    }

    /// Hands out an audio queue for a new track.
    ///
    /// The queues' released flags are read in pool order until one is found
    /// raised; that flag is lowered, its queue is moved to the end of the pool
    /// so that the next search finds it last, and it is returned. If no flag
    /// is raised, a new queue is opened, appended to the pool and returned.
    /// The flags read are recorded in `observed_flags`.
    pub fn acquire(&mut self) -> (r: AcquiredAudioMPSC)
        ensures
            final(self).id_of() == old(self).id_of(),
            final(self).core_of() == old(self).core_of(),
            final(self).pool().len() > 0,
            final(self).pool().last() == r,
            acquired(old(self).pool(), final(self).pool(), final(self).observed_flags(), r),
    {
        let n = self.audio_mpsc.len();
        let mut i: usize = 0;
        let ghost mut seen: Seq<bool> = Seq::empty();
        while i < n
            invariant
                i <= n,
                n == self.audio_mpsc.len(),
                self.audio_mpsc@ == old(self).audio_mpsc@,
                self.id == old(self).id,
                self.core == old(self).core,
                seen.len() == i,
                forall|j: int| 0 <= j < i ==> !seen[j],
            decreases n - i,
        {
            let released = claim(&self.audio_mpsc[i].1);
            proof {
                seen = seen.push(released);
            }
            if released {
                let found = clone_slot(&self.audio_mpsc[i]);
                let ghost before = self.audio_mpsc@;
                let taken = self.audio_mpsc.swap_remove(i);
                self.audio_mpsc.push(taken);
                assert(self.audio_mpsc@ =~= swapped(before, i as int, before.len() - 1));
                self.observed = Ghost(seen);
                proof {
                    assert(seen[i as int]);
                    lemma_first_released(seen);
                    let k = first_released(seen)->0;
                    if k < i {
                        assert(!seen[k as int]);
                    }
                    assert(k == i);
                }
                return found;
            }
            i = i + 1;
        }
        self.observed = Ghost(seen);
        proof {
            lemma_first_released(seen);
        }
        let (tx, rx) = queue(AUDIO_QUEUE_CAPACITY);
        let value = ((tx, Arc::new(lock(rx))), Arc::new(AtomicBool::new(false)));
        let found = clone_slot(&value);
        self.audio_mpsc.push(value);
        found
    }

    /// The queue that feeds the track `track_id`, if the channel has that track.
    pub fn track_sender(&self, track_id: u128) -> (r: Option<AudioSender>)
        ensures
            r is Some <==> self.core_of().tracks@.contains_key(track_id),
            r matches Some(s) ==> s == self.core_of().tracks@[track_id].sender_of(),
    {
        match self.core.tracks.get(&track_id) {
            Some(t) => Some(clone_sender(&t.sender)),
            None => None,
        }
    }

    /// Records a track that the voice call has started playing under
    /// `track_id`, fed through the queue of `aampsc`, and returns its identifier.
    ///
    /// A track already recorded under the same identifier is replaced, and its
    /// queue thereby released.
    pub fn play(&mut self, handle: H, track_id: u128, aampsc: &AcquiredAudioMPSC) -> (r: u128)
        ensures
            r == track_id,
            final(self).id_of() == old(self).id_of(),
            final(self).pool() == old(self).pool(),
            final(self).core_of().call == old(self).core_of().call,
            final(self).core_of().ctx == old(self).core_of().ctx,
            final(self).core_of().tracks@.dom() == old(self).core_of().tracks@.dom().insert(
                track_id,
            ),
            forall|k: u128|
                k != track_id ==> #[trigger] final(self).core_of().tracks@.get(k) == old(
                    self,
                ).core_of().tracks@.get(k),
            ({
                let t = final(self).core_of().tracks@[track_id];
                &&& t.channel_of() == old(self).id_of().u64
                &&& t.handle_of() == handle
                &&& t.sender_of() == aampsc.0.0
                &&& t.released_flag() == aampsc.1
            }),
    {
        let data = TrackData {
            channel_id: self.id.u64,
            handle,
            sender: clone_sender(&aampsc.0.0),
            is_released: share(&aampsc.1),
        };
        self.core.tracks.insert(track_id, data);
        track_id
    }
}

/// Audio sent for a track reaches the queue that was handed out for it: once
/// a queue is acquired and a track is recorded with it, the track sends into
/// the queue that is last in the pool, and dropping the track raises that
/// queue's flag, which is what lets a later `acquire` hand the queue out again.
pub proof fn law_track_feeds_acquired_queue<H>(
    before: Seq<AcquiredAudioMPSC>,
    after: Seq<AcquiredAudioMPSC>,
    seen: Seq<bool>,
    q: AcquiredAudioMPSC,
    track: TrackData<H>,
)
    requires
        acquired(before, after, seen, q),
        track.sender_of() == q.0.0,
        track.released_flag() == q.1,
    ensures
        after.len() > 0,
        after.last().0.0 == track.sender_of(),
        after.last().1 == track.released_flag(),
{
    law_acquire_keeps_queues(before, after, seen, q);
}

} // verus!
