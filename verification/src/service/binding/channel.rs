//! A service's voice channel and the plugin variables that belong to it.

use vstd::prelude::*;

pub use crate::binding::communication::ContextManager;
use crate::binding::channel::i64_of_bits;
use crate::binding::communication::context_key;
use crate::text::{decimal, lemma_decimal_injective, u64_to_decimal};

verus! {

/// The variable under which the audio buffer of the channel `channel_id` is
/// stored: its identifier in decimal followed by `b`.
pub open spec fn buffer_key(channel_id: u64) -> Seq<char> {
    decimal(channel_id as nat) + seq!['b']
}

/// Names the plugin variable that holds one channel's audio buffer.
pub struct BufferManager {
    pub(crate) key: String,
}

impl View for BufferManager {
    type V = Seq<char>;

    /// The variable name.
    closed spec fn view(&self) -> Seq<char> {
        self.key@
    }
}

impl BufferManager {
    /// The variable name.
    pub fn key(&self) -> (r: &String)
        ensures
            r@ == self@,
    {
        &self.key
    }
}

/// A voice channel of a service, with the variables of its context and its
/// audio buffer, and the tracks it has started.
pub struct Channel<C, H> {
    pub(crate) call: C,
    pub id: u64,
    pub id_i64: i64,
    pub ctx: ContextManager,
    pub buffer: BufferManager,
    pub tracks: Vec<H>,
}

impl<C, H> Channel<C, H> {
    pub closed spec fn call_of(&self) -> C {
        self.call
    }

    pub closed spec fn id_of(&self) -> u64 {
        self.id
    }

    pub closed spec fn id_i64_of(&self) -> i64 {
        self.id_i64
    }

    pub closed spec fn ctx_of(&self) -> ContextManager {
        self.ctx
    }

    pub closed spec fn buffer_of(&self) -> BufferManager {
        self.buffer
    }

    pub closed spec fn tracks_of(&self) -> Seq<H> {
        self.tracks@
    }

    /// A channel with no tracks, whose context and buffer variables are named
    /// by its identifier in decimal followed by `c` and `b`.
    pub fn new(id: u64, call: C) -> (r: Self)
        ensures
            r.call_of() == call,
            r.id_of() == id,
            r.id_i64_of() == i64_of_bits(id),
            r.ctx_of()@ == context_key(id),
            r.buffer_of()@ == buffer_key(id),
            r.tracks_of() == Seq::<H>::empty(),
    {
        proof {
            reveal_strlit("c");
            reveal_strlit("b");
        }
        let id_i64: i64 = id as i64;
        assert(id_i64 == i64_of_bits(id)) by (bit_vector)
            requires
                id_i64 == id as i64,
        ;
        let ctx_key = u64_to_decimal(id).concat("c");
        let buffer_key = u64_to_decimal(id).concat("b");
        Channel {
            call: call,
            id: id,
            id_i64: id_i64,
            ctx: ContextManager::with_key(ctx_key),
            buffer: BufferManager { key: buffer_key },
            tracks: Vec::new(),
        }
    }

    /// Records a track that the voice call has started.
    pub fn play(&mut self, handle: H)
        ensures
            final(self).tracks_of() == old(self).tracks_of().push(handle),
            final(self).call_of() == old(self).call_of(),
            final(self).id_of() == old(self).id_of(),
            final(self).id_i64_of() == old(self).id_i64_of(),
            final(self).ctx_of() == old(self).ctx_of(),
            final(self).buffer_of() == old(self).buffer_of(),
    {
        self.tracks.push(handle);
    }
}

/// The variables of two channels never collide: no channel's context is
/// stored under another's (or its own) buffer variable, and distinct
/// channels have distinct context and buffer variables.
pub proof fn law_channel_keys_distinct(a: u64, b: u64)
    ensures
        context_key(a) != buffer_key(b),
        context_key(a) == context_key(b) ==> a == b,
        buffer_key(a) == buffer_key(b) ==> a == b,
{
    assert(context_key(a).last() == 'c');
    assert(buffer_key(b).last() == 'b');
    if context_key(a) == context_key(b) {
        assert(decimal(a as nat) == context_key(a).drop_last());
        assert(decimal(b as nat) == context_key(b).drop_last());
        lemma_decimal_injective(a as nat, b as nat);
    }
    if buffer_key(a) == buffer_key(b) {
        assert(decimal(a as nat) == buffer_key(a).drop_last());
        assert(decimal(b as nat) == buffer_key(b).drop_last());
        lemma_decimal_injective(a as nat, b as nat);
    }
}

} // verus!
