//! What a service declares about itself: whether it needs WASI, and which
//! events it wants to hear of.

use vstd::prelude::*;

verus! {

/// The bits that name known intents.
pub const KNOWN_INTENT_BITS: u8 = 0b0001;

/// A set of intents, one bit each, with the operations of a bit-flag set
/// that the configuration uses.
#[derive(Clone, Copy, Debug, PartialEq, Eq, Structural, Hash)]
pub struct Intents {
    bits: u8,
}

impl View for Intents {
    type V = u8;

    /// The bits that are set.
    closed spec fn view(&self) -> u8 {
        self.bits
    }
}

/// Whether every bit of `v` names a known intent.
pub open spec fn known_bits(v: u8) -> bool {
    v & !KNOWN_INTENT_BITS == 0
}

impl Intents {
    /// Only bits that name intents are ever set.
    #[verifier::type_invariant]
    spec fn well_formed(self) -> bool {
        known_bits(self.bits)
    }

    /// Hear of clients disconnecting.
    pub fn client_disconnect() -> (r: Intents)
        ensures
            r@ == 0b0001u8,
    {
        proof {
            assert(0b0001u8 & !KNOWN_INTENT_BITS == 0) by (bit_vector);
        }
        Intents { bits: 0b0001 }
    }

    /// No intent.
    pub fn empty() -> (r: Intents)
        ensures
            r@ == 0,
    {
        proof {
            assert(0u8 & !KNOWN_INTENT_BITS == 0) by (bit_vector);
        }
        Intents { bits: 0 }
    }

    /// Every known intent.
    pub fn all() -> (r: Intents)
        ensures
            r@ == KNOWN_INTENT_BITS,
    {
        proof {
            assert(KNOWN_INTENT_BITS & !KNOWN_INTENT_BITS == 0) by (bit_vector);
        }
        Intents { bits: KNOWN_INTENT_BITS }
    }

    /// The bits that are set.
    pub fn bits(&self) -> (r: u8)
        ensures
            r == self@,
            known_bits(r),
    {
        proof {
            use_type_invariant(self);
        }
        self.bits
    }

    /// The intents that `bits` names, unless it sets a bit that names none.
    pub fn from_bits(bits: u8) -> (r: Option<Intents>)
        ensures
            r is Some <==> known_bits(bits),
            r matches Some(i) ==> i@ == bits,
    {
        if bits & !KNOWN_INTENT_BITS == 0 {
            Some(Intents { bits })
        } else {
            None
        }
    }

    /// Whether every intent of `other` is in `self`.
    pub fn contains(&self, other: Intents) -> (r: bool)
        ensures
            r == (self@ & other@ == other@),
    {
        self.bits & other.bits == other.bits
    }
}

/// Intents are stored as their bits: the bits of a set of intents are known,
/// and reading them back gives the same set.
pub proof fn law_intents_round_trip(i: Intents, j: Intents)
    requires
        known_bits(i@),
        j@ == i@,
    ensures
        j == i,
{
    assert(i == Intents { bits: i@ });
    assert(j == Intents { bits: j@ });
}

/// A service's configuration.
pub struct Config {
    pub wasi: bool,
    pub intents: Intents,
}

} // verus!
