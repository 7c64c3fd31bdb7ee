//! The key under which a channel's context is stored in a plugin's variables.

use vstd::prelude::*;
use crate::text::{decimal, u64_to_decimal};

verus! {

/// The variable under which the context of the channel `channel_id` is
/// stored: its identifier in decimal followed by `c`.
pub open spec fn context_key(channel_id: u64) -> Seq<char> {
    decimal(channel_id as nat) + seq!['c']
}

/// Names the plugin variable that holds one channel's context.
pub struct ContextManager {
    pub(crate) key: String,
}

impl View for ContextManager {
    type V = Seq<char>;

    /// The variable name.
    closed spec fn view(&self) -> Seq<char> {
        self.key@
    }
}

impl ContextManager {
    /// A manager for the variable named `key`.
    pub(crate) fn with_key(key: String) -> (r: Self)
        ensures
            r@ == key@,
    {
        ContextManager { key }
    }

    /// The variable name.
    pub fn key(&self) -> (r: &String)
        ensures
            r@ == self@,
    {
        &self.key
    }
}

impl From<String> for ContextManager {
    /// The key is the channel's name followed by `c`.
    fn from(channel_id: String) -> (r: Self)
        ensures
            r@ == channel_id@ + seq!['c'],
    {
        proof {
            reveal_strlit("c");
        }
        ContextManager { key: channel_id.concat("c") }
    }
}

/// A `String`'s contents are no spec value, so the two conversions are not
/// described by a spec function; each `from` states its key in its own `ensures`.
impl vstd::std_specs::convert::FromSpecImpl<String> for ContextManager {
    open spec fn obeys_from_spec() -> bool {
        false
    }

    closed spec fn from_spec(v: String) -> Self {
        arbitrary()
    }
}

impl From<u64> for ContextManager {
    /// The key is the channel's identifier in decimal followed by `c`.
    fn from(channel_id: u64) -> (r: Self)
        ensures
            r@ == context_key(channel_id),
    {
        proof {
            reveal_strlit("c");
        }
        ContextManager { key: u64_to_decimal(channel_id).concat("c") }
    }
}

impl vstd::std_specs::convert::FromSpecImpl<u64> for ContextManager {
    open spec fn obeys_from_spec() -> bool {
        false
    }

    closed spec fn from_spec(v: u64) -> Self {
        arbitrary()
    }
}

/// A channel named by its identifier in decimal keeps its context under the
/// same variable whichever way its manager is made: from the name or from the
/// identifier.
pub proof fn law_context_key_from_name(channel_id: u64, name: Seq<char>)
    requires
        name == decimal(channel_id as nat),
    ensures
        name + seq!['c'] == context_key(channel_id),
{
}

} // verus!
