//! A client: a voice call held on behalf of a user of the system.

use vstd::prelude::*;

verus! {

pub struct Client<C> {
    pub call: C,
}

impl<C> Client<C> {
    pub fn new(call: C) -> (r: Self)
        ensures
            r.call == call,
    {
        Client { call: call }
    }
}

} // verus!
