//! Events that a manager dispatches: those raised by services, and calls of
//! functions exported by a service's plugin.

use vstd::prelude::*;

use crate::binding::wire::be_bytes;
use crate::service::binding::Event as ServiceEvent;
use crate::text::{decimal, u64_to_decimal};

verus! {

/// What a plugin function is called with.
#[derive(Debug)]
pub enum InputData<'a> {
    /// These bytes as they are.
    Raw(&'a [u8]),
    /// The bytes of this number in the machine's byte order.
    Usize(usize),
}

/// A call of the function `name` of the service `service_id`.
#[derive(Debug)]
pub struct FunctionContext<'a> {
    pub service_id: u32,
    pub name: &'a str,
    pub input: InputData<'a>,
}

/// The events.
pub enum Event<'a, I> {
    Service(ServiceEvent<I>),
    CallFunction(FunctionContext<'a>),
}

/// Bytes in a `usize`.
pub open spec fn usize_bytes() -> nat {
    (usize::BITS / 8) as nat
}

/// The bytes of `v` in the machine's byte order: the big-endian bytes on a
/// big-endian machine, the same bytes reversed on a little-endian one.
pub open spec fn native_bytes_of(v: usize, bytes: Seq<u8>) -> bool {
    ||| bytes == be_bytes(v as nat, usize_bytes())
    ||| bytes == be_bytes(v as nat, usize_bytes()).reverse()
}

/// The bytes of `v` in the machine's byte order.
///
/// Calls `usize::to_ne_bytes` and copies the array into a vector. Which of the
/// two orders comes out depends on the machine, so the contract states only
/// that it is one of them.
#[verifier::external_body]
fn usize_to_ne_bytes(v: usize) -> (r: Vec<u8>)
    ensures
        native_bytes_of(v, r@),
{
    v.to_ne_bytes().to_vec()
}

/// `Failed to call function <name> in service <id>.`
pub open spec fn failure_text(name: Seq<char>, service_id: u32) -> Seq<char> {
    "Failed to call function "@ + name + " in service "@ + decimal(service_id as nat) + "."@
}

impl<'a> FunctionContext<'a> {
    /// The bytes the function is called with.
    pub fn input_bytes(&self) -> (r: Vec<u8>)
        ensures
            self.input matches InputData::Raw(raw) ==> r@ == raw@,
            self.input matches InputData::Usize(v) ==> native_bytes_of(v, r@),
    {
        match self.input {
            InputData::Raw(raw) => vstd::slice::slice_to_vec(raw),
            InputData::Usize(v) => usize_to_ne_bytes(v),
        }
    }

    /// Says that the call failed, naming the function and the service.
    pub fn failure_message(&self) -> (r: String)
        ensures
            r@ == failure_text(self.name@, self.service_id),
    {
        let mut text = String::from_str("Failed to call function ");
        text.append(self.name);
        text.append(" in service ");
        let digits = u64_to_decimal(self.service_id as u64);
        text.append(digits.as_str());
        text.append(".");
        text
    }
}

} // verus!
