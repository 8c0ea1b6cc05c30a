//! An interface of two methods, a state that implements it, and the entry
//! points of that state.

use crate::dispatch::{dispatched, CallContext};
use crate::error::DispatchError;
use crate::message_concrete::{method_a, method_b};
use crate::wire::Json;
use vstd::prelude::*;

verus! {

/// An interface with a method that returns nothing and one that returns a
/// value.
pub trait Message: Sized {
    /// What `method_a` may do: from the state `pre` it may leave the state
    /// `post`. An implementor that says nothing allows anything.
    open spec fn method_a_post(pre: Self, my_string: Seq<char>, post: Self) -> bool {
        true
    }

    /// What `method_b` may do: from the state `pre` it may leave the state
    /// `post` and return `returned`. An implementor that says nothing
    /// allows anything.
    open spec fn method_b_post(
        pre: Self,
        my_string: Seq<char>,
        my_bool: bool,
        post: Self,
        returned: bool,
    ) -> bool {
        true
    }

    /// Takes a message and returns nothing.
    fn method_a(&mut self, my_string: String)
        ensures
            Self::method_a_post(*old(self), my_string@, *final(self)),
    ;

    /// Takes a message and a flag and returns a flag.
    fn method_b(&mut self, my_string: String, my_bool: bool) -> (returned: bool)
        ensures
            Self::method_b_post(*old(self), my_string@, my_bool, *final(self), returned),
    ;
}

/// A state of three counters. It implements the interface without keeping
/// a record of its calls: `method_a` leaves it as it is, and `method_b`
/// hands its flag back.
#[derive(Debug, PartialEq, Eq)]
pub struct Abc {
    a: u8,
    b: u16,
    c: u32,
}

impl View for Abc {
    type V = (u8, u16, u32);

    closed spec fn view(&self) -> (u8, u16, u32) {
        (self.a, self.b, self.c)
    }
}

impl Abc {
    /// The state whose counters stand at `a`, `b` and `c`.
    pub fn new(a: u8, b: u16, c: u32) -> (r: Self)
        ensures
            r@ == (a, b, c),
    {
        Abc { a, b, c }
    }

    /// Where the three counters stand.
    pub fn counters(&self) -> (r: (u8, u16, u32))
        ensures
            r == self@,
    {
        (self.a, self.b, self.c)
    }
}

impl Message for Abc {
    open spec fn method_a_post(pre: Self, my_string: Seq<char>, post: Self) -> bool {
        post == pre
    }

    open spec fn method_b_post(
        pre: Self,
        my_string: Seq<char>,
        my_bool: bool,
        post: Self,
        returned: bool,
    ) -> bool {
        post == pre && returned == my_bool
    }

    fn method_a(&mut self, my_string: String) {
    }

    fn method_b(&mut self, my_string: String, my_bool: bool) -> (returned: bool) {
        my_bool
    }
}

/// The entry point of `method_a` on the state `Abc`, in the textual
/// format.
pub fn method_a(ctx: &mut CallContext<Abc>) -> (r: Result<(), DispatchError>)
    ensures
        dispatched::<Json, Json, method_a::CalledIn<Abc>>(*old(ctx), *final(ctx), r),
{
    method_a::CalledIn::<Abc>::exposed_called_in(ctx)
}

/// The entry point of `method_b` on the state `Abc`, in the textual
/// format.
pub fn method_b(ctx: &mut CallContext<Abc>) -> (r: Result<(), DispatchError>)
    ensures
        dispatched::<Json, Json, method_b::CalledIn<Abc>>(*old(ctx), *final(ctx), r),
{
    method_b::CalledIn::<Abc>::exposed_called_in(ctx)
}

} // verus!
