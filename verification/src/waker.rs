//! Suspension tokens: `std::task::Waker`, carried through opaquely. A token
//! stands for the task that it resumes, and two tokens are equal when they
//! stand for the same task.

use std::task::Context;
use std::task::Waker;
use vstd::prelude::*;

verus! {

/// `std::task::Waker`: an opaque token.
#[verifier::external_type_specification]
#[verifier::external_body]
pub struct ExWaker(std::task::Waker);

/// `std::task::Context`: opaque, the carrier of the polling task's token.
#[verifier::external_type_specification]
#[verifier::external_body]
pub struct ExContext<'a>(std::task::Context<'a>);

/// `std::task::Poll`, with the two variants that std gives it: `Ready` with
/// a value, and `Pending`.
#[verifier::external_type_specification]
#[verifier::reject_recursive_types(T)]
pub struct ExPoll<T>(std::task::Poll<T>);

/// The token of the task that polls with this context.
pub uninterp spec fn token_of(cx: Context<'_>) -> Waker;

/// `Context::waker`: the token of the task that is polling.
#[verifier::external_body]
pub(crate) fn context_waker<'a>(cx: &'a Context<'_>) -> (w: &'a Waker)
    ensures
        *w == token_of(*cx),
{
    cx.waker()
}

/// `Clone` for `Waker`: a second token for the same task.
#[verifier::external_body]
pub(crate) fn waker_clone(w: &Waker) -> (c: Waker)
    ensures
        c == *w,
{
    w.clone()
}

/// `Waker::wake`: resumes the task that the token stands for. The call is
/// taken to return: a token whose `wake` panics is outside what this library
/// is made for.
#[verifier::external_body]
pub(crate) fn waker_wake(w: Waker)
    opens_invariants none
    no_unwind
{
    w.wake()
}

} // verus!
