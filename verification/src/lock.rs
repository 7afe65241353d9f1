//! Mutual exclusion: `parking_lot::Mutex`, carried through opaquely. Whatever
//! sits behind a lock is shared with other holders, so no contract here says
//! what it holds now; all that is known of a lock is what it was made around.

use crate::pipe::{Pipe, PipeView};
use parking_lot::Mutex;
use parking_lot::MutexGuard;
use std::sync::Arc;
use vstd::prelude::*;

verus! {

/// `parking_lot::RawMutex`: opaque, the lock inside a `parking_lot::Mutex`.
#[verifier::external_type_specification]
#[verifier::external_body]
pub struct ExRawMutex(parking_lot::RawMutex);

/// `lock_api::Mutex`, which `parking_lot::Mutex` is an alias of: opaque.
#[verifier::external_type_specification]
#[verifier::external_body]
#[verifier::reject_recursive_types(R)]
#[verifier::reject_recursive_types(T)]
pub struct ExMutex<R, T: ?Sized>(parking_lot::lock_api::Mutex<R, T>);

/// A held lock: `parking_lot::MutexGuard`, which gives the lock back when it
/// goes out of scope.
#[verifier::external_body]
#[verifier::reject_recursive_types(T)]
pub(crate) struct Guard<'a, T> {
    held: MutexGuard<'a, T>,
}

/// `Clone` for `Arc`: a second pointer to the same allocation, hence to the
/// same value.
#[verifier::external_body]
pub(crate) fn arc_clone<T>(a: &Arc<T>) -> (c: Arc<T>)
    ensures
        c == *a,
{
    a.clone()
}

/// The state of the pipe that a lock was made around. It is fixed when the
/// lock is made, and says nothing of what the pipe holds later.
pub uninterp spec fn made_around(m: Mutex<Pipe>) -> PipeView;

/// `Mutex::new`: a free lock that holds `pipe`, as it was handed in.
#[verifier::external_body]
pub(crate) fn mutex_new(pipe: Pipe) -> (m: Mutex<Pipe>)
    ensures
        made_around(m) == pipe@,
{
    Mutex::new(pipe)
}

/// `Mutex::lock`: waits until the lock is free and takes it; a
/// `parking_lot` lock is never poisoned, so taking it does not fail. The lock
/// is given back when the guard goes out of scope.
#[verifier::external_body]
pub(crate) fn mutex_lock<'a, T>(m: &'a Mutex<T>) -> (g: Guard<'a, T>)
    opens_invariants none
    no_unwind
{
    Guard { held: m.lock() }
}

/// `DerefMut` for `MutexGuard`: the value behind the lock, for as long as the
/// guard is borrowed. It only hands out a reference.
#[verifier::external_body]
pub(crate) fn guard_value<'a, 'b, T>(g: &'a mut Guard<'b, T>) -> (v: &'a mut T)
    opens_invariants none
    no_unwind
{
    &mut *g.held
}

} // verus!
