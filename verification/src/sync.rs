//! The pieces of the standard library that the pipe leans on and that the
//! verifier takes on trust: the lock, the shared pointer's owner count, and
//! the task wake-up capability. `share` and `clone_waker` say what they
//! return, and `new_lock` says what the lock was made around; the others
//! promise nothing, and the verified code is proved for whatever comes back.

use crate::model::PipeModel;
use crate::state::State;
use std::sync::{Arc, Mutex, MutexGuard};
use std::task::{Context, Waker};
use vstd::prelude::*;

verus! {

/// `std::task::Waker`, carried around as an opaque value.
#[verifier::external_type_specification]
#[verifier::external_body]
pub struct ExWaker(std::task::Waker);

/// `std::task::Context`, carried around as an opaque value.
#[verifier::external_type_specification]
#[verifier::external_body]
pub struct ExContext<'a>(std::task::Context<'a>);

/// `std::sync::Mutex`, carried around as an opaque value.
#[verifier::external_type_specification]
#[verifier::external_body]
#[verifier::reject_recursive_types(T)]
pub struct ExMutex<T: ?Sized>(std::sync::Mutex<T>);

/// `std::sync::MutexGuard`, carried around as an opaque value.
#[verifier::external_type_specification]
#[verifier::external_body]
#[verifier::reject_recursive_types(T)]
pub struct ExMutexGuard<'a, T: ?Sized + 'a>(std::sync::MutexGuard<'a, T>);

/// `Waker::wake`: schedules the task behind the waker to be polled again and
/// uses the waker up. Nothing is claimed of the effect.
#[verifier::external_body]
pub(crate) fn wake(waker: Waker) {
    waker.wake()
}

/// `Waker::clone`: a duplicate of the waker, that is a waker for the same
/// task. The claim is that the duplicate stands for the waker it was made
/// from.
#[verifier::external_body]
pub(crate) fn clone_waker(waker: &Waker) -> (duplicate: Waker)
    ensures
        duplicate == *waker,
{
    waker.clone()
}

/// `Context::waker`: the waker of the task that is polling. Nothing is
/// claimed of the result.
#[verifier::external_body]
pub(crate) fn waker_of<'a, 'b>(cx: &'a Context<'b>) -> &'a Waker {
    cx.waker()
}

/// The state that a lock was made around: what `Mutex::new` was given, not
/// what the lock holds at any later time.
pub uninterp spec fn made_around(lock: Mutex<State>) -> PipeModel;

/// `Mutex::new`: a lock around `state`. The claim is only that the lock was
/// made around this state; what it holds later depends on everyone who takes
/// it.
#[verifier::external_body]
pub(crate) fn new_lock(state: State) -> (lock: Mutex<State>)
    ensures
        made_around(lock) == state@,
{
    Mutex::new(state)
}

/// `Mutex::lock`: waits for the lock and hands out the guard, or `None` when
/// the lock is poisoned. Which of the two comes back is not claimed, nor
/// that the call comes back: `Mutex::lock` may panic or wait for ever when
/// the calling thread holds the lock already. The handles never call it
/// under a guard of their own.
#[verifier::external_body]
pub(crate) fn lock<'a>(mutex: &'a Mutex<State>) -> Option<MutexGuard<'a, State>> {
    match mutex.lock() {
        Ok(guard) => Some(guard),
        Err(_) => None,
    }
}

/// `DerefMut::deref_mut` on the guard: the state behind the lock, for as long
/// as the guard is borrowed. Nothing is claimed of the state found there
/// beyond what holds of every `State`.
#[verifier::external_body]
pub(crate) fn guarded<'a, 'b>(guard: &'a mut MutexGuard<'b, State>) -> &'a mut State {
    &mut **guard
}

/// `Arc::clone`: one more owner of the same lock. The claim is that the new
/// pointer refers to the very lock that `lock` refers to.
#[verifier::external_body]
pub(crate) fn share(lock: &Arc<Mutex<State>>) -> (other: Arc<Mutex<State>>)
    ensures
        other == *lock,
{
    Arc::clone(lock)
}

/// `Arc::strong_count`: how many owners the lock has at this moment. The
/// number depends on what other tasks did, so nothing is claimed of it.
#[verifier::external_body]
pub(crate) fn owners(lock: &Arc<Mutex<State>>) -> usize {
    Arc::strong_count(lock)
}

} // verus!
