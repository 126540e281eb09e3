//! The read half of the pipe.

use crate::model::peer_alive;
use crate::outcome::{Attempt, PipeError};
use crate::state::State;
use crate::sync::{guarded, lock, owners, waker_of};
use std::sync::{Arc, Mutex};
use std::task::{Context, Waker};
use vstd::prelude::*;

verus! {

/// The read half of the pipe: a reference to the state it shares with the
/// write half. Dropping it does not by itself close the pipe: the writer
/// learns from the owner count, at its next attempt, that the reader is
/// gone. To wake a parked writer, call `close` before the handle goes.
pub struct PipeReader {
    pub(crate) state: Arc<Mutex<State>>,
}

impl PipeReader {
    /// The lock that this handle refers to.
    pub closed spec fn channel(&self) -> Mutex<State> {
        *self.state
    }

    /// The read half over an already shared state.
    pub(crate) fn attach(state: Arc<Mutex<State>>) -> (handle: PipeReader)
        ensures
            handle.channel() == *state,
    {
        PipeReader { state }
    }

    /// What a close makes of what the lock gave: without the state it fails
    /// with `LockUnavailable`; with it, it closes the pipe as
    /// `State::close_by_reader` does, and succeeds.
    pub fn close_locked(locked: Option<&mut State>) -> (res: Result<(), PipeError>)
        ensures
            locked is None ==> res == Err::<(), PipeError>(PipeError::LockUnavailable),
            locked matches Some(state) ==> res == Ok::<(), PipeError>(()) && final(state)@
                == state@.after_close(),
    {
        match locked {
            Some(state) => {
                state.close_by_reader();
                Ok(())
            },
            None => Err(PipeError::LockUnavailable),
        }
    }

    /// Closes the pipe: every further write fails, and reads report end of
    /// stream once the buffer is drained. A writer parked on the pipe is
    /// woken. Takes the lock and acts on it as `close_locked` says, so the
    /// only failure is a lock that cannot be taken.
    pub fn close(&self) -> (res: Result<(), PipeError>)
        ensures
            res matches Err(e) ==> e == PipeError::LockUnavailable,
    {
        let mut locked = lock(&self.state);
        let state: Option<&mut State> = match &mut locked {
            Some(guard) => Some(guarded(guard)),
            None => None,
        };
        Self::close_locked(state)
    }

    /// What the flush query makes of what the lock gave: without the state
    /// it fails with `LockUnavailable`; with it, it tells whether the buffer
    /// is empty.
    pub fn flushed_locked(locked: Option<&State>) -> (res: Result<bool, PipeError>)
        ensures
            locked is None ==> res == Err::<bool, PipeError>(PipeError::LockUnavailable),
            locked matches Some(state) ==> res == Ok::<bool, PipeError>(
                state@.buffer.len() == 0,
            ),
    {
        match locked {
            Some(state) => Ok(state.is_flushed()),
            None => Err(PipeError::LockUnavailable),
        }
    }

    /// Whether everything written so far has been read, at the moment of the
    /// call. Takes the lock and acts on it as `flushed_locked` says, so the
    /// only failure is a lock that cannot be taken.
    pub fn is_flushed(&self) -> (res: Result<bool, PipeError>)
        ensures
            res matches Err(e) ==> e == PipeError::LockUnavailable,
    {
        let mut locked = lock(&self.state);
        let state: Option<&State> = match &mut locked {
            Some(guard) => Some(&*guarded(guard)),
            None => None,
        };
        Self::flushed_locked(state)
    }

    /// What an attempt to read makes of what the lock gave: without the
    /// state it fails with `LockUnavailable` and leaves `buf` alone; with it,
    /// it reads as `State::attempt_read` does, the writer counted as gone
    /// when `owners` says that this handle is the state's only owner.
    pub fn read_locked(
        locked: Option<&mut State>,
        owners: usize,
        waker: &Waker,
        buf: &mut [u8],
    ) -> (out: Attempt<Result<usize, PipeError>>)
        ensures
            locked is None ==> out == Attempt::Ready(
                Err::<usize, PipeError>(PipeError::LockUnavailable),
            ) && final(buf)@ == old(buf)@,
            locked matches Some(state) ==> {
                &&& state@.wf()
                &&& out == state@.read_outcome(old(buf)@.len(), peer_alive(owners))
                &&& final(state)@ == state@.after_read(
                    old(buf)@.len(),
                    peer_alive(owners),
                    *waker,
                )
                &&& final(buf)@ == state@.delivered(old(buf)@.len()) + old(buf)@.skip(
                    state@.delivered(old(buf)@.len()).len() as int,
                )
            },
            final(buf)@.len() == old(buf)@.len(),
            out matches Attempt::Ready(Ok(n)) ==> n <= old(buf)@.len() && final(buf)@.skip(
                n as int,
            ) == old(buf)@.skip(n as int),
            !(out matches Attempt::Ready(Ok(_))) ==> final(buf)@ == old(buf)@,
            out matches Attempt::Ready(Err(e)) ==> e == PipeError::LockUnavailable,
    {
        let room: usize = buf.len();
        match locked {
            Some(state) => {
                proof {
                    let handed = state@.delivered(room as nat);
                    assert((handed + old(buf)@.skip(handed.len() as int)).skip(handed.len() as int)
                        =~= old(buf)@.skip(handed.len() as int));
                    if handed.len() == 0 {
                        assert(handed + old(buf)@.skip(0) =~= old(buf)@);
                    }
                }
                state.attempt_read(buf, owners != 1, waker)
            },
            None => Attempt::Ready(Err(PipeError::LockUnavailable)),
        }
    }

    /// Attempts to read into `buf`: takes the lock and the owner count and
    /// acts on them as `read_locked` says. The handle keeps its channel. A
    /// count `n` that comes back never
    /// exceeds the length of `buf`; only the first `n` bytes of `buf`
    /// change. Without a count `buf` is left as it was, and the only error
    /// is a lock that cannot be taken.
    pub fn poll_read(&mut self, cx: &mut Context<'_>, buf: &mut [u8]) -> (out: Attempt<
        Result<usize, PipeError>,
    >)
        ensures
            final(self).channel() == old(self).channel(),
            final(buf)@.len() == old(buf)@.len(),
            out matches Attempt::Ready(Ok(n)) ==> n <= old(buf)@.len() && final(buf)@.skip(
                n as int,
            ) == old(buf)@.skip(n as int),
            !(out matches Attempt::Ready(Ok(_))) ==> final(buf)@ == old(buf)@,
            out matches Attempt::Ready(Err(e)) ==> e == PipeError::LockUnavailable,
    {
        let handles: usize = owners(&self.state);
        let mut locked = lock(&self.state);
        let state: Option<&mut State> = match &mut locked {
            Some(guard) => Some(guarded(guard)),
            None => None,
        };
        Self::read_locked(state, handles, waker_of(cx), buf)
    }
}

} // verus!
