//! The write half of the pipe.

use crate::model::{least, peer_alive};
use crate::outcome::{Attempt, PipeError};
use crate::state::State;
use crate::sync::{guarded, lock, owners, waker_of};
use std::sync::{Arc, Mutex};
use std::task::{Context, Waker};
use vstd::prelude::*;

verus! {

/// The write half of the pipe: a reference to the state it shares with the
/// read half. Dropping it does not by itself close the pipe: the reader
/// learns from the owner count, at its next attempt, that the writer is
/// gone. To wake a parked reader, call `close` before the handle goes.
pub struct PipeWriter {
    pub(crate) state: Arc<Mutex<State>>,
}

impl PipeWriter {
    /// The lock that this handle refers to.
    pub closed spec fn channel(&self) -> Mutex<State> {
        *self.state
    }

    /// The write half over an already shared state.
    pub(crate) fn attach(state: Arc<Mutex<State>>) -> (handle: PipeWriter)
        ensures
            handle.channel() == *state,
    {
        PipeWriter { state }
    }

    /// What a close makes of what the lock gave: without the state it fails
    /// with `LockUnavailable`; with it, it closes the pipe as
    /// `State::close_by_writer` does, and succeeds.
    pub fn close_locked(locked: Option<&mut State>) -> (res: Result<(), PipeError>)
        ensures
            locked is None ==> res == Err::<(), PipeError>(PipeError::LockUnavailable),
            locked matches Some(state) ==> res == Ok::<(), PipeError>(()) && final(state)@
                == state@.after_close(),
    {
        match locked {
            Some(state) => {
                state.close_by_writer();
                Ok(())
            },
            None => Err(PipeError::LockUnavailable),
        }
    }

    /// Closes the pipe: once the buffer is drained every read reports end of
    /// stream, and every further write fails. A reader parked on the pipe is
    /// woken. Takes the lock and acts on it as `close_locked` says, so the
    /// only failure is a lock that cannot be taken.
    pub fn close(&self) -> (res: Result<(), PipeError>)
        ensures
            res matches Err(e) ==> e == PipeError::LockUnavailable,
    {
        let mut locked = lock(&self.state);
        let state: Option<&mut State> = match &mut locked {
            Some(guard) => Some(guarded(guard)),
            None => None,
        };
        Self::close_locked(state)
    }

    /// What the flush query makes of what the lock gave: without the state
    /// it fails with `LockUnavailable`; with it, it tells whether the buffer
    /// is empty.
    pub fn flushed_locked(locked: Option<&State>) -> (res: Result<bool, PipeError>)
        ensures
            locked is None ==> res == Err::<bool, PipeError>(PipeError::LockUnavailable),
            locked matches Some(state) ==> res == Ok::<bool, PipeError>(
                state@.buffer.len() == 0,
            ),
    {
        match locked {
            Some(state) => Ok(state.is_flushed()),
            None => Err(PipeError::LockUnavailable),
        }
    }

    /// Whether everything written so far has been read, at the moment of the
    /// call. Takes the lock and acts on it as `flushed_locked` says, so the
    /// only failure is a lock that cannot be taken.
    pub fn is_flushed(&self) -> (res: Result<bool, PipeError>)
        ensures
            res matches Err(e) ==> e == PipeError::LockUnavailable,
    {
        let mut locked = lock(&self.state);
        let state: Option<&State> = match &mut locked {
            Some(guard) => Some(&*guarded(guard)),
            None => None,
        };
        Self::flushed_locked(state)
    }

    /// What an attempt to write makes of what the lock gave: without the
    /// state it fails with `LockUnavailable`; with it, it writes as
    /// `State::attempt_write` does, the reader counted as gone when `owners`
    /// says that this handle is the state's only owner.
    pub fn write_locked(
        locked: Option<&mut State>,
        owners: usize,
        waker: &Waker,
        buf: &[u8],
    ) -> (out: Attempt<Result<usize, PipeError>>)
        ensures
            locked is None ==> out == Attempt::Ready(
                Err::<usize, PipeError>(PipeError::LockUnavailable),
            ),
            locked matches Some(state) ==> {
                &&& state@.wf()
                &&& out == state@.write_outcome(buf@, peer_alive(owners))
                &&& final(state)@ == state@.after_write(buf@, peer_alive(owners), *waker)
            },
            out matches Attempt::Ready(Ok(n)) ==> n <= buf@.len() && (n == 0 ==> buf@.len() == 0),
    {
        let wanted: usize = buf.len();
        match locked {
            Some(state) => {
                proof {
                    let fits = least(state@.remaining(), wanted as nat);
                    assert(buf@.take(fits as int).len() == fits);
                }
                state.attempt_write(buf, owners != 1, waker)
            },
            None => Attempt::Ready(Err(PipeError::LockUnavailable)),
        }
    }

    /// Attempts to write `buf`: takes the lock and the owner count and acts
    /// on them as `write_locked` says. The handle keeps its channel. A count
    /// that comes back never exceeds the length of `buf`, and is zero only
    /// for an empty `buf`.
    pub fn poll_write(&mut self, cx: &mut Context<'_>, buf: &[u8]) -> (out: Attempt<
        Result<usize, PipeError>,
    >)
        ensures
            final(self).channel() == old(self).channel(),
            out matches Attempt::Ready(Ok(n)) ==> n <= buf@.len() && (n == 0 ==> buf@.len() == 0),
    {
        let handles: usize = owners(&self.state);
        let mut locked = lock(&self.state);
        let state: Option<&mut State> = match &mut locked {
            Some(guard) => Some(guarded(guard)),
            None => None,
        };
        Self::write_locked(state, handles, waker_of(cx), buf)
    }

    /// What an attempt to flush makes of what the lock gave: without the
    /// state it fails with `LockUnavailable`; with it, it flushes as
    /// `State::attempt_flush` does, the reader counted as gone when `owners`
    /// says that this handle is the state's only owner.
    pub fn flush_locked(locked: Option<&mut State>, owners: usize, waker: &Waker) -> (out: Attempt<
        Result<(), PipeError>,
    >)
        ensures
            locked is None ==> out == Attempt::Ready(
                Err::<(), PipeError>(PipeError::LockUnavailable),
            ),
            locked matches Some(state) ==> {
                &&& state@.wf()
                &&& out == state@.flush_outcome(peer_alive(owners))
                &&& final(state)@ == state@.after_flush(peer_alive(owners), *waker)
            },
    {
        match locked {
            Some(state) => state.attempt_flush(owners != 1, waker),
            None => Attempt::Ready(Err(PipeError::LockUnavailable)),
        }
    }

    /// Attempts to flush: ready once the reader has drained everything
    /// written so far. Takes the lock and the owner count and acts on them
    /// as `flush_locked` says. The handle keeps its channel; of the answer
    /// nothing holds whatever the lock gave.
    pub fn poll_flush(&mut self, cx: &mut Context<'_>) -> (out: Attempt<Result<(), PipeError>>)
        ensures
            final(self).channel() == old(self).channel(),
    {
        let handles: usize = owners(&self.state);
        let mut locked = lock(&self.state);
        let state: Option<&mut State> = match &mut locked {
            Some(guard) => Some(guarded(guard)),
            None => None,
        };
        Self::flush_locked(state, handles, waker_of(cx))
    }

    /// Shuts the write side down: closes the pipe and is ready at once,
    /// with the result of `close`. The handle keeps its channel.
    pub fn poll_shutdown(&mut self, _cx: &mut Context<'_>) -> (out: Attempt<
        Result<(), PipeError>,
    >)
        ensures
            final(self).channel() == old(self).channel(),
            out is Ready,
            out matches Attempt::Ready(Err(e)) ==> e == PipeError::LockUnavailable,
    {
        Attempt::Ready(self.close())
    }
}

} // verus!
