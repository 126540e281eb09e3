//! What an attempt on the pipe reports back.

use vstd::prelude::*;

verus! {

/// Why an operation on the pipe failed for good.
#[derive(Debug, Clone, Copy, PartialEq, Eq, Structural)]
pub enum PipeError {
    /// The channel is closed, or the read side is gone: nothing written from
    /// now on would ever be read.
    BrokenPipe,
    /// The lock around the shared state could not be taken, because a task
    /// failed while it held it.
    LockUnavailable,
}

/// The answer of a non-blocking attempt: done, or "would block" with the
/// caller's waker left behind for the peer to invoke.
#[derive(Debug, PartialEq, Eq)]
pub enum Attempt<T> {
    Ready(T),
    Pending,
}

impl<T> Attempt<T> {
    /// True when the attempt would block.
    pub fn is_pending(&self) -> (b: bool)
        ensures
            b == (*self is Pending),
    {
        match self {
            Attempt::Pending => true,
            Attempt::Ready(_) => false,
        }
    }

    /// True when the attempt completed, with a value or with an error.
    pub fn is_ready(&self) -> (b: bool)
        ensures
            b == (*self is Ready),
    {
        match self {
            Attempt::Pending => false,
            Attempt::Ready(_) => true,
        }
    }
}

} // verus!
