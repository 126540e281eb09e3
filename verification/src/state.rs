//! The channel state that both handles share, and the operations that either
//! handle performs on it while it holds the lock.

use crate::model::PipeModel;
use crate::outcome::{Attempt, PipeError};
use crate::sync::{clone_waker, wake};
use std::task::Waker;
use vstd::prelude::*;

verus! {

/// Capacity of a pipe made without naming one.
pub const BUFFER_SIZE: usize = 1024;

/// Buffered bytes, the closed flag and the two waker slots of one pipe.
pub struct State {
    capacity: usize,
    buffer: Vec<u8>,
    closed: bool,
    reader_waker: Option<Waker>,
    writer_waker: Option<Waker>,
}

/// Appends the first `n` bytes of `bytes` to `buffer`.
fn append_prefix(buffer: &mut Vec<u8>, bytes: &[u8], n: usize)
    requires
        n <= bytes@.len(),
    ensures
        final(buffer)@ == old(buffer)@ + bytes@.take(n as int),
{
    let mut i: usize = 0;
    while i < n
        invariant
            i <= n,
            n <= bytes@.len(),
            buffer@ == old(buffer)@ + bytes@.take(i as int),
        decreases n - i,
    {
        buffer.push(bytes[i]);
        i += 1;
        assert(buffer@ =~= old(buffer)@ + bytes@.take(i as int));
    }
}

/// Copies the first `n` bytes of `buffer` over the first `n` bytes of `buf`.
fn copy_prefix(buffer: &Vec<u8>, buf: &mut [u8], n: usize)
    requires
        n <= buffer@.len(),
        n <= old(buf)@.len(),
    ensures
        final(buf)@ == buffer@.take(n as int) + old(buf)@.skip(n as int),
{
    let mut i: usize = 0;
    assert(buf@ =~= buffer@.take(0) + old(buf)@.skip(0));
    while i < n
        invariant
            i <= n,
            n <= buffer@.len(),
            n <= old(buf)@.len(),
            buf@ == buffer@.take(i as int) + old(buf)@.skip(i as int),
        decreases n - i,
    {
        buf[i] = buffer[i];
        i += 1;
        assert(buf@ =~= buffer@.take(i as int) + old(buf)@.skip(i as int));
    }
}

impl View for State {
    type V = PipeModel;

    closed spec fn view(&self) -> PipeModel {
        PipeModel {
            capacity: self.capacity as nat,
            buffer: self.buffer@,
            closed: self.closed,
            reader_waker: self.reader_waker,
            writer_waker: self.writer_waker,
        }
    }
}

impl State {
    #[verifier::type_invariant]
    spec fn bounded(self) -> bool {
        self.buffer@.len() <= self.capacity
    }

    /// An empty, open state with room for `capacity` bytes and no wakers.
    pub fn new(capacity: usize) -> (state: State)
        ensures
            state@ == PipeModel::fresh(capacity as nat),
    {
        State {
            capacity,
            buffer: Vec::new(),
            closed: false,
            reader_waker: None,
            writer_waker: None,
        }
    }

    /// The most bytes that the buffer may hold.
    pub fn capacity(&self) -> (c: usize)
        ensures
            c == self@.capacity,
            self@.wf(),
    {
        proof {
            use_type_invariant(self);
        }
        self.capacity
    }

    /// The number of bytes written and not yet read.
    pub fn len(&self) -> (n: usize)
        ensures
            n == self@.buffer.len(),
            self@.wf(),
    {
        proof {
            use_type_invariant(self);
        }
        self.buffer.len()
    }

    /// Whether the pipe was closed.
    pub fn is_closed(&self) -> (b: bool)
        ensures
            b == self@.closed,
    {
        self.closed
    }

    /// Whether everything written so far has been read.
    pub fn is_flushed(&self) -> (b: bool)
        ensures
            b == (self@.buffer.len() == 0),
    {
        self.buffer.is_empty()
    }

    /// Whether a reader is registered to be woken.
    pub fn reader_parked(&self) -> (b: bool)
        ensures
            b == self@.reader_parked(),
    {
        self.reader_waker.is_some()
    }

    /// Whether a writer is registered to be woken.
    pub fn writer_parked(&self) -> (b: bool)
        ensures
            b == self@.writer_parked(),
    {
        self.writer_waker.is_some()
    }

    /// Wakes the reader if one is registered, and leaves the registration
    /// where it is. Returns whether a task was woken.
    pub fn wake_reader_half(&self) -> (woke: bool)
        ensures
            woke == self@.reader_parked(),
    {
        match &self.reader_waker {
            Some(waker) => {
                wake(clone_waker(waker));
                true
            },
            None => false,
        }
    }

    /// Wakes the writer if one is registered, and leaves the registration
    /// where it is. Returns whether a task was woken.
    pub fn wake_writer_half(&self) -> (woke: bool)
        ensures
            woke == self@.writer_parked(),
    {
        match &self.writer_waker {
            Some(waker) => {
                wake(clone_waker(waker));
                true
            },
            None => false,
        }
    }

    /// One attempt to write `bytes`. Refused with `BrokenPipe` when the pipe
    /// is closed or the reader is gone. On a full buffer `waker` is
    /// registered for the writer, in place of whatever was registered, and
    /// the attempt is `Pending`. Otherwise as long a prefix of `bytes` as
    /// fits is appended and its length returned; the writer's slot is then
    /// left alone. The reader is woken whenever the attempt is not refused,
    /// and its registration stays where it is.
    pub fn attempt_write(&mut self, bytes: &[u8], reader_alive: bool, waker: &Waker) -> (out:
        Attempt<Result<usize, PipeError>>)
        ensures
            old(self)@.wf(),
            final(self)@.wf(),
            final(self)@ == old(self)@.after_write(bytes@, reader_alive, *waker),
            out == old(self)@.write_outcome(bytes@, reader_alive),
    {
        proof {
            use_type_invariant(&*self);
        }
        if self.closed || !reader_alive {
            return Attempt::Ready(Err(PipeError::BrokenPipe));
        }
        self.wake_reader_half();
        let remaining: usize = self.capacity - self.buffer.len();
        if remaining == 0 {
            self.writer_waker = Some(clone_waker(waker));
            Attempt::Pending
        } else {
            let n: usize = if bytes.len() < remaining {
                bytes.len()
            } else {
                remaining
            };
            // The buffer is taken out, grown, and put back in one piece.
            let mut buffer: Vec<u8> = Vec::new();
            core::mem::swap(&mut self.buffer, &mut buffer);
            append_prefix(&mut buffer, bytes, n);
            self.buffer = buffer;
            Attempt::Ready(Ok(n))
        }
    }

    /// One attempt to flush: ready exactly when the buffer is empty. With
    /// bytes waiting it is refused with `BrokenPipe` when the pipe is closed
    /// or the reader is gone; otherwise `waker` is registered for the writer,
    /// in place of whatever was registered, the reader is woken and the
    /// attempt is `Pending`. Nothing but the writer's slot ever changes.
    pub fn attempt_flush(&mut self, reader_alive: bool, waker: &Waker) -> (out: Attempt<
        Result<(), PipeError>,
    >)
        ensures
            old(self)@.wf(),
            final(self)@.wf(),
            final(self)@ == old(self)@.after_flush(reader_alive, *waker),
            out == old(self)@.flush_outcome(reader_alive),
    {
        proof {
            use_type_invariant(&*self);
        }
        if self.buffer.is_empty() {
            Attempt::Ready(Ok(()))
        } else if self.closed || !reader_alive {
            Attempt::Ready(Err(PipeError::BrokenPipe))
        } else {
            self.writer_waker = Some(clone_waker(waker));
            self.wake_reader_half();
            Attempt::Pending
        }
    }

    /// One attempt to read into `buf`. With bytes buffered, the oldest of
    /// them, as many as fit, replace the front of `buf` and leave the buffer,
    /// and the writer is woken. On an empty buffer the answer is 0 bytes, end
    /// of stream, when the pipe is closed or the writer is gone; otherwise
    /// `waker` is registered for the reader, in place of whatever was
    /// registered, the writer is woken and the attempt is `Pending`. The
    /// writer's registration stays where it is.
    pub fn attempt_read(&mut self, buf: &mut [u8], writer_alive: bool, waker: &Waker) -> (out:
        Attempt<Result<usize, PipeError>>)
        ensures
            old(self)@.wf(),
            final(self)@.wf(),
            final(self)@ == old(self)@.after_read(old(buf)@.len(), writer_alive, *waker),
            out == old(self)@.read_outcome(old(buf)@.len(), writer_alive),
            final(buf)@ == old(self)@.delivered(old(buf)@.len()) + old(buf)@.skip(
                old(self)@.delivered(old(buf)@.len()).len() as int,
            ),
    {
        proof {
            use_type_invariant(&*self);
        }
        if self.buffer.is_empty() {
            assert(buf@ =~= old(self)@.delivered(old(buf)@.len()) + old(buf)@.skip(0));
            if self.closed || !writer_alive {
                assert(self.buffer@.skip(0) =~= self.buffer@);
                Attempt::Ready(Ok(0))
            } else {
                self.wake_writer_half();
                self.reader_waker = Some(clone_waker(waker));
                Attempt::Pending
            }
        } else {
            self.wake_writer_half();
            let n: usize = if self.buffer.len() < buf.len() {
                self.buffer.len()
            } else {
                buf.len()
            };
            copy_prefix(&self.buffer, buf, n);
            // The buffer is taken out, and what was not read is put back.
            let mut front: Vec<u8> = Vec::new();
            core::mem::swap(&mut self.buffer, &mut front);
            let rest = front.split_off(n);
            self.buffer = rest;
            assert(self.buffer@ =~= old(self)@.buffer.skip(n as int));
            Attempt::Ready(Ok(n))
        }
    }

    /// The writer closes: the pipe is closed for good and the reader is
    /// woken; nothing else changes. Returns whether a reader was woken.
    pub fn close_by_writer(&mut self) -> (woke: bool)
        ensures
            final(self)@ == old(self)@.after_close(),
            woke == old(self)@.reader_parked(),
    {
        proof {
            use_type_invariant(&*self);
        }
        self.closed = true;
        self.wake_reader_half()
    }

    /// The reader closes: the pipe is closed for good and the writer is
    /// woken; nothing else changes. Returns whether a writer was woken.
    pub fn close_by_reader(&mut self) -> (woke: bool)
        ensures
            final(self)@ == old(self)@.after_close(),
            woke == old(self)@.writer_parked(),
    {
        proof {
            use_type_invariant(&*self);
        }
        self.closed = true;
        self.wake_writer_half()
    }
}

} // verus!
