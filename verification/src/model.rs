//! The channel state as a mathematical value, and each operation on it as a
//! function from the state before to the state after and the answer given.

use crate::outcome::{Attempt, PipeError};
use std::task::Waker;
use vstd::prelude::*;

verus! {

/// The smaller of two naturals.
pub open spec fn least(a: nat, b: nat) -> nat {
    if a <= b {
        a
    } else {
        b
    }
}

/// Whether the other handle still exists, judged by the number of handles
/// that own the shared state: a handle that is the only owner has no peer.
pub open spec fn peer_alive(owners: usize) -> bool {
    owners != 1
}

/// The shared record of one pipe: the bytes in flight, oldest first, the
/// room they may take, whether the pipe was closed, and for each side the
/// waker of the task that is registered to be woken, if one is.
pub struct PipeModel {
    pub capacity: nat,
    pub buffer: Seq<u8>,
    pub closed: bool,
    pub reader_waker: Option<Waker>,
    pub writer_waker: Option<Waker>,
}

impl PipeModel {
    /// A pipe as it is made: empty, open, nobody parked.
    pub open spec fn fresh(capacity: nat) -> PipeModel {
        PipeModel {
            capacity,
            buffer: Seq::empty(),
            closed: false,
            reader_waker: None,
            writer_waker: None,
        }
    }

    /// A reader is registered to be woken.
    pub open spec fn reader_parked(self) -> bool {
        self.reader_waker is Some
    }

    /// A writer is registered to be woken.
    pub open spec fn writer_parked(self) -> bool {
        self.writer_waker is Some
    }

    /// The buffer never holds more than the capacity.
    pub open spec fn wf(self) -> bool {
        self.buffer.len() <= self.capacity
    }

    /// Room left in the buffer.
    pub open spec fn remaining(self) -> nat {
        if self.buffer.len() <= self.capacity {
            (self.capacity - self.buffer.len()) as nat
        } else {
            0
        }
    }

    /// A write is refused once the pipe is closed or nobody is left to read.
    pub open spec fn write_refused(self, reader_alive: bool) -> bool {
        self.closed || !reader_alive
    }

    /// A write parks when it is not refused and the buffer is full.
    pub open spec fn write_blocks(self, reader_alive: bool) -> bool {
        !self.write_refused(reader_alive) && self.remaining() == 0
    }

    /// The bytes that a write of `bytes` puts into the buffer: as long a
    /// prefix as there is room for, nothing when refused.
    pub open spec fn accepted(self, bytes: Seq<u8>, reader_alive: bool) -> Seq<u8> {
        if self.write_refused(reader_alive) {
            Seq::empty()
        } else {
            bytes.take(least(self.remaining(), bytes.len()) as int)
        }
    }

    /// The state after an attempt to write `bytes` by the task that `waker`
    /// wakes. Where the attempt parks, `waker` takes the writer's slot and
    /// replaces whatever was registered there; otherwise the writer's slot
    /// is left alone. The reader's slot is never touched: waking a task
    /// leaves its registration where it is.
    pub open spec fn after_write(self, bytes: Seq<u8>, reader_alive: bool, waker: Waker) -> PipeModel {
        if self.write_refused(reader_alive) {
            self
        } else if self.write_blocks(reader_alive) {
            PipeModel { writer_waker: Some(waker), ..self }
        } else {
            PipeModel { buffer: self.buffer + self.accepted(bytes, reader_alive), ..self }
        }
    }

    /// The answer to an attempt to write `bytes`.
    pub open spec fn write_outcome(self, bytes: Seq<u8>, reader_alive: bool) -> Attempt<
        Result<usize, PipeError>,
    > {
        if self.write_refused(reader_alive) {
            Attempt::Ready(Err(PipeError::BrokenPipe))
        } else if self.write_blocks(reader_alive) {
            Attempt::Pending
        } else {
            Attempt::Ready(Ok(self.accepted(bytes, reader_alive).len() as usize))
        }
    }

    /// A flush is refused when bytes are waiting that nobody will read.
    pub open spec fn flush_refused(self, reader_alive: bool) -> bool {
        self.buffer.len() > 0 && (self.closed || !reader_alive)
    }

    /// The state after an attempt to flush by the task that `waker` wakes:
    /// nothing changes but the writer's slot, and that only where the
    /// attempt parks, when `waker` replaces whatever was registered there.
    pub open spec fn after_flush(self, reader_alive: bool, waker: Waker) -> PipeModel {
        if self.buffer.len() == 0 || self.flush_refused(reader_alive) {
            self
        } else {
            PipeModel { writer_waker: Some(waker), ..self }
        }
    }

    /// The answer to an attempt to flush.
    pub open spec fn flush_outcome(self, reader_alive: bool) -> Attempt<Result<(), PipeError>> {
        if self.buffer.len() == 0 {
            Attempt::Ready(Ok(()))
        } else if self.flush_refused(reader_alive) {
            Attempt::Ready(Err(PipeError::BrokenPipe))
        } else {
            Attempt::Pending
        }
    }

    /// End of stream: nothing buffered and nothing more to come.
    pub open spec fn at_end(self, writer_alive: bool) -> bool {
        self.buffer.len() == 0 && (self.closed || !writer_alive)
    }

    /// A read parks on an empty, open pipe whose writer still exists.
    pub open spec fn read_blocks(self, writer_alive: bool) -> bool {
        self.buffer.len() == 0 && !self.closed && writer_alive
    }

    /// The bytes that a read into `room` bytes of space hands over: the
    /// oldest ones, as many as fit.
    pub open spec fn delivered(self, room: nat) -> Seq<u8> {
        self.buffer.take(least(self.buffer.len(), room) as int)
    }

    /// The state after an attempt to read into `room` bytes of space by the
    /// task that `waker` wakes. Where the attempt parks, `waker` takes the
    /// reader's slot and replaces whatever was registered there; otherwise
    /// the reader's slot is left alone. The writer's slot is never touched.
    pub open spec fn after_read(self, room: nat, writer_alive: bool, waker: Waker) -> PipeModel {
        if self.read_blocks(writer_alive) {
            PipeModel { reader_waker: Some(waker), ..self }
        } else {
            PipeModel { buffer: self.buffer.skip(self.delivered(room).len() as int), ..self }
        }
    }

    /// The answer to an attempt to read into `room` bytes of space.
    pub open spec fn read_outcome(self, room: nat, writer_alive: bool) -> Attempt<
        Result<usize, PipeError>,
    > {
        if self.read_blocks(writer_alive) {
            Attempt::Pending
        } else {
            Attempt::Ready(Ok(self.delivered(room).len() as usize))
        }
    }

    /// The state after either side closed the pipe: closed for good, with
    /// the buffer, the capacity and both slots as they were.
    pub open spec fn after_close(self) -> PipeModel {
        PipeModel { closed: true, ..self }
    }
}

} // verus!
