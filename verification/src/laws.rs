//! What holds of the pipe over whole histories: byte order, backpressure,
//! end of stream, broken pipe, and sound parking.

use crate::model::{least, PipeModel};
use crate::outcome::{Attempt, PipeError};
use std::task::Waker;
use vstd::prelude::*;

verus! {

/// One operation that a handle performs on the shared state.
pub enum Op {
    /// An attempt to write `bytes` by the task that `waker` wakes;
    /// `reader_alive` tells whether the read handle still exists.
    Write { bytes: Seq<u8>, reader_alive: bool, waker: Waker },
    /// An attempt to flush by the task that `waker` wakes.
    Flush { reader_alive: bool, waker: Waker },
    /// An attempt to read into `room` bytes of space by the task that
    /// `waker` wakes; `writer_alive` tells whether the write handle still
    /// exists.
    Read { room: nat, writer_alive: bool, waker: Waker },
    /// A close by either side.
    Close,
}

/// The pipe together with everything accepted from the writer and everything
/// handed to the reader so far.
pub struct Ledger {
    pub pipe: PipeModel,
    pub written: Seq<u8>,
    pub received: Seq<u8>,
}

/// The ledger of a pipe that was just made.
pub open spec fn opening(capacity: nat) -> Ledger {
    Ledger { pipe: PipeModel::fresh(capacity), written: Seq::empty(), received: Seq::empty() }
}

/// The pipe after one operation.
pub open spec fn apply_to(m: PipeModel, op: Op) -> PipeModel {
    match op {
        Op::Write { bytes, reader_alive, waker } => m.after_write(bytes, reader_alive, waker),
        Op::Flush { reader_alive, waker } => m.after_flush(reader_alive, waker),
        Op::Read { room, writer_alive, waker } => m.after_read(room, writer_alive, waker),
        Op::Close => m.after_close(),
    }
}

/// The ledger after one more operation.
pub open spec fn apply(l: Ledger, op: Op) -> Ledger {
    match op {
        Op::Write { bytes, reader_alive, waker } => Ledger {
            pipe: apply_to(l.pipe, op),
            written: l.written + l.pipe.accepted(bytes, reader_alive),
            received: l.received,
        },
        Op::Read { room, writer_alive, waker } => Ledger {
            pipe: apply_to(l.pipe, op),
            written: l.written,
            received: l.received + l.pipe.delivered(room),
        },
        Op::Flush { .. } | Op::Close => Ledger { pipe: apply_to(l.pipe, op), ..l },
    }
}

/// The ledger after the operations of `trace`, first to last.
pub open spec fn run(start: Ledger, trace: Seq<Op>) -> Ledger
    decreases trace.len(),
{
    if trace.len() == 0 {
        start
    } else {
        apply(run(start, trace.drop_last()), trace.last())
    }
}

/// Nothing is lost, added or reordered: what was written is what was
/// received, followed by what is still buffered, and the buffer is within
/// its capacity.
pub open spec fn balanced(l: Ledger) -> bool {
    l.pipe.wf() && l.written == l.received + l.pipe.buffer
}

/// One operation keeps the ledger balanced and the capacity as it was.
pub proof fn lemma_step_keeps_balance(l: Ledger, op: Op)
    requires
        balanced(l),
    ensures
        balanced(apply(l, op)),
        apply(l, op).pipe.capacity == l.pipe.capacity,
{
    let next = apply(l, op);
    match op {
        Op::Write { bytes, reader_alive, waker } => {
            let taken = l.pipe.accepted(bytes, reader_alive);
            if !l.pipe.write_refused(reader_alive) && l.pipe.remaining() > 0 {
                assert(taken.len() == least(l.pipe.remaining(), bytes.len()));
                assert(next.written =~= next.received + next.pipe.buffer);
            } else {
                assert(taken.len() == 0);
                assert(next.written =~= next.received + next.pipe.buffer);
            }
        },
        Op::Flush { reader_alive, waker } => {},
        Op::Read { room, writer_alive, waker } => {
            let handed = l.pipe.delivered(room);
            assert(handed + l.pipe.buffer.skip(handed.len() as int) =~= l.pipe.buffer);
            if l.pipe.buffer.len() == 0 {
                assert(next.pipe.buffer =~= l.pipe.buffer);
            }
            assert(next.written =~= next.received + next.pipe.buffer);
        },
        Op::Close => {},
    }
}

/// FIFO order. Whatever the two handles do to a new pipe, and in whatever
/// order, the bytes accepted from the writer are exactly the bytes handed to
/// the reader followed by the bytes still in the buffer. So the reader sees
/// the written bytes in the order written, and has seen all of them once the
/// buffer is empty.
pub proof fn lemma_fifo_order(capacity: nat, trace: Seq<Op>)
    ensures
        balanced(run(opening(capacity), trace)),
        run(opening(capacity), trace).pipe.capacity == capacity,
        run(opening(capacity), trace).pipe.buffer.len() == 0 ==> run(
            opening(capacity),
            trace,
        ).received == run(opening(capacity), trace).written,
    decreases trace.len(),
{
    if trace.len() == 0 {
        assert(opening(capacity).written =~= opening(capacity).received + opening(
            capacity,
        ).pipe.buffer);
    } else {
        lemma_fifo_order(capacity, trace.drop_last());
        lemma_step_keeps_balance(run(opening(capacity), trace.drop_last()), trace.last());
    }
    let end = run(opening(capacity), trace);
    if end.pipe.buffer.len() == 0 {
        assert(end.received + end.pipe.buffer =~= end.received);
    }
}

/// Backpressure over a history: the writer is never more than the capacity
/// ahead of the reader.
pub proof fn lemma_backpressure(capacity: nat, trace: Seq<Op>)
    ensures
        run(opening(capacity), trace).written.len() <= run(opening(capacity), trace).received.len()
            + capacity,
{
    lemma_fifo_order(capacity, trace);
}

/// Backpressure at the full pipe: while the pipe is open and full, a write
/// accepts nothing, leaves the buffer as it is, and parks the writer.
pub proof fn lemma_full_pipe_blocks(m: PipeModel, bytes: Seq<u8>, waker: Waker)
    requires
        m.wf(),
        !m.closed,
        m.buffer.len() == m.capacity,
    ensures
        m.write_blocks(true),
        m.write_outcome(bytes, true) == Attempt::<Result<usize, PipeError>>::Pending,
        m.accepted(bytes, true).len() == 0,
        m.after_write(bytes, true, waker).buffer == m.buffer,
        m.after_write(bytes, true, waker).writer_waker == Some(waker),
{
}

/// Backpressure released: a read that takes bytes out of a full, open pipe
/// makes exactly that much room, and the next write of a non-empty slice is
/// accepted up to that room.
pub proof fn lemma_draining_unblocks(
    m: PipeModel,
    room: nat,
    writer_alive: bool,
    bytes: Seq<u8>,
    waker: Waker,
)
    requires
        m.wf(),
        !m.closed,
        m.buffer.len() == m.capacity,
        m.capacity > 0,
        room > 0,
        bytes.len() > 0,
    ensures
        m.delivered(room).len() == least(m.capacity, room),
        m.after_read(room, writer_alive, waker).remaining() == m.delivered(room).len(),
        m.after_read(room, writer_alive, waker).write_outcome(bytes, true) matches Attempt::Ready(Ok(_)),
        m.after_read(room, writer_alive, waker).accepted(bytes, true) == bytes.take(
            least(m.delivered(room).len(), bytes.len()) as int,
        ),
        m.after_read(room, writer_alive, waker).accepted(bytes, true).len() > 0,
{
}

/// Who is woken later is who parked last. Whatever was registered before,
/// an attempt that parks leaves the caller's own waker in its side's slot: a
/// write on a full open pipe and a flush with bytes waiting leave it in the
/// writer's slot, a read on an empty open pipe in the reader's. The slot of
/// the other side stays as it was.
pub proof fn lemma_parking_registers_the_caller(
    m: PipeModel,
    bytes: Seq<u8>,
    room: nat,
    waker: Waker,
)
    requires
        m.wf(),
        !m.closed,
    ensures
        m.buffer.len() == m.capacity ==> m.after_write(bytes, true, waker).writer_waker == Some(
            waker,
        ) && m.after_write(bytes, true, waker).reader_waker == m.reader_waker,
        m.buffer.len() > 0 ==> m.flush_outcome(true) == Attempt::<Result<(), PipeError>>::Pending
            && m.after_flush(true, waker).writer_waker == Some(waker) && m.after_flush(
            true,
            waker,
        ).reader_waker == m.reader_waker,
        m.buffer.len() == 0 ==> m.read_outcome(room, true) == Attempt::<
            Result<usize, PipeError>,
        >::Pending && m.after_read(room, true, waker).reader_waker == Some(waker) && m.after_read(
            room,
            true,
            waker,
        ).writer_waker == m.writer_waker,
{
}

/// A registration stays until its own side parks again. No operation takes
/// a waker out of a slot: the writer's slot changes only by a write or a
/// flush that parks, the reader's only by a read that parks, and a flush
/// changes nothing but the writer's slot.
pub proof fn lemma_only_parking_changes_a_slot(m: PipeModel, op: Op)
    ensures
        !(op is Read) ==> apply_to(m, op).reader_waker == m.reader_waker,
        op is Read || op is Close ==> apply_to(m, op).writer_waker == m.writer_waker,
        op matches Op::Read { room, writer_alive, waker } ==> apply_to(m, op).reader_waker == (
        if m.read_outcome(room, writer_alive) is Pending {
            Some(waker)
        } else {
            m.reader_waker
        }),
        op matches Op::Write { bytes, reader_alive, waker } ==> apply_to(m, op).writer_waker == (
        if m.write_outcome(bytes, reader_alive) is Pending {
            Some(waker)
        } else {
            m.writer_waker
        }),
        op matches Op::Flush { reader_alive, waker } ==> apply_to(m, op) == (if m.flush_outcome(
            reader_alive,
        ) is Pending {
            PipeModel { writer_waker: Some(waker), ..m }
        } else {
            m
        }),
{
}

/// Closing is for good: once closed, the pipe stays closed whatever happens
/// next, and nothing more is accepted from the writer.
pub proof fn lemma_closed_is_final(start: Ledger, trace: Seq<Op>)
    requires
        start.pipe.closed,
    ensures
        run(start, trace).pipe.closed,
        run(start, trace).written == start.written,
    decreases trace.len(),
{
    if trace.len() > 0 {
        lemma_closed_is_final(start, trace.drop_last());
        let before = run(start, trace.drop_last());
        match trace.last() {
            Op::Write { bytes, reader_alive, waker } => {
                assert(before.written + before.pipe.accepted(bytes, reader_alive)
                    =~= before.written);
            },
            Op::Flush { reader_alive, waker } => {},
            Op::Read { room, writer_alive, waker } => {},
            Op::Close => {},
        }
    }
}

/// A close sets the closed flag and nothing else: the buffered bytes, the
/// capacity and both registrations stay, and a second close changes nothing.
pub proof fn lemma_close_keeps_everything_else(m: PipeModel)
    ensures
        m.after_close().closed,
        m.after_close().buffer == m.buffer,
        m.after_close().capacity == m.capacity,
        m.after_close().reader_waker == m.reader_waker,
        m.after_close().writer_waker == m.writer_waker,
        m.after_close().after_close() == m.after_close(),
{
}

/// End of stream on close. Once the pipe is closed with an empty buffer,
/// then after anything that either side does next, a read returns 0 bytes
/// without error and without parking.
pub proof fn lemma_eof_after_close(start: Ledger, trace: Seq<Op>, room: nat, writer_alive: bool)
    requires
        start.pipe.closed,
        start.pipe.buffer.len() == 0,
    ensures
        run(start, trace).pipe.closed,
        run(start, trace).pipe.buffer.len() == 0,
        run(start, trace).received == start.received,
        run(start, trace).pipe.read_outcome(room, writer_alive) == Attempt::Ready(
            Ok::<usize, PipeError>(0usize),
        ),
    decreases trace.len(),
{
    if trace.len() > 0 {
        lemma_eof_after_close(start, trace.drop_last(), room, writer_alive);
        let before = run(start, trace.drop_last());
        match trace.last() {
            Op::Write { bytes, reader_alive, waker } => {},
            Op::Flush { reader_alive, waker } => {},
            Op::Read { room, writer_alive, waker } => {
                assert(before.received + before.pipe.delivered(room) =~= before.received);
            },
            Op::Close => {},
        }
    }
}

/// End of stream when the writer is gone: on an empty buffer a read returns
/// 0 bytes without error, whether or not the pipe was closed.
pub proof fn lemma_eof_when_writer_gone(m: PipeModel, room: nat, waker: Waker)
    requires
        m.buffer.len() == 0,
    ensures
        m.read_outcome(room, false) == Attempt::Ready(Ok::<usize, PipeError>(0usize)),
        m.after_read(room, false, waker).buffer.len() == 0,
{
}

/// Broken pipe after a close. Once the pipe is closed, then after anything
/// that either side does next, a write fails with `BrokenPipe`, accepts
/// nothing and changes nothing.
pub proof fn lemma_broken_pipe_after_close(
    start: Ledger,
    trace: Seq<Op>,
    bytes: Seq<u8>,
    reader_alive: bool,
    waker: Waker,
)
    requires
        start.pipe.closed,
    ensures
        run(start, trace).pipe.write_outcome(bytes, reader_alive) == Attempt::Ready(
            Err::<usize, PipeError>(PipeError::BrokenPipe),
        ),
        run(start, trace).pipe.accepted(bytes, reader_alive).len() == 0,
        run(start, trace).pipe.after_write(bytes, reader_alive, waker) == run(start, trace).pipe,
{
    lemma_closed_is_final(start, trace);
}

/// Broken pipe when the reader is gone: a write fails with `BrokenPipe`
/// and changes nothing, whether or not the pipe was closed.
pub proof fn lemma_broken_pipe_when_reader_gone(m: PipeModel, bytes: Seq<u8>, waker: Waker)
    ensures
        m.write_outcome(bytes, false) == Attempt::Ready(
            Err::<usize, PipeError>(PipeError::BrokenPipe),
        ),
        m.after_write(bytes, false, waker) == m,
{
}

/// Buffered bytes outlive the writer. With the pipe closed or the writer
/// gone, a read into non-empty space never parks and never fails: while
/// bytes are buffered it hands over the oldest of them, at least one, and
/// keeps the rest in order; on an empty buffer it returns 0.
pub proof fn lemma_reads_drain_then_end(m: PipeModel, room: nat, writer_alive: bool, waker: Waker)
    requires
        m.closed || !writer_alive,
        room > 0,
    ensures
        m.read_outcome(room, writer_alive) == Attempt::Ready(
            Ok::<usize, PipeError>(m.delivered(room).len() as usize),
        ),
        m.delivered(room).len() == least(m.buffer.len(), room),
        m.buffer.len() > 0 ==> m.delivered(room).len() > 0,
        m.delivered(room) + m.after_read(room, writer_alive, waker).buffer == m.buffer,
        m.after_read(room, writer_alive, waker).closed == m.closed,
        room >= m.buffer.len() ==> m.after_read(room, writer_alive, waker).at_end(writer_alive),
{
    let handed = m.delivered(room);
    assert(handed + m.buffer.skip(handed.len() as int) =~= m.buffer);
    if m.buffer.len() == 0 {
        assert(handed + m.after_read(room, writer_alive, waker).buffer =~= m.buffer);
    }
}

/// After a close no byte is lost: whatever either side does, the bytes
/// handed to the reader since, followed by the bytes still buffered, are the
/// bytes that were buffered at the close.
pub proof fn lemma_closed_pipe_only_drains(start: Ledger, trace: Seq<Op>)
    requires
        start.pipe.closed,
    ensures
        run(start, trace).received + run(start, trace).pipe.buffer == start.received
            + start.pipe.buffer,
    decreases trace.len(),
{
    if trace.len() > 0 {
        lemma_closed_pipe_only_drains(start, trace.drop_last());
        lemma_closed_is_final(start, trace.drop_last());
        let before = run(start, trace.drop_last());
        let after = run(start, trace);
        match trace.last() {
            Op::Write { bytes, reader_alive, waker } => {},
            Op::Flush { reader_alive, waker } => {},
            Op::Read { room, writer_alive, waker } => {
                let handed = before.pipe.delivered(room);
                assert(handed + before.pipe.buffer.skip(handed.len() as int)
                    =~= before.pipe.buffer);
                if before.pipe.buffer.len() == 0 {
                    assert(after.pipe.buffer =~= before.pipe.buffer);
                }
                assert(after.received + after.pipe.buffer =~= before.received
                    + before.pipe.buffer);
            },
            Op::Close => {},
        }
    }
}

} // verus!
