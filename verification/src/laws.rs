//! What holds of every pipe, proved over [`PipeView`], the state that each
//! pipe operation is specified on.

use crate::pipe::{PipeError, PipeView};
use std::task::Poll;
use std::task::Waker;
use vstd::prelude::*;

verus! {

/// One operation on a pipe.
pub enum PipeOp {
    /// A write attempt that offers these bytes, by the task with this token.
    Write(Seq<u8>, Waker),
    /// A read attempt into a destination with this much room, by the task
    /// with this token.
    Read(nat, Waker),
    /// Shutting the pipe down.
    Close,
}

impl PipeView {
    /// The pipe after one operation.
    pub open spec fn step(self, op: PipeOp) -> PipeView {
        match op {
            PipeOp::Write(bytes, token) => self.write(bytes, token),
            PipeOp::Read(room, token) => self.read(room, token),
            PipeOp::Close => self.close(),
        }
    }

    /// The pipe after a sequence of operations, first to last.
    pub open spec fn run(self, ops: Seq<PipeOp>) -> PipeView
        decreases ops.len(),
    {
        if ops.len() == 0 {
            self
        } else {
            self.run(ops.drop_last()).step(ops.last())
        }
    }

    /// The bytes handed over by successive reads of the task with token
    /// `token`, one for each entry of `rooms`, which gives the room of that
    /// read's destination.
    pub open spec fn drained(self, rooms: Seq<nat>, token: Waker) -> Seq<u8>
        decreases rooms.len(),
    {
        if rooms.len() == 0 {
            Seq::empty()
        } else {
            self.read_output(rooms.first()) + self.read(rooms.first(), token).drained(
                rooms.drop_first(),
                token,
            )
        }
    }

    /// The pipe after the successive reads of [`PipeView::drained`].
    pub open spec fn after_reads(self, rooms: Seq<nat>, token: Waker) -> PipeView
        decreases rooms.len(),
    {
        if rooms.len() == 0 {
            self
        } else {
            self.read(rooms.first(), token).after_reads(rooms.drop_first(), token)
        }
    }
}

/// No single operation lets the buffered bytes outgrow the capacity, and none
/// changes the capacity.
pub proof fn lemma_step_keeps_capacity(v: PipeView, op: PipeOp)
    requires
        v.valid(),
    ensures
        v.step(op).valid(),
        v.step(op).capacity == v.capacity,
{
}

/// Capacity invariant: whatever is written to, read from and done to a pipe
/// of capacity `capacity`, it never buffers more than `capacity` bytes.
pub proof fn lemma_capacity_invariant(capacity: nat, ops: Seq<PipeOp>)
    ensures
        PipeView::fresh(capacity).run(ops).valid(),
        PipeView::fresh(capacity).run(ops).capacity == capacity,
    decreases ops.len(),
{
    if ops.len() > 0 {
        lemma_capacity_invariant(capacity, ops.drop_last());
        lemma_step_keeps_capacity(PipeView::fresh(capacity).run(ops.drop_last()), ops.last());
    }
}

/// Closing releases both sides: nobody stays parked on a closed pipe, so a
/// writer that was suspended on a full pipe is resumed and, offering its
/// bytes again, is told that the stream is closed, and a reader that was
/// suspended on an empty pipe is resumed and finds the end of the stream.
pub proof fn lemma_close_releases(v: PipeView, bytes: Seq<u8>)
    ensures
        v.close().reader is None,
        v.close().writer is None,
        v.close().write_result(bytes.len()) == Poll::Ready(
            Err::<usize, PipeError>(PipeError::StreamClosed),
        ),
        v.close().read_result() == Poll::Ready(Ok::<(), PipeError>(())),
{
}

/// Closing is idempotent: a second close changes nothing.
pub proof fn lemma_close_idempotent(v: PipeView)
    ensures
        v.close().close() == v.close(),
        v.close().buffer == v.buffer,
        v.close().capacity == v.capacity,
{
}

/// Short write: a write that offers more than fits takes exactly the bytes
/// that fit, from the front, and fills the pipe; offering the rest right
/// after suspends and parks the writer's own token.
pub proof fn lemma_short_write(v: PipeView, bytes: Seq<u8>, token: Waker)
    requires
        v.valid(),
        !v.closed,
        0 < v.available() < bytes.len(),
    ensures
        v.write_result(bytes.len()) == Poll::Ready(
            Ok::<usize, PipeError>(v.available() as usize),
        ),
        v.write(bytes, token).buffer == v.buffer + bytes.take(v.available() as int),
        v.write(bytes, token).buffer.len() == v.capacity,
        v.write(bytes, token).write_result((bytes.len() - v.available()) as nat)
            == Poll::<Result<usize, PipeError>>::Pending,
        v.write(bytes, token).write(bytes.skip(v.available() as int), token).writer == Some(token),
        v.write(bytes, token).write(bytes.skip(v.available() as int), token).buffer == v.write(
            bytes,
            token,
        ).buffer,
        v.write_all(bytes, token) == v.write(bytes, token).write(
            bytes.skip(v.available() as int),
            token,
        ),
        v.write_all_result(bytes.len()) == Poll::<Result<(), PipeError>>::Pending,
{
}

/// Writing all of some bytes moves as many of them as one write does, and
/// leaves the pipe as that write leaves it but for the writer's slot; it
/// succeeds exactly where an open pipe took them all.
pub proof fn lemma_write_all(v: PipeView, bytes: Seq<u8>, token: Waker)
    requires
        bytes.len() > 0,
    ensures
        v.write_all(bytes, token).buffer == v.write(bytes, token).buffer,
        v.write_all(bytes, token).closed == v.closed,
        v.write_all(bytes, token).capacity == v.capacity,
        v.write_all(bytes, token).reader == v.write(bytes, token).reader,
        v.write_all_result(bytes.len()) == Poll::Ready(Ok::<(), PipeError>(())) <==> !v.closed
            && bytes.len() <= v.available(),
        v.write_all_result(bytes.len()) == Poll::<Result<(), PipeError>>::Pending
            ==> v.write_all(bytes, token).writer == Some(token),
        v.valid() ==> v.write_all(bytes, token).valid(),
{
}

/// Successive reads hand the buffered bytes over in order and lose none:
/// what they delivered, followed by what is still buffered, is what was
/// buffered before, however the reads were sized.
pub proof fn lemma_reads_in_order(v: PipeView, rooms: Seq<nat>, token: Waker)
    ensures
        v.drained(rooms, token) + v.after_reads(rooms, token).buffer == v.buffer,
        v.after_reads(rooms, token).closed == v.closed,
        v.after_reads(rooms, token).capacity == v.capacity,
    decreases rooms.len(),
{
    if rooms.len() > 0 {
        let next = v.read(rooms.first(), token);
        let later = rooms.drop_first();
        lemma_reads_in_order(next, later, token);
        assert(v.drained(rooms, token) + v.after_reads(rooms, token).buffer =~= v.read_output(
            rooms.first(),
        ) + (next.drained(later, token) + next.after_reads(later, token).buffer));
    }
}

/// FIFO: when `a` and then `b` are written, the pipe holds what it held,
/// then the accepted part of `a`, then the accepted part of `b`; reads that
/// follow reproduce exactly that, in that order, in however many calls. Where
/// the pipe is open and has room for both, the accepted parts are all of `a`
/// and all of `b`.
pub proof fn lemma_fifo(
    v: PipeView,
    a: Seq<u8>,
    b: Seq<u8>,
    rooms: Seq<nat>,
    writer: Waker,
    reader: Waker,
)
    requires
        v.valid(),
    ensures
        ({
            let w = v.write(a, writer).write(b, writer);
            let kept_a = a.take(v.accepted(a.len()) as int);
            let kept_b = b.take(v.write(a, writer).accepted(b.len()) as int);
            &&& w.buffer == v.buffer + kept_a + kept_b
            &&& w.drained(rooms, reader) + w.after_reads(rooms, reader).buffer == v.buffer + kept_a
                + kept_b
            &&& w.after_reads(rooms, reader).buffer.len() == 0 ==> w.drained(rooms, reader)
                == v.buffer + kept_a + kept_b
            &&& !v.closed && a.len() + b.len() <= v.available() ==> kept_a == a && kept_b == b
        }),
{
    lemma_reads_in_order(v.write(a, writer).write(b, writer), rooms, reader);
}

/// Post-close write: once a pipe is closed every write fails with
/// `StreamClosed` and changes nothing, and what was buffered can still be
/// read in full: reads never suspend, deliver the buffered bytes in order,
/// and then report end of stream by completing without a byte.
pub proof fn lemma_write_after_close(
    v: PipeView,
    bytes: Seq<u8>,
    rooms: Seq<nat>,
    room: nat,
    writer: Waker,
    reader: Waker,
)
    ensures
        v.close().write_result(bytes.len()) == Poll::Ready(
            Err::<usize, PipeError>(PipeError::StreamClosed),
        ),
        v.close().write(bytes, writer) == v.close(),
        v.close().buffer == v.buffer,
        ({
            let w = v.close().write(bytes, writer);
            let rest = w.after_reads(rooms, reader);
            &&& w.drained(rooms, reader) + rest.buffer == v.buffer
            &&& rest.read_result() == Poll::Ready(Ok::<(), PipeError>(()))
            &&& rest.buffer.len() == 0 ==> rest.read_output(room) == Seq::<u8>::empty()
                && rest.read(room, reader) == rest
        }),
{
    lemma_reads_in_order(v.close().write(bytes, writer), rooms, reader);
}

/// No spurious wake: a write of no bytes leaves a parked reader's token in
/// its slot and the buffer as it was, a read into no room leaves a parked
/// writer's token in its slot and the buffer as it was, and a read on an
/// empty pipe that is still open suspends and parks the reader's own token
/// instead of completing without a byte.
pub proof fn lemma_no_spurious_wake(v: PipeView, room: nat, writer: Waker, reader: Waker)
    ensures
        v.write(Seq::<u8>::empty(), writer).reader == v.reader,
        v.write(Seq::<u8>::empty(), writer).buffer == v.buffer,
        v.read(0, reader).writer == v.writer,
        v.read(0, reader).buffer == v.buffer,
        v.buffer.len() == 0 && !v.closed ==> v.read_result() == Poll::<
            Result<(), PipeError>,
        >::Pending && v.read(room, reader).reader == Some(reader) && v.read(room, reader).buffer
            == v.buffer && v.read(room, reader).writer == v.writer,
{
}

/// A full pipe that is still open suspends every write, one of no bytes
/// too: nothing is taken, the writer's own token takes the writer's slot,
/// and a parked reader stays parked.
pub proof fn lemma_full_pipe_suspends(v: PipeView, bytes: Seq<u8>, writer: Waker)
    requires
        !v.closed,
        v.available() == 0,
    ensures
        v.write_result(bytes.len()) == Poll::<Result<usize, PipeError>>::Pending,
        v.write(bytes, writer).writer == Some(writer),
        v.write(bytes, writer).buffer == v.buffer,
        v.write(bytes, writer).reader == v.reader,
{
}

} // verus!
