//! A bounded, close-aware byte pipe with one writer and one reader.
//!
//! A pipe is described by its [`PipeView`]: the bytes in flight, whether the
//! pipe has shut down, the capacity, and the tokens of the reader and the
//! writer that are parked on it. Every operation is stated as a step on that
//! view.
//!
//! A step that releases a parked side empties its slot and wakes the token
//! that was in it with `Waker::wake`. That call runs the executor's code; it
//! is taken to return without a panic.

use crate::buffer::{
    buffer_advance, buffer_as_slice, buffer_extend_from_slice, buffer_has_remaining, buffer_len,
    buffer_new, buffer_remaining, buffered,
};
use crate::lock::{arc_clone, guard_value, made_around, mutex_lock, mutex_new};
use crate::read_buf::{capacity, filled, read_buf_put_slice, read_buf_remaining, room};
use crate::waker::{context_waker, token_of, waker_clone, waker_wake};
use bytes::BytesMut;
use parking_lot::Mutex;
use std::sync::Arc;
use std::task::Context;
use std::task::Poll;
use std::task::Waker;
use tokio::io::ReadBuf;
use vstd::prelude::*;
use vstd::slice::slice_subrange;

verus! {

/// Why a pipe operation failed.
#[derive(Debug, Clone, Copy, PartialEq, Eq, Structural)]
pub enum PipeError {
    /// A write was attempted after the write side had shut down.
    StreamClosed,
}

/// The mathematical state of a pipe.
pub struct PipeView {
    /// Bytes written and not yet read, oldest first.
    pub buffer: Seq<u8>,
    /// Whether the pipe has shut down.
    pub closed: bool,
    /// The most bytes the pipe may hold.
    pub capacity: nat,
    /// The token of the reader that is suspended on the pipe, if one is.
    pub reader: Option<Waker>,
    /// The token of the writer that is suspended on the pipe, if one is.
    pub writer: Option<Waker>,
}

impl PipeView {
    /// The bytes in flight fit the capacity.
    pub open spec fn valid(self) -> bool {
        self.buffer.len() <= self.capacity
    }

    /// An open, empty pipe that nobody waits on.
    pub open spec fn fresh(capacity: nat) -> PipeView {
        PipeView { buffer: Seq::empty(), closed: false, capacity, reader: None, writer: None }
    }

    /// Whether a suspended reader is registered for resumption.
    pub open spec fn reader_waiting(self) -> bool {
        self.reader is Some
    }

    /// Whether a suspended writer is registered for resumption.
    pub open spec fn writer_waiting(self) -> bool {
        self.writer is Some
    }

    /// Room left for new bytes.
    pub open spec fn available(self) -> nat {
        if self.buffer.len() <= self.capacity {
            (self.capacity - self.buffer.len()) as nat
        } else {
            0
        }
    }

    /// How many of `len` offered bytes a write takes: all that fit.
    pub open spec fn accepted(self, len: nat) -> nat {
        if self.closed {
            0
        } else if len <= self.available() {
            len
        } else {
            self.available()
        }
    }

    /// The pipe after the task with token `token` attempted a write of
    /// `bytes`.
    ///
    /// A closed pipe is left alone. A full pipe parks the writer: its token
    /// takes the writer's slot. Otherwise the bytes that fit are appended,
    /// and a parked reader is released if at least one byte went in.
    pub open spec fn write(self, bytes: Seq<u8>, token: Waker) -> PipeView {
        if self.closed {
            self
        } else if self.available() == 0 {
            PipeView { writer: Some(token), ..self }
        } else {
            PipeView {
                buffer: self.buffer + bytes.take(self.accepted(bytes.len()) as int),
                reader: if self.accepted(bytes.len()) == 0 {
                    self.reader
                } else {
                    None
                },
                ..self
            }
        }
    }

    /// What a write of `len` bytes reports.
    pub open spec fn write_result(self, len: nat) -> Poll<Result<usize, PipeError>> {
        if self.closed {
            Poll::Ready(Err(PipeError::StreamClosed))
        } else if self.available() == 0 {
            Poll::Pending
        } else {
            Poll::Ready(Ok(self.accepted(len) as usize))
        }
    }

    /// The pipe after the task with token `token` attempted to write all of
    /// `bytes`: one offer, and where that one was cut short, the remainder
    /// offered once more, which finds the pipe full and parks the writer.
    /// Nothing is offered where there are no bytes.
    pub open spec fn write_all(self, bytes: Seq<u8>, token: Waker) -> PipeView {
        if bytes.len() == 0 {
            self
        } else if self.closed || self.accepted(bytes.len()) == bytes.len() {
            self.write(bytes, token)
        } else {
            self.write(bytes, token).write(bytes.skip(self.accepted(bytes.len()) as int), token)
        }
    }

    /// What an attempt to write all of `len` bytes reports: failure on a
    /// closed pipe, success where all of them fit, and suspension otherwise.
    pub open spec fn write_all_result(self, len: nat) -> Poll<Result<(), PipeError>> {
        if len == 0 {
            Poll::Ready(Ok(()))
        } else if self.closed {
            Poll::Ready(Err(PipeError::StreamClosed))
        } else if self.accepted(len) == len {
            Poll::Ready(Ok(()))
        } else {
            Poll::Pending
        }
    }

    /// How many bytes a read into `room` free bytes hands over.
    pub open spec fn delivered(self, room: nat) -> nat {
        if self.buffer.len() <= room {
            self.buffer.len()
        } else {
            room
        }
    }

    /// The pipe after the task with token `token` attempted a read into
    /// `room` free bytes.
    ///
    /// Buffered bytes leave from the front, and a parked writer is released if
    /// at least one byte left. An empty open pipe parks the reader: its token
    /// takes the reader's slot. An empty closed pipe is left alone.
    pub open spec fn read(self, room: nat, token: Waker) -> PipeView {
        if self.buffer.len() > 0 {
            PipeView {
                buffer: self.buffer.skip(self.delivered(room) as int),
                writer: if self.delivered(room) == 0 {
                    self.writer
                } else {
                    None
                },
                ..self
            }
        } else if self.closed {
            self
        } else {
            PipeView { reader: Some(token), ..self }
        }
    }

    /// The bytes that a read into `room` free bytes hands over: the oldest
    /// ones, as many as fit.
    pub open spec fn read_output(self, room: nat) -> Seq<u8> {
        self.buffer.take(self.delivered(room) as int)
    }

    /// What a read reports: it completes while bytes are buffered or the pipe
    /// is closed, and suspends otherwise. It never fails.
    pub open spec fn read_result(self) -> Poll<Result<(), PipeError>> {
        if self.buffer.len() > 0 || self.closed {
            Poll::Ready(Ok(()))
        } else {
            Poll::Pending
        }
    }

    /// The pipe after it was shut down: closed, with a parked reader and a
    /// parked writer both released. What is buffered stays readable.
    pub open spec fn close(self) -> PipeView {
        PipeView { closed: true, reader: None, writer: None, ..self }
    }
}

/// A unidirectional pipe over a piece of memory: what is written can be read
/// back, in order, once.
#[derive(Debug)]
pub struct Pipe {
    /// The bytes written and not yet read.
    buffer: BytesMut,
    /// Whether the write side has been closed.
    is_closed: bool,
    /// The most bytes `buffer` may hold before a write suspends.
    max_buf_size: usize,
    /// The token of a reader that found the pipe empty.
    read_waker: Option<Waker>,
    /// The token of a writer that found the pipe full.
    write_waker: Option<Waker>,
}

impl View for Pipe {
    type V = PipeView;

    closed spec fn view(&self) -> PipeView {
        PipeView {
            buffer: buffered(self.buffer),
            closed: self.is_closed,
            capacity: self.max_buf_size as nat,
            reader: self.read_waker,
            writer: self.write_waker,
        }
    }
}

impl Pipe {
    /// An open, empty pipe that holds at most `max_buf_size` bytes.
    pub fn new(max_buf_size: usize) -> (pipe: Pipe)
        ensures
            pipe@ == PipeView::fresh(max_buf_size as nat),
            pipe@.valid(),
    {
        Pipe {
            buffer: buffer_new(),
            is_closed: false,
            max_buf_size,
            read_waker: None,
            write_waker: None,
        }
    }

    /// Shuts the pipe down and releases whoever is parked on it: a reader,
    /// which then finds what is buffered and after it the end of the stream,
    /// and a writer, which then finds the pipe closed. Closing twice is the
    /// same as closing once.
    ///
    /// Each released token is woken with `Waker::wake`, which is taken to
    /// return without a panic.
    pub fn close(&mut self)
        ensures
            final(self)@ == old(self)@.close(),
        opens_invariants none
        no_unwind
    {
        self.is_closed = true;
        let mut reader: Option<Waker> = None;
        std::mem::swap(&mut self.read_waker, &mut reader);
        if let Some(waker) = reader {
            waker_wake(waker);
        }
        let mut writer: Option<Waker> = None;
        std::mem::swap(&mut self.write_waker, &mut writer);
        if let Some(waker) = writer {
            waker_wake(waker);
        }
    }

    /// Offers `buf` to the pipe.
    ///
    /// Fails with `StreamClosed` once the pipe is closed. Suspends, leaving
    /// the caller's token in the writer's slot, while the pipe is full.
    /// Otherwise takes the bytes that fit, a short write when `buf` is
    /// longer, and reports their number; a parked reader is released if that
    /// number is not zero.
    ///
    /// A released reader's token is woken with `Waker::wake`, which is taken
    /// to return without a panic.
    pub fn poll_write(&mut self, cx: &mut Context<'_>, buf: &[u8]) -> (r: Poll<
        Result<usize, PipeError>,
    >)
        ensures
            final(self)@ == old(self)@.write(buf@, token_of(*old(cx))),
            r == old(self)@.write_result(buf@.len()),
            old(self)@.valid() ==> final(self)@.valid(),
            *final(cx) == *old(cx),
    {
        if self.is_closed {
            return Poll::Ready(Err(PipeError::StreamClosed));
        }
        let avail: usize = self.max_buf_size.saturating_sub(buffer_len(&self.buffer));
        if avail == 0 {
            self.write_waker = Some(waker_clone(context_waker(cx)));
            return Poll::Pending;
        }
        let len: usize = if buf.len() <= avail {
            buf.len()
        } else {
            avail
        };
        buffer_extend_from_slice(&mut self.buffer, slice_subrange(buf, 0, len));
        if len > 0 {
            if let Some(waker) = self.read_waker.take() {
                waker_wake(waker);
            }
        }
        Poll::Ready(Ok(len))
    }

    /// Writes all of `buf`, as far as the pipe lets it. The first `*written`
    /// bytes count as written before; what lies behind them is offered, and
    /// what the pipe takes is added to `*written`. Where the pipe takes all
    /// of it the write is complete. Where it takes a part, the remainder is
    /// offered again, finds the pipe full and suspends, leaving the caller's
    /// token in the writer's slot. After a suspension the call is made again
    /// with the same `buf` and `written`, and goes on where it stopped.
    pub fn poll_write_all(&mut self, cx: &mut Context<'_>, buf: &[u8], written: &mut usize) -> (r:
        Poll<Result<(), PipeError>>)
        ensures
            *old(written) >= buf@.len() ==> r == Poll::Ready(Ok::<(), PipeError>(()))
                && *final(written) == *old(written) && final(self)@ == old(self)@,
            *old(written) < buf@.len() ==> ({
                let rest = buf@.skip(*old(written) as int);
                &&& *final(written) == *old(written) + old(self)@.accepted(rest.len())
                &&& r == old(self)@.write_all_result(rest.len())
                &&& final(self)@ == old(self)@.write_all(rest, token_of(*old(cx)))
            }),
            old(self)@.valid() ==> final(self)@.valid(),
            *final(cx) == *old(cx),
    {
        while *written < buf.len()
            invariant
                *cx == *old(cx),
                *old(written) <= *written <= buf@.len() || *written == *old(written),
                *written == *old(written) ==> self@ == old(self)@,
                *written != *old(written) ==> {
                    let rest = buf@.skip(*old(written) as int);
                    &&& !old(self)@.closed
                    &&& *written == *old(written) + old(self)@.accepted(rest.len())
                    &&& self@ == old(self)@.write(rest, token_of(*old(cx)))
                },
            decreases buf@.len() - *written,
        {
            let rest = slice_subrange(buf, *written, buf.len());
            match self.poll_write(cx, rest) {
                Poll::Ready(Ok(n)) => {
                    *written = *written + n;
                },
                Poll::Ready(Err(e)) => {
                    return Poll::Ready(Err(e));
                },
                Poll::Pending => {
                    return Poll::Pending;
                },
            }
        }
        Poll::Ready(Ok(()))
    }

    /// Moves buffered bytes into `buf`.
    ///
    /// While bytes are buffered, as many as fit leave from the front and are
    /// appended to `buf`; a parked writer is released if at least one byte
    /// moved. An empty pipe reports end of stream, by completing without a
    /// byte, once it is closed; until then it suspends and leaves the caller's
    /// token in the reader's slot. A read never fails.
    ///
    /// A released writer's token is woken with `Waker::wake`, which is taken
    /// to return without a panic.
    pub fn poll_read(&mut self, cx: &mut Context<'_>, buf: &mut ReadBuf<'_>) -> (r: Poll<
        Result<(), PipeError>,
    >)
        ensures
            final(self)@ == old(self)@.read(room(*old(buf)), token_of(*old(cx))),
            old(self)@.valid() ==> final(self)@.valid(),
            r == old(self)@.read_result(),
            *final(cx) == *old(cx),
            filled(*final(buf)) == filled(*old(buf)) + old(self)@.read_output(room(*old(buf))),
            capacity(*final(buf)) == capacity(*old(buf)),
    {
        if buffer_has_remaining(&self.buffer) {
            let room: usize = read_buf_remaining(buf);
            let held: usize = buffer_remaining(&self.buffer);
            let max: usize = if held <= room {
                held
            } else {
                room
            };
            read_buf_put_slice(buf, slice_subrange(buffer_as_slice(&self.buffer), 0, max));
            buffer_advance(&mut self.buffer, max);
            if max > 0 {
                if let Some(waker) = self.write_waker.take() {
                    waker_wake(waker);
                }
            }
            Poll::Ready(Ok(()))
        } else if self.is_closed {
            Poll::Ready(Ok(()))
        } else {
            self.read_waker = Some(waker_clone(context_waker(cx)));
            Poll::Pending
        }
    }

    /// Nothing is held back by the pipe, so flushing completes at once and
    /// changes nothing.
    pub fn poll_flush(&mut self, cx: &mut Context<'_>) -> (r: Poll<Result<(), PipeError>>)
        ensures
            *final(self) == *old(self),
            r == Poll::Ready(Ok::<(), PipeError>(())),
    {
        Poll::Ready(Ok(()))
    }

    /// Shuts the pipe down, as [`Pipe::close`] does, and completes at once.
    pub fn poll_shutdown(&mut self, cx: &mut Context<'_>) -> (r: Poll<Result<(), PipeError>>)
        ensures
            final(self)@ == old(self)@.close(),
            r == Poll::Ready(Ok::<(), PipeError>(())),
    {
        self.close();
        Poll::Ready(Ok(()))
    }
}

/// A shared handle to one [`Pipe`]. Every clone reaches the same pipe, one
/// operation at a time: the lock is taken for a single step and never held
/// across a suspension. Dropping any clone closes the pipe.
///
/// What a step finds in the pipe depends on what the other holders did
/// before, so each contract states what holds whatever the pipe held; the
/// exact step is the one that [`Pipe`] states.
///
/// A step that releases a parked side wakes its token with `Waker::wake`
/// while the lock is held. That call is taken to return without a panic and
/// without reaching for the same pipe.
#[derive(Debug)]
pub struct LockPipe {
    inner: Arc<Mutex<Pipe>>,
}

impl Clone for LockPipe {
    /// Another handle to the same pipe.
    fn clone(&self) -> (handle: LockPipe)
        ensures
            handle == *self,
    {
        LockPipe { inner: arc_clone(&self.inner) }
    }
}

impl LockPipe {
    /// A handle to a fresh pipe that holds at most `max_buf_size` bytes: the
    /// pipe behind it starts out open and empty, with nobody waiting on it.
    pub fn new(max_buf_size: usize) -> (handle: LockPipe)
        ensures
            handle.initial() == PipeView::fresh(max_buf_size as nat),
            handle.initial().valid(),
    {
        let inner = Arc::new(mutex_new(Pipe::new(max_buf_size)));
        LockPipe { inner }
    }

    /// The state in which the shared pipe was made. Every clone of a handle
    /// has the same one; what the pipe holds now is known only to a step
    /// that is made under the lock.
    pub closed spec fn initial(&self) -> PipeView {
        made_around(*self.inner)
    }

    /// [`Pipe::poll_read`] on the shared pipe, under its lock: `buf` gains
    /// bytes at its end, no more than it had room for, and never loses any. A
    /// suspended read moved nothing.
    pub fn poll_read(&self, cx: &mut Context<'_>, buf: &mut ReadBuf<'_>) -> (r: Poll<
        Result<(), PipeError>,
    >)
        ensures
            r == Poll::Ready(Ok::<(), PipeError>(())) || r == Poll::<Result<(), PipeError>>::Pending,
            filled(*old(buf)).is_prefix_of(filled(*final(buf))),
            filled(*final(buf)).len() <= filled(*old(buf)).len() + room(*old(buf)),
            capacity(*final(buf)) == capacity(*old(buf)),
            r is Pending ==> filled(*final(buf)) == filled(*old(buf)),
    {
        let mut guard = mutex_lock(&self.inner);
        let pipe = guard_value(&mut guard);
        pipe.poll_read(cx, buf)
    }

    /// [`Pipe::poll_write`] on the shared pipe, under its lock: a completed
    /// write took a prefix of `buf`, and took at least one byte unless `buf`
    /// was empty.
    pub fn poll_write(&self, cx: &mut Context<'_>, buf: &[u8]) -> (r: Poll<Result<usize, PipeError>>)
        ensures
            r matches Poll::Ready(Ok(n)) ==> n <= buf@.len() && (n == 0 <==> buf@.len() == 0),
            r matches Poll::Ready(Err(e)) ==> e == PipeError::StreamClosed,
    {
        let mut guard = mutex_lock(&self.inner);
        let pipe = guard_value(&mut guard);
        pipe.poll_write(cx, buf)
    }

    /// [`Pipe::poll_write_all`] on the shared pipe, under its lock: `*written`
    /// only grows and never passes the length of `buf`, success means that
    /// all of `buf` is written, and a suspension or a failure means that some
    /// of it is not.
    pub fn poll_write_all(&self, cx: &mut Context<'_>, buf: &[u8], written: &mut usize) -> (r: Poll<
        Result<(), PipeError>,
    >)
        ensures
            *old(written) <= *final(written),
            *old(written) <= buf@.len() ==> *final(written) <= buf@.len(),
            *old(written) >= buf@.len() ==> r == Poll::Ready(Ok::<(), PipeError>(()))
                && *final(written) == *old(written),
            r matches Poll::Ready(Ok(_)) ==> *final(written) >= buf@.len(),
            r matches Poll::Ready(Err(e)) ==> e == PipeError::StreamClosed && *final(written)
                < buf@.len(),
            r is Pending ==> *final(written) < buf@.len(),
    {
        let mut guard = mutex_lock(&self.inner);
        let pipe = guard_value(&mut guard);
        pipe.poll_write_all(cx, buf, written)
    }

    /// [`Pipe::poll_flush`] on the shared pipe: completes at once.
    pub fn poll_flush(&self, cx: &mut Context<'_>) -> (r: Poll<Result<(), PipeError>>)
        ensures
            r == Poll::Ready(Ok::<(), PipeError>(())),
    {
        let mut guard = mutex_lock(&self.inner);
        let pipe = guard_value(&mut guard);
        pipe.poll_flush(cx)
    }

    /// [`Pipe::poll_shutdown`] on the shared pipe: closes it for every holder
    /// and completes at once.
    pub fn poll_shutdown(&self, cx: &mut Context<'_>) -> (r: Poll<Result<(), PipeError>>)
        ensures
            r == Poll::Ready(Ok::<(), PipeError>(())),
    {
        let mut guard = mutex_lock(&self.inner);
        let pipe = guard_value(&mut guard);
        pipe.poll_shutdown(cx)
    }
}

impl Drop for LockPipe {
    /// Letting go of a handle closes the pipe for every holder, so that the
    /// other side learns of it: a parked reader or writer is released, reads
    /// drain what is buffered and then see the end of the stream, and writes
    /// fail.
    fn drop(&mut self)
        opens_invariants none
        no_unwind
    {
        let mut guard = mutex_lock(&self.inner);
        let pipe = guard_value(&mut guard);
        pipe.close();
    }
}

} // verus!
