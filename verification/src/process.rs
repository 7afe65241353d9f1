//! The stdio of a pseudo-process: three pipes, each split into the end that
//! the host holds and the end that the guest's pseudo-files reach.

use crate::pipe::{LockPipe, PipeError, PipeView};
use crate::read_buf::{capacity, filled, room};
use std::task::Context;
use std::task::Poll;
use tokio::io::ReadBuf;
use vstd::prelude::*;

verus! {

/// The size that a stdio buffer has unless another is asked for.
pub const DEFAULT_BUF_SIZE: usize = 1024;

/// The sizes of the internal buffers used for stdio.
#[derive(Debug, Copy, Clone)]
pub struct MaxBufSize {
    /// The maximum size of the internal buffer for stdin.
    pub stdin: usize,
    /// The maximum size of the internal buffer for stdout.
    pub stdout: usize,
    /// The maximum size of the internal buffer for stderr.
    pub stderr: usize,
}

impl Default for MaxBufSize {
    fn default() -> (sizes: MaxBufSize)
        ensures
            sizes.stdin == DEFAULT_BUF_SIZE,
            sizes.stdout == DEFAULT_BUF_SIZE,
            sizes.stderr == DEFAULT_BUF_SIZE,
    {
        MaxBufSize { stdin: DEFAULT_BUF_SIZE, stdout: DEFAULT_BUF_SIZE, stderr: DEFAULT_BUF_SIZE }
    }
}

/// The host's end of a process's stdin: bytes written here are what the guest
/// reads. Dropping it closes the stream.
pub struct WasiStdin {
    inner: LockPipe,
}

impl WasiStdin {
    /// The pipe that this end writes to.
    pub closed spec fn pipe(&self) -> LockPipe {
        self.inner
    }

    /// Offers `buf` to the guest's stdin; see [`LockPipe::poll_write`].
    pub fn poll_write(&self, cx: &mut Context<'_>, buf: &[u8]) -> (r: Poll<Result<usize, PipeError>>)
        ensures
            r matches Poll::Ready(Ok(n)) ==> n <= buf@.len() && (n == 0 <==> buf@.len() == 0),
            r matches Poll::Ready(Err(e)) ==> e == PipeError::StreamClosed,
    {
        self.inner.poll_write(cx, buf)
    }

    /// Completes at once: nothing is held back on the way to the guest.
    pub fn poll_flush(&self, cx: &mut Context<'_>) -> (r: Poll<Result<(), PipeError>>)
        ensures
            r == Poll::Ready(Ok::<(), PipeError>(())),
    {
        self.inner.poll_flush(cx)
    }

    /// Closes the guest's stdin, which the guest sees as end of stream once
    /// it has read what is buffered.
    pub fn poll_shutdown(&self, cx: &mut Context<'_>) -> (r: Poll<Result<(), PipeError>>)
        ensures
            r == Poll::Ready(Ok::<(), PipeError>(())),
    {
        self.inner.poll_shutdown(cx)
    }
}

/// The host's end of a process's stdout: what the guest wrote is read here.
pub struct WasiStdout {
    inner: LockPipe,
}

impl WasiStdout {
    /// The pipe that this end reads from.
    pub closed spec fn pipe(&self) -> LockPipe {
        self.inner
    }

    /// Takes what the guest wrote to stdout; see [`LockPipe::poll_read`].
    pub fn poll_read(&self, cx: &mut Context<'_>, buf: &mut ReadBuf<'_>) -> (r: Poll<
        Result<(), PipeError>,
    >)
        ensures
            r == Poll::Ready(Ok::<(), PipeError>(())) || r == Poll::<Result<(), PipeError>>::Pending,
            filled(*old(buf)).is_prefix_of(filled(*final(buf))),
            filled(*final(buf)).len() <= filled(*old(buf)).len() + room(*old(buf)),
            capacity(*final(buf)) == capacity(*old(buf)),
            r is Pending ==> filled(*final(buf)) == filled(*old(buf)),
    {
        self.inner.poll_read(cx, buf)
    }
}

/// The host's end of a process's stderr: what the guest wrote is read here.
pub struct WasiStderr {
    inner: LockPipe,
}

impl WasiStderr {
    /// The pipe that this end reads from.
    pub closed spec fn pipe(&self) -> LockPipe {
        self.inner
    }

    /// Takes what the guest wrote to stderr; see [`LockPipe::poll_read`].
    pub fn poll_read(&self, cx: &mut Context<'_>, buf: &mut ReadBuf<'_>) -> (r: Poll<
        Result<(), PipeError>,
    >)
        ensures
            r == Poll::Ready(Ok::<(), PipeError>(())) || r == Poll::<Result<(), PipeError>>::Pending,
            filled(*old(buf)).is_prefix_of(filled(*final(buf))),
            filled(*final(buf)).len() <= filled(*old(buf)).len() + room(*old(buf)),
            capacity(*final(buf)) == capacity(*old(buf)),
            r is Pending ==> filled(*final(buf)) == filled(*old(buf)),
    {
        self.inner.poll_read(cx, buf)
    }
}

/// The guest's ends of the three pipes: what its stdin, stdout and stderr
/// pseudo-files are bound to while its entry point runs.
pub struct GuestStdio {
    /// Where the guest reads its input from.
    pub stdin: LockPipe,
    /// Where the guest's output goes.
    pub stdout: LockPipe,
    /// Where the guest's diagnostics go.
    pub stderr: LockPipe,
}

/// The stdio of one process. The host's ends are there for the taking, each
/// once; the guest's ends are handed out once, when the process is started.
pub struct WasiProcess {
    /// The writable end of the process's stdin.
    pub stdin: Option<WasiStdin>,
    /// The readable end of the process's stdout.
    pub stdout: Option<WasiStdout>,
    /// The readable end of the process's stderr.
    pub stderr: Option<WasiStderr>,
    /// The guest's ends, until the process is started.
    pub guest: Option<GuestStdio>,
}

impl WasiProcess {
    /// Whether the guest's ends have been handed out.
    pub open spec fn started(&self) -> bool {
        self.guest is None
    }

    /// Each of the host's ends is there and reaches the pipe that the guest's
    /// end of the same stream reaches.
    pub open spec fn paired(&self, guest: GuestStdio) -> bool {
        &&& self.stdin matches Some(end) && end.pipe() == guest.stdin
        &&& self.stdout matches Some(end) && end.pipe() == guest.stdout
        &&& self.stderr matches Some(end) && end.pipe() == guest.stderr
    }

    /// Three fresh pipes of the sizes asked for, each split into the host's
    /// end and the guest's end, and the process not started yet.
    pub fn with_buffers(buf_size: MaxBufSize) -> (process: WasiProcess)
        ensures
            process.guest matches Some(guest) && process.paired(guest),
            process.guest matches Some(guest) && guest.stdin.initial() == PipeView::fresh(
                buf_size.stdin as nat,
            ),
            process.guest matches Some(guest) && guest.stdout.initial() == PipeView::fresh(
                buf_size.stdout as nat,
            ),
            process.guest matches Some(guest) && guest.stderr.initial() == PipeView::fresh(
                buf_size.stderr as nat,
            ),
            !process.started(),
    {
        let stdin = LockPipe::new(buf_size.stdin);
        let stdout = LockPipe::new(buf_size.stdout);
        let stderr = LockPipe::new(buf_size.stderr);
        let guest = GuestStdio {
            stdin: stdin.clone(),
            stdout: stdout.clone(),
            stderr: stderr.clone(),
        };
        WasiProcess {
            stdin: Some(WasiStdin { inner: stdin }),
            stdout: Some(WasiStdout { inner: stdout }),
            stderr: Some(WasiStderr { inner: stderr }),
            guest: Some(guest),
        }
    }

    /// Starts the process: hands out the guest's ends, to be bound around the
    /// one call of the guest's entry point. A process starts once; later
    /// calls find nothing. The host's ends are not touched.
    pub fn start(&mut self) -> (guest: Option<GuestStdio>)
        ensures
            guest == old(self).guest,
            final(self).started(),
            final(self).stdin == old(self).stdin,
            final(self).stdout == old(self).stdout,
            final(self).stderr == old(self).stderr,
    {
        self.guest.take()
    }
}

} // verus!
