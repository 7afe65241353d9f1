//! Run a sandboxed guest as a pseudo-process: bounded, close-aware byte pipes
//! for its stdin, stdout and stderr, with every pipe operation verified.

pub mod buffer;
pub mod error;
pub mod laws;
pub mod lock;
pub mod pipe;
pub mod process;
pub mod read_buf;
pub mod stdio;
pub mod waker;

pub use error::{spawn_outcome, SpawnError};
pub use pipe::{LockPipe, Pipe, PipeError, PipeView};
pub use process::{
    GuestStdio, MaxBufSize, WasiProcess, WasiStderr, WasiStdin, WasiStdout, DEFAULT_BUF_SIZE,
};
pub use stdio::{Stderr, Stdin, Stdout};
