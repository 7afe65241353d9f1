use std::task::{Context, Poll, Waker};

use tokio::io::ReadBuf;
use wasi_process::{
    spawn_outcome, GuestStdio, LockPipe, MaxBufSize, PipeError, WasiProcess, WasiStderr,
    WasiStdout, DEFAULT_BUF_SIZE,
};

fn read_guest(pipe: &LockPipe, room: usize) -> (Poll<Result<(), PipeError>>, Vec<u8>) {
    let mut cx = Context::from_waker(Waker::noop());
    let mut space = vec![0u8; room];
    let mut buf = ReadBuf::new(&mut space);
    let r = pipe.poll_read(&mut cx, &mut buf);
    let got = buf.filled().to_vec();
    (r, got)
}

fn read_stdout(end: &WasiStdout, room: usize) -> (Poll<Result<(), PipeError>>, Vec<u8>) {
    let mut cx = Context::from_waker(Waker::noop());
    let mut space = vec![0u8; room];
    let mut buf = ReadBuf::new(&mut space);
    let r = end.poll_read(&mut cx, &mut buf);
    let got = buf.filled().to_vec();
    (r, got)
}

fn read_stderr(end: &WasiStderr, room: usize) -> (Poll<Result<(), PipeError>>, Vec<u8>) {
    let mut cx = Context::from_waker(Waker::noop());
    let mut space = vec![0u8; room];
    let mut buf = ReadBuf::new(&mut space);
    let r = end.poll_read(&mut cx, &mut buf);
    let got = buf.filled().to_vec();
    (r, got)
}

fn uppercase_guest(io: GuestStdio) -> Result<(), wasmer::RuntimeError> {
    let mut cx = Context::from_waker(Waker::noop());
    let mut input = Vec::new();
    loop {
        let (r, got) = read_guest(&io.stdin, 2);
        assert_eq!(r, Poll::Ready(Ok(())));
        if got.is_empty() {
            break;
        }
        input.extend(got);
    }
    let upper = input.to_ascii_uppercase();
    let mut written = 0usize;
    assert_eq!(io.stdout.poll_write_all(&mut cx, &upper, &mut written), Poll::Ready(Ok(())));
    let count = input.len().to_string();
    let mut written = 0usize;
    assert_eq!(
        io.stderr.poll_write_all(&mut cx, count.as_bytes(), &mut written),
        Poll::Ready(Ok(()))
    );
    Ok(())
}

#[test]
fn default_sizes_are_1024() {
    let sizes = MaxBufSize::default();
    assert_eq!(DEFAULT_BUF_SIZE, 1024);
    assert_eq!(sizes.stdin, 1024);
    assert_eq!(sizes.stdout, 1024);
    assert_eq!(sizes.stderr, 1024);
}

#[test]
fn each_end_is_taken_once() {
    let mut process = WasiProcess::with_buffers(MaxBufSize::default());
    assert!(process.stdin.take().is_some());
    assert!(process.stdin.take().is_none());
    assert!(process.stdout.take().is_some());
    assert!(process.stdout.take().is_none());
    assert!(process.stderr.take().is_some());
    assert!(process.stderr.take().is_none());
}

#[test]
fn a_process_starts_once() {
    let mut process = WasiProcess::with_buffers(MaxBufSize::default());
    assert!(process.start().is_some());
    assert!(process.start().is_none());
    assert!(process.stdin.is_some());
    assert!(process.stdout.is_some());
    assert!(process.stderr.is_some());
}

#[test]
fn buffers_have_the_sizes_asked_for() {
    let mut process = WasiProcess::with_buffers(MaxBufSize { stdin: 2, stdout: 3, stderr: 1 });
    let stdin = process.stdin.take().unwrap();
    let guest = process.start().unwrap();
    let mut cx = Context::from_waker(Waker::noop());
    assert_eq!(stdin.poll_write(&mut cx, b"abcdef"), Poll::Ready(Ok(2)));
    assert_eq!(guest.stdout.poll_write(&mut cx, b"abcdef"), Poll::Ready(Ok(3)));
    assert_eq!(guest.stderr.poll_write(&mut cx, b"abcdef"), Poll::Ready(Ok(1)));
    assert_eq!(stdin.poll_write(&mut cx, b"cdef"), Poll::Pending);
}

#[test]
fn uppercase_end_to_end() {
    let mut process = WasiProcess::with_buffers(MaxBufSize::default());
    let stdin = process.stdin.take().unwrap();
    let stdout = process.stdout.take().unwrap();
    let stderr = process.stderr.take().unwrap();
    let mut cx = Context::from_waker(Waker::noop());
    assert_eq!(stdin.poll_write(&mut cx, b"abc"), Poll::Ready(Ok(3)));
    assert_eq!(stdin.poll_flush(&mut cx), Poll::Ready(Ok(())));
    assert_eq!(stdin.poll_shutdown(&mut cx), Poll::Ready(Ok(())));

    let guest = process.start().unwrap();
    let outcome = uppercase_guest(guest);

    let (r, out) = read_stdout(&stdout, 64);
    assert_eq!(r, Poll::Ready(Ok(())));
    assert_eq!(out, b"ABC".to_vec());
    let (r, out) = read_stdout(&stdout, 64);
    assert_eq!(r, Poll::Ready(Ok(())));
    assert!(out.is_empty());
    let (r, err) = read_stderr(&stderr, 64);
    assert_eq!(r, Poll::Ready(Ok(())));
    assert_eq!(err, b"3".to_vec());
    let (r, err) = read_stderr(&stderr, 64);
    assert_eq!(r, Poll::Ready(Ok(())));
    assert!(err.is_empty());
    assert!(matches!(spawn_outcome(Poll::Ready(Ok(outcome))), Poll::Ready(Ok(()))));
}

#[test]
fn dropping_stdin_ends_the_guests_input() {
    let mut process = WasiProcess::with_buffers(MaxBufSize::default());
    let stdin = process.stdin.take().unwrap();
    let guest = process.start().unwrap();
    let (r, _) = read_guest(&guest.stdin, 8);
    assert_eq!(r, Poll::Pending);
    drop(stdin);
    let (r, got) = read_guest(&guest.stdin, 8);
    assert_eq!(r, Poll::Ready(Ok(())));
    assert!(got.is_empty());
}

#[test]
fn dropping_stdout_breaks_the_guests_pipe() {
    let mut process = WasiProcess::with_buffers(MaxBufSize::default());
    let stdout = process.stdout.take().unwrap();
    let guest = process.start().unwrap();
    let mut cx = Context::from_waker(Waker::noop());
    assert_eq!(guest.stdout.poll_write(&mut cx, b"a"), Poll::Ready(Ok(1)));
    drop(stdout);
    assert_eq!(guest.stdout.poll_write(&mut cx, b"b"), Poll::Ready(Err(PipeError::StreamClosed)));
}

#[test]
fn two_processes_do_not_share_stdio() {
    let mut a = WasiProcess::with_buffers(MaxBufSize::default());
    let mut b = WasiProcess::with_buffers(MaxBufSize::default());
    let a_out = a.stdout.take().unwrap();
    let b_out = b.stdout.take().unwrap();
    let a_err = a.stderr.take().unwrap();
    let a_guest = a.start().unwrap();
    let _b_guest = b.start().unwrap();
    let mut cx = Context::from_waker(Waker::noop());
    assert_eq!(a_guest.stdout.poll_write(&mut cx, b"from a"), Poll::Ready(Ok(6)));
    let (r, got) = read_stdout(&b_out, 16);
    assert_eq!(r, Poll::Pending);
    assert!(got.is_empty());
    let (r, got) = read_stderr(&a_err, 16);
    assert_eq!(r, Poll::Pending);
    assert!(got.is_empty());
    let (r, got) = read_stdout(&a_out, 16);
    assert_eq!(r, Poll::Ready(Ok(())));
    assert_eq!(got, b"from a".to_vec());
}
