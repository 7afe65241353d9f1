use std::io::SeekFrom;

use wasi_process::stdio::{Access, StdioError, Stream};
use wasi_process::{Stderr, Stdin, Stdout};

#[test]
fn stdin_refuses_writes_and_seeks() {
    let mut stdin = Stdin;
    let denied = StdioError::NotPermitted(Stream::Stdin, Access::Write);
    assert_eq!(stdin.write(b"x"), Err(denied));
    assert_eq!(stdin.write_all(b"x"), Err(denied));
    assert_eq!(stdin.flush(), Err(denied));
    assert_eq!(
        stdin.seek(SeekFrom::Start(0)),
        Err(StdioError::NotPermitted(Stream::Stdin, Access::Seek))
    );
}

#[test]
fn stdin_reports_a_stream_without_size() {
    let mut stdin = Stdin;
    assert_eq!(stdin.last_accessed(), 0);
    assert_eq!(stdin.last_modified(), 0);
    assert_eq!(stdin.created_time(), 0);
    assert_eq!(stdin.size(), 0);
    assert_eq!(stdin.set_len(10), Err(StdioError::PermissionDenied));
    assert_eq!(stdin.unlink(), Ok(()));
    assert_eq!(stdin.bytes_available(), Ok(0));
}

#[test]
fn stdout_refuses_reads_and_seeks() {
    let mut stdout = Stdout;
    let denied = StdioError::NotPermitted(Stream::Stdout, Access::Read);
    let mut bytes = [7u8; 3];
    assert_eq!(stdout.read(&mut bytes), Err(denied));
    assert_eq!(stdout.read_exact(&mut bytes), Err(denied));
    assert_eq!(bytes, [7u8; 3]);
    let mut all = vec![1u8];
    assert_eq!(stdout.read_to_end(&mut all), Err(denied));
    assert_eq!(all, vec![1u8]);
    let mut text = String::from("t");
    assert_eq!(stdout.read_to_string(&mut text), Err(denied));
    assert_eq!(text, "t");
    assert_eq!(
        stdout.seek(SeekFrom::End(-1)),
        Err(StdioError::NotPermitted(Stream::Stdout, Access::Seek))
    );
    assert_eq!(stdout.flush(), Ok(()));
}

#[test]
fn stdout_reports_a_stream_without_size() {
    let mut stdout = Stdout;
    assert_eq!(stdout.last_accessed(), 0);
    assert_eq!(stdout.last_modified(), 0);
    assert_eq!(stdout.created_time(), 0);
    assert_eq!(stdout.size(), 0);
    assert_eq!(stdout.set_len(0), Err(StdioError::PermissionDenied));
    assert_eq!(stdout.unlink(), Ok(()));
    assert_eq!(stdout.bytes_available(), Err(StdioError::InvalidInput));
}

#[test]
fn stderr_refuses_reads_and_seeks() {
    let mut stderr = Stderr;
    let denied = StdioError::NotPermitted(Stream::Stderr, Access::Read);
    let mut bytes = [7u8; 3];
    assert_eq!(stderr.read(&mut bytes), Err(denied));
    assert_eq!(stderr.read_exact(&mut bytes), Err(denied));
    assert_eq!(bytes, [7u8; 3]);
    let mut all = Vec::new();
    assert_eq!(stderr.read_to_end(&mut all), Err(denied));
    assert!(all.is_empty());
    let mut text = String::new();
    assert_eq!(stderr.read_to_string(&mut text), Err(denied));
    assert!(text.is_empty());
    assert_eq!(
        stderr.seek(SeekFrom::Current(4)),
        Err(StdioError::NotPermitted(Stream::Stderr, Access::Seek))
    );
    assert_eq!(stderr.flush(), Ok(()));
}

#[test]
fn stderr_reports_a_stream_without_size() {
    let mut stderr = Stderr;
    assert_eq!(stderr.last_accessed(), 0);
    assert_eq!(stderr.last_modified(), 0);
    assert_eq!(stderr.created_time(), 0);
    assert_eq!(stderr.size(), 0);
    assert_eq!(stderr.set_len(1), Err(StdioError::PermissionDenied));
    assert_eq!(stderr.unlink(), Ok(()));
    assert_eq!(stderr.bytes_available(), Err(StdioError::InvalidInput));
}

#[test]
fn refusals_read_as_sentences() {
    let text = |stream, access| StdioError::NotPermitted(stream, access).to_string();
    assert_eq!(text(Stream::Stdin, Access::Seek), "can not seek stdin");
    assert_eq!(text(Stream::Stdin, Access::Write), "can not write to stdin");
    assert_eq!(text(Stream::Stdout, Access::Read), "can not read from stdout");
    assert_eq!(text(Stream::Stdout, Access::Seek), "can not seek stdout");
    assert_eq!(text(Stream::Stderr, Access::Read), "can not read from stderr");
    assert_eq!(text(Stream::Stderr, Access::Seek), "can not seek stderr");
    assert_eq!(StdioError::PermissionDenied.to_string(), "permission denied");
    assert_eq!(StdioError::InvalidInput.to_string(), "invalid input");
}
