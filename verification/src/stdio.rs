//! The pseudo-files that stand for a guest's stdin, stdout and stderr, and
//! what each of them answers to the file operations that an engine may ask
//! of it. Moving bytes is the pipe's business; everything decided here is
//! whether an operation is allowed at all.

use std::fmt::Arguments;
use std::io::SeekFrom;
use vstd::prelude::*;
use vstd::string::StringExecFns;

verus! {

/// `std::io::SeekFrom`: opaque, a position that no pseudo-file looks at.
#[verifier::external_type_specification]
#[verifier::external_body]
pub struct ExSeekFrom(std::io::SeekFrom);

/// `std::fmt::Arguments`: opaque, formatted text that is never written.
#[verifier::external_type_specification]
#[verifier::external_body]
pub struct ExArguments<'a>(std::fmt::Arguments<'a>);

/// One of the three standard streams.
#[derive(Debug, Clone, Copy, PartialEq, Eq, Structural)]
pub enum Stream {
    /// The guest's input.
    Stdin,
    /// The guest's output.
    Stdout,
    /// The guest's diagnostics.
    Stderr,
}

/// A way of using a stream that a pseudo-file may refuse.
#[derive(Debug, Clone, Copy, PartialEq, Eq, Structural)]
pub enum Access {
    /// Taking bytes out of the stream.
    Read,
    /// Putting bytes into the stream.
    Write,
    /// Moving to a position in the stream.
    Seek,
}

/// Why a pseudo-file turned an operation down.
#[derive(Debug, Clone, Copy, PartialEq, Eq, Structural)]
pub enum StdioError {
    /// The stream does not support this kind of access.
    NotPermitted(Stream, Access),
    /// The stream has no length to set.
    PermissionDenied,
    /// The stream cannot say how many bytes are available.
    InvalidInput,
}

impl Stream {
    /// The stream's name.
    pub open spec fn name(self) -> Seq<char> {
        match self {
            Stream::Stdin => "stdin"@,
            Stream::Stdout => "stdout"@,
            Stream::Stderr => "stderr"@,
        }
    }
}

impl Access {
    /// The access as a verb phrase that a stream's name can follow.
    pub open spec fn verb(self) -> Seq<char> {
        match self {
            Access::Read => "read from"@,
            Access::Write => "write to"@,
            Access::Seek => "seek"@,
        }
    }
}

impl StdioError {
    /// The text of [`StdioError::to_string`].
    pub open spec fn text(self) -> Seq<char> {
        match self {
            StdioError::NotPermitted(stream, access) => "can not "@ + access.verb() + " "@
                + stream.name(),
            StdioError::PermissionDenied => "permission denied"@,
            StdioError::InvalidInput => "invalid input"@,
        }
    }

    /// Describes the error for a human reader, such as `can not seek stdin`.
    pub fn to_string(&self) -> (s: String)
        ensures
            s@ == self.text(),
    {
        match self {
            StdioError::NotPermitted(stream, access) => {
                let verb = match access {
                    Access::Read => "read from",
                    Access::Write => "write to",
                    Access::Seek => "seek",
                };
                let name = match stream {
                    Stream::Stdin => "stdin",
                    Stream::Stdout => "stdout",
                    Stream::Stderr => "stderr",
                };
                String::from_str("can not ").concat(verb).concat(" ").concat(name)
            },
            StdioError::PermissionDenied => String::from_str("permission denied"),
            StdioError::InvalidInput => String::from_str("invalid input"),
        }
    }
}

/// The stdin pseudo-file of a guest: it can only be read.
#[derive(Debug)]
pub struct Stdin;

impl Stdin {
    /// Stdin has no position to move to.
    pub fn seek(&mut self, _pos: SeekFrom) -> (r: Result<u64, StdioError>)
        ensures
            r == Err::<u64, StdioError>(StdioError::NotPermitted(Stream::Stdin, Access::Seek)),
    {
        Err(StdioError::NotPermitted(Stream::Stdin, Access::Seek))
    }

    /// Stdin cannot be written to.
    pub fn write(&mut self, _buf: &[u8]) -> (r: Result<usize, StdioError>)
        ensures
            r == Err::<usize, StdioError>(StdioError::NotPermitted(Stream::Stdin, Access::Write)),
    {
        Err(StdioError::NotPermitted(Stream::Stdin, Access::Write))
    }

    /// Stdin cannot be written to, so there is nothing to flush.
    pub fn flush(&mut self) -> (r: Result<(), StdioError>)
        ensures
            r == Err::<(), StdioError>(StdioError::NotPermitted(Stream::Stdin, Access::Write)),
    {
        Err(StdioError::NotPermitted(Stream::Stdin, Access::Write))
    }

    /// Stdin cannot be written to.
    pub fn write_all(&mut self, _buf: &[u8]) -> (r: Result<(), StdioError>)
        ensures
            r == Err::<(), StdioError>(StdioError::NotPermitted(Stream::Stdin, Access::Write)),
    {
        Err(StdioError::NotPermitted(Stream::Stdin, Access::Write))
    }

    /// Stdin cannot be written to.
    pub fn write_fmt(&mut self, _fmt: Arguments<'_>) -> (r: Result<(), StdioError>)
        ensures
            r == Err::<(), StdioError>(StdioError::NotPermitted(Stream::Stdin, Access::Write)),
    {
        Err(StdioError::NotPermitted(Stream::Stdin, Access::Write))
    }

    /// A stream keeps no access time: always zero.
    pub fn last_accessed(&self) -> (t: u64)
        ensures
            t == 0,
    {
        0
    }

    /// A stream keeps no modification time: always zero.
    pub fn last_modified(&self) -> (t: u64)
        ensures
            t == 0,
    {
        0
    }

    /// A stream keeps no creation time: always zero.
    pub fn created_time(&self) -> (t: u64)
        ensures
            t == 0,
    {
        0
    }

    /// A stream has no size: always zero.
    pub fn size(&self) -> (n: u64)
        ensures
            n == 0,
    {
        0
    }

    /// A stream cannot be truncated or extended.
    pub fn set_len(&mut self, _new_size: u64) -> (r: Result<(), StdioError>)
        ensures
            r == Err::<(), StdioError>(StdioError::PermissionDenied),
    {
        Err(StdioError::PermissionDenied)
    }

    /// There is nothing to unlink, which is no failure.
    pub fn unlink(&mut self) -> (r: Result<(), StdioError>)
        ensures
            r == Ok::<(), StdioError>(()),
    {
        Ok(())
    }

    /// Stdin never promises bytes ahead of a read: always zero.
    pub fn bytes_available(&self) -> (r: Result<usize, StdioError>)
        ensures
            r == Ok::<usize, StdioError>(0usize),
    {
        Ok(0)
    }
}

/// The stdout pseudo-file of a guest: it can only be written to.
#[derive(Debug)]
pub struct Stdout;

impl Stdout {
    /// Stdout cannot be read from; `buf` is left as it was.
    pub fn read(&mut self, _buf: &mut [u8]) -> (r: Result<usize, StdioError>)
        ensures
            r == Err::<usize, StdioError>(StdioError::NotPermitted(Stream::Stdout, Access::Read)),
            final(_buf)@ == old(_buf)@,
    {
        Err(StdioError::NotPermitted(Stream::Stdout, Access::Read))
    }

    /// Stdout cannot be read from; `buf` is left as it was.
    pub fn read_to_end(&mut self, _buf: &mut Vec<u8>) -> (r: Result<usize, StdioError>)
        ensures
            r == Err::<usize, StdioError>(StdioError::NotPermitted(Stream::Stdout, Access::Read)),
            final(_buf)@ == old(_buf)@,
    {
        Err(StdioError::NotPermitted(Stream::Stdout, Access::Read))
    }

    /// Stdout cannot be read from; `buf` is left as it was.
    pub fn read_to_string(&mut self, _buf: &mut String) -> (r: Result<usize, StdioError>)
        ensures
            r == Err::<usize, StdioError>(StdioError::NotPermitted(Stream::Stdout, Access::Read)),
            final(_buf)@ == old(_buf)@,
    {
        Err(StdioError::NotPermitted(Stream::Stdout, Access::Read))
    }

    /// Stdout cannot be read from; `buf` is left as it was.
    pub fn read_exact(&mut self, _buf: &mut [u8]) -> (r: Result<(), StdioError>)
        ensures
            r == Err::<(), StdioError>(StdioError::NotPermitted(Stream::Stdout, Access::Read)),
            final(_buf)@ == old(_buf)@,
    {
        Err(StdioError::NotPermitted(Stream::Stdout, Access::Read))
    }

    /// Stdout has no position to move to.
    pub fn seek(&mut self, _pos: SeekFrom) -> (r: Result<u64, StdioError>)
        ensures
            r == Err::<u64, StdioError>(StdioError::NotPermitted(Stream::Stdout, Access::Seek)),
    {
        Err(StdioError::NotPermitted(Stream::Stdout, Access::Seek))
    }

    /// Every write goes straight to the pipe, so there is nothing to flush.
    pub fn flush(&mut self) -> (r: Result<(), StdioError>)
        ensures
            r == Ok::<(), StdioError>(()),
    {
        Ok(())
    }

    /// A stream keeps no access time: always zero.
    pub fn last_accessed(&self) -> (t: u64)
        ensures
            t == 0,
    {
        0
    }

    /// A stream keeps no modification time: always zero.
    pub fn last_modified(&self) -> (t: u64)
        ensures
            t == 0,
    {
        0
    }

    /// A stream keeps no creation time: always zero.
    pub fn created_time(&self) -> (t: u64)
        ensures
            t == 0,
    {
        0
    }

    /// A stream has no size: always zero.
    pub fn size(&self) -> (n: u64)
        ensures
            n == 0,
    {
        0
    }

    /// A stream cannot be truncated or extended.
    pub fn set_len(&mut self, _new_size: u64) -> (r: Result<(), StdioError>)
        ensures
            r == Err::<(), StdioError>(StdioError::PermissionDenied),
    {
        Err(StdioError::PermissionDenied)
    }

    /// There is nothing to unlink, which is no failure.
    pub fn unlink(&mut self) -> (r: Result<(), StdioError>)
        ensures
            r == Ok::<(), StdioError>(()),
    {
        Ok(())
    }

    /// Stdout has no bytes to offer, so the question is refused.
    pub fn bytes_available(&self) -> (r: Result<usize, StdioError>)
        ensures
            r == Err::<usize, StdioError>(StdioError::InvalidInput),
    {
        Err(StdioError::InvalidInput)
    }
}

/// The stderr pseudo-file of a guest: it can only be written to.
#[derive(Debug)]
pub struct Stderr;

impl Stderr {
    /// Stderr cannot be read from; `buf` is left as it was.
    pub fn read(&mut self, _buf: &mut [u8]) -> (r: Result<usize, StdioError>)
        ensures
            r == Err::<usize, StdioError>(StdioError::NotPermitted(Stream::Stderr, Access::Read)),
            final(_buf)@ == old(_buf)@,
    {
        Err(StdioError::NotPermitted(Stream::Stderr, Access::Read))
    }

    /// Stderr cannot be read from; `buf` is left as it was.
    pub fn read_to_end(&mut self, _buf: &mut Vec<u8>) -> (r: Result<usize, StdioError>)
        ensures
            r == Err::<usize, StdioError>(StdioError::NotPermitted(Stream::Stderr, Access::Read)),
            final(_buf)@ == old(_buf)@,
    {
        Err(StdioError::NotPermitted(Stream::Stderr, Access::Read))
    }

    /// Stderr cannot be read from; `buf` is left as it was.
    pub fn read_to_string(&mut self, _buf: &mut String) -> (r: Result<usize, StdioError>)
        ensures
            r == Err::<usize, StdioError>(StdioError::NotPermitted(Stream::Stderr, Access::Read)),
            final(_buf)@ == old(_buf)@,
    {
        Err(StdioError::NotPermitted(Stream::Stderr, Access::Read))
    }

    /// Stderr cannot be read from; `buf` is left as it was.
    pub fn read_exact(&mut self, _buf: &mut [u8]) -> (r: Result<(), StdioError>)
        ensures
            r == Err::<(), StdioError>(StdioError::NotPermitted(Stream::Stderr, Access::Read)),
            final(_buf)@ == old(_buf)@,
    {
        Err(StdioError::NotPermitted(Stream::Stderr, Access::Read))
    }

    /// Stderr has no position to move to.
    pub fn seek(&mut self, _pos: SeekFrom) -> (r: Result<u64, StdioError>)
        ensures
            r == Err::<u64, StdioError>(StdioError::NotPermitted(Stream::Stderr, Access::Seek)),
    {
        Err(StdioError::NotPermitted(Stream::Stderr, Access::Seek))
    }

    /// Every write goes straight to the pipe, so there is nothing to flush.
    pub fn flush(&mut self) -> (r: Result<(), StdioError>)
        ensures
            r == Ok::<(), StdioError>(()),
    {
        Ok(())
    }

    /// A stream keeps no access time: always zero.
    pub fn last_accessed(&self) -> (t: u64)
        ensures
            t == 0,
    {
        0
    }

    /// A stream keeps no modification time: always zero.
    pub fn last_modified(&self) -> (t: u64)
        ensures
            t == 0,
    {
        0
    }

    /// A stream keeps no creation time: always zero.
    pub fn created_time(&self) -> (t: u64)
        ensures
            t == 0,
    {
        0
    }

    /// A stream has no size: always zero.
    pub fn size(&self) -> (n: u64)
        ensures
            n == 0,
    {
        0
    }

    /// A stream cannot be truncated or extended.
    pub fn set_len(&mut self, _new_size: u64) -> (r: Result<(), StdioError>)
        ensures
            r == Err::<(), StdioError>(StdioError::PermissionDenied),
    {
        Err(StdioError::PermissionDenied)
    }

    /// There is nothing to unlink, which is no failure.
    pub fn unlink(&mut self) -> (r: Result<(), StdioError>)
        ensures
            r == Ok::<(), StdioError>(()),
    {
        Ok(())
    }

    /// Stderr has no bytes to offer, so the question is refused.
    pub fn bytes_available(&self) -> (r: Result<usize, StdioError>)
        ensures
            r == Err::<usize, StdioError>(StdioError::InvalidInput),
    {
        Err(StdioError::InvalidInput)
    }
}

} // verus!
