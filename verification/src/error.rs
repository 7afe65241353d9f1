//! How a spawned process can end badly: the guest failed, or the task that
//! ran it did.

use std::task::Poll;
use tokio::task::JoinError;
use vstd::prelude::*;
use vstd::string::StringExecFns;
use wasmer::RuntimeError;

verus! {

/// `wasmer::RuntimeError`: opaque, the failure of a guest.
#[verifier::external_type_specification]
#[verifier::external_body]
pub struct ExRuntimeError(wasmer::RuntimeError);

/// `tokio::task::JoinError`: opaque, the failure of a task.
#[verifier::external_type_specification]
#[verifier::external_body]
pub struct ExJoinError(tokio::task::JoinError);

/// What `Display` writes for a `wasmer::RuntimeError`: its message and the
/// frames of its trace.
pub uninterp spec fn runtime_error_text(e: RuntimeError) -> Seq<char>;

/// What `Display` writes for a `tokio::task::JoinError`: the task's id and
/// whether it was cancelled or panicked.
pub uninterp spec fn join_error_text(e: JoinError) -> Seq<char>;

/// `Display` for `wasmer::RuntimeError`, collected into a string.
#[verifier::external_body]
fn runtime_error_to_string(e: &RuntimeError) -> (s: String)
    ensures
        s@ == runtime_error_text(*e),
{
    format!("{}", e)
}

/// `Display` for `tokio::task::JoinError`, collected into a string.
#[verifier::external_body]
fn join_error_to_string(e: &JoinError) -> (s: String)
    ensures
        s@ == join_error_text(*e),
{
    format!("{}", e)
}

/// An error returned from a spawned process: either the guest's own failure,
/// such as a trap or an exit call, or a failure of the task it ran on, such as
/// a panic or a cancellation.
#[derive(Debug)]
pub enum SpawnError {
    /// An error received from wasmer.
    Wasi(RuntimeError),
    /// An error from the task that ran the process.
    Join(JoinError),
}

impl SpawnError {
    /// The text of [`SpawnError::to_string`]: which layer failed, then what
    /// that layer says of it.
    pub open spec fn text(self) -> Seq<char> {
        match self {
            SpawnError::Wasi(w) => "runtime wasi/wasm error: "@ + runtime_error_text(w),
            SpawnError::Join(j) => "error while joining the tokio task: "@ + join_error_text(j),
        }
    }

    /// The description of a guest's failure, given what wasmer says of it:
    /// the layer, then the detail.
    pub fn describe_wasi(detail: &str) -> (s: String)
        ensures
            s@ == "runtime wasi/wasm error: "@ + detail@,
    {
        String::from_str("runtime wasi/wasm error: ").concat(detail)
    }

    /// The description of a task's failure, given what tokio says of it: the
    /// layer, then the detail.
    pub fn describe_join(detail: &str) -> (s: String)
        ensures
            s@ == "error while joining the tokio task: "@ + detail@,
    {
        String::from_str("error while joining the tokio task: ").concat(detail)
    }

    /// Describes the error for a human reader.
    pub fn to_string(&self) -> (s: String)
        ensures
            s@ == self.text(),
    {
        match self {
            SpawnError::Wasi(w) => {
                let detail = runtime_error_to_string(w);
                SpawnError::describe_wasi(detail.as_str())
            },
            SpawnError::Join(j) => {
                let detail = join_error_to_string(j);
                SpawnError::describe_join(detail.as_str())
            },
        }
    }
}

/// The single result that a spawned process is awaited for.
pub open spec fn folded(joined: Result<Result<(), RuntimeError>, JoinError>) -> Result<
    (),
    SpawnError,
> {
    match joined {
        Ok(Ok(())) => Ok(()),
        Ok(Err(w)) => Err(SpawnError::Wasi(w)),
        Err(j) => Err(SpawnError::Join(j)),
    }
}

/// Folds what the task reports into one result: while the task is pending so
/// is the process; a task that failed gives `Join`, a guest that failed gives
/// `Wasi`, and only a guest that returned cleanly on a task that completed
/// gives success.
pub fn spawn_outcome(polled: Poll<Result<Result<(), RuntimeError>, JoinError>>) -> (r: Poll<
    Result<(), SpawnError>,
>)
    ensures
        r == match polled {
            Poll::Pending => Poll::<Result<(), SpawnError>>::Pending,
            Poll::Ready(joined) => Poll::Ready(folded(joined)),
        },
{
    match polled {
        Poll::Pending => Poll::Pending,
        Poll::Ready(Err(j)) => Poll::Ready(Err(SpawnError::Join(j))),
        Poll::Ready(Ok(Err(w))) => Poll::Ready(Err(SpawnError::Wasi(w))),
        Poll::Ready(Ok(Ok(()))) => Poll::Ready(Ok(())),
    }
}

} // verus!
