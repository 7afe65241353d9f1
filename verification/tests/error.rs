use std::task::Poll;

use tokio::task::JoinError;
use wasi_process::{spawn_outcome, SpawnError};
use wasmer::RuntimeError;

fn cancelled() -> JoinError {
    let runtime = tokio::runtime::Builder::new_current_thread().build().unwrap();
    runtime.block_on(async {
        let task = tokio::spawn(std::future::pending::<Result<(), RuntimeError>>());
        task.abort();
        task.await.unwrap_err()
    })
}

#[test]
fn pending_stays_pending() {
    assert!(matches!(spawn_outcome(Poll::Pending), Poll::Pending));
}

#[test]
fn clean_exit_is_success() {
    assert!(matches!(spawn_outcome(Poll::Ready(Ok(Ok(())))), Poll::Ready(Ok(()))));
}

#[test]
fn guest_failure_is_a_wasi_error() {
    let failed = spawn_outcome(Poll::Ready(Ok(Err(RuntimeError::new("boom")))));
    match failed {
        Poll::Ready(Err(SpawnError::Wasi(e))) => assert_eq!(e.message(), "boom"),
        _ => panic!("a guest failure must come out as SpawnError::Wasi"),
    }
}

#[test]
fn task_failure_is_a_join_error() {
    let failed = spawn_outcome(Poll::Ready(Err(cancelled())));
    match failed {
        Poll::Ready(Err(SpawnError::Join(e))) => assert!(e.is_cancelled()),
        _ => panic!("a task failure must come out as SpawnError::Join"),
    }
}

#[test]
fn wasi_error_text() {
    let e = SpawnError::Wasi(RuntimeError::new("boom"));
    assert_eq!(e.to_string(), "runtime wasi/wasm error: RuntimeError: boom");
}

#[test]
fn join_error_text() {
    let join = cancelled();
    let detail = format!("{}", join);
    assert!(detail.ends_with("was cancelled"));
    let e = SpawnError::Join(join);
    assert_eq!(e.to_string(), format!("error while joining the tokio task: {}", detail));
}

#[test]
fn descriptions_put_the_layer_before_the_detail() {
    assert_eq!(SpawnError::describe_wasi("boom"), "runtime wasi/wasm error: boom");
    assert_eq!(SpawnError::describe_wasi(""), "runtime wasi/wasm error: ");
    assert_eq!(
        SpawnError::describe_join("task 7 was cancelled"),
        "error while joining the tokio task: task 7 was cancelled"
    );
}
