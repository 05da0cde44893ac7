use std::sync::atomic::{AtomicU32, Ordering};
use std::sync::Arc;

use dispatch_engine::task_runner::TaskRunner;

fn single_thread() -> tokio::runtime::Runtime {
    tokio::runtime::Builder::new_current_thread().enable_all().build().expect("a runtime")
}

#[test]
fn runner_made_outside_a_context_is_unbound() {
    let runner = TaskRunner::new();
    assert!(!runner.is_bound());
}

#[test]
fn runner_made_inside_a_context_is_bound() {
    single_thread().block_on(async {
        let runner = TaskRunner::new();
        assert!(runner.is_bound());
    });
}

#[test]
fn failed_lookup_gives_an_unbound_runner() {
    let found = tokio::runtime::Handle::try_current();
    assert!(found.is_err());
    assert!(!TaskRunner::from_lookup(found).is_bound());
}

#[test]
fn found_context_gives_a_bound_runner() {
    let runtime = single_thread();
    let found = runtime.block_on(async { tokio::runtime::Handle::try_current() });
    assert!(found.is_ok());
    let runner = TaskRunner::from_lookup(found);
    assert!(runner.is_bound());
    let task = runner.run_task(async { 5u32 });
    assert_eq!(runtime.block_on(task).expect("a task that ran"), 5);
}

#[test]
fn task_result_comes_through_the_handle() {
    single_thread().block_on(async {
        let runner = TaskRunner::new();
        assert!(runner.is_bound());
        let task = runner.run_task(async { 6 * 7 });
        assert_eq!(task.await.expect("a task that ran"), 42);
    });
}

#[test]
fn run_task_returns_before_the_task_completes() {
    single_thread().block_on(async {
        let runner = TaskRunner::new();
        assert!(runner.is_bound());
        let (release, released) = tokio::sync::oneshot::channel::<u32>();
        let task = runner.run_task(async move { released.await.expect("a value") + 1 });
        for _ in 0..10 {
            tokio::task::yield_now().await;
        }
        assert!(!task.is_finished());
        release.send(10).expect("a waiting task");
        assert_eq!(task.await.expect("a task that ran"), 11);
    });
}

#[test]
fn dropped_handle_does_not_drop_the_task() {
    let runs = Arc::new(AtomicU32::new(0));
    let seen = runs.clone();
    single_thread().block_on(async move {
        let runner = TaskRunner::new();
        assert!(runner.is_bound());
        let (done, finished) = tokio::sync::oneshot::channel::<()>();
        drop(runner.run_task(async move {
            seen.fetch_add(1, Ordering::SeqCst);
            done.send(()).expect("a waiting test");
        }));
        finished.await.expect("a task that ran");
    });
    assert_eq!(runs.load(Ordering::SeqCst), 1);
}

#[test]
fn runner_stays_with_the_context_it_was_made_in() {
    let home = tokio::runtime::Builder::new_multi_thread()
        .worker_threads(2)
        .enable_all()
        .build()
        .expect("a runtime");
    let runner = home.block_on(async { TaskRunner::new() });
    assert!(runner.is_bound());
    let task = runner.run_task(async { tokio::runtime::Handle::current().id() });
    let ran_on = home.block_on(task).expect("a task that ran");
    assert_eq!(ran_on, home.handle().id());
}
