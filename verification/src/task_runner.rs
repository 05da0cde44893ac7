//! The task runner: submits a computation onto the execution context that
//! the runner belongs to.

use std::future::Future;
use tokio::runtime::Handle;
use tokio::runtime::TryCurrentError;
use tokio::task::JoinHandle;
use vstd::future::FutureAdditionalSpecFns;
use vstd::prelude::*;

verus! {

/// `tokio::runtime::Handle`, a reference to a runtime. Nothing is known of
/// what it holds.
#[verifier::external_type_specification]
#[verifier::external_body]
pub struct ExHandle(tokio::runtime::Handle);

/// `tokio::runtime::TryCurrentError`, the error of a lookup that found no
/// runtime.
#[verifier::external_type_specification]
#[verifier::external_body]
pub struct ExTryCurrentError(tokio::runtime::TryCurrentError);

/// `tokio::task::JoinError`, what awaiting a task gives when the task did
/// not run to its end.
#[verifier::external_type_specification]
#[verifier::external_body]
pub struct ExJoinError(tokio::task::JoinError);

/// `tokio::task::JoinHandle`, the handle on a spawned task. Nothing is
/// known of what it holds.
#[verifier::external_type_specification]
#[verifier::external_body]
#[verifier::reject_recursive_types(T)]
pub struct ExJoinHandle<T>(tokio::task::JoinHandle<T>);

/// `Handle::try_current` looks up the runtime that the calling thread is
/// in. It never panics. Whether it finds one depends on where it is called,
/// so nothing is claimed of its result.
pub assume_specification[ Handle::try_current ]() -> (found: Result<Handle, TryCurrentError>)
;

/// `Handle::spawn` puts the future on the handle's runtime and returns the
/// handle on the task that runs it. Awaiting that handle gives either what
/// the future came to, or an error where the task panicked or was
/// cancelled: never another value. Whether and when the task completes is
/// left open.
pub assume_specification<F>[ Handle::spawn::<F> ](handle: &Handle, future: F) -> (task: JoinHandle<
    F::Output,
>) where F: Future + Send + 'static, F::Output: Send + 'static
    ensures
        task@ matches Ok(output) ==> output == future@,
;

/// Submits computations onto one execution context: the one that it was
/// made in. A runner that was made outside of any execution context is
/// unbound, and cannot run anything.
pub struct TaskRunner {
    context: Option<Handle>,
}

impl TaskRunner {
    /// The execution context that the runner belongs to, if there is one.
    pub closed spec fn context(&self) -> Option<Handle> {
        self.context
    }

    /// Whether the runner belongs to an execution context.
    pub open spec fn bound(&self) -> bool {
        self.context() is Some
    }

    /// A runner for the execution context that the caller runs in.
    pub fn new() -> (runner: TaskRunner) {
        TaskRunner::from_lookup(Handle::try_current())
    }

    /// A runner for the execution context that a lookup found, or an
    /// unbound one where it found none.
    pub fn from_lookup(found: Result<Handle, TryCurrentError>) -> (runner: TaskRunner)
        ensures
            runner.context() == match found {
                Ok(handle) => Some(handle),
                Err(_) => None,
            },
    {
        match found {
            Ok(handle) => TaskRunner { context: Some(handle) },
            Err(_) => TaskRunner { context: None },
        }
    }

    /// Whether the runner belongs to an execution context.
    pub fn is_bound(&self) -> (bound: bool)
        ensures
            bound == self.bound(),
    {
        self.context.is_some()
    }

    /// Schedules `future` on the runner's execution context and returns
    /// the handle on the task without waiting for it. Awaiting the handle
    /// gives what `future` came to, unless the task panicked or was
    /// cancelled.
    pub fn run_task<F>(&self, future: F) -> (task: JoinHandle<F::Output>) where
        F: Future + Send + 'static,
        F::Output: Send + 'static,

        requires
            self.bound(),
        ensures
            task@ matches Ok(output) ==> output == future@,
    {
        match &self.context {
            Some(handle) => handle.spawn(future),
            None => unreached(),
        }
    }
}

} // verus!
