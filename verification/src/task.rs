//! Cancelling the task of a connection.
//!
//! The task that serves a connection puts its own handle into a cell once
//! it runs. Whoever holds the cell can ask the task to stop. Every request
//! leaves a receipt that names the cell it was made on, and the task that
//! was found there and asked to cancel.

use once_cell::sync::OnceCell;
use std::sync::Arc;
use tokio::task::JoinHandle;
use vstd::prelude::*;

verus! {

/// `JoinHandle` of tokio, the handle of a spawned task. Nothing is known of
/// what is inside.
#[verifier::external_type_specification]
#[verifier::external_body]
#[verifier::reject_recursive_types(T)]
pub struct ExJoinHandle<T>(tokio::task::JoinHandle<T>);

/// `JoinError` of tokio, which a `JoinHandle` yields for a task that did not
/// run to its end. The library never looks at one.
#[verifier::external_type_specification]
#[verifier::external_body]
pub struct ExJoinError(tokio::task::JoinError);

/// `OnceCell` of once_cell, a cell that is written at most once. Nothing is
/// known of what is inside.
#[verifier::external_type_specification]
#[verifier::external_body]
#[verifier::reject_recursive_types(T)]
pub struct ExOnceCell<T>(once_cell::sync::OnceCell<T>);

/// Receipt for a task that was asked to cancel.
pub struct Aborted {
    task: Ghost<JoinHandle<()>>,
}

impl Aborted {
    /// The task that was asked to cancel.
    pub closed spec fn task(&self) -> JoinHandle<()> {
        self.task@
    }
}

/// `OnceCell::new` of once_cell: a cell that holds nothing yet.
#[verifier::external_body]
pub(crate) fn empty_cell() -> (cell: OnceCell<JoinHandle<()>>) {
    OnceCell::new()
}

/// `OnceCell::get` of once_cell: the task handle in the cell, if one was set.
/// Another thread may set the cell at any time, so nothing is promised.
#[verifier::external_body]
fn cell_get(cell: &OnceCell<JoinHandle<()>>) -> (handle: Option<&JoinHandle<()>>) {
    cell.get()
}

/// `JoinHandle::abort` of tokio: asks the runtime to cancel the task. The
/// task ends at its next suspension point, after this call has returned.
/// The receipt names the handle that the call was made on.
#[verifier::external_body]
fn abort_task(handle: &JoinHandle<()>) -> (receipt: Aborted)
    ensures
        receipt.task() == *handle,
{
    handle.abort();
    Aborted { task: Ghost(*handle) }
}

/// What became of a request to cancel the task of a connection.
pub struct Cancellation {
    handle: Ghost<Arc<OnceCell<JoinHandle<()>>>>,
    aborted: Option<Aborted>,
}

impl Cancellation {
    /// The cell on which the request was made.
    pub closed spec fn handle(&self) -> Arc<OnceCell<JoinHandle<()>>> {
        self.handle@
    }

    /// The receipt for the task that was found in the cell, if one was.
    pub closed spec fn aborted(&self) -> Option<Aborted> {
        self.aborted
    }

    /// Whether a task was found in the cell and asked to cancel.
    pub fn task_found(&self) -> (found: bool)
        ensures
            found == self.aborted() is Some,
    {
        self.aborted.is_some()
    }
}

/// Asks the task whose handle is in the cell `handle` to cancel. A cell
/// that holds no task yet has nothing to cancel.
pub fn cancel(handle: &Arc<OnceCell<JoinHandle<()>>>) -> (done: Cancellation)
    ensures
        done.handle() == *handle,
{
    let found = cell_get(handle);
    cancel_found(Ghost(*handle), found)
}

/// Asks the task `found` in the cell `handle`, if one was found, to cancel.
fn cancel_found(
    Ghost(handle): Ghost<Arc<OnceCell<JoinHandle<()>>>>,
    found: Option<&JoinHandle<()>>,
) -> (done: Cancellation)
    ensures
        done.handle() == handle,
        match found {
            Some(task) => done.aborted() matches Some(receipt) && receipt.task() == *task,
            None => done.aborted() is None,
        },
{
    let aborted = match found {
        Some(task) => Some(abort_task(task)),
        None => None,
    };
    Cancellation { handle: Ghost(handle), aborted }
}

} // verus!
