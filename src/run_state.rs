use std::sync::{Arc, RwLock};
use vstd::prelude::*;

verus! {

/// Where a task stands.
#[derive(PartialEq, Eq, Structural, Debug, Clone, Copy)]
pub enum RunStatus {
    Running,
    /// Its owner asked it to stop.
    Aborted,
    /// Its runner was dropped before it finished.
    RunnerDropped,
}

/// std's reader-writer lock.
#[verifier::external_type_specification]
#[verifier::external_body]
#[verifier::reject_recursive_types(T)]
pub struct ExRwLock<T: ?Sized>(RwLock<T>);

/// std's `RwLock::new`: a lock holding `t`.
pub assume_specification<T>[ RwLock::<T>::new ](t: T) -> RwLock<T>;

/// Relies on `RwLock::read`: the status under the lock, or `None` where the
/// lock is poisoned. Other threads may write at any time, so nothing is
/// known of the value.
#[verifier::external_body]
fn load_status(lock: &RwLock<RunStatus>) -> Option<RunStatus> {
    match lock.read() {
        Ok(guard) => Some(*guard),
        Err(_) => None,
    }
}

/// Relies on `RwLock::write`: puts `status` under the lock, unless the lock
/// is poisoned.
#[verifier::external_body]
fn store_status(lock: &RwLock<RunStatus>, status: RunStatus) {
    if let Ok(mut guard) = lock.write() {
        *guard = status;
    }
}

/// Whether a status read from the lock says that the task may go on; a
/// poisoned lock reads as stopped.
pub fn running_in(seen: Option<RunStatus>) -> (r: bool)
    ensures
        r == (seen == Some(RunStatus::Running)),
{
    match seen {
        Some(RunStatus::Running) => true,
        _ => false,
    }
}

/// Whether a status read from the lock says that the runner was dropped; a
/// poisoned lock reads as not dropped.
pub fn runner_dropped_in(seen: Option<RunStatus>) -> (r: bool)
    ensures
        r == (seen == Some(RunStatus::RunnerDropped)),
{
    match seen {
        Some(RunStatus::RunnerDropped) => true,
        _ => false,
    }
}

/// An abort flag shared between a task and its owner, polled by the task.
/// Readers must expect the owner to flip it between two reads.
pub struct RunState(Arc<RwLock<RunStatus>>);

impl RunState {
    /// A flag that says running.
    pub fn new() -> Self {
        RunState(Arc::new(RwLock::new(RunStatus::Running)))
    }

    /// Asks the task to stop.
    pub fn abort(&mut self) {
        store_status(&self.0, RunStatus::Aborted);
    }

    /// Whether the task may go on: the status read is `Running`.
    pub fn is_running(&self) -> bool {
        running_in(load_status(&self.0))
    }

    /// Records that the runner was dropped, which also stops the task.
    pub fn runner_dropped_abort(&mut self) {
        store_status(&self.0, RunStatus::RunnerDropped);
    }

    /// Whether the status read says that the runner was dropped.
    pub fn has_runner_dropped(&self) -> bool {
        runner_dropped_in(load_status(&self.0))
    }
}

impl Default for RunState {
    fn default() -> Self {
        RunState::new()
    }
}

impl Clone for RunState {
    fn clone(&self) -> Self {
        RunState(Arc::clone(&self.0))
    }
}

} // verus!
