//! The execution of one task, as far as the registry of tasks deals with it.
use crate::error::RwError;
use crate::task::id::{ProstTaskId, ProstTaskOutputId, TaskId};
use std::sync::Arc;
use vstd::prelude::*;

verus! {

/// One execution of a batch task. The runtime that runs tasks implements it; nothing
/// is assumed of what its methods return.
///
/// The table of tasks is locked while a registered task is asked for an output, for its
/// state, for its error or to stop, so these methods must not call the manager.
pub trait BatchTaskExecution: Sized {
    /// The plan fragment that a task runs.
    type Plan;

    /// What a task finds around it on its compute node.
    type Context;

    /// One output of a task, from which its data is taken.
    type Output;

    /// Prepares the execution of a plan, without starting it.
    fn new(
        tid: &ProstTaskId,
        plan: Self::Plan,
        context: Self::Context,
        epoch: u64,
    ) -> Result<Self, RwError>;

    /// The id that the task runs under.
    fn get_task_id(&self) -> &TaskId;

    /// Starts the task in the background.
    fn async_execute(self: Arc<Self>) -> Result<(), RwError>;

    /// Hands out one of the task's outputs.
    fn get_task_output(&self, output_id: &ProstTaskOutputId) -> Result<Self::Output, RwError>;

    /// Asks the task to stop.
    fn abort_task(&self) -> Result<(), RwError>;

    /// Returns an error if the task is not running.
    fn check_if_running(&self) -> Result<(), RwError>;

    /// Whether the task has stopped after it was asked to.
    fn check_if_aborted(&self) -> Result<bool, RwError>;

    /// The error that the task failed with, if it did.
    fn get_error(&self) -> Option<RwError>;
}

} // verus!
