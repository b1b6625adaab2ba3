//! The table of a manager: every task in it was started, and is held under the id that it
//! answers itself.
use crate::error::RwError;
use crate::task::execution::BatchTaskExecution;
use crate::task::id::{ProstTaskId, ProstTaskOutputId, TaskId, TaskIdView};
use crate::task::start::StartedTask;
use crate::task::table::{
    abort_answer, aborted_answer, error_answer, held_under_own_ids, insert_answer, output_answer,
    remove_answer, running_answer, tasks_after_insert, TaskTable,
};
use std::sync::Arc;
use vstd::prelude::*;

verus! {

/// That `task` was to be registered beside the tasks `before`, was answered so and
/// left the tasks `after`.
pub open spec fn registers<E>(
    before: Map<TaskIdView, Arc<E>>,
    id: TaskIdView,
    task: Arc<E>,
    answer: Result<(), RwError>,
    after: Map<TaskIdView, Arc<E>>,
) -> bool {
    &&& insert_answer(before, id, answer)
    &&& after == tasks_after_insert(before, id, task)
}

/// That a task was to be removed from the tasks `before`, was answered so and left the
/// tasks `after`.
pub open spec fn removes<E>(
    before: Map<TaskIdView, Arc<E>>,
    id: TaskIdView,
    answer: Result<Option<Arc<E>>, RwError>,
    after: Map<TaskIdView, Arc<E>>,
) -> bool {
    &&& remove_answer(before, id, answer)
    &&& after == before.remove(id)
}

/// A table in which every task is held under the id that it answers itself. Only a task
/// that was started comes into it.
pub(crate) struct Registry<E: BatchTaskExecution> {
    table: TaskTable<E>,
}

impl<E: BatchTaskExecution> View for Registry<E> {
    type V = Map<TaskIdView, Arc<E>>;

    closed spec fn view(&self) -> Map<TaskIdView, Arc<E>> {
        self.table@
    }
}

impl<E: BatchTaskExecution> Registry<E> {
    #[verifier::type_invariant]
    spec fn well_formed(self) -> bool {
        held_under_own_ids(self.table@)
    }

    /// A registry without tasks.
    pub(crate) fn new() -> (registry: Registry<E>)
        ensures
            registry@ == Map::<TaskIdView, Arc<E>>::empty(),
    {
        Registry { table: TaskTable::new() }
    }
}

/// Registers a task under the id that it answered.
pub(crate) fn insert_entry<E: BatchTaskExecution>(
    registry: &mut Registry<E>,
    started: StartedTask<E>,
) -> (answer: Result<(), RwError>)
    ensures
        held_under_own_ids(old(registry)@),
        registers(old(registry)@, started.id()@, started.task(), answer, final(registry)@),
{
    proof {
        use_type_invariant(&*registry);
    }
    let mut table = TaskTable::new();
    std::mem::swap(&mut table, &mut registry.table);
    let entry = started.into_entry();
    let answer = table.insert(entry.0, entry.1);
    registry.table = table;
    answer
}

/// Forgets a task, and hands it out.
pub(crate) fn remove_entry<E: BatchTaskExecution>(
    registry: &mut Registry<E>,
    sid: &ProstTaskId,
) -> (answer: Result<Option<Arc<E>>, RwError>)
    ensures
        held_under_own_ids(old(registry)@),
        removes(old(registry)@, sid@, answer, final(registry)@),
{
    proof {
        use_type_invariant(&*registry);
    }
    let mut table = TaskTable::new();
    std::mem::swap(&mut table, &mut registry.table);
    let answer = table.remove_task(sid);
    registry.table = table;
    answer
}

/// Takes an output of the task that `output_id` names.
pub(crate) fn ask_output<E: BatchTaskExecution>(
    registry: &mut Registry<E>,
    output_id: &ProstTaskOutputId,
) -> (answer: Result<E::Output, RwError>)
    ensures
        held_under_own_ids(old(registry)@),
        output_answer(old(registry)@, *output_id, answer),
        final(registry)@ == old(registry)@,
{
    proof {
        use_type_invariant(&*registry);
    }
    registry.table.take_output(output_id)
}

/// Asks the task of `sid` to stop.
pub(crate) fn ask_abort<E: BatchTaskExecution>(
    registry: &mut Registry<E>,
    sid: &ProstTaskId,
) -> (answer: Result<(), RwError>)
    ensures
        held_under_own_ids(old(registry)@),
        abort_answer(old(registry)@, sid@, answer),
        final(registry)@ == old(registry)@,
{
    proof {
        use_type_invariant(&*registry);
    }
    registry.table.abort_task(sid)
}

/// Whether the task is running.
pub(crate) fn ask_running<E: BatchTaskExecution>(
    registry: &mut Registry<E>,
    task_id: &TaskId,
) -> (answer: Result<(), RwError>)
    ensures
        held_under_own_ids(old(registry)@),
        running_answer(old(registry)@, task_id@, answer),
        final(registry)@ == old(registry)@,
{
    proof {
        use_type_invariant(&*registry);
    }
    registry.table.check_if_task_running(task_id)
}

/// Whether the task was aborted.
pub(crate) fn ask_aborted<E: BatchTaskExecution>(
    registry: &mut Registry<E>,
    task_id: &TaskId,
) -> (answer: Result<bool, RwError>)
    ensures
        held_under_own_ids(old(registry)@),
        aborted_answer(old(registry)@, task_id@, answer),
        final(registry)@ == old(registry)@,
{
    proof {
        use_type_invariant(&*registry);
    }
    registry.table.check_if_task_aborted(task_id)
}

/// The error that the task failed with.
pub(crate) fn ask_error<E: BatchTaskExecution>(
    registry: &mut Registry<E>,
    task_id: &TaskId,
) -> (answer: Result<Option<RwError>, RwError>)
    ensures
        held_under_own_ids(old(registry)@),
        error_answer(old(registry)@, task_id@, answer),
        final(registry)@ == old(registry)@,
{
    proof {
        use_type_invariant(&*registry);
    }
    registry.table.get_error(task_id)
}

} // verus!
