//! What holds of the registered tasks over several operations.
use crate::error::RwError;
use crate::task::execution::BatchTaskExecution;
use crate::task::id::{ProstTaskId, ProstTaskOutputId, TaskId, TaskIdView};
use crate::task::manager::{registers, removes, BatchManager};
use crate::task::table::{
    abort_answer, aborted_answer, answers_id, duplicate_task, error_answer, held_under_own_ids,
    insert_answer, not_found, output_answer, remove_answer, running_answer, tasks_after_insert,
};
use std::sync::Arc;
use vstd::prelude::*;

verus! {

/// An operation that can change which tasks are registered.
pub enum TableOp<E> {
    Insert(TaskIdView, Arc<E>),
    Remove(TaskIdView),
}

/// The registered tasks after a history of operations on an empty table.
pub open spec fn tasks_after<E>(history: Seq<TableOp<E>>) -> Map<TaskIdView, Arc<E>>
    decreases history.len(),
{
    if history.len() == 0 {
        Map::empty()
    } else {
        let tasks = tasks_after(history.drop_last());
        match history.last() {
            TableOp::Insert(id, task) => tasks_after_insert(tasks, id, task),
            TableOp::Remove(id) => tasks.remove(id),
        }
    }
}

/// That the operation at `i` is the insertion of a task under `id`.
pub open spec fn inserts_at<E>(history: Seq<TableOp<E>>, i: int, id: TaskIdView) -> bool {
    0 <= i < history.len() && history[i] is Insert && history[i]->Insert_0 == id
}

/// That the operation at `i` is a removal under `id`.
pub open spec fn removes_at<E>(history: Seq<TableOp<E>>, i: int, id: TaskIdView) -> bool {
    0 <= i < history.len() && history[i] == TableOp::<E>::Remove(id)
}

/// That the operation at `i` inserts under `id` and no later one removes.
pub open spec fn lives<E>(history: Seq<TableOp<E>>, i: int, id: TaskIdView) -> bool {
    &&& inserts_at(history, i, id)
    &&& forall|j: int| i < j ==> !#[trigger] removes_at(history, j, id)
}

/// That the operation at `i` is the first insertion under `id` since the last removal.
pub open spec fn holds<E>(history: Seq<TableOp<E>>, i: int, id: TaskIdView) -> bool {
    &&& lives(history, i, id)
    &&& forall|k: int|
        k < i && #[trigger] inserts_at(history, k, id) ==> exists|m: int|
            k < m < i && #[trigger] removes_at(history, m, id)
}

/// Whatever was done before, a task is registered under an id if and only if one was
/// inserted under it and none was removed under it since; and the one that is
/// registered is the first that was inserted since the last removal.
pub proof fn law_first_insert_since_removal_is_registered<E>(
    history: Seq<TableOp<E>>,
    id: TaskIdView,
)
    ensures
        tasks_after(history).contains_key(id) <==> exists|i: int| lives(history, i, id),
        tasks_after(history).contains_key(id) <==> exists|i: int| holds(history, i, id),
        forall|i: int| #[trigger]
            holds(history, i, id) ==> tasks_after(history)[id] == history[i]->Insert_1,
    decreases history.len(),
{
    if history.len() > 0 {
        let before = history.drop_last();
        let last = history.len() - 1;
        law_first_insert_since_removal_is_registered(before, id);
        assert forall|i: int| i != last implies #[trigger] inserts_at(history, i, id)
            == inserts_at(before, i, id) by {}
        assert forall|i: int| i != last implies #[trigger] removes_at(history, i, id)
            == removes_at(before, i, id) by {}
        if removes_at(history, last, id) {
            assert forall|i: int| !lives(history, i, id) by {
                if lives(history, i, id) {
                    assert(i < last);
                    assert(removes_at(history, last, id));
                }
            }
        } else {
            assert forall|i: int| i != last implies #[trigger] lives(history, i, id) == lives(
                before,
                i,
                id,
            ) by {
                if lives(before, i, id) {
                    assert forall|j: int| i < j implies !#[trigger] removes_at(history, j, id) by {
                        assert(j != last ==> !removes_at(before, j, id));
                    }
                }
                if lives(history, i, id) {
                    assert forall|j: int| i < j implies !#[trigger] removes_at(before, j, id) by {
                        assert(!removes_at(history, j, id));
                    }
                }
            }
            assert forall|i: int| i < last implies #[trigger] holds(history, i, id) == holds(
                before,
                i,
                id,
            ) by {
                lemma_holds_in_prefix(history, i, id);
            }
            if inserts_at(history, last, id) {
                assert(lives(history, last, id));
                if tasks_after(before).contains_key(id) {
                    let h = choose|h: int| holds(before, h, id);
                    assert(holds(before, h, id));
                    assert(holds(history, h, id));
                    assert(inserts_at(history, h, id));
                    assert(!holds(history, last, id)) by {
                        if holds(history, last, id) {
                            let m = choose|m: int| h < m < last && removes_at(history, m, id);
                            assert(removes_at(before, m, id));
                        }
                    }
                } else {
                    assert forall|k: int|
                        k < last && #[trigger] inserts_at(history, k, id) implies exists|m: int|
                        k < m < last && #[trigger] removes_at(history, m, id) by {
                        assert(!lives(before, k, id));
                        assert(inserts_at(before, k, id));
                        let m = choose|m: int| k < m && removes_at(before, m, id);
                        assert(removes_at(history, m, id));
                    }
                    assert(holds(history, last, id));
                }
            } else {
                assert(!lives(history, last, id));
                if tasks_after(before).contains_key(id) {
                    let h = choose|h: int| holds(before, h, id);
                    assert(holds(history, h, id));
                }
            }
        }
    }
}

proof fn lemma_holds_in_prefix<E>(history: Seq<TableOp<E>>, i: int, id: TaskIdView)
    requires
        history.len() > 0,
        i < history.len() - 1,
        !removes_at(history, history.len() - 1, id),
    ensures
        holds(history, i, id) == holds(history.drop_last(), i, id),
{
    let before = history.drop_last();
    let last = history.len() - 1;
    assert forall|k: int| k != last implies #[trigger] inserts_at(history, k, id) == inserts_at(
        before,
        k,
        id,
    ) && removes_at(history, k, id) == removes_at(before, k, id) by {}
    if holds(before, i, id) {
        assert forall|j: int| i < j implies !#[trigger] removes_at(history, j, id) by {
            assert(j != last ==> !removes_at(before, j, id));
            assert(j != last ==> inserts_at(history, j, id) == inserts_at(before, j, id));
        }
        assert forall|k: int| k < i && #[trigger] inserts_at(history, k, id) implies exists|m: int|
            k < m < i && #[trigger] removes_at(history, m, id) by {
            assert(inserts_at(before, k, id));
            let m = choose|m: int| k < m < i && removes_at(before, m, id);
            assert(inserts_at(history, m, id) == inserts_at(before, m, id));
            assert(removes_at(history, m, id));
        }
    }
    if holds(history, i, id) {
        assert forall|j: int| i < j implies !#[trigger] removes_at(before, j, id) by {
            assert(!removes_at(history, j, id));
            assert(j != last ==> inserts_at(history, j, id) == inserts_at(before, j, id));
        }
        assert forall|k: int| k < i && #[trigger] inserts_at(before, k, id) implies exists|m: int|
            k < m < i && #[trigger] removes_at(before, m, id) by {
            assert(inserts_at(history, k, id));
            let m = choose|m: int| k < m < i && removes_at(history, m, id);
            assert(inserts_at(history, m, id) == inserts_at(before, m, id));
            assert(removes_at(before, m, id));
        }
    }
}

/// A task that is registered is found: every question about its id goes to it.
pub proof fn law_registered_task_is_asked<E: BatchTaskExecution>(
    tasks: Map<TaskIdView, Arc<E>>,
    id: TaskIdView,
    task: Arc<E>,
)
    requires
        !tasks.contains_key(id),
    ensures
        forall|answer: Result<(), RwError>| #[trigger]
            insert_answer(tasks, id, answer) ==> answer is Ok,
        tasks_after_insert(tasks, id, task).contains_key(id),
        tasks_after_insert(tasks, id, task)[id] == task,
        forall|answer: Result<(), RwError>| #[trigger]
            running_answer(tasks_after_insert(tasks, id, task), id, answer) == call_ensures(
                E::check_if_running,
                (&*task,),
                answer,
            ),
        forall|answer: Result<bool, RwError>| #[trigger]
            aborted_answer(tasks_after_insert(tasks, id, task), id, answer) == call_ensures(
                E::check_if_aborted,
                (&*task,),
                answer,
            ),
        forall|answer: Result<(), RwError>| #[trigger]
            abort_answer(tasks_after_insert(tasks, id, task), id, answer) == call_ensures(
                E::abort_task,
                (&*task,),
                answer,
            ),
        forall|error: Option<RwError>|
            #![trigger error_answer(tasks_after_insert(tasks, id, task), id, Ok(error))]
            error_answer(tasks_after_insert(tasks, id, task), id, Ok(error)) == call_ensures(
                E::get_error,
                (&*task,),
                error,
            ),
        forall|output_id: ProstTaskOutputId, answer: Result<E::Output, RwError>|
            #![trigger output_answer(tasks_after_insert(tasks, id, task), output_id, answer)]
            output_id.task_id is Some && output_id.task_id->0@ == id ==> output_answer(
                tasks_after_insert(tasks, id, task),
                output_id,
                answer,
            ) == call_ensures(E::get_task_output, (&*task, &output_id), answer),
{
}

/// A second task under the same id is refused, and the first one stays registered.
pub proof fn law_duplicate_task_is_refused<E>(
    tasks: Map<TaskIdView, Arc<E>>,
    id: TaskIdView,
    first: Arc<E>,
    second: Arc<E>,
    answer: Result<(), RwError>,
)
    requires
        insert_answer(tasks_after_insert(tasks, id, first), id, answer),
    ensures
        answer is Err,
        answer->Err_0@ == duplicate_task(id),
        tasks_after_insert(tasks_after_insert(tasks, id, first), id, second)
            == tasks_after_insert(tasks, id, first),
{
}

/// Removing a task undoes its registration, and hands out the task that was registered.
pub proof fn law_remove_undoes_insert<E>(
    tasks: Map<TaskIdView, Arc<E>>,
    id: TaskIdView,
    task: Arc<E>,
    answer: Result<Option<Arc<E>>, RwError>,
)
    requires
        !tasks.contains_key(id),
        remove_answer(tasks_after_insert(tasks, id, task), id, answer),
    ensures
        answer == Ok::<Option<Arc<E>>, RwError>(Some(task)),
        tasks_after_insert(tasks, id, task).remove(id) == tasks,
{
    assert(tasks_after_insert(tasks, id, task).remove(id) =~= tasks);
}

/// An id that was removed is free again: another task can be registered under it.
pub proof fn law_removed_id_is_free<E>(
    tasks: Map<TaskIdView, Arc<E>>,
    id: TaskIdView,
    task: Arc<E>,
    answer: Result<(), RwError>,
)
    requires
        insert_answer(tasks.remove(id), id, answer),
    ensures
        answer is Ok,
        tasks_after_insert(tasks.remove(id), id, task) == tasks.insert(id, task),
{
    assert(tasks_after_insert(tasks.remove(id), id, task) =~= tasks.insert(id, task));
}

/// Every request for a task that is not registered, be it removed or never fired, is
/// answered that the task was not found.
pub proof fn law_unregistered_task_is_not_found<E: BatchTaskExecution>(
    tasks: Map<TaskIdView, Arc<E>>,
    id: TaskIdView,
)
    requires
        !tasks.contains_key(id),
    ensures
        forall|answer: Result<Option<Arc<E>>, RwError>| #[trigger]
            remove_answer(tasks, id, answer) ==> not_found(answer),
        forall|answer: Result<(), RwError>| #[trigger]
            abort_answer(tasks, id, answer) ==> not_found(answer),
        forall|answer: Result<(), RwError>| #[trigger]
            running_answer(tasks, id, answer) ==> not_found(answer),
        forall|answer: Result<bool, RwError>| #[trigger]
            aborted_answer(tasks, id, answer) ==> not_found(answer),
        forall|answer: Result<Option<RwError>, RwError>| #[trigger]
            error_answer(tasks, id, answer) ==> not_found(answer),
        forall|output_id: ProstTaskOutputId, answer: Result<E::Output, RwError>|
            #![trigger output_answer(tasks, output_id, answer)]
            output_id.task_id is Some && output_id.task_id->0@ == id && output_answer(
                tasks,
                output_id,
                answer,
            ) ==> not_found(answer),
{
}

/// A request for a task that was not found is reported with the gRPC code `INTERNAL`.
pub proof fn law_not_found_is_internal<T>(answer: Result<T, RwError>)
    requires
        not_found(answer),
    ensures
        answer->Err_0@.status() == crate::error::grpc_status(
            crate::error::GRPC_INTERNAL,
            "Task not found"@,
        ),
{
}

/// Registering or removing a task leaves every other task as it is.
pub proof fn law_other_tasks_are_kept<E>(
    tasks: Map<TaskIdView, Arc<E>>,
    id: TaskIdView,
    task: Arc<E>,
    other: TaskIdView,
)
    requires
        other != id,
    ensures
        tasks_after_insert(tasks, id, task).contains_key(other) == tasks.contains_key(other),
        tasks.remove(id).contains_key(other) == tasks.contains_key(other),
        tasks.contains_key(other) ==> tasks_after_insert(tasks, id, task)[other] == tasks[other]
            && tasks.remove(id)[other] == tasks[other],
{
}

/// Firing a task keeps every task under its own id, whether the task is registered or
/// refused.
pub proof fn law_firing_keeps_own_ids<E: BatchTaskExecution>(
    before: Map<TaskIdView, Arc<E>>,
    own: &TaskId,
    task: Arc<E>,
    answer: Result<(), RwError>,
    after: Map<TaskIdView, Arc<E>>,
)
    requires
        held_under_own_ids(before),
        call_ensures(E::get_task_id, (&*task,), own),
        registers(before, own@, task, answer, after),
    ensures
        held_under_own_ids(after),
{
    assert(answers_id(task, own@));
}

/// Removing a task keeps every other task under its own id, and hands out a task that
/// answers the id it was removed under.
pub proof fn law_removing_keeps_own_ids<E: BatchTaskExecution>(
    before: Map<TaskIdView, Arc<E>>,
    id: TaskIdView,
    answer: Result<Option<Arc<E>>, RwError>,
    after: Map<TaskIdView, Arc<E>>,
)
    requires
        held_under_own_ids(before),
        removes(before, id, answer, after),
    ensures
        held_under_own_ids(after),
        answer is Ok ==> answer->Ok_0 is Some && answers_id(answer->Ok_0->0, id),
{
}

/// In every state that is reached from an empty table by inserting tasks under the ids
/// that they answer and by removing tasks, each id has at most one task, and that task
/// answers the id.
pub proof fn law_reached_tasks_are_held_under_their_own_ids<E: BatchTaskExecution>(
    history: Seq<TableOp<E>>,
)
    requires
        forall|i: int|
            0 <= i < history.len() && (#[trigger] history[i]) is Insert ==> answers_id(
                history[i]->Insert_1,
                history[i]->Insert_0,
            ),
    ensures
        held_under_own_ids(tasks_after(history)),
    decreases history.len(),
{
    if history.len() > 0 {
        let before = history.drop_last();
        assert forall|i: int| 0 <= i < before.len() && (#[trigger] before[i]) is Insert implies
            answers_id(before[i]->Insert_1, before[i]->Insert_0) by {
            assert(before[i] == history[i]);
        }
        law_reached_tasks_are_held_under_their_own_ids(before);
        assert(history.last() == history[history.len() - 1]);
    }
}

/// A task that was registered is handed out by the next removal under its id, and with
/// it gone every request for it is answered that it was not found.
pub proof fn law_fired_task_is_removed_once<E: BatchTaskExecution>(
    before: Map<TaskIdView, Arc<E>>,
    own: &TaskId,
    task: Arc<E>,
    fired: Result<(), RwError>,
    between: Map<TaskIdView, Arc<E>>,
    removed: Result<Option<Arc<E>>, RwError>,
    after: Map<TaskIdView, Arc<E>>,
)
    requires
        call_ensures(E::get_task_id, (&*task,), own),
        registers(before, own@, task, fired, between),
        fired is Ok,
        removes(between, own@, removed, after),
    ensures
        removed == Ok::<Option<Arc<E>>, RwError>(Some(task)),
        answers_id(removed->Ok_0->0, own@),
        after == before,
        !after.contains_key(own@),
        forall|answer: Result<Option<Arc<E>>, RwError>| #[trigger]
            remove_answer(after, own@, answer) ==> not_found(answer),
        forall|answer: Result<(), RwError>| #[trigger]
            running_answer(after, own@, answer) ==> not_found(answer),
{
    law_remove_undoes_insert(before, own@, task, removed);
    law_unregistered_task_is_not_found(after, own@);
}

/// Where no task is registered, every request is answered that the task was not found,
/// whatever its id.
pub proof fn law_empty_table_finds_nothing<E: BatchTaskExecution>()
    ensures
        forall|id: TaskIdView, answer: Result<Option<Arc<E>>, RwError>| #[trigger]
            remove_answer(Map::<TaskIdView, Arc<E>>::empty(), id, answer) ==> not_found(answer),
        forall|id: TaskIdView, answer: Result<(), RwError>| #[trigger]
            abort_answer(Map::<TaskIdView, Arc<E>>::empty(), id, answer) ==> not_found(answer),
        forall|id: TaskIdView, answer: Result<(), RwError>| #[trigger]
            running_answer(Map::<TaskIdView, Arc<E>>::empty(), id, answer) ==> not_found(answer),
        forall|id: TaskIdView, answer: Result<bool, RwError>| #[trigger]
            aborted_answer(Map::<TaskIdView, Arc<E>>::empty(), id, answer) ==> not_found(answer),
        forall|id: TaskIdView, answer: Result<Option<RwError>, RwError>| #[trigger]
            error_answer(Map::<TaskIdView, Arc<E>>::empty(), id, answer) ==> not_found(answer),
        forall|output_id: ProstTaskOutputId, answer: Result<E::Output, RwError>| #[trigger]
            output_answer(Map::<TaskIdView, Arc<E>>::empty(), output_id, answer) ==> answer is Err
                && (output_id.task_id is Some ==> not_found(answer)),
{
}

/// A manager and its clone work on one table: what one of them inserts, removes or asks
/// goes to the same lock as if the other had done so.
pub proof fn law_clones_share_one_table<E: BatchTaskExecution>(
    manager: BatchManager<E>,
    clone: BatchManager<E>,
)
    requires
        call_ensures(<BatchManager<E> as Clone>::clone, (&manager,), clone),
    ensures
        forall|tasks: Map<TaskIdView, Arc<E>>| #[trigger]
            clone.made_with(tasks) == manager.made_with(tasks),
        forall|id: TaskId, task: Arc<E>, answer: Result<(), RwError>| #[trigger]
            clone.inserted(id, task, answer) == manager.inserted(id, task, answer),
        forall|sid: &ProstTaskId, answer: Result<Option<Arc<E>>, RwError>| #[trigger]
            clone.removed(sid, answer) == manager.removed(sid, answer),
        forall|output_id: &ProstTaskOutputId, answer: Result<E::Output, RwError>| #[trigger]
            clone.output_taken(output_id, answer) == manager.output_taken(output_id, answer),
        forall|sid: &ProstTaskId, answer: Result<(), RwError>| #[trigger]
            clone.abort_asked(sid, answer) == manager.abort_asked(sid, answer),
        forall|task_id: &TaskId, answer: Result<(), RwError>| #[trigger]
            clone.running_asked(task_id, answer) == manager.running_asked(task_id, answer),
        forall|task_id: &TaskId, answer: Result<bool, RwError>| #[trigger]
            clone.aborted_asked(task_id, answer) == manager.aborted_asked(task_id, answer),
        forall|task_id: &TaskId, answer: Result<Option<RwError>, RwError>| #[trigger]
            clone.error_asked(task_id, answer) == manager.error_asked(task_id, answer),
{
}

} // verus!
