//! What holds of one call of a manager, and of the calls on one table in their order.
use crate::error::{ErrorCodeView, RwError};
use crate::task::execution::BatchTaskExecution;
use crate::task::id::{ProstTaskId, ProstTaskOutputId, TaskId, TaskIdView};
use crate::task::manager::{
    data_answer, fire_answer, registers, removes, start_answer, wait_step, BatchManager,
    TakenOutput, WaitStep,
};
use crate::task::table::{
    abort_answer, aborted_answer, duplicate_task, error_answer, not_found, output_answer,
    running_answer,
};
use crate::text::{decimal_text, quoted_text};
use std::sync::Arc;
use vstd::prelude::*;

verus! {

/// A request for data succeeds if and only if the output could be taken, whatever the
/// output's number; and what it gives is the output that was taken, under the id that
/// was asked for.
pub proof fn law_data_is_given_where_the_output_was_taken<O>(
    output_id: ProstTaskOutputId,
    taken: Result<O, RwError>,
    answer: Result<TakenOutput<O>, RwError>,
)
    requires
        data_answer(output_id, taken, answer),
    ensures
        answer is Ok <==> taken is Ok,
        taken is Ok ==> answer->Ok_0.task_output == taken->Ok_0,
        taken is Ok ==> answer->Ok_0.task_id.output_id == output_id.output_id,
        taken is Ok ==> answer->Ok_0.task_id.task_id.task_id == output_id.task_id->0.task_id,
        taken is Ok ==> answer->Ok_0.task_id.task_id.stage_id == output_id.task_id->0.stage_id,
        taken is Ok ==> answer->Ok_0.task_id.task_id.query_id@ == output_id.task_id->0.query_id@,
        taken is Err ==> answer->Err_0 == taken->Err_0,
{
}

/// What [`BatchManager::get_data`] answers is what [`BatchManager::take_output`] can
/// answer to the same id: `get_data` succeeds just where the manager's own table gave an
/// output, and fails with the error that the table gave.
pub proof fn law_get_data_answers_as_take_output<E: BatchTaskExecution>(
    manager: &BatchManager<E>,
    output_id: &ProstTaskOutputId,
    answer: Result<TakenOutput<E::Output>, RwError>,
)
    requires
        call_ensures(BatchManager::<E>::get_data, (manager, output_id), answer),
    ensures
        output_id.task_id is None ==> answer is Err && answer->Err_0@
            == ErrorCodeView::InternalError(
            "Failed to decode prost: field not found `"@ + "task_id"@ + "`"@,
        ),
        output_id.task_id is Some && answer is Ok ==> manager.output_taken(
            output_id,
            Ok(answer->Ok_0.task_output),
        ),
        output_id.task_id is Some && answer is Err ==> manager.output_taken(
            output_id,
            Err(answer->Err_0),
        ),
{
}

/// A task that is to be registered is refused if and only if its id is taken. It joins
/// the table if it is not, and otherwise the table stays as it was.
pub proof fn law_task_is_registered_where_its_id_is_free<E>(
    before: Map<TaskIdView, Arc<E>>,
    id: TaskIdView,
    task: Arc<E>,
    answer: Result<(), RwError>,
    after: Map<TaskIdView, Arc<E>>,
)
    requires
        registers(before, id, task, answer, after),
    ensures
        answer is Ok <==> !before.contains_key(id),
        answer is Ok ==> after == before.insert(id, task),
        answer is Err ==> after == before,
        answer is Err ==> answer->Err_0@ == ErrorCodeView::InternalError(
            "can not create duplicate task with the same id: "@ + ("TaskId { task_id: "@
                + decimal_text(id.task_id as nat) + ", stage_id: "@ + decimal_text(
                id.stage_id as nat,
            ) + ", query_id: "@ + quoted_text(id.query_id) + " }"@),
        ),
{
}

/// A task that is to be removed is handed out if and only if it is registered, and then
/// it is the registered one. Nothing but that task leaves the table.
pub proof fn law_registered_task_is_removed<E>(
    before: Map<TaskIdView, Arc<E>>,
    id: TaskIdView,
    answer: Result<Option<Arc<E>>, RwError>,
    after: Map<TaskIdView, Arc<E>>,
)
    requires
        removes(before, id, answer, after),
    ensures
        answer is Ok <==> before.contains_key(id),
        answer is Ok ==> answer->Ok_0 == Some(before[id]),
        answer is Err ==> answer->Err_0.inner is TaskNotFound,
        !after.contains_key(id),
        before.contains_key(id) ==> before == after.insert(id, before[id]),
        !before.contains_key(id) ==> after == before,
{
    if before.contains_key(id) {
        assert(before =~= after.insert(id, before[id]));
    } else {
        assert(after =~= before);
    }
}

/// A call on a table that can change it, with its answer.
pub enum TableCall<E> {
    /// A task was to be registered under its id.
    Fire(TaskIdView, Arc<E>, Result<(), RwError>),
    /// The task of an id was to be removed.
    Remove(TaskIdView, Result<Option<Arc<E>>, RwError>),
}

impl<E> TableCall<E> {
    /// The id that the call is about.
    pub open spec fn id(self) -> TaskIdView {
        match self {
            TableCall::Fire(id, _, _) => id,
            TableCall::Remove(id, _) => id,
        }
    }

    /// That the call found the tasks `before` and left the tasks `after`.
    pub open spec fn acts(
        self,
        before: Map<TaskIdView, Arc<E>>,
        after: Map<TaskIdView, Arc<E>>,
    ) -> bool {
        match self {
            TableCall::Fire(id, task, answer) => registers(before, id, task, answer, after),
            TableCall::Remove(id, answer) => removes(before, id, answer, after),
        }
    }
}

/// That the calls came one after the other on one table, which passed through `tables`:
/// each call acts once, and what it finds is what the call before it left.
pub open spec fn in_order<E>(
    tables: Seq<Map<TaskIdView, Arc<E>>>,
    calls: Seq<TableCall<E>>,
) -> bool {
    &&& tables.len() == calls.len() + 1
    &&& forall|k: int|
        0 <= k < calls.len() ==> (#[trigger] calls[k]).acts(tables[k], tables[k + 1])
}

/// That none of the calls from `first` up to `last` is about `id`.
pub open spec fn silent_on<E>(
    calls: Seq<TableCall<E>>,
    id: TaskIdView,
    first: int,
    last: int,
) -> bool {
    forall|k: int| first <= k < last ==> (#[trigger] calls[k]).id() != id
}

proof fn lemma_silent_calls_keep<E>(
    tables: Seq<Map<TaskIdView, Arc<E>>>,
    calls: Seq<TableCall<E>>,
    id: TaskIdView,
    first: int,
    last: int,
)
    requires
        in_order(tables, calls),
        0 <= first <= last <= calls.len(),
        silent_on(calls, id, first, last),
    ensures
        tables[last].contains_key(id) == tables[first].contains_key(id),
        tables[first].contains_key(id) ==> tables[last][id] == tables[first][id],
    decreases last - first,
{
    if first < last {
        lemma_silent_calls_keep(tables, calls, id, first, last - 1);
        assert(calls[last - 1].acts(tables[last - 1], tables[last]));
        assert(calls[last - 1].id() != id);
    }
}

/// As long as no other call is about an id that is free, the table answers for it as an
/// empty one: the first task that is fired under the id is registered, and a removal
/// finds nothing.
pub proof fn law_first_call_for_a_free_id<E>(
    tables: Seq<Map<TaskIdView, Arc<E>>>,
    calls: Seq<TableCall<E>>,
    id: TaskIdView,
    k: int,
)
    requires
        in_order(tables, calls),
        0 <= k < calls.len(),
        !tables[0].contains_key(id),
        silent_on(calls, id, 0, k),
        calls[k].id() == id,
    ensures
        calls[k] matches TableCall::Fire(_, task, answer) ==> answer is Ok && tables[k + 1]
            == tables[k].insert(id, task),
        calls[k] matches TableCall::Remove(_, answer) ==> answer is Err
            && answer->Err_0.inner is TaskNotFound && tables[k + 1] == tables[k],
{
    lemma_silent_calls_keep(tables, calls, id, 0, k);
    assert(calls[k].acts(tables[k], tables[k + 1]));
    if calls[k] is Remove {
        assert(tables[k].remove(id) =~= tables[k]);
    }
}

/// The first call about an id after a task was registered under it is answered for that
/// task: a removal hands out that very task and leaves the id free, and another task is
/// refused.
pub proof fn law_first_call_for_a_registered_task<E>(
    tables: Seq<Map<TaskIdView, Arc<E>>>,
    calls: Seq<TableCall<E>>,
    id: TaskIdView,
    task: Arc<E>,
    fired: int,
    k: int,
)
    requires
        in_order(tables, calls),
        0 <= fired < k < calls.len(),
        calls[fired] == TableCall::Fire(id, task, Ok(())),
        silent_on(calls, id, fired + 1, k),
        calls[k].id() == id,
    ensures
        calls[k] matches TableCall::Remove(_, answer) ==> answer == Ok::<
            Option<Arc<E>>,
            RwError,
        >(Some(task)) && !tables[k + 1].contains_key(id),
        calls[k] matches TableCall::Fire(_, _, answer) ==> answer is Err && tables[k + 1]
            == tables[k],
{
    assert(calls[fired].acts(tables[fired], tables[fired + 1]));
    lemma_silent_calls_keep(tables, calls, id, fired + 1, k);
    assert(calls[k].acts(tables[k], tables[k + 1]));
}

/// The first call about an id after a removal finds the id free, whatever the removal
/// found: a task is registered, and a second removal finds nothing.
pub proof fn law_first_call_after_a_removal<E>(
    tables: Seq<Map<TaskIdView, Arc<E>>>,
    calls: Seq<TableCall<E>>,
    id: TaskIdView,
    removed: int,
    k: int,
)
    requires
        in_order(tables, calls),
        0 <= removed < k < calls.len(),
        calls[removed] is Remove,
        calls[removed].id() == id,
        silent_on(calls, id, removed + 1, k),
        calls[k].id() == id,
    ensures
        calls[k] matches TableCall::Fire(_, _, answer) ==> answer is Ok,
        calls[k] matches TableCall::Remove(_, answer) ==> answer is Err
            && answer->Err_0.inner is TaskNotFound,
{
    assert(calls[removed].acts(tables[removed], tables[removed + 1]));
    lemma_silent_calls_keep(tables, calls, id, removed + 1, k);
    assert(calls[k].acts(tables[k], tables[k + 1]));
}

/// What one insertion into the manager's own table gave is what the table that it found
/// owes: success if and only if the id was free, and then that table with the task.
pub proof fn law_insertion_answers_for_the_table_it_found<E: BatchTaskExecution>(
    manager: BatchManager<E>,
    id: TaskId,
    task: Arc<E>,
    answer: Result<(), RwError>,
)
    requires
        manager.inserted(id, task, answer),
    ensures
        exists|before: Map<TaskIdView, Arc<E>>, after: Map<TaskIdView, Arc<E>>|
            {
                &&& #[trigger] registers(before, id@, task, answer, after)
                &&& answer is Ok <==> !before.contains_key(id@)
                &&& answer is Ok ==> after == before.insert(id@, task)
                &&& answer is Err ==> after == before
            },
{
    manager.lemma_inserted(id, task, answer);
}

/// What one removal from the manager's own table gave is what the table that it found
/// owes: the task that was registered there, or that there was none.
pub proof fn law_removal_answers_for_the_table_it_found<E: BatchTaskExecution>(
    manager: BatchManager<E>,
    sid: &ProstTaskId,
    answer: Result<Option<Arc<E>>, RwError>,
)
    requires
        manager.removed(sid, answer),
    ensures
        exists|before: Map<TaskIdView, Arc<E>>, after: Map<TaskIdView, Arc<E>>|
            {
                &&& #[trigger] removes(before, sid@, answer, after)
                &&& answer is Ok <==> before.contains_key(sid@)
                &&& answer is Ok ==> answer->Ok_0 == Some(before[sid@])
                &&& after == before.remove(sid@)
            },
{
    manager.lemma_removed(sid, answer);
}

/// The answer to a plan is traced to what gave it. Success comes from an execution that
/// was prepared from the plan, started, and inserted under the id that it answered. An
/// error is the one that preparing it gave, or starting it, or the insertion.
pub proof fn law_fired_plan_answers_as_its_execution<E: BatchTaskExecution>(
    manager: BatchManager<E>,
    tid: &ProstTaskId,
    plan: E::Plan,
    epoch: u64,
    context: E::Context,
    answer: Result<(), RwError>,
)
    requires
        fire_answer(manager, tid, plan, epoch, context, answer),
    ensures
        answer is Ok ==> exists|task: Arc<E>, id: &TaskId|
            {
                &&& call_ensures(E::new, (tid, plan, context, epoch), Ok(*task))
                &&& #[trigger] call_ensures(E::async_execute, (task,), Ok(()))
                &&& #[trigger] call_ensures(E::get_task_id, (&*task,), id)
                &&& manager.inserted(*id, task, answer)
            },
        answer is Err ==> {
            ||| call_ensures(E::new, (tid, plan, context, epoch), Err(answer->Err_0))
            ||| exists|task: Arc<E>|
                {
                    &&& call_ensures(E::new, (tid, plan, context, epoch), Ok(*task))
                    &&& #[trigger] call_ensures(E::async_execute, (task,), Err(answer->Err_0))
                }
            ||| exists|task: Arc<E>, id: &TaskId|
                {
                    &&& call_ensures(E::new, (tid, plan, context, epoch), Ok(*task))
                    &&& #[trigger] call_ensures(E::async_execute, (task,), Ok(()))
                    &&& #[trigger] call_ensures(E::get_task_id, (&*task,), id)
                    &&& manager.inserted(*id, task, answer)
                    &&& answer->Err_0@ == duplicate_task(id@)
                }
        },
{
    let prepared = choose|prepared: Result<E, RwError>| #[trigger]
        call_ensures(E::new, (tid, plan, context, epoch), prepared) && match prepared {
            Err(error) => answer == Err::<(), RwError>(error),
            Ok(task) => start_answer(manager, task, answer),
        };
    if let Ok(task) = prepared {
        let (shared, started) = choose|shared: Arc<E>, started: Result<(), RwError>|
            *shared == task && #[trigger] call_ensures(E::async_execute, (shared,), started)
                && match started {
                Err(error) => answer == Err::<(), RwError>(error),
                Ok(_) => exists|
                    id: &TaskId,
                    before: Map<TaskIdView, Arc<E>>,
                    after: Map<TaskIdView, Arc<E>>,
                |
                    {
                        &&& #[trigger] call_ensures(E::get_task_id, (&task,), id)
                        &&& manager.inserted(*id, shared, answer)
                        &&& #[trigger] registers(before, id@, shared, answer, after)
                    },
            };
        if let Ok(done) = started {
            assert(done == ());
        }
    }
}

/// A wait for a task's abort ends without an error just where the task was aborted, ends
/// with the error just where the task could not be asked, and goes on after a tenth of a
/// second otherwise.
pub proof fn law_wait_ends_with_the_abort(aborted: Result<bool, RwError>, step: WaitStep)
    requires
        call_ensures(wait_step, (aborted,), step),
    ensures
        step == WaitStep::Return(Ok(())) <==> aborted == Ok::<bool, RwError>(true),
        step == WaitStep::Sleep(100) <==> aborted == Ok::<bool, RwError>(false),
        step is Sleep <==> aborted == Ok::<bool, RwError>(false),
        step is Return && step->Return_0 is Err <==> aborted is Err,
        aborted is Err ==> step->Return_0->Err_0 == aborted->Err_0,
{
}

/// The answer that a task was not found is the error of that name, and nothing else is.
pub proof fn law_not_found_is_the_error_of_that_name<T>(answer: Result<T, RwError>)
    ensures
        not_found(answer) <==> answer is Err && answer->Err_0.inner is TaskNotFound,
{
}

/// What a task is asked about is answered by the task that is registered under the id,
/// and by that task alone; a task that is not registered is not found. What a registered
/// task failed with can always be asked.
pub proof fn law_questions_go_to_the_registered_task<E: BatchTaskExecution>(
    tasks: Map<TaskIdView, Arc<E>>,
    id: TaskIdView,
    done: Result<(), RwError>,
    aborted: Result<bool, RwError>,
    failed: Result<Option<RwError>, RwError>,
)
    ensures
        tasks.contains_key(id) ==> {
            &&& abort_answer(tasks, id, done) <==> call_ensures(
                E::abort_task,
                (&*tasks[id],),
                done,
            )
            &&& running_answer(tasks, id, done) <==> call_ensures(
                E::check_if_running,
                (&*tasks[id],),
                done,
            )
            &&& aborted_answer(tasks, id, aborted) <==> call_ensures(
                E::check_if_aborted,
                (&*tasks[id],),
                aborted,
            )
            &&& error_answer(tasks, id, failed) <==> failed is Ok && call_ensures(
                E::get_error,
                (&*tasks[id],),
                failed->Ok_0,
            )
        },
        !tasks.contains_key(id) ==> {
            &&& abort_answer(tasks, id, done) <==> done is Err && done->Err_0.inner is TaskNotFound
            &&& running_answer(tasks, id, done) <==> done is Err
                && done->Err_0.inner is TaskNotFound
            &&& aborted_answer(tasks, id, aborted) <==> aborted is Err
                && aborted->Err_0.inner is TaskNotFound
            &&& error_answer(tasks, id, failed) <==> failed is Err
                && failed->Err_0.inner is TaskNotFound
        },
{
}

/// A request for an output that names no task is refused for it, whatever tasks are
/// registered; one that names a task is answered by that task, whatever the output's
/// number, or that the task was not found.
pub proof fn law_output_is_asked_of_the_task_it_names<E: BatchTaskExecution>(
    tasks: Map<TaskIdView, Arc<E>>,
    output_id: ProstTaskOutputId,
    answer: Result<E::Output, RwError>,
)
    requires
        output_answer(tasks, output_id, answer),
    ensures
        output_id.task_id is None ==> answer is Err && answer->Err_0@
            == ErrorCodeView::InternalError(
            "Failed to decode prost: field not found `"@ + "task_id"@ + "`"@,
        ),
        output_id.task_id matches Some(task_id) ==> if tasks.contains_key(task_id@) {
            call_ensures(E::get_task_output, (&*tasks[task_id@], &output_id), answer)
        } else {
            answer is Err && answer->Err_0.inner is TaskNotFound
        },
{
}

} // verus!
