//! The table of registered tasks: one task per id.
use crate::error::{ErrorCode, ErrorCodeView, RwError};
use crate::task::execution::BatchTaskExecution;
use crate::task::id::{ProstTaskId, ProstTaskOutputId, TaskId, TaskIdView};
use std::sync::Arc;
use vstd::prelude::*;
use vstd::string::*;

verus! {

/// The registered tasks. Every task id has at most one corresponding task execution.
pub struct TaskTable<E> {
    entries: Vec<(TaskId, Arc<E>)>,
}

/// That no id occurs twice.
spec fn distinct_ids<E>(entries: Seq<(TaskId, Arc<E>)>) -> bool {
    forall|i: int, j: int|
        0 <= i < j < entries.len() ==> (#[trigger] entries[i]).0@ != (#[trigger] entries[j]).0@
}

/// That the entry at `i` is the one of `id`.
spec fn entry_at<E>(entries: Seq<(TaskId, Arc<E>)>, i: int, id: TaskIdView) -> bool {
    0 <= i < entries.len() && entries[i].0@ == id
}

spec fn as_map<E>(entries: Seq<(TaskId, Arc<E>)>) -> Map<TaskIdView, Arc<E>> {
    Map::new(
        |id: TaskIdView| exists|i: int| entry_at(entries, i, id),
        |id: TaskIdView| entries[choose|i: int| entry_at(entries, i, id)].1,
    )
}

/// That the task, asked for its id, can answer `id`.
pub open spec fn answers_id<E: BatchTaskExecution>(task: Arc<E>, id: TaskIdView) -> bool {
    exists|own: &TaskId| #[trigger] call_ensures(E::get_task_id, (&*task,), own) && own@ == id
}

/// That every task is held under the id that it answers itself.
pub open spec fn held_under_own_ids<E: BatchTaskExecution>(
    tasks: Map<TaskIdView, Arc<E>>,
) -> bool {
    forall|id: TaskIdView| #[trigger] tasks.contains_key(id) ==> answers_id(tasks[id], id)
}

/// The answer that no task is registered under the id.
pub open spec fn not_found<T>(answer: Result<T, RwError>) -> bool {
    answer is Err && answer->Err_0@ == ErrorCodeView::TaskNotFound
}

/// The error for a second task under the same id.
pub open spec fn duplicate_task(id: TaskIdView) -> ErrorCodeView {
    ErrorCodeView::InternalError("can not create duplicate task with the same id: "@ + id.text())
}

/// The answer to a task that is to be registered: it is refused if and only if a task
/// is registered under the same id.
pub open spec fn insert_answer<E>(
    tasks: Map<TaskIdView, Arc<E>>,
    id: TaskIdView,
    answer: Result<(), RwError>,
) -> bool {
    if tasks.contains_key(id) {
        answer is Err && answer->Err_0@ == duplicate_task(id)
    } else {
        answer is Ok
    }
}

/// The registered tasks after `task` was to be registered: a task that is there stays.
pub open spec fn tasks_after_insert<E>(
    tasks: Map<TaskIdView, Arc<E>>,
    id: TaskIdView,
    task: Arc<E>,
) -> Map<TaskIdView, Arc<E>> {
    if tasks.contains_key(id) {
        tasks
    } else {
        tasks.insert(id, task)
    }
}

/// The answer to the removal of a task: the task, or that there is none.
pub open spec fn remove_answer<E>(
    tasks: Map<TaskIdView, Arc<E>>,
    id: TaskIdView,
    answer: Result<Option<Arc<E>>, RwError>,
) -> bool {
    if tasks.contains_key(id) {
        answer == Ok::<Option<Arc<E>>, RwError>(Some(tasks[id]))
    } else {
        not_found(answer)
    }
}

/// The answer to a request for an output: what the task that is named answers.
pub open spec fn output_answer<E: BatchTaskExecution>(
    tasks: Map<TaskIdView, Arc<E>>,
    output_id: ProstTaskOutputId,
    answer: Result<E::Output, RwError>,
) -> bool {
    match output_id.task_id {
        None => answer is Err && answer->Err_0@ == ProstTaskOutputId::task_missing(),
        Some(task_id) => if tasks.contains_key(task_id@) {
            call_ensures(E::get_task_output, (&*tasks[task_id@], &output_id), answer)
        } else {
            not_found(answer)
        },
    }
}

/// The answer to a request to stop a task: what the task answers.
pub open spec fn abort_answer<E: BatchTaskExecution>(
    tasks: Map<TaskIdView, Arc<E>>,
    id: TaskIdView,
    answer: Result<(), RwError>,
) -> bool {
    if tasks.contains_key(id) {
        call_ensures(E::abort_task, (&*tasks[id],), answer)
    } else {
        not_found(answer)
    }
}

/// The answer to whether a task is running: what the task answers.
pub open spec fn running_answer<E: BatchTaskExecution>(
    tasks: Map<TaskIdView, Arc<E>>,
    id: TaskIdView,
    answer: Result<(), RwError>,
) -> bool {
    if tasks.contains_key(id) {
        call_ensures(E::check_if_running, (&*tasks[id],), answer)
    } else {
        not_found(answer)
    }
}

/// The answer to whether a task was aborted: what the task answers.
pub open spec fn aborted_answer<E: BatchTaskExecution>(
    tasks: Map<TaskIdView, Arc<E>>,
    id: TaskIdView,
    answer: Result<bool, RwError>,
) -> bool {
    if tasks.contains_key(id) {
        call_ensures(E::check_if_aborted, (&*tasks[id],), answer)
    } else {
        not_found(answer)
    }
}

/// The answer to what a task failed with: what the task answers.
pub open spec fn error_answer<E: BatchTaskExecution>(
    tasks: Map<TaskIdView, Arc<E>>,
    id: TaskIdView,
    answer: Result<Option<RwError>, RwError>,
) -> bool {
    if tasks.contains_key(id) {
        answer is Ok && call_ensures(E::get_error, (&*tasks[id],), answer->Ok_0)
    } else {
        not_found(answer)
    }
}

impl<E> View for TaskTable<E> {
    type V = Map<TaskIdView, Arc<E>>;

    closed spec fn view(&self) -> Map<TaskIdView, Arc<E>> {
        as_map(self.entries@)
    }
}

impl<E> TaskTable<E> {
    #[verifier::type_invariant]
    spec fn well_formed(self) -> bool {
        distinct_ids(self.entries@)
    }

    /// A table without tasks.
    pub fn new() -> (table: TaskTable<E>)
        ensures
            table@ == Map::<TaskIdView, Arc<E>>::empty(),
    {
        let table = TaskTable { entries: Vec::new() };
        proof {
            assert(table@ =~= Map::<TaskIdView, Arc<E>>::empty());
        }
        table
    }

    fn position(&self, id: &TaskId) -> (position: Option<usize>)
        ensures
            match position {
                Some(i) => entry_at(self.entries@, i as int, id@) && self@.contains_key(id@)
                    && self@[id@] == self.entries@[i as int].1,
                None => !self@.contains_key(id@),
            },
    {
        proof {
            use_type_invariant(self);
        }
        let mut i: usize = 0;
        while i < self.entries.len()
            invariant
                i <= self.entries@.len(),
                distinct_ids(self.entries@),
                forall|j: int| 0 <= j < i ==> !entry_at(self.entries@, j, id@),
            decreases self.entries@.len() - i,
        {
            if self.entries[i].0.same(id) {
                proof {
                    assert(entry_at(self.entries@, i as int, id@));
                    let k = choose|k: int| entry_at(self.entries@, k, id@);
                    assert(k == i);
                }
                return Some(i);
            }
            i = i + 1;
        }
        None
    }

    /// The task that is registered under `id`.
    pub fn get(&self, id: &TaskId) -> (task: Option<&Arc<E>>)
        ensures
            match task {
                Some(task) => self@.contains_key(id@) && *task == self@[id@],
                None => !self@.contains_key(id@),
            },
    {
        match self.position(id) {
            Some(i) => Some(&self.entries[i].1),
            None => None,
        }
    }

    /// Registers `task` under `id`, unless a task is registered under it already.
    pub fn insert(&mut self, id: TaskId, task: Arc<E>) -> (answer: Result<(), RwError>)
        ensures
            insert_answer(old(self)@, id@, answer),
            final(self)@ == tasks_after_insert(old(self)@, id@, task),
    {
        match self.position(&id) {
            Some(_) => {
                let mut message = "can not create duplicate task with the same id: ".to_owned();
                message.append(id.text().as_str());
                Err(RwError { inner: ErrorCode::InternalError(message) })
            },
            None => {
                proof {
                    use_type_invariant(&*self);
                }
                let ghost before = self.entries@;
                let ghost key = id@;
                let mut entries: Vec<(TaskId, Arc<E>)> = Vec::new();
                std::mem::swap(&mut entries, &mut self.entries);
                entries.push((id, task));
                proof {
                    lemma_push(before, entries@[before.len() as int]);
                    assert(entries@ =~= before.push(entries@[before.len() as int]));
                }
                self.entries = entries;
                Ok(())
            },
        }
    }

    /// Takes the task of `sid` out of the table.
    pub fn remove_task(&mut self, sid: &ProstTaskId) -> (answer: Result<
        Option<Arc<E>>,
        RwError,
    >)
        ensures
            remove_answer(old(self)@, sid@, answer),
            final(self)@ == old(self)@.remove(sid@),
    {
        let task_id = TaskId::from(sid);
        match self.position(&task_id) {
            Some(i) => {
                proof {
                    use_type_invariant(&*self);
                }
                let ghost before = self.entries@;
                let mut entries: Vec<(TaskId, Arc<E>)> = Vec::new();
                std::mem::swap(&mut entries, &mut self.entries);
                let (_, task) = entries.remove(i);
                proof {
                    lemma_remove(before, i as int);
                }
                self.entries = entries;
                Ok(Some(task))
            },
            None => {
                proof {
                    assert(self@ =~= old(self)@.remove(sid@));
                }
                Err(RwError { inner: ErrorCode::TaskNotFound })
            },
        }
    }
}

impl<E: BatchTaskExecution> TaskTable<E> {
    /// Takes an output of the task that `output_id` names.
    pub fn take_output(&self, output_id: &ProstTaskOutputId) -> (answer: Result<
        E::Output,
        RwError,
    >)
        ensures
            output_answer(self@, *output_id, answer),
    {
        let task_id = match output_id.get_task_id() {
            Ok(task_id) => TaskId::from(task_id),
            Err(error) => {
                return Err(error);
            },
        };
        match self.get(&task_id) {
            Some(task) => task.get_task_output(output_id),
            None => Err(RwError { inner: ErrorCode::TaskNotFound }),
        }
    }

    /// Asks the task of `sid` to stop.
    pub fn abort_task(&self, sid: &ProstTaskId) -> (answer: Result<(), RwError>)
        ensures
            abort_answer(self@, sid@, answer),
    {
        let sid = TaskId::from(sid);
        match self.get(&sid) {
            Some(task) => task.abort_task(),
            None => Err(RwError { inner: ErrorCode::TaskNotFound }),
        }
    }

    /// Returns error if task is not running.
    pub fn check_if_task_running(&self, task_id: &TaskId) -> (answer: Result<(), RwError>)
        ensures
            running_answer(self@, task_id@, answer),
    {
        match self.get(task_id) {
            Some(task) => task.check_if_running(),
            None => Err(RwError { inner: ErrorCode::TaskNotFound }),
        }
    }

    /// Whether the task has stopped after it was asked to.
    pub fn check_if_task_aborted(&self, task_id: &TaskId) -> (answer: Result<bool, RwError>)
        ensures
            aborted_answer(self@, task_id@, answer),
    {
        match self.get(task_id) {
            Some(task) => task.check_if_aborted(),
            None => Err(RwError { inner: ErrorCode::TaskNotFound }),
        }
    }

    /// The error that the task failed with, if it did.
    pub fn get_error(&self, task_id: &TaskId) -> (answer: Result<Option<RwError>, RwError>)
        ensures
            error_answer(self@, task_id@, answer),
    {
        match self.get(task_id) {
            Some(task) => Ok(task.get_error()),
            None => Err(RwError { inner: ErrorCode::TaskNotFound }),
        }
    }
}

proof fn lemma_push<E>(entries: Seq<(TaskId, Arc<E>)>, entry: (TaskId, Arc<E>))
    requires
        distinct_ids(entries),
        !as_map(entries).contains_key(entry.0@),
    ensures
        distinct_ids(entries.push(entry)),
        as_map(entries.push(entry)) == as_map(entries).insert(entry.0@, entry.1),
{
    let after = entries.push(entry);
    assert forall|i: int, j: int| 0 <= i < j < after.len() implies (#[trigger] after[i]).0@ != (
    #[trigger] after[j]).0@ by {
        if j == entries.len() {
            if after[i].0@ == entry.0@ {
                assert(entry_at(entries, i, entry.0@));
            }
        }
    }
    assert(as_map(after) =~= as_map(entries).insert(entry.0@, entry.1)) by {
        assert(entry_at(after, entries.len() as int, entry.0@));
        assert forall|id: TaskIdView| as_map(entries).contains_key(id) implies #[trigger] as_map(
            after,
        ).contains_key(id) && as_map(after)[id] == as_map(entries)[id] by {
            let i = choose|i: int| entry_at(entries, i, id);
            assert(entry_at(after, i, id));
            let k = choose|k: int| entry_at(after, k, id);
            assert(k == i);
        }
        assert forall|id: TaskIdView| #[trigger] as_map(after).contains_key(id) implies id
            == entry.0@ || as_map(entries).contains_key(id) by {
            let k = choose|k: int| entry_at(after, k, id);
            if k < entries.len() {
                assert(entry_at(entries, k, id));
            }
        }
    }
}

proof fn lemma_remove<E>(entries: Seq<(TaskId, Arc<E>)>, at: int)
    requires
        distinct_ids(entries),
        0 <= at < entries.len(),
    ensures
        distinct_ids(entries.remove(at)),
        as_map(entries.remove(at)) == as_map(entries).remove(entries[at].0@),
{
    let after = entries.remove(at);
    let gone = entries[at].0@;
    assert forall|i: int, j: int| 0 <= i < j < after.len() implies (#[trigger] after[i]).0@ != (
    #[trigger] after[j]).0@ by {
        let k = if i < at { i } else { i + 1 };
        let l = if j < at { j } else { j + 1 };
        assert(after[i] == entries[k] && after[j] == entries[l]);
    }
    assert(as_map(after) =~= as_map(entries).remove(gone)) by {
        assert forall|id: TaskIdView|
            as_map(entries).contains_key(id) && id != gone implies #[trigger] as_map(
            after,
        ).contains_key(id) && as_map(after)[id] == as_map(entries)[id] by {
            let i = choose|i: int| entry_at(entries, i, id);
            let k = if i < at { i } else { i - 1 };
            assert(entry_at(after, k, id));
            let l = choose|l: int| entry_at(after, l, id);
            assert(l == k);
        }
        assert forall|id: TaskIdView| #[trigger] as_map(after).contains_key(id) implies id
            != gone && as_map(entries).contains_key(id) by {
            let k = choose|k: int| entry_at(after, k, id);
            let l = if k < at { k } else { k + 1 };
            assert(entries[l] == after[k]);
            assert(entry_at(entries, l, id));
        }
    }
}

} // verus!
