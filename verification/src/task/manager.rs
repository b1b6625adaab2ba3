//! The manager of all batch tasks of a compute node, shared between its threads.
use crate::error::RwError;
use crate::sync::{gave, lemma_gave, made_around, new_lock, with_lock};
use crate::task::execution::BatchTaskExecution;
use crate::task::id::{
    ProstTaskId, ProstTaskOutputId, TaskId, TaskIdView, TaskOutputId, TaskOutputIdView,
};
use crate::task::registry::{
    ask_abort, ask_aborted, ask_error, ask_output, ask_running, insert_entry, remove_entry,
    Registry,
};
pub use crate::task::registry::{registers, removes};
use crate::task::start::StartedTask;
use crate::task::table::{
    abort_answer, aborted_answer, answers_id, error_answer, held_under_own_ids, output_answer,
    running_answer,
};
use parking_lot::Mutex;
use std::sync::Arc;
use vstd::prelude::*;

verus! {

/// How long a wait for a task's abort pauses between two looks at the task.
pub const ABORT_POLL_MILLIS: u64 = 100;

/// `BatchManager` is responsible for managing all batch tasks. Its clones share one
/// table of tasks.
///
/// Between two calls any other holder of the table may change it. A call therefore
/// promises that its answer is the one that the manager's own table gave, to the
/// question that was asked; and what holds of that answer whatever tasks were found.
/// What is answered and left for each table that may be found is the promise of the
/// function of [`TaskTable`](crate::task::TaskTable) that is called while the lock is held.
#[verifier::reject_recursive_types(E)]
pub struct BatchManager<E: BatchTaskExecution> {
    tasks: Arc<Mutex<Registry<E>>>,
}

/// An output that was taken for a client, ready to be sent.
pub struct TakenOutput<O> {
    pub task_id: TaskOutputId,
    pub task_output: O,
}

/// What a wait for the abort of a task does next.
pub enum WaitStep {
    /// The wait is over, with this result.
    Return(Result<(), RwError>),
    /// Look again after this many milliseconds.
    Sleep(u64),
}

/// The answer to a plan that `manager` is to run as a task.
///
/// The execution is prepared, then started, then inserted into the manager's table under
/// the id that it gives. The first of these that fails decides the answer; a task whose
/// id is taken has been started by then.
pub open spec fn fire_answer<E: BatchTaskExecution>(
    manager: BatchManager<E>,
    tid: &ProstTaskId,
    plan: E::Plan,
    epoch: u64,
    context: E::Context,
    answer: Result<(), RwError>,
) -> bool {
    exists|prepared: Result<E, RwError>| #[trigger]
        call_ensures(E::new, (tid, plan, context, epoch), prepared) && match prepared {
            Err(error) => answer == Err::<(), RwError>(error),
            Ok(task) => start_answer(manager, task, answer),
        }
}

/// The answer to a prepared task that `manager` is to start and register.
pub open spec fn start_answer<E: BatchTaskExecution>(
    manager: BatchManager<E>,
    task: E,
    answer: Result<(), RwError>,
) -> bool {
    exists|shared: Arc<E>, started: Result<(), RwError>|
        *shared == task && #[trigger] call_ensures(E::async_execute, (shared,), started)
            && match started {
            Err(error) => answer == Err::<(), RwError>(error),
            Ok(_) => exists|
                id: &TaskId,
                before: Map<TaskIdView, Arc<E>>,
                after: Map<TaskIdView, Arc<E>>,
            |
                {
                    &&& #[trigger] call_ensures(E::get_task_id, (&task,), id)
                    &&& manager.inserted(*id, shared, answer)
                    &&& held_under_own_ids(before)
                    &&& #[trigger] registers(before, id@, shared, answer, after)
                },
        }
}

/// The answer to a client's request for data, given the answer to its request for the
/// output: the output, together with its id.
pub open spec fn data_answer<O>(
    output_id: ProstTaskOutputId,
    taken: Result<O, RwError>,
    answer: Result<TakenOutput<O>, RwError>,
) -> bool {
    match taken {
        Ok(task_output) => {
            &&& answer is Ok
            &&& answer->Ok_0.task_output == task_output
            &&& answer->Ok_0.task_id@ == (TaskOutputIdView {
                task_id: output_id.task_id->0@,
                output_id: output_id.output_id,
            })
        },
        Err(error) => answer == Err::<TakenOutput<O>, RwError>(error),
    }
}

/// What a wait for the abort of a task does after one look at the task.
pub open spec fn wait_step_of(aborted: Result<bool, RwError>) -> WaitStep {
    match aborted {
        Ok(true) => WaitStep::Return(Ok(())),
        Ok(false) => WaitStep::Sleep(ABORT_POLL_MILLIS),
        Err(error) => WaitStep::Return(Err(error)),
    }
}

/// What a wait for the abort of a task does after one look at the task: it ends when
/// the task was aborted or cannot say, and pauses otherwise.
pub fn wait_step(aborted: Result<bool, RwError>) -> (step: WaitStep)
    ensures
        step == wait_step_of(aborted),
        aborted == Ok::<bool, RwError>(true) ==> step == WaitStep::Return(Ok(())),
        aborted == Ok::<bool, RwError>(false) ==> step == WaitStep::Sleep(100),
        aborted is Err ==> step == WaitStep::Return(Err(aborted->Err_0)),
{
    match aborted {
        Ok(true) => WaitStep::Return(Ok(())),
        Ok(false) => WaitStep::Sleep(ABORT_POLL_MILLIS),
        Err(error) => WaitStep::Return(Err(error)),
    }
}

/// What is sent to the client after the data of an output was: nothing if all of it
/// went out, the status of the error otherwise.
pub fn closing_message(sent: &Result<(), RwError>) -> (message: Option<tonic::Status>)
    ensures
        message == match *sent {
            Ok(_) => None::<tonic::Status>,
            Err(error) => Some(error@.status()),
        },
        message is None <==> *sent is Ok,
{
    match sent {
        Ok(_) => None,
        Err(error) => Some(error.to_grpc_status()),
    }
}

impl<E: BatchTaskExecution> BatchManager<E> {
    /// That the lock of the manager was made around a table that held just `tasks`.
    pub closed spec fn made_with(self, tasks: Map<TaskIdView, Arc<E>>) -> bool {
        exists|registry: Registry<E>|
            registry@ == tasks && #[trigger] made_around(*self.tasks, registry)
    }

    /// A manager without tasks.
    pub fn new() -> (manager: BatchManager<E>)
        ensures
            manager.made_with(Map::<TaskIdView, Arc<E>>::empty()),
    {
        let registry = Registry::new();
        let tasks = Arc::new(new_lock(registry));
        let manager = BatchManager { tasks };
        proof {
            assert(made_around(*manager.tasks, registry));
        }
        manager
    }
}

impl<E: BatchTaskExecution> Clone for BatchManager<E> {
    fn clone(&self) -> (manager: BatchManager<E>)
        ensures
            manager == *self,
    {
        BatchManager { tasks: self.tasks.clone() }
    }
}

impl<E: BatchTaskExecution> Default for BatchManager<E> {
    fn default() -> (manager: BatchManager<E>)
        ensures
            manager.made_with(Map::<TaskIdView, Arc<E>>::empty()),
    {
        BatchManager::new()
    }
}

impl<E: BatchTaskExecution> BatchManager<E> {
    /// That `answer` is what the insertion of `task` under `id` into the manager's own
    /// table gave.
    pub closed spec fn inserted(
        self,
        id: TaskId,
        task: Arc<E>,
        answer: Result<(), RwError>,
    ) -> bool {
        exists|started: StartedTask<E>|
            {
                &&& started.id() == id
                &&& started.task() == task
                &&& #[trigger] gave(*self.tasks, insert_entry::<E>, started, answer)
            }
    }

    /// That `answer` is what the removal of the task `sid` from the manager's own table
    /// gave.
    pub closed spec fn removed(
        self,
        sid: &ProstTaskId,
        answer: Result<Option<Arc<E>>, RwError>,
    ) -> bool {
        gave(*self.tasks, remove_entry::<E>, sid, answer)
    }

    /// That `answer` is what the manager's own table gave to a request for an output.
    pub closed spec fn output_taken(
        self,
        output_id: &ProstTaskOutputId,
        answer: Result<E::Output, RwError>,
    ) -> bool {
        gave(*self.tasks, ask_output::<E>, output_id, answer)
    }

    /// That `answer` is what the manager's own table gave to a request to stop a task.
    pub closed spec fn abort_asked(
        self,
        sid: &ProstTaskId,
        answer: Result<(), RwError>,
    ) -> bool {
        gave(*self.tasks, ask_abort::<E>, sid, answer)
    }

    /// That `answer` is what the manager's own table gave to whether a task is running.
    pub closed spec fn running_asked(
        self,
        task_id: &TaskId,
        answer: Result<(), RwError>,
    ) -> bool {
        gave(*self.tasks, ask_running::<E>, task_id, answer)
    }

    /// That `answer` is what the manager's own table gave to whether a task was aborted.
    pub closed spec fn aborted_asked(
        self,
        task_id: &TaskId,
        answer: Result<bool, RwError>,
    ) -> bool {
        gave(*self.tasks, ask_aborted::<E>, task_id, answer)
    }

    /// That `answer` is what the manager's own table gave to what a task failed with.
    pub closed spec fn error_asked(
        self,
        task_id: &TaskId,
        answer: Result<Option<RwError>, RwError>,
    ) -> bool {
        gave(*self.tasks, ask_error::<E>, task_id, answer)
    }

    /// What an insertion gave is what a registration gives on some table.
    pub(crate) proof fn lemma_inserted(
        self,
        id: TaskId,
        task: Arc<E>,
        answer: Result<(), RwError>,
    )
        requires
            self.inserted(id, task, answer),
        ensures
            exists|before: Map<TaskIdView, Arc<E>>, after: Map<TaskIdView, Arc<E>>| #[trigger]
                registers(before, id@, task, answer, after),
    {
        let started = choose|started: StartedTask<E>|
            {
                &&& started.id() == id
                &&& started.task() == task
                &&& #[trigger] gave(*self.tasks, insert_entry::<E>, started, answer)
            };
        lemma_gave(&*self.tasks, insert_entry::<E>, started, answer);
        let registry = choose|registry: &mut Registry<E>| #[trigger]
            call_ensures(insert_entry::<E>, (registry, started), answer);
        assert(registers((*registry)@, id@, task, answer, (*final(registry))@));
    }

    /// What a removal gave is what a removal gives on some table.
    pub(crate) proof fn lemma_removed(
        self,
        sid: &ProstTaskId,
        answer: Result<Option<Arc<E>>, RwError>,
    )
        requires
            self.removed(sid, answer),
        ensures
            exists|before: Map<TaskIdView, Arc<E>>, after: Map<TaskIdView, Arc<E>>| #[trigger]
                removes(before, sid@, answer, after),
    {
        lemma_gave(&*self.tasks, remove_entry::<E>, sid, answer);
        let registry = choose|registry: &mut Registry<E>| #[trigger]
            call_ensures(remove_entry::<E>, (registry, sid), answer);
        assert(removes((*registry)@, sid@, answer, (*final(registry))@));
    }

    /// Runs a plan as the task `tid`. The plan and the context are used up by the one
    /// execution that is made of them, so the table is given at most one task.
    pub fn fire_task(
        &self,
        tid: &ProstTaskId,
        plan: E::Plan,
        epoch: u64,
        context: E::Context,
    ) -> (answer: Result<(), RwError>)
        ensures
            fire_answer(*self, tid, plan, epoch, context, answer),
    {
        let prepared = E::new(tid, plan, context, epoch);
        let task = match prepared {
            Ok(task) => task,
            Err(error) => {
                proof {
                    assert(fire_answer(*self, tid, plan, epoch, context, Err(error)));
                }
                return Err(error);
            },
        };
        let ghost fired = task;
        let started = match StartedTask::start(task) {
            Ok(started) => started,
            Err(error) => {
                proof {
                    assert(start_answer(*self, fired, Err(error)));
                    assert(fire_answer(*self, tid, plan, epoch, context, Err(error)));
                }
                return Err(error);
            },
        };
        let ghost id = &started.id();
        let ghost shared = started.task();
        let answer = with_lock(&*self.tasks, insert_entry::<E>, started);
        proof {
            assert(gave(*self.tasks, insert_entry::<E>, started, answer));
            assert(self.inserted(*id, shared, answer));
            let registry = choose|registry: &mut Registry<E>| #[trigger]
                call_ensures(insert_entry::<E>, (registry, started), answer);
            assert(registers((*registry)@, id@, shared, answer, (*final(registry))@));
            assert(call_ensures(E::async_execute, (shared,), Ok(())));
            assert(start_answer(*self, fired, answer));
            assert(fire_answer(*self, tid, plan, epoch, context, answer));
        }
        answer
    }

    /// Takes the output that a client asks for. The caller sends its data to the client,
    /// and then what [`closing_message`] says.
    pub fn get_data(&self, pb_task_output_id: &ProstTaskOutputId) -> (answer: Result<
        TakenOutput<E::Output>,
        RwError,
    >)
        ensures
            match pb_task_output_id.task_id {
                None => answer is Err && answer->Err_0@ == ProstTaskOutputId::task_missing(),
                Some(_) => exists|
                    tasks: Map<TaskIdView, Arc<E>>,
                    taken: Result<E::Output, RwError>,
                |
                    {
                        &&& held_under_own_ids(tasks)
                        &&& #[trigger] output_answer(tasks, *pb_task_output_id, taken)
                        &&& self.output_taken(pb_task_output_id, taken)
                        &&& data_answer(*pb_task_output_id, taken, answer)
                        &&& answer is Ok <==> taken is Ok
                        &&& taken is Ok ==> answer->Ok_0.task_output == taken->Ok_0
                        &&& taken is Err ==> answer->Err_0 == taken->Err_0
                    },
            },
            answer is Ok ==> {
                let asked = pb_task_output_id.task_id->0;
                let given = answer->Ok_0.task_id;
                &&& pb_task_output_id.task_id is Some
                &&& given.output_id == pb_task_output_id.output_id
                &&& given.task_id.task_id == asked.task_id
                &&& given.task_id.stage_id == asked.stage_id
                &&& given.task_id.query_id@ == asked.query_id@
            },
    {
        let task_id = match TaskOutputId::try_from(pb_task_output_id) {
            Ok(task_id) => task_id,
            Err(error) => {
                return Err(error);
            },
        };
        let taken = self.take_output(pb_task_output_id);
        match taken {
            Ok(task_output) => Ok(TakenOutput { task_id, task_output }),
            Err(error) => Err(error),
        }
    }

    /// Takes an output of the task that `output_id` names.
    pub fn take_output(&self, output_id: &ProstTaskOutputId) -> (answer: Result<
        E::Output,
        RwError,
    >)
        ensures
            match output_id.task_id {
                None => answer is Err && answer->Err_0@ == ProstTaskOutputId::task_missing(),
                Some(_) => {
                    &&& self.output_taken(output_id, answer)
                    &&& exists|tasks: Map<TaskIdView, Arc<E>>|
                        held_under_own_ids(tasks) && #[trigger] output_answer(
                            tasks,
                            *output_id,
                            answer,
                        )
                },
            },
    {
        match output_id.get_task_id() {
            Ok(_) => with_lock(&*self.tasks, ask_output::<E>, output_id),
            Err(error) => Err(error),
        }
    }

    /// Asks the task of `sid` to stop.
    pub fn abort_task(&self, sid: &ProstTaskId) -> (answer: Result<(), RwError>)
        ensures
            self.abort_asked(sid, answer),
            exists|tasks: Map<TaskIdView, Arc<E>>|
                held_under_own_ids(tasks) && #[trigger] abort_answer(tasks, sid@, answer),
    {
        with_lock(&*self.tasks, ask_abort::<E>, sid)
    }

    /// Returns error if task is not running.
    pub fn check_if_task_running(&self, task_id: &TaskId) -> (answer: Result<(), RwError>)
        ensures
            self.running_asked(task_id, answer),
            exists|tasks: Map<TaskIdView, Arc<E>>|
                held_under_own_ids(tasks) && #[trigger] running_answer(tasks, task_id@, answer),
    {
        with_lock(&*self.tasks, ask_running::<E>, task_id)
    }

    /// Whether the task has stopped after it was asked to.
    pub fn check_if_task_aborted(&self, task_id: &TaskId) -> (answer: Result<bool, RwError>)
        ensures
            self.aborted_asked(task_id, answer),
            exists|tasks: Map<TaskIdView, Arc<E>>|
                held_under_own_ids(tasks) && #[trigger] aborted_answer(tasks, task_id@, answer),
    {
        with_lock(&*self.tasks, ask_aborted::<E>, task_id)
    }

    /// One look at a task whose abort is waited for. The caller sleeps and looks again
    /// where the step says so.
    pub fn wait_until_task_aborted(&self, task_id: &TaskId) -> (step: WaitStep)
        ensures
            exists|tasks: Map<TaskIdView, Arc<E>>, aborted: Result<bool, RwError>|
                {
                    &&& held_under_own_ids(tasks)
                    &&& #[trigger] aborted_answer(tasks, task_id@, aborted)
                    &&& self.aborted_asked(task_id, aborted)
                    &&& step == wait_step_of(aborted)
                },
    {
        let aborted = self.check_if_task_aborted(task_id);
        wait_step(aborted)
    }

    /// Forgets a task, and hands it out: the task that answers the id.
    pub fn remove_task(&self, sid: &ProstTaskId) -> (answer: Result<Option<Arc<E>>, RwError>)
        ensures
            self.removed(sid, answer),
            exists|before: Map<TaskIdView, Arc<E>>, after: Map<TaskIdView, Arc<E>>|
                held_under_own_ids(before) && #[trigger] removes(before, sid@, answer, after),
            answer is Ok ==> answer->Ok_0 is Some && answers_id(answer->Ok_0->0, sid@),
    {
        with_lock(&*self.tasks, remove_entry::<E>, sid)
    }

    /// The error that the task failed with, if it did.
    pub fn get_error(&self, task_id: &TaskId) -> (answer: Result<Option<RwError>, RwError>)
        ensures
            self.error_asked(task_id, answer),
            exists|tasks: Map<TaskIdView, Arc<E>>|
                held_under_own_ids(tasks) && #[trigger] error_answer(tasks, task_id@, answer),
    {
        with_lock(&*self.tasks, ask_error::<E>, task_id)
    }
}

} // verus!
