//! Tasks between their start and their registration.
use crate::error::RwError;
use crate::task::execution::BatchTaskExecution;
use crate::task::id::TaskId;
use crate::task::table::answers_id;
use std::sync::Arc;
use vstd::prelude::*;

verus! {

/// A task that has been started and is still to be registered.
///
/// It is made from the execution itself, which it uses up, and there is no copy of it:
/// one execution is registered at most once.
pub(crate) struct StartedTask<E: BatchTaskExecution> {
    id: TaskId,
    task: Arc<E>,
}

impl<E: BatchTaskExecution> StartedTask<E> {
    #[verifier::type_invariant]
    spec fn well_formed(self) -> bool {
        answers_id(self.task, self.id@)
    }

    /// The id that the task answered.
    pub(crate) closed spec fn id(self) -> TaskId {
        self.id
    }

    /// The task.
    pub(crate) closed spec fn task(self) -> Arc<E> {
        self.task
    }

    /// Asks the execution for its id and starts it.
    pub(crate) fn start(execution: E) -> (answer: Result<StartedTask<E>, RwError>)
        ensures
            match answer {
                Ok(started) => {
                    &&& *started.task() == execution
                    &&& call_ensures(E::get_task_id, (&execution,), &started.id())
                    &&& call_ensures(E::async_execute, (started.task(),), Ok(()))
                },
                Err(error) => exists|task: Arc<E>|
                    *task == execution && #[trigger] call_ensures(
                        E::async_execute,
                        (task,),
                        Err(error),
                    ),
            },
    {
        let asked = execution.get_task_id();
        let id = asked.clone();
        let ghost given = asked;
        let task = Arc::new(execution);
        let begun = task.clone().async_execute();
        proof {
            assert(*task == execution);
            assert(call_ensures(E::async_execute, (task,), begun));
            assert(call_ensures(E::get_task_id, (&*task,), given));
            assert(answers_id(task, id@));
        }
        match begun {
            Ok(done) => {
                proof {
                    assert(done == ());
                }
                Ok(StartedTask { id, task })
            },
            Err(error) => Err(error),
        }
    }

    /// The id and the task, to be registered.
    pub(crate) fn into_entry(self) -> (entry: (TaskId, Arc<E>))
        ensures
            entry.0 == self.id(),
            entry.1 == self.task(),
            answers_id(entry.1, entry.0@),
    {
        proof {
            use_type_invariant(&self);
        }
        (self.id, self.task)
    }
}

} // verus!
