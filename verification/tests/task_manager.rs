use risingwave::error::{ErrorCode, RwError};
use risingwave::task::manager::{closing_message, wait_step};
use risingwave::task::{
    BatchManager, BatchTaskExecution, ProstTaskId, ProstTaskOutputId, TaskId, TaskOutputId,
    TaskTable, WaitStep,
};
use std::sync::atomic::{AtomicU32, Ordering};
use std::sync::Arc;
use std::time::Duration;
use tonic::Code;

const RUNNING: u32 = 1;
const ABORTING: u32 = 2;
const ABORTED: u32 = 5;

/// A task that is counted when it starts, and that takes a few looks to stop.
struct Task {
    task_id: TaskId,
    epoch: u64,
    state: AtomicU32,
    starts: Arc<AtomicU32>,
}

/// What a task is to do: run, refuse to be prepared or refuse to start.
#[derive(Clone, Copy)]
enum Plan {
    Run,
    Unprepared,
    Unstarted,
}

impl BatchTaskExecution for Task {
    type Plan = Plan;
    type Context = Arc<AtomicU32>;
    type Output = (u64, u32);

    fn new(
        tid: &ProstTaskId,
        plan: Plan,
        context: Arc<AtomicU32>,
        epoch: u64,
    ) -> Result<Task, RwError> {
        let state = match plan {
            Plan::Run => 0,
            Plan::Unprepared => return Err(RwError::internal("bad plan")),
            Plan::Unstarted => 9,
        };
        Ok(Task {
            task_id: TaskId::from(tid),
            epoch,
            state: AtomicU32::new(state),
            starts: context,
        })
    }

    fn get_task_id(&self) -> &TaskId {
        &self.task_id
    }

    fn async_execute(self: Arc<Self>) -> Result<(), RwError> {
        if self.state.load(Ordering::SeqCst) == 9 {
            return Err(RwError::internal("no executor"));
        }
        self.starts.fetch_add(1, Ordering::SeqCst);
        self.state.store(RUNNING, Ordering::SeqCst);
        Ok(())
    }

    fn get_task_output(&self, output_id: &ProstTaskOutputId) -> Result<(u64, u32), RwError> {
        if output_id.output_id > 1 {
            return Err(RwError::internal("no such output"));
        }
        Ok((self.epoch, output_id.output_id))
    }

    fn abort_task(&self) -> Result<(), RwError> {
        self.state.store(ABORTING, Ordering::SeqCst);
        Ok(())
    }

    fn check_if_running(&self) -> Result<(), RwError> {
        if self.state.load(Ordering::SeqCst) == RUNNING {
            Ok(())
        } else {
            Err(RwError::internal("task is not running"))
        }
    }

    fn check_if_aborted(&self) -> Result<bool, RwError> {
        let state = self.state.load(Ordering::SeqCst);
        if state >= ABORTING && state < ABORTED {
            self.state.store(state + 1, Ordering::SeqCst);
        }
        Ok(state == ABORTED)
    }

    fn get_error(&self) -> Option<RwError> {
        if self.epoch == 13 {
            Some(RwError::internal("unlucky"))
        } else {
            None
        }
    }
}

fn manager() -> BatchManager<Task> {
    BatchManager::new()
}

fn starts() -> Arc<AtomicU32> {
    Arc::new(AtomicU32::new(0))
}

fn prost_id(task_id: u32) -> ProstTaskId {
    ProstTaskId { query_id: "".to_string(), stage_id: 0, task_id }
}

fn output_of(task_id: Option<ProstTaskId>, output_id: u32) -> ProstTaskOutputId {
    ProstTaskOutputId { task_id, output_id }
}

#[test]
fn test_task_not_found() {
    let manager = manager();
    let task_id = TaskId { task_id: 0, stage_id: 0, query_id: "abc".to_string() };

    assert_eq!(
        manager.check_if_task_running(&task_id).unwrap_err().to_grpc_status().code(),
        Code::Internal
    );

    let output_id = ProstTaskOutputId {
        task_id: Some(ProstTaskId { stage_id: 0, task_id: 0, query_id: "".to_owned() }),
        output_id: 0,
    };
    match manager.take_output(&output_id) {
        Err(e) => assert_eq!(e.to_grpc_status().code(), Code::Internal),
        Ok(_) => unreachable!(),
    };
}

#[test]
fn test_task_id_conflict() {
    let manager = manager();
    let context = starts();
    let task_id = ProstTaskId { query_id: "".to_string(), stage_id: 0, task_id: 0 };
    manager.fire_task(&task_id, Plan::Run, 0, context.clone()).unwrap();
    let err = manager.fire_task(&task_id, Plan::Run, 0, context.clone()).unwrap_err();
    assert!(err.to_string().contains("can not create duplicate task with the same id"));
    assert_eq!(
        err.to_string(),
        "internal error: can not create duplicate task with the same id: \
         TaskId { task_id: 0, stage_id: 0, query_id: \"\" }"
    );
    // The refused task has been started before.
    assert_eq!(context.load(Ordering::SeqCst), 2);
}

#[test]
fn test_task_aborted() {
    let manager = manager();
    let task_id = ProstTaskId { query_id: "".to_string(), stage_id: 0, task_id: 0 };
    manager.fire_task(&task_id, Plan::Run, 0, starts()).unwrap();
    manager.abort_task(&task_id).unwrap();
    let task_id = TaskId::from(&task_id);
    let runtime = tokio::runtime::Builder::new_current_thread().enable_time().build().unwrap();
    let res = runtime.block_on(async {
        loop {
            match manager.wait_until_task_aborted(&task_id) {
                WaitStep::Return(result) => return result,
                WaitStep::Sleep(millis) => {
                    assert_eq!(millis, 100);
                    tokio::time::sleep(Duration::from_millis(millis)).await
                }
            }
        }
    });
    assert_eq!(res, Ok(()));
}

#[test]
fn unknown_tasks_are_not_found() {
    let manager = manager();
    let id = prost_id(1);
    let task_id = TaskId::from(&id);
    let not_found = RwError::from(ErrorCode::TaskNotFound);
    assert_eq!(manager.abort_task(&id), Err(RwError::from(ErrorCode::TaskNotFound)));
    assert_eq!(manager.remove_task(&id).err().unwrap(), not_found);
    assert_eq!(manager.check_if_task_running(&task_id).unwrap_err(), not_found);
    assert_eq!(manager.check_if_task_aborted(&task_id).unwrap_err(), not_found);
    assert_eq!(manager.get_error(&task_id).unwrap_err(), not_found);
    assert_eq!(manager.take_output(&output_of(Some(id), 0)).unwrap_err(), not_found);
    match manager.wait_until_task_aborted(&task_id) {
        WaitStep::Return(result) => assert_eq!(result, Err(not_found)),
        WaitStep::Sleep(_) => unreachable!(),
    }
    assert_eq!(RwError::from(ErrorCode::TaskNotFound).to_string(), "Task not found");
    assert_eq!(
        RwError::from(ErrorCode::TaskNotFound).to_grpc_status().message(),
        "Task not found"
    );
}

#[test]
fn fired_task_is_asked() {
    let manager = manager();
    let id = prost_id(1);
    let task_id = TaskId::from(&id);
    manager.fire_task(&id, Plan::Run, 42, starts()).unwrap();
    assert_eq!(manager.check_if_task_running(&task_id), Ok(()));
    assert_eq!(manager.check_if_task_aborted(&task_id), Ok(false));
    assert_eq!(manager.get_error(&task_id), Ok(None));
    assert_eq!(manager.take_output(&output_of(Some(id.clone()), 1)), Ok((42, 1)));
    assert_eq!(
        manager.take_output(&output_of(Some(id.clone()), 2)),
        Err(RwError::internal("no such output"))
    );
    manager.abort_task(&id).unwrap();
    assert_eq!(
        manager.check_if_task_running(&task_id),
        Err(RwError::internal("task is not running"))
    );
}

#[test]
fn error_of_a_task_is_handed_out() {
    let manager = manager();
    manager.fire_task(&prost_id(1), Plan::Run, 13, starts()).unwrap();
    assert_eq!(
        manager.get_error(&TaskId::from(&prost_id(1))),
        Ok(Some(RwError::internal("unlucky")))
    );
}

#[test]
fn removed_task_is_gone_and_its_id_free() {
    let manager = manager();
    let id = prost_id(1);
    manager.fire_task(&id, Plan::Run, 5, starts()).unwrap();
    let task = manager.remove_task(&id).unwrap().unwrap();
    assert_eq!(task.epoch, 5);
    assert!(manager.remove_task(&id).is_err());
    assert!(manager.check_if_task_running(&TaskId::from(&id)).is_err());
    manager.fire_task(&id, Plan::Run, 6, starts()).unwrap();
    assert_eq!(manager.remove_task(&id).unwrap().unwrap().epoch, 6);
}

#[test]
fn other_tasks_are_kept() {
    let manager = manager();
    for number in 0..4 {
        manager.fire_task(&prost_id(number), Plan::Run, number as u64, starts()).unwrap();
    }
    manager.remove_task(&prost_id(1)).unwrap();
    for number in [0, 2, 3] {
        assert_eq!(
            manager.take_output(&output_of(Some(prost_id(number)), 0)),
            Ok((number as u64, 0))
        );
    }
    let elsewhere = ProstTaskId { query_id: "q".to_string(), stage_id: 0, task_id: 0 };
    assert!(manager.abort_task(&elsewhere).is_err());
    let later = ProstTaskId { query_id: "".to_string(), stage_id: 1, task_id: 0 };
    assert!(manager.abort_task(&later).is_err());
}

#[test]
fn duplicate_leaves_the_first_task() {
    let mut table: TaskTable<u64> = TaskTable::new();
    let id = TaskId { task_id: 1, stage_id: 2, query_id: "a\"b".to_string() };
    assert!(table.get(&id).is_none());
    table.insert(id.clone(), Arc::new(1)).unwrap();
    let error = table.insert(id.clone(), Arc::new(2)).unwrap_err();
    assert_eq!(
        error.to_string(),
        format!("internal error: can not create duplicate task with the same id: {:?}", id)
    );
    assert_eq!(**table.get(&id).unwrap(), 1);
}

#[test]
fn failures_before_registration_decide() {
    let manager = manager();
    let id = prost_id(1);
    let context = starts();
    assert_eq!(
        manager.fire_task(&id, Plan::Unprepared, 0, context.clone()),
        Err(RwError::internal("bad plan"))
    );
    assert_eq!(
        manager.fire_task(&id, Plan::Unstarted, 0, context.clone()),
        Err(RwError::internal("no executor"))
    );
    assert_eq!(context.load(Ordering::SeqCst), 0);
    assert!(manager.remove_task(&id).is_err());
}

#[test]
fn clones_share_their_tasks() {
    let manager: BatchManager<Task> = BatchManager::default();
    manager.clone().fire_task(&prost_id(1), Plan::Run, 0, starts()).unwrap();
    assert_eq!(manager.check_if_task_running(&TaskId::from(&prost_id(1))), Ok(()));
}

#[test]
fn task_fired_on_a_clone_is_removed_once() {
    let manager = manager();
    let clone = manager.clone();
    clone.fire_task(&prost_id(1), Plan::Run, 0, starts()).unwrap();
    let task = manager.remove_task(&prost_id(1)).unwrap().unwrap();
    assert_eq!(*task.get_task_id(), TaskId::from(&prost_id(1)));
    let not_found = RwError::from(ErrorCode::TaskNotFound);
    assert_eq!(manager.remove_task(&prost_id(1)).err().unwrap(), not_found);
    assert_eq!(clone.remove_task(&prost_id(1)).err().unwrap(), not_found);
}

#[test]
fn new_managers_share_nothing() {
    let one = manager();
    let other = manager();
    one.fire_task(&prost_id(1), Plan::Run, 0, starts()).unwrap();
    assert_eq!(other.abort_task(&prost_id(1)), Err(RwError::from(ErrorCode::TaskNotFound)));
    assert_eq!(one.abort_task(&prost_id(1)), Ok(()));
}

#[test]
fn data_comes_with_its_output_id() {
    let manager = manager();
    manager.fire_task(&prost_id(3), Plan::Run, 8, starts()).unwrap();
    let taken = manager.get_data(&output_of(Some(prost_id(3)), 1)).ok().unwrap();
    assert_eq!(taken.task_output, (8, 1));
    assert_eq!(
        taken.task_id,
        TaskOutputId { task_id: TaskId::from(&prost_id(3)), output_id: 1 }
    );
    assert_eq!(
        manager.get_data(&output_of(Some(prost_id(4)), 1)).err(),
        Some(RwError::from(ErrorCode::TaskNotFound))
    );
    let missing = manager.get_data(&output_of(None, 1)).err().unwrap();
    assert_eq!(
        missing.to_string(),
        "internal error: Failed to decode prost: field not found `task_id`"
    );
    assert_eq!(manager.take_output(&output_of(None, 1)).unwrap_err(), missing);
}

#[test]
fn closing_message_reports_errors_only() {
    assert!(closing_message(&Ok(())).is_none());
    let status = closing_message(&Err(RwError::internal("cut off"))).unwrap();
    assert_eq!(status.code(), Code::Internal);
    assert_eq!(status.message(), "internal error: cut off");
}

#[test]
fn wait_goes_on_only_while_not_aborted() {
    assert!(matches!(wait_step(Ok(true)), WaitStep::Return(Ok(()))));
    assert!(matches!(wait_step(Ok(false)), WaitStep::Sleep(100)));
    assert!(matches!(wait_step(Err(RwError::internal("x"))), WaitStep::Return(Err(_))));
}

#[test]
fn ids_are_written_out_like_debug() {
    for (task_id, stage_id, query_id) in
        [(0, 9, ""), (10, 1234567890, "tab\t\"quote\""), (u32::MAX, 100, "\u{e9}\n")]
    {
        let id = TaskId { task_id, stage_id, query_id: query_id.to_string() };
        assert_eq!(id.text(), format!("{:?}", id));
    }
    assert_eq!(TaskId::default().text(), "TaskId { task_id: 0, stage_id: 0, query_id: \"\" }");
    assert_eq!(risingwave::text::decimal(4050), "4050");
}
