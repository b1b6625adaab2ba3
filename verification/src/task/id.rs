//! Ids of tasks and of their outputs.
use crate::error::{ErrorCodeView, RwError};
use crate::text::{decimal, quoted};
use vstd::prelude::*;
use vstd::string::*;

verus! {

/// The id of a task as a request carries it.
#[derive(Debug, PartialEq, Eq, Hash)]
pub struct ProstTaskId {
    pub query_id: String,
    pub stage_id: u32,
    pub task_id: u32,
}

/// The id of a task's output as a request carries it; the task may be left out.
#[derive(Debug, PartialEq, Eq, Hash)]
pub struct ProstTaskOutputId {
    pub task_id: Option<ProstTaskId>,
    pub output_id: u32,
}

/// The id of a task.
#[derive(Debug, PartialEq, Eq, Hash)]
pub struct TaskId {
    pub task_id: u32,
    pub stage_id: u32,
    pub query_id: String,
}

/// The id of one output of a task.
#[derive(Debug, PartialEq, Eq, Hash)]
pub struct TaskOutputId {
    pub task_id: TaskId,
    pub output_id: u32,
}

/// The mathematical value of a task's id.
pub struct TaskIdView {
    pub task_id: u32,
    pub stage_id: u32,
    pub query_id: Seq<char>,
}

/// The mathematical value of an output's id.
pub struct TaskOutputIdView {
    pub task_id: TaskIdView,
    pub output_id: u32,
}

impl View for ProstTaskId {
    type V = TaskIdView;

    open spec fn view(&self) -> TaskIdView {
        TaskIdView {
            task_id: self.task_id,
            stage_id: self.stage_id,
            query_id: self.query_id@,
        }
    }
}

impl View for TaskId {
    type V = TaskIdView;

    open spec fn view(&self) -> TaskIdView {
        TaskIdView {
            task_id: self.task_id,
            stage_id: self.stage_id,
            query_id: self.query_id@,
        }
    }
}

impl View for TaskOutputId {
    type V = TaskOutputIdView;

    open spec fn view(&self) -> TaskOutputIdView {
        TaskOutputIdView { task_id: self.task_id@, output_id: self.output_id }
    }
}

impl TaskIdView {
    /// The id written out for a message, field by field.
    pub open spec fn text(self) -> Seq<char> {
        "TaskId { task_id: "@ + crate::text::decimal_text(self.task_id as nat) + ", stage_id: "@
            + crate::text::decimal_text(self.stage_id as nat) + ", query_id: "@
            + crate::text::quoted_text(self.query_id) + " }"@
    }
}

impl ProstTaskOutputId {
    /// What is said to a request whose output id names no task.
    pub open spec fn task_missing() -> ErrorCodeView {
        ErrorCodeView::field_not_found("task_id"@)
    }

    /// The task's id, or an error where it was left out.
    pub fn get_task_id(&self) -> (id: Result<&ProstTaskId, RwError>)
        ensures
            match self.task_id {
                Some(task_id) => id is Ok && *id->Ok_0 == task_id,
                None => {
                    &&& id is Err
                    &&& id->Err_0@ == Self::task_missing()
                    &&& id->Err_0@ == ErrorCodeView::InternalError(
                        "Failed to decode prost: field not found `"@ + "task_id"@ + "`"@,
                    )
                },
            },
    {
        match &self.task_id {
            Some(task_id) => Ok(task_id),
            None => Err(RwError::field_not_found("task_id")),
        }
    }
}

impl From<&ProstTaskId> for TaskId {
    fn from(id: &ProstTaskId) -> (task_id: TaskId)
        ensures
            task_id.task_id == id.task_id,
            task_id.stage_id == id.stage_id,
            task_id.query_id@ == id.query_id@,
    {
        TaskId { task_id: id.task_id, stage_id: id.stage_id, query_id: id.query_id.clone() }
    }
}

impl vstd::std_specs::convert::FromSpecImpl<&ProstTaskId> for TaskId {
    open spec fn obeys_from_spec() -> bool {
        true
    }

    open spec fn from_spec(id: &ProstTaskId) -> TaskId {
        TaskId { task_id: id.task_id, stage_id: id.stage_id, query_id: id.query_id }
    }
}

impl Clone for ProstTaskId {
    fn clone(&self) -> (copy: ProstTaskId)
        ensures
            copy == *self,
    {
        ProstTaskId {
            query_id: self.query_id.clone(),
            stage_id: self.stage_id,
            task_id: self.task_id,
        }
    }
}

impl Clone for ProstTaskOutputId {
    fn clone(&self) -> (copy: ProstTaskOutputId)
        ensures
            copy == *self,
    {
        ProstTaskOutputId {
            task_id: match &self.task_id {
                Some(task_id) => Some(task_id.clone()),
                None => None,
            },
            output_id: self.output_id,
        }
    }
}

impl Clone for TaskId {
    fn clone(&self) -> (copy: TaskId)
        ensures
            copy == *self,
    {
        TaskId {
            task_id: self.task_id,
            stage_id: self.stage_id,
            query_id: self.query_id.clone(),
        }
    }
}

impl Default for TaskId {
    fn default() -> (id: TaskId)
        ensures
            id@ == (TaskIdView { task_id: 0, stage_id: 0, query_id: Seq::empty() }),
    {
        TaskId { task_id: 0, stage_id: 0, query_id: String::new() }
    }
}

impl TaskId {
    /// Whether two ids name the same task.
    pub fn same(&self, other: &TaskId) -> (same: bool)
        ensures
            same == (self@ == other@),
            same == (self.task_id == other.task_id && self.stage_id == other.stage_id
                && self.query_id@ == other.query_id@),
    {
        self.task_id == other.task_id && self.stage_id == other.stage_id && self.query_id
            == other.query_id
    }

    /// Writes the id out for a message, field by field.
    pub fn text(&self) -> (text: String)
        ensures
            text@ == self@.text(),
    {
        let mut text = "TaskId { task_id: ".to_owned();
        text.append(decimal(self.task_id).as_str());
        text.append(", stage_id: ");
        text.append(decimal(self.stage_id).as_str());
        text.append(", query_id: ");
        text.append(quoted(self.query_id.as_str()).as_str());
        text.append(" }");
        text
    }
}

impl TaskOutputId {
    /// The output's id that a request carries, or an error where it names no task.
    pub fn try_from(id: &ProstTaskOutputId) -> (output_id: Result<TaskOutputId, RwError>)
        ensures
            match id.task_id {
                Some(task_id) => output_id is Ok && output_id->Ok_0@ == (TaskOutputIdView {
                    task_id: task_id@,
                    output_id: id.output_id,
                }),
                None => output_id is Err && output_id->Err_0@
                    == ProstTaskOutputId::task_missing(),
            },
            output_id is Ok <==> id.task_id is Some,
            output_id is Ok ==> {
                let given = id.task_id->0;
                let read = output_id->Ok_0;
                &&& read.output_id == id.output_id
                &&& read.task_id.task_id == given.task_id
                &&& read.task_id.stage_id == given.stage_id
                &&& read.task_id.query_id@ == given.query_id@
            },
    {
        match id.get_task_id() {
            Ok(task_id) => Ok(
                TaskOutputId { task_id: TaskId::from(task_id), output_id: id.output_id },
            ),
            Err(error) => Err(error),
        }
    }
}

/// Two ids name the same task if and only if all their fields agree: the task, the stage
/// and the query.
pub proof fn law_ids_agree_field_by_field(first: TaskId, second: TaskId, sent: ProstTaskId)
    ensures
        first@ == second@ <==> first.task_id == second.task_id && first.stage_id
            == second.stage_id && first.query_id@ == second.query_id@,
        first@ == sent@ <==> first.task_id == sent.task_id && first.stage_id == sent.stage_id
            && first.query_id@ == sent.query_id@,
{
}

/// An id that a request carries names the same task once it is read.
pub proof fn law_read_id_names_the_same_task(sent: &ProstTaskId, read: TaskId)
    requires
        call_ensures(<TaskId as From<&ProstTaskId>>::from, (sent,), read),
    ensures
        read@ == sent@,
{
}

} // verus!
