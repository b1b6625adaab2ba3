//! The part of a batch plan that executors are built from.
use crate::error::{ErrorCodeView, RwError};
use crate::host::HostAddress;
use crate::task::id::{ProstTaskOutputId, TaskId};
use vstd::prelude::*;

verus! {

/// Where the data of an exchange comes from: an output of a task on a host.
#[derive(Debug, PartialEq, Eq)]
pub struct ProstExchangeSource {
    pub task_output_id: Option<ProstTaskOutputId>,
    pub host: Option<HostAddress>,
}

/// A column as a plan describes it, with a data type `T`.
#[derive(Debug, PartialEq, Eq)]
pub struct NodeField<T> {
    pub data_type: T,
    pub name: String,
}

/// A column of a schema, with a data type `T`.
#[derive(Debug, PartialEq, Eq)]
pub struct Field<T> {
    pub data_type: T,
    pub name: String,
}

/// The columns of the chunks that an executor yields.
#[derive(Debug, PartialEq, Eq)]
pub struct Schema<T> {
    pub fields: Vec<Field<T>>,
}

/// A node that merges the data of several sources.
#[derive(Debug, PartialEq, Eq)]
pub struct ExchangeNode<T> {
    pub sources: Vec<ProstExchangeSource>,
    pub input_schema: Vec<NodeField<T>>,
}

/// What a plan node does.
#[derive(Debug, PartialEq, Eq)]
pub enum NodeBody<T> {
    Exchange(ExchangeNode<T>),
    /// Anything else, by its name.
    Other(String),
}

/// A node of a plan.
#[derive(Debug, PartialEq, Eq)]
pub struct PlanNode<T> {
    pub identity: String,
    pub node_body: Option<NodeBody<T>>,
}

/// What an executor is built from: a plan node, and the task that runs it.
pub struct ExecutorBuilder<C, T> {
    pub plan_node: PlanNode<T>,
    pub task_id: TaskId,
    pub context: C,
}

impl Clone for ProstExchangeSource {
    fn clone(&self) -> (copy: ProstExchangeSource)
        ensures
            copy == *self,
    {
        ProstExchangeSource {
            task_output_id: match &self.task_output_id {
                Some(task_output_id) => Some(task_output_id.clone()),
                None => None,
            },
            host: match &self.host {
                Some(host) => Some(host.clone()),
                None => None,
            },
        }
    }
}

impl Default for ProstExchangeSource {
    fn default() -> (source: ProstExchangeSource)
        ensures
            source == (ProstExchangeSource { task_output_id: None, host: None }),
    {
        ProstExchangeSource { task_output_id: None, host: None }
    }
}

impl ProstExchangeSource {
    /// What is said to a source without a host.
    pub open spec fn host_missing() -> ErrorCodeView {
        ErrorCodeView::field_not_found("host"@)
    }

    /// What is said to a source without an output.
    pub open spec fn output_missing() -> ErrorCodeView {
        ErrorCodeView::field_not_found("task_output_id"@)
    }

    /// The host, or an error where it was left out.
    pub fn get_host(&self) -> (host: Result<&HostAddress, RwError>)
        ensures
            match self.host {
                Some(address) => host is Ok && *host->Ok_0 == address,
                None => {
                    &&& host is Err
                    &&& host->Err_0@ == Self::host_missing()
                    &&& host->Err_0@ == ErrorCodeView::InternalError(
                        "Failed to decode prost: field not found `"@ + "host"@ + "`"@,
                    )
                },
            },
    {
        match &self.host {
            Some(host) => Ok(host),
            None => Err(RwError::field_not_found("host")),
        }
    }

    /// The output, or an error where it was left out.
    pub fn get_task_output_id(&self) -> (id: Result<&ProstTaskOutputId, RwError>)
        ensures
            match self.task_output_id {
                Some(output_id) => id is Ok && *id->Ok_0 == output_id,
                None => {
                    &&& id is Err
                    &&& id->Err_0@ == Self::output_missing()
                    &&& id->Err_0@ == ErrorCodeView::InternalError(
                        "Failed to decode prost: field not found `"@ + "task_output_id"@ + "`"@,
                    )
                },
            },
    {
        match &self.task_output_id {
            Some(task_output_id) => Ok(task_output_id),
            None => Err(RwError::field_not_found("task_output_id")),
        }
    }
}

impl<T: Clone> Field<T> {
    /// That the column is the one that `node` describes: it has the name, and a clone of
    /// the data type.
    pub open spec fn describes(self, node: NodeField<T>) -> bool {
        &&& call_ensures(T::clone, (&node.data_type,), self.data_type)
        &&& self.name == node.name
    }

    /// The column that a plan describes.
    pub fn from(field: &NodeField<T>) -> (column: Field<T>)
        ensures
            column.describes(*field),
            call_ensures(T::clone, (&field.data_type,), column.data_type),
            column.name@ == field.name@,
    {
        Field { data_type: field.data_type.clone(), name: field.name.clone() }
    }
}

impl<T: Clone> ExchangeNode<T> {
    /// A copy of the sources, in their order.
    pub fn copy_sources(&self) -> (sources: Vec<ProstExchangeSource>)
        ensures
            sources@ == self.sources@,
    {
        let mut sources: Vec<ProstExchangeSource> = Vec::new();
        let mut i: usize = 0;
        while i < self.sources.len()
            invariant
                i <= self.sources@.len(),
                sources@ == self.sources@.take(i as int),
            decreases self.sources@.len() - i,
        {
            sources.push(self.sources[i].clone());
            i = i + 1;
        }
        sources
    }

    /// The schema of the node: one column for each of its fields, in their order.
    pub fn schema(&self) -> (schema: Schema<T>)
        ensures
            schema.fields@.len() == self.input_schema@.len(),
            forall|i: int|
                0 <= i < schema.fields@.len() ==> (#[trigger] schema.fields@[i]).describes(
                    self.input_schema@[i],
                ),
    {
        let mut fields: Vec<Field<T>> = Vec::new();
        let mut i: usize = 0;
        while i < self.input_schema.len()
            invariant
                i <= self.input_schema@.len(),
                fields@.len() == i,
                forall|j: int|
                    0 <= j < i ==> (#[trigger] fields@[j]).describes(self.input_schema@[j]),
            decreases self.input_schema@.len() - i,
        {
            fields.push(Field::from(&self.input_schema[i]));
            i = i + 1;
        }
        Schema { fields }
    }
}

/// A column is described by a node if and only if it has the node's name and a clone of
/// the node's data type.
pub proof fn law_column_has_name_and_type_of_its_node<T: Clone>(
    column: Field<T>,
    node: NodeField<T>,
)
    ensures
        column.describes(node) <==> column.name == node.name && call_ensures(
            T::clone,
            (&node.data_type,),
            column.data_type,
        ),
{
}

} // verus!
