//! The executor that merges the data of several sources into one stream.
use crate::error::{ErrorCodeView, RwError};
use crate::executor::exchange_stream::ExchangeStream;
use crate::executor::plan::{ExecutorBuilder, NodeBody, ProstExchangeSource, Schema};
use crate::host::HostAddress;
use crate::task::id::{ProstTaskOutputId, TaskId, TaskIdView, TaskOutputId, TaskOutputIdView};
use std::marker::PhantomData;
use vstd::prelude::*;

verus! {

/// What a task finds around it on its compute node. The runtime implements it; nothing
/// is assumed of what it returns.
pub trait BatchTaskContext {
    /// Whether the address is that of the node itself.
    fn is_local_addr(&self, peer_addr: &HostAddress) -> bool;
}

/// `CreateSource` determines the right type of source to create. Opening the source is
/// the work of the caller.
pub trait CreateSource<C: BatchTaskContext> {
    /// A source that is still to be opened.
    type Source;

    fn create_source(
        context: &C,
        prost_source: &ProstExchangeSource,
        task_id: TaskId,
    ) -> Result<Self::Source, RwError>;
}

/// Takes data from the task itself where it runs on this node, over RPC where it does not.
pub struct DefaultCreateSource {}

/// A source that is still to be opened.
#[derive(Debug, PartialEq, Eq)]
pub enum ExchangeSourcePlan {
    /// The output of a task on this node, taken by the task `task_id`.
    Local { task_output_id: TaskOutputId, task_id: TaskId },
    /// The output of a task on the node at `peer_addr`.
    Remote { peer_addr: HostAddress, output_id: ProstTaskOutputId },
}

/// The answer to a source that is to be created, given whether its host is this node.
/// The host is looked at first, then the output; the task of the output matters only
/// on this node.
pub open spec fn source_answer(
    local: bool,
    source: ProstExchangeSource,
    task_id: TaskIdView,
    answer: Result<ExchangeSourcePlan, RwError>,
) -> bool {
    match (source.host, source.task_output_id) {
        (None, _) => answer is Err && answer->Err_0@ == ProstExchangeSource::host_missing(),
        (Some(_), None) => answer is Err && answer->Err_0@
            == ProstExchangeSource::output_missing(),
        (Some(host), Some(output)) => if local {
            match output.task_id {
                None => answer is Err && answer->Err_0@ == ProstTaskOutputId::task_missing(),
                Some(task) => {
                    &&& answer is Ok
                    &&& answer->Ok_0 is Local
                    &&& answer->Ok_0->Local_task_output_id@ == (TaskOutputIdView {
                        task_id: task@,
                        output_id: output.output_id,
                    })
                    &&& answer->Ok_0->Local_task_id@ == task_id
                },
            }
        } else {
            answer == Ok::<ExchangeSourcePlan, RwError>(
                ExchangeSourcePlan::Remote { peer_addr: host, output_id: output },
            )
        },
    }
}

/// The source that is to be opened, given whether its host is this node.
pub fn plan_source(
    local: bool,
    prost_source: &ProstExchangeSource,
    task_id: TaskId,
) -> (answer: Result<ExchangeSourcePlan, RwError>)
    ensures
        source_answer(local, *prost_source, task_id@, answer),
{
    let peer_addr = match prost_source.get_host() {
        Ok(host) => host.clone(),
        Err(error) => {
            return Err(error);
        },
    };
    let output_id = match prost_source.get_task_output_id() {
        Ok(output_id) => output_id,
        Err(error) => {
            return Err(error);
        },
    };
    if local {
        match TaskOutputId::try_from(output_id) {
            Ok(task_output_id) => Ok(ExchangeSourcePlan::Local { task_output_id, task_id }),
            Err(error) => Err(error),
        }
    } else {
        Ok(ExchangeSourcePlan::Remote { peer_addr, output_id: output_id.clone() })
    }
}

impl<C: BatchTaskContext> CreateSource<C> for DefaultCreateSource {
    type Source = ExchangeSourcePlan;

    fn create_source(
        context: &C,
        prost_source: &ProstExchangeSource,
        task_id: TaskId,
    ) -> (answer: Result<ExchangeSourcePlan, RwError>)
        ensures
            match prost_source.host {
                None => source_answer(false, *prost_source, task_id@, answer),
                Some(host) => exists|local: bool| #[trigger]
                    call_ensures(C::is_local_addr, (context, &host), local) && source_answer(
                        local,
                        *prost_source,
                        task_id@,
                        answer,
                    ),
            },
    {
        let local = match prost_source.get_host() {
            Ok(peer_addr) => context.is_local_addr(peer_addr),
            Err(error) => {
                return Err(error);
            },
        };
        plan_source(local, prost_source, task_id)
    }
}

/// Merges the data of its sources into one stream of chunks, whose columns have data
/// types `T`.
pub struct GenericExchangeExecutor<CS, C, T> {
    pub sources: Vec<ProstExchangeSource>,
    pub context: C,
    /// Mock-able `CreateSource`.
    pub source_creator: PhantomData<CS>,
    pub schema: Schema<T>,
    pub task_id: TaskId,
    pub identity: String,
}

/// The exchange between the nodes of a cluster.
pub type ExchangeExecutor<C, T> = GenericExchangeExecutor<DefaultCreateSource, C, T>;

impl<CS, C, T> GenericExchangeExecutor<CS, C, T> {
    /// The columns of the chunks that the executor yields.
    pub fn schema(&self) -> (schema: &Schema<T>)
        ensures
            *schema == self.schema,
    {
        &self.schema
    }

    /// The name under which the executor appears in the plan.
    pub fn identity(&self) -> (identity: &str)
        ensures
            identity@ == self.identity@,
    {
        self.identity.as_str()
    }

    /// Starts the executor.
    pub fn execute(self) -> (stream: ExchangeStream<CS, C, T>)
        ensures
            stream.executor() == self,
            stream@ == crate::executor::exchange_stream::ExchangeState::start(
                self.sources@.len(),
            ),
            stream@.total == self.sources@.len(),
            stream@.running.len() == 0,
            !stream@.pending,
            !stream@.done,
    {
        ExchangeStream::new(self)
    }
}

/// Builds exchange executors.
pub struct GenericExchangeExecutorBuilder {}

impl GenericExchangeExecutorBuilder {
    /// The error for a plan node that is no exchange.
    pub open spec fn no_exchange() -> ErrorCodeView {
        ErrorCodeView::InternalError(
            "unable to match source.plan_node().get_node_body().unwrap() with NodeBody::Exchange"@,
        )
    }

    /// The error for an exchange without sources.
    pub open spec fn no_sources() -> ErrorCodeView {
        ErrorCodeView::InternalError("!node.get_sources().is_empty()"@)
    }

    /// Builds the executor of an exchange node, which has at least one source.
    pub fn new_boxed_executor<C: BatchTaskContext + Clone, T: Clone>(
        source: &ExecutorBuilder<C, T>,
    ) -> (answer: Result<Box<ExchangeExecutor<C, T>>, RwError>)
        requires
            source.plan_node.node_body is Some,
        ensures
            match source.plan_node.node_body->0 {
                NodeBody::Exchange(node) => if node.sources@.len() == 0 {
                    answer is Err && answer->Err_0@ == Self::no_sources()
                } else {
                    &&& answer is Ok
                    &&& answer->Ok_0.sources@ == node.sources@
                    &&& call_ensures(C::clone, (&source.context,), answer->Ok_0.context)
                    &&& answer->Ok_0.schema.fields@.len() == node.input_schema@.len()
                    &&& forall|i: int|
                        0 <= i < node.input_schema@.len() ==> (
                        #[trigger] answer->Ok_0.schema.fields@[i]).describes(node.input_schema@[i])
                    &&& answer->Ok_0.task_id == source.task_id
                    &&& answer->Ok_0.identity == source.plan_node.identity
                },
                _ => answer is Err && answer->Err_0@ == Self::no_exchange(),
            },
            answer is Ok <==> source.plan_node.node_body->0 is Exchange
                && source.plan_node.node_body->0->Exchange_0.sources@.len() > 0,
            answer is Err ==> answer->Err_0@ == ErrorCodeView::InternalError(
                if source.plan_node.node_body->0 is Exchange {
                    "!node.get_sources().is_empty()"@
                } else {
                    "unable to match source.plan_node().get_node_body().unwrap() with NodeBody::Exchange"@
                },
            ),
            answer is Ok ==> forall|i: int|
                #![trigger answer->Ok_0.schema.fields@[i]]
                0 <= i < answer->Ok_0.schema.fields@.len() ==> answer->Ok_0.schema.fields@[i].name
                    == source.plan_node.node_body->0->Exchange_0.input_schema@[i].name,
    {
        let node = match &source.plan_node.node_body {
            Some(NodeBody::Exchange(node)) => node,
            _ => {
                return Err(
                    RwError::internal(
                        "unable to match source.plan_node().get_node_body().unwrap() with NodeBody::Exchange",
                    ),
                );
            },
        };
        if node.sources.len() == 0 {
            return Err(RwError::internal("!node.get_sources().is_empty()"));
        }
        let sources = node.copy_sources();
        Ok(
            Box::new(
                GenericExchangeExecutor {
                    sources,
                    context: source.context.clone(),
                    source_creator: PhantomData,
                    schema: node.schema(),
                    task_id: source.task_id.clone(),
                    identity: source.plan_node.identity.clone(),
                },
            ),
        )
    }
}

} // verus!
