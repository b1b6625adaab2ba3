//! What holds of the sources that an exchange creates.
use crate::error::{ErrorCodeView, RwError};
use crate::executor::generic_exchange::{
    plan_source, source_answer, BatchTaskContext, CreateSource, DefaultCreateSource,
    ExchangeSourcePlan,
};
use crate::executor::plan::ProstExchangeSource;
use crate::task::id::{TaskId, TaskIdView};
use vstd::prelude::*;

verus! {

/// Where the data of a source is taken from is decided by its host alone: on this node
/// from the task itself, on any other node over RPC, from just the host and the output
/// that the source names.
pub proof fn law_source_is_local_where_its_host_is(
    local: bool,
    source: ProstExchangeSource,
    task_id: TaskIdView,
    answer: Result<ExchangeSourcePlan, RwError>,
)
    requires
        source.host is Some,
        source.task_output_id is Some,
        source_answer(local, source, task_id, answer),
    ensures
        answer is Ok ==> (answer->Ok_0 is Local <==> local),
        !local ==> answer == Ok::<ExchangeSourcePlan, RwError>(
            ExchangeSourcePlan::Remote {
                peer_addr: source.host->0,
                output_id: source.task_output_id->0,
            },
        ),
        local ==> (answer is Ok <==> source.task_output_id->0.task_id is Some),
        local && answer is Ok ==> {
            let named = source.task_output_id->0;
            let taken = answer->Ok_0->Local_task_output_id;
            let taker = answer->Ok_0->Local_task_id;
            &&& taken.output_id == named.output_id
            &&& taken.task_id.task_id == named.task_id->0.task_id
            &&& taken.task_id.stage_id == named.task_id->0.stage_id
            &&& taken.task_id.query_id@ == named.task_id->0.query_id@
            &&& taker.task_id == task_id.task_id
            &&& taker.stage_id == task_id.stage_id
            &&& taker.query_id@ == task_id.query_id
        },
        local && answer is Err ==> answer->Err_0@ == ErrorCodeView::InternalError(
            "Failed to decode prost: field not found `"@ + "task_id"@ + "`"@,
        ),
{
}

/// A source that lacks its host or its output is refused, wherever it may be; the host
/// is missed first.
pub proof fn law_incomplete_source_is_refused(
    local: bool,
    source: ProstExchangeSource,
    task_id: TaskIdView,
    answer: Result<ExchangeSourcePlan, RwError>,
)
    requires
        source.host is None || source.task_output_id is None,
        source_answer(local, source, task_id, answer),
    ensures
        answer is Err,
        source.host is None ==> answer->Err_0@ == ErrorCodeView::InternalError(
            "Failed to decode prost: field not found `"@ + "host"@ + "`"@,
        ),
        source.host is Some ==> answer->Err_0@ == ErrorCodeView::InternalError(
            "Failed to decode prost: field not found `"@ + "task_output_id"@ + "`"@,
        ),
{
}

/// A complete source, as [`plan_source`] plans it, is taken from this node if and only if
/// it is said to be local.
pub proof fn law_planned_source_is_where_it_is_said_to_be(
    local: bool,
    source: &ProstExchangeSource,
    task_id: TaskId,
    answer: Result<ExchangeSourcePlan, RwError>,
)
    requires
        call_ensures(plan_source, (local, source, task_id), answer),
    ensures
        answer is Ok <==> source.host is Some && source.task_output_id is Some && (local ==>
            source.task_output_id->0.task_id is Some),
        answer is Ok ==> (answer->Ok_0 is Local <==> local),
        answer is Ok && !local ==> {
            &&& answer->Ok_0->Remote_peer_addr == source.host->0
            &&& answer->Ok_0->Remote_output_id == source.task_output_id->0
        },
        answer is Ok && local ==> {
            &&& answer->Ok_0->Local_task_id@ == task_id@
            &&& answer->Ok_0->Local_task_output_id@.task_id == source.task_output_id->0.task_id->0@
            &&& answer->Ok_0->Local_task_output_id@.output_id == source.task_output_id->0.output_id
        },
{
}

/// A complete source is created where the context says that its host is: where it says
/// that the host is local, and nowhere else, the data is taken from this node.
pub proof fn law_created_source_is_where_the_context_says<C: BatchTaskContext>(
    context: &C,
    source: &ProstExchangeSource,
    task_id: TaskId,
    local: bool,
    answer: Result<ExchangeSourcePlan, RwError>,
)
    requires
        source.host is Some,
        source.task_output_id is Some,
        forall|said: bool| #[trigger]
            call_ensures(C::is_local_addr, (context, &source.host->0), said) ==> said == local,
        call_ensures(
            <DefaultCreateSource as CreateSource<C>>::create_source,
            (context, source, task_id),
            answer,
        ),
    ensures
        answer is Ok <==> (local ==> source.task_output_id->0.task_id is Some),
        answer is Ok ==> (answer->Ok_0 is Local <==> local),
        !local ==> answer == Ok::<ExchangeSourcePlan, RwError>(
            ExchangeSourcePlan::Remote {
                peer_addr: source.host->0,
                output_id: source.task_output_id->0,
            },
        ),
{
}

} // verus!
