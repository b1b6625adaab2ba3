//! The RPC service that keeps the list of the cluster's worker nodes.
//!
//! Each call of the service has two halves. The first turns the request into what the
//! cluster manager is asked, or refuses the request. The second turns what the manager
//! replied into the response. The manager is asked in between, by the caller.
use crate::error::{grpc_status, ErrorCodeView, RwError};
use crate::host::HostAddress;
use std::sync::Arc;
use vstd::prelude::*;

verus! {

/// What a worker node is for, by its number in the protocol.
#[derive(Debug, PartialEq, Eq, Clone, Copy, Structural)]
pub struct WorkerType {
    pub number: i32,
}

/// How far a worker node has come.
#[derive(Debug, PartialEq, Eq, Clone, Copy, Structural)]
pub enum WorkerState {
    Starting,
    Running,
}

/// A worker node of the cluster.
#[derive(Debug, PartialEq, Eq)]
pub struct WorkerNode {
    pub id: u32,
    pub worker_type: WorkerType,
    pub host: Option<HostAddress>,
    pub state: WorkerState,
}

/// The status that a response can carry in its body.
#[derive(Debug, PartialEq, Eq)]
pub struct ResponseStatus {
    pub code: i32,
    pub message: String,
}

/// Asks that a worker node join the cluster. The type is `None` where the request
/// holds no number of a worker type.
#[derive(Debug, PartialEq, Eq)]
pub struct AddWorkerNodeRequest {
    pub worker_type: Option<WorkerType>,
    pub host: Option<HostAddress>,
}

#[derive(Debug, PartialEq, Eq)]
pub struct AddWorkerNodeResponse {
    pub status: Option<ResponseStatus>,
    pub node: Option<WorkerNode>,
}

/// Reports that a worker node is ready for work.
#[derive(Debug, PartialEq, Eq)]
pub struct ActivateWorkerNodeRequest {
    pub host: Option<HostAddress>,
}

#[derive(Debug, PartialEq, Eq)]
pub struct ActivateWorkerNodeResponse {
    pub status: Option<ResponseStatus>,
}

/// Asks that a worker node leave the cluster.
#[derive(Debug, PartialEq, Eq)]
pub struct DeleteWorkerNodeRequest {
    pub host: Option<HostAddress>,
}

#[derive(Debug, PartialEq, Eq)]
pub struct DeleteWorkerNodeResponse {
    pub status: Option<ResponseStatus>,
}

/// Asks for the worker nodes of one type. The type is `None` where the request holds
/// no number of a worker type.
#[derive(Debug, PartialEq, Eq)]
pub struct ListAllNodesRequest {
    pub worker_type: Option<WorkerType>,
    pub include_starting_nodes: bool,
}

#[derive(Debug, PartialEq, Eq)]
pub struct ListAllNodesResponse {
    pub status: Option<ResponseStatus>,
    pub nodes: Vec<WorkerNode>,
}

/// What the cluster manager is asked when a worker node joins.
#[derive(Debug, PartialEq, Eq)]
pub struct AddWorkerNode {
    pub host: HostAddress,
    pub worker_type: WorkerType,
}

/// What the cluster manager is asked when nodes are listed: the nodes of this type, and
/// of this state where one is given.
#[derive(Debug, PartialEq, Eq, Clone, Copy)]
pub struct ListWorkerNode {
    pub worker_type: WorkerType,
    pub worker_state: Option<WorkerState>,
}

/// The refusal of a request whose worker type is none.
pub open spec fn worker_type_missing() -> ErrorCodeView {
    ErrorCodeView::field_not_found("worker_type"@)
}

/// What a request to add a node asks of the manager. The type is looked at first.
pub open spec fn add_call(request: AddWorkerNodeRequest) -> Result<AddWorkerNode, ErrorCodeView> {
    match (request.worker_type, request.host) {
        (None, _) => Err(worker_type_missing()),
        (Some(_), None) => Err(
            ErrorCodeView::InternalError("AddWorkerNodeRequest::host is empty"@),
        ),
        (Some(worker_type), Some(host)) => Ok(AddWorkerNode { host, worker_type }),
    }
}

/// What a request about the node at a host asks of the manager: the host itself.
pub open spec fn host_call(host: Option<HostAddress>) -> Result<HostAddress, ErrorCodeView> {
    match host {
        None => Err(ErrorCodeView::InternalError("ActivateWorkerNodeRequest::host is empty"@)),
        Some(host) => Ok(host),
    }
}

/// What a request to list nodes asks of the manager: only the running nodes, unless the
/// starting ones are to be included.
pub open spec fn list_call(request: ListAllNodesRequest) -> Result<ListWorkerNode, ErrorCodeView> {
    match request.worker_type {
        None => Err(worker_type_missing()),
        Some(worker_type) => Ok(
            ListWorkerNode {
                worker_type,
                worker_state: if request.include_starting_nodes {
                    None
                } else {
                    Some(WorkerState::Running)
                },
            },
        ),
    }
}

/// The answer to a request: the value, or the status of the error.
pub open spec fn answer<T>(result: Result<T, ErrorCodeView>) -> Result<T, tonic::Status> {
    match result {
        Ok(value) => Ok(value),
        Err(error) => Err(error.status()),
    }
}

/// The service, in front of the cluster manager `M`.
pub struct ClusterServiceImpl<M> {
    pub cluster_manager: Arc<M>,
}

impl<M> Clone for ClusterServiceImpl<M> {
    fn clone(&self) -> (service: ClusterServiceImpl<M>)
        ensures
            service == *self,
    {
        ClusterServiceImpl { cluster_manager: self.cluster_manager.clone() }
    }
}

impl<M> ClusterServiceImpl<M> {
    /// A service in front of `cluster_manager`.
    pub fn new(cluster_manager: Arc<M>) -> (service: ClusterServiceImpl<M>)
        ensures
            service.cluster_manager == cluster_manager,
    {
        ClusterServiceImpl { cluster_manager }
    }

    /// What the manager is asked to add a worker node.
    pub fn add_worker_node(&self, request: AddWorkerNodeRequest) -> (call: Result<
        AddWorkerNode,
        tonic::Status,
    >)
        ensures
            call == answer(add_call(request)),
            request.worker_type is Some && request.host is Some ==> call == Ok::<
                AddWorkerNode,
                tonic::Status,
            >(AddWorkerNode { host: request.host->0, worker_type: request.worker_type->0 }),
            request.worker_type is None ==> call == Err::<AddWorkerNode, tonic::Status>(
                grpc_status(
                    13,
                    "internal error: "@ + ("Failed to decode prost: field not found `"@
                        + "worker_type"@ + "`"@),
                ),
            ),
            request.worker_type is Some && request.host is None ==> call == Err::<
                AddWorkerNode,
                tonic::Status,
            >(grpc_status(13, "internal error: "@ + "AddWorkerNodeRequest::host is empty"@)),
    {
        let worker_type = match request.worker_type {
            Some(worker_type) => worker_type,
            None => {
                return Err(RwError::field_not_found("worker_type").to_grpc_status());
            },
        };
        match request.host {
            Some(host) => Ok(AddWorkerNode { host, worker_type }),
            None => Err(
                RwError::internal("AddWorkerNodeRequest::host is empty").to_grpc_status(),
            ),
        }
    }

    /// The response once the manager has replied. That the node was there already is not
    /// reported.
    pub fn add_worker_node_response(
        &self,
        reply: Result<(WorkerNode, bool), RwError>,
    ) -> (response: Result<AddWorkerNodeResponse, tonic::Status>)
        ensures
            response == match reply {
                Ok((worker_node, _)) => Ok::<AddWorkerNodeResponse, tonic::Status>(
                    AddWorkerNodeResponse { status: None, node: Some(worker_node) },
                ),
                Err(error) => Err(error@.status()),
            },
    {
        match reply {
            Ok((worker_node, _)) => Ok(
                AddWorkerNodeResponse { status: None, node: Some(worker_node) },
            ),
            Err(error) => Err(error.to_grpc_status()),
        }
    }

    /// The host that the manager is asked to activate.
    pub fn activate_worker_node(&self, request: ActivateWorkerNodeRequest) -> (call: Result<
        HostAddress,
        tonic::Status,
    >)
        ensures
            call == answer(host_call(request.host)),
            request.host is Some ==> call == Ok::<HostAddress, tonic::Status>(request.host->0),
            request.host is None ==> call == Err::<HostAddress, tonic::Status>(
                grpc_status(
                    13,
                    "internal error: "@ + "ActivateWorkerNodeRequest::host is empty"@,
                ),
            ),
    {
        match request.host {
            Some(host) => Ok(host),
            None => Err(
                RwError::internal("ActivateWorkerNodeRequest::host is empty").to_grpc_status(),
            ),
        }
    }

    /// The response once the manager has replied.
    pub fn activate_worker_node_response(&self, reply: Result<(), RwError>) -> (response: Result<
        ActivateWorkerNodeResponse,
        tonic::Status,
    >)
        ensures
            response == match reply {
                Ok(_) => Ok::<ActivateWorkerNodeResponse, tonic::Status>(
                    ActivateWorkerNodeResponse { status: None },
                ),
                Err(error) => Err(error@.status()),
            },
    {
        match reply {
            Ok(_) => Ok(ActivateWorkerNodeResponse { status: None }),
            Err(error) => Err(error.to_grpc_status()),
        }
    }

    /// The host that the manager is asked to delete. A missing host is refused in the
    /// words of an activation.
    pub fn delete_worker_node(&self, request: DeleteWorkerNodeRequest) -> (call: Result<
        HostAddress,
        tonic::Status,
    >)
        ensures
            call == answer(host_call(request.host)),
            request.host is Some ==> call == Ok::<HostAddress, tonic::Status>(request.host->0),
            request.host is None ==> call == Err::<HostAddress, tonic::Status>(
                grpc_status(
                    13,
                    "internal error: "@ + "ActivateWorkerNodeRequest::host is empty"@,
                ),
            ),
    {
        match request.host {
            Some(host) => Ok(host),
            None => Err(
                RwError::internal("ActivateWorkerNodeRequest::host is empty").to_grpc_status(),
            ),
        }
    }

    /// The response once the manager has replied.
    pub fn delete_worker_node_response(&self, reply: Result<(), RwError>) -> (response: Result<
        DeleteWorkerNodeResponse,
        tonic::Status,
    >)
        ensures
            response == match reply {
                Ok(_) => Ok::<DeleteWorkerNodeResponse, tonic::Status>(
                    DeleteWorkerNodeResponse { status: None },
                ),
                Err(error) => Err(error@.status()),
            },
    {
        match reply {
            Ok(_) => Ok(DeleteWorkerNodeResponse { status: None }),
            Err(error) => Err(error.to_grpc_status()),
        }
    }

    /// Which nodes the manager is asked for.
    pub fn list_all_nodes(&self, request: ListAllNodesRequest) -> (call: Result<
        ListWorkerNode,
        tonic::Status,
    >)
        ensures
            call == answer(list_call(request)),
            request.worker_type is Some ==> {
                &&& call is Ok
                &&& call->Ok_0.worker_type == request.worker_type->0
                &&& request.include_starting_nodes ==> call->Ok_0.worker_state is None
                &&& !request.include_starting_nodes ==> call->Ok_0.worker_state == Some(
                    WorkerState::Running,
                )
            },
            request.worker_type is None ==> call == Err::<ListWorkerNode, tonic::Status>(
                grpc_status(
                    13,
                    "internal error: "@ + ("Failed to decode prost: field not found `"@
                        + "worker_type"@ + "`"@),
                ),
            ),
    {
        let worker_type = match request.worker_type {
            Some(worker_type) => worker_type,
            None => {
                return Err(RwError::field_not_found("worker_type").to_grpc_status());
            },
        };
        let worker_state = if request.include_starting_nodes {
            None
        } else {
            Some(WorkerState::Running)
        };
        Ok(ListWorkerNode { worker_type, worker_state })
    }

    /// The response once the manager has replied. A list never fails.
    pub fn list_all_nodes_response(&self, node_list: Vec<WorkerNode>) -> (response: Result<
        ListAllNodesResponse,
        tonic::Status,
    >)
        ensures
            response == Ok::<ListAllNodesResponse, tonic::Status>(
                ListAllNodesResponse { status: None, nodes: node_list },
            ),
    {
        Ok(ListAllNodesResponse { status: None, nodes: node_list })
    }
}

/// A request reaches the manager if and only if it names all that its call needs; and
/// then the manager is asked for just what the request names.
pub proof fn law_complete_requests_reach_the_manager(
    add: AddWorkerNodeRequest,
    host: Option<HostAddress>,
    list: ListAllNodesRequest,
)
    ensures
        answer(add_call(add)) is Ok <==> add.worker_type is Some && add.host is Some,
        answer(add_call(add)) is Ok ==> answer(add_call(add))->Ok_0.host == add.host->0
            && answer(add_call(add))->Ok_0.worker_type == add.worker_type->0,
        answer(host_call(host)) is Ok <==> host is Some,
        answer(host_call(host)) is Ok ==> answer(host_call(host))->Ok_0 == host->0,
        answer(list_call(list)) is Ok <==> list.worker_type is Some,
        answer(list_call(list)) is Ok ==> answer(list_call(list))->Ok_0.worker_type
            == list.worker_type->0,
{
}

/// Starting nodes are listed if and only if the request includes them: otherwise the
/// manager is asked for running nodes only.
pub proof fn law_starting_nodes_are_listed_on_request(list: ListAllNodesRequest)
    requires
        list.worker_type is Some,
    ensures
        list.include_starting_nodes <==> answer(list_call(list))->Ok_0.worker_state is None,
        !list.include_starting_nodes <==> answer(list_call(list))->Ok_0.worker_state == Some(
            WorkerState::Running,
        ),
{
}

/// The type of a node is looked at before its host: a request that lacks the type is
/// refused for it, whatever else it lacks.
pub proof fn law_worker_type_is_checked_first(add: AddWorkerNodeRequest)
    requires
        add.worker_type is None,
    ensures
        answer(add_call(add)) == Err::<AddWorkerNode, tonic::Status>(
            worker_type_missing().status(),
        ),
{
}

/// Every request that is refused is answered with the gRPC code `INTERNAL`.
pub proof fn law_refusals_are_internal(
    add: AddWorkerNodeRequest,
    host: Option<HostAddress>,
    list: ListAllNodesRequest,
)
    ensures
        answer(add_call(add)) matches Err(status) ==> exists|text: Seq<char>|
            status == #[trigger] crate::error::grpc_status(crate::error::GRPC_INTERNAL, text),
        answer(host_call(host)) matches Err(status) ==> exists|text: Seq<char>|
            status == #[trigger] crate::error::grpc_status(crate::error::GRPC_INTERNAL, text),
        answer(list_call(list)) matches Err(status) ==> exists|text: Seq<char>|
            status == #[trigger] crate::error::grpc_status(crate::error::GRPC_INTERNAL, text),
{
}

} // verus!
