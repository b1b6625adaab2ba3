use risingwave::error::{ErrorCode, RwError};
use risingwave::host::HostAddress;
use risingwave::meta::cluster_service::{
    ActivateWorkerNodeRequest, AddWorkerNodeRequest, DeleteWorkerNodeRequest, ListAllNodesRequest,
    WorkerNode, WorkerState, WorkerType,
};
use risingwave::meta::ClusterServiceImpl;
use std::sync::Arc;
use tonic::Code;

fn service() -> ClusterServiceImpl<u64> {
    ClusterServiceImpl::new(Arc::new(7))
}

fn host() -> HostAddress {
    HostAddress { host: "127.0.0.1".to_string(), port: 5688 }
}

fn node() -> WorkerNode {
    WorkerNode {
        id: 3,
        worker_type: WorkerType { number: 2 },
        host: Some(host()),
        state: WorkerState::Starting,
    }
}

#[test]
fn service_keeps_its_manager() {
    let service = service();
    assert_eq!(*service.cluster_manager, 7);
    assert!(Arc::ptr_eq(&service.clone().cluster_manager, &service.cluster_manager));
}

#[test]
fn add_asks_for_host_and_type() {
    let call = service()
        .add_worker_node(AddWorkerNodeRequest {
            worker_type: Some(WorkerType { number: 2 }),
            host: Some(host()),
        })
        .unwrap();
    assert_eq!(call.host, host());
    assert_eq!(call.worker_type, WorkerType { number: 2 });
}

#[test]
fn add_checks_type_before_host() {
    let status = service()
        .add_worker_node(AddWorkerNodeRequest { worker_type: None, host: None })
        .unwrap_err();
    assert_eq!(status.code(), Code::Internal);
    assert_eq!(
        status.message(),
        "internal error: Failed to decode prost: field not found `worker_type`"
    );
}

#[test]
fn add_without_host_is_refused() {
    let status = service()
        .add_worker_node(AddWorkerNodeRequest {
            worker_type: Some(WorkerType { number: 1 }),
            host: None,
        })
        .unwrap_err();
    assert_eq!(status.code(), Code::Internal);
    assert_eq!(status.message(), "internal error: AddWorkerNodeRequest::host is empty");
}

#[test]
fn add_responds_with_the_node() {
    let response = service().add_worker_node_response(Ok((node(), false))).unwrap();
    assert_eq!(response.status, None);
    assert_eq!(response.node, Some(node()));
    let error = RwError::from(ErrorCode::InternalError("store is gone".to_string()));
    let status = service().add_worker_node_response(Err(error)).unwrap_err();
    assert_eq!(status.code(), Code::Internal);
    assert_eq!(status.message(), "internal error: store is gone");
}

#[test]
fn activate_and_delete_need_a_host() {
    let service = service();
    assert_eq!(
        service.activate_worker_node(ActivateWorkerNodeRequest { host: Some(host()) }).unwrap(),
        host()
    );
    assert_eq!(
        service.delete_worker_node(DeleteWorkerNodeRequest { host: Some(host()) }).unwrap(),
        host()
    );
    let status =
        service.activate_worker_node(ActivateWorkerNodeRequest { host: None }).unwrap_err();
    assert_eq!(status.message(), "internal error: ActivateWorkerNodeRequest::host is empty");
    let status = service.delete_worker_node(DeleteWorkerNodeRequest { host: None }).unwrap_err();
    assert_eq!(status.code(), Code::Internal);
    assert_eq!(status.message(), "internal error: ActivateWorkerNodeRequest::host is empty");
}

#[test]
fn activate_and_delete_respond() {
    let service = service();
    assert_eq!(service.activate_worker_node_response(Ok(())).unwrap().status, None);
    assert_eq!(service.delete_worker_node_response(Ok(())).unwrap().status, None);
    let status =
        service.activate_worker_node_response(Err(RwError::internal("no such node"))).unwrap_err();
    assert_eq!(status.message(), "internal error: no such node");
    let status =
        service.delete_worker_node_response(Err(RwError::internal("no such node"))).unwrap_err();
    assert_eq!(status.code(), Code::Internal);
}

#[test]
fn list_leaves_out_starting_nodes_unless_asked() {
    let service = service();
    let call = service
        .list_all_nodes(ListAllNodesRequest {
            worker_type: Some(WorkerType { number: 2 }),
            include_starting_nodes: false,
        })
        .unwrap();
    assert_eq!(call.worker_state, Some(WorkerState::Running));
    let call = service
        .list_all_nodes(ListAllNodesRequest {
            worker_type: Some(WorkerType { number: 2 }),
            include_starting_nodes: true,
        })
        .unwrap();
    assert_eq!(call.worker_type, WorkerType { number: 2 });
    assert_eq!(call.worker_state, None);
    let status = service
        .list_all_nodes(ListAllNodesRequest { worker_type: None, include_starting_nodes: true })
        .unwrap_err();
    assert_eq!(status.code(), Code::Internal);
    let response = service.list_all_nodes_response(vec![node()]).unwrap();
    assert_eq!(response.status, None);
    assert_eq!(response.nodes, vec![node()]);
}
