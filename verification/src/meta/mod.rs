//! The part of the meta node that answers for the cluster's worker nodes.
pub mod cluster_service;

pub use cluster_service::ClusterServiceImpl;
