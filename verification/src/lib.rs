//! The rules by which a RisingWave node runs batch tasks, exchanges their data and keeps
//! the list of the cluster's worker nodes.
//!
//! Everything that waits (RPC, background tasks, streams) is left to the caller. The
//! functions here decide what is done next, and what is answered.
pub mod error;
pub mod executor;
pub mod host;
pub mod meta;
mod sync;
pub mod task;
pub mod text;
