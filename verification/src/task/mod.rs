//! Batch tasks: their ids, their executions and the registry of the running ones.
pub mod call_laws;
pub mod execution;
pub mod id;
pub mod laws;
pub mod manager;
mod registry;
mod start;
pub mod table;

pub use execution::BatchTaskExecution;
pub use id::{ProstTaskId, ProstTaskOutputId, TaskId, TaskOutputId};
pub use manager::{BatchManager, TakenOutput, WaitStep};
pub use table::TaskTable;
