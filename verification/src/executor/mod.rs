//! Executors of batch plans.
pub mod exchange_laws;
pub mod exchange_progress;
pub mod exchange_stream;
pub mod generic_exchange;
pub mod plan;
pub mod source_laws;

pub use exchange_stream::{ChunkStep, ExchangeStep, ExchangeStream};
pub use generic_exchange::{
    BatchTaskContext, CreateSource, DefaultCreateSource, ExchangeExecutor, ExchangeSourcePlan,
    GenericExchangeExecutor, GenericExchangeExecutorBuilder,
};
pub use plan::{
    ExchangeNode, ExecutorBuilder, Field, NodeBody, NodeField, PlanNode, ProstExchangeSource,
    Schema,
};
