use futures::stream::{select_all, unfold, BoxStream};
use futures::StreamExt;
use risingwave::error::RwError;
use risingwave::executor::exchange_stream::data_chunk_step;
use risingwave::executor::generic_exchange::plan_source;
use risingwave::executor::{
    BatchTaskContext, ChunkStep, CreateSource, DefaultCreateSource, ExchangeNode, ExchangeSourcePlan,
    ExchangeStep, ExecutorBuilder, Field, GenericExchangeExecutor, GenericExchangeExecutorBuilder,
    NodeBody, NodeField, PlanNode, ProstExchangeSource, Schema,
};
use risingwave::host::HostAddress;
use risingwave::task::{ProstTaskId, ProstTaskOutputId, TaskId, TaskOutputId};
use std::marker::PhantomData;

#[derive(Clone)]
struct Context {
    local: HostAddress,
}

impl BatchTaskContext for Context {
    fn is_local_addr(&self, peer_addr: &HostAddress) -> bool {
        *peer_addr == self.local
    }
}

fn addr(port: i32) -> HostAddress {
    HostAddress { host: "localhost".to_string(), port }
}

fn context() -> Context {
    Context { local: addr(1) }
}

fn task() -> ProstTaskId {
    ProstTaskId { query_id: "q".to_string(), stage_id: 2, task_id: 3 }
}

fn output(task_id: Option<ProstTaskId>) -> ProstTaskOutputId {
    ProstTaskOutputId { task_id, output_id: 4 }
}

fn source(host: Option<HostAddress>, id: Option<ProstTaskOutputId>) -> ProstExchangeSource {
    ProstExchangeSource { task_output_id: id, host }
}

fn field_missing(name: &str) -> RwError {
    RwError::field_not_found(name)
}

/// Hands over one chunk a hundred times, then ends. Sources without a host fail.
struct FakeCreateSource {}

impl CreateSource<Context> for FakeCreateSource {
    type Source = Vec<Option<Vec<i32>>>;

    fn create_source(
        _: &Context,
        prost_source: &ProstExchangeSource,
        _: TaskId,
    ) -> Result<Vec<Option<Vec<i32>>>, RwError> {
        match &prost_source.host {
            Some(host) => Ok(vec![Some(vec![host.port]); 100]),
            None => Err(RwError::internal("no source")),
        }
    }
}

type Handed = (usize, Result<Option<Vec<i32>>, RwError>);

fn handed(number: usize, chunks: Vec<Option<Vec<i32>>>) -> BoxStream<'static, Handed> {
    unfold(Some(chunks), move |chunks| async move {
        let mut chunks = chunks?;
        let chunk = chunks.pop().flatten();
        let rest = if chunk.is_some() { Some(chunks) } else { None };
        Some(((number, Ok(chunk)), rest))
    })
    .boxed()
}

fn executor(
    sources: Vec<ProstExchangeSource>,
) -> GenericExchangeExecutor<FakeCreateSource, Context, i32> {
    GenericExchangeExecutor {
        sources,
        context: context(),
        source_creator: PhantomData,
        schema: Schema { fields: vec![Field { data_type: 2, name: "".to_string() }] },
        task_id: TaskId::default(),
        identity: "GenericExchangeExecutor2".to_string(),
    }
}

fn port_source(port: i32) -> ProstExchangeSource {
    source(Some(addr(port)), None)
}

#[test]
fn test_exchange_multiple_sources() {
    let mut sources: Vec<ProstExchangeSource> = vec![];
    for i in 0..2 {
        sources.push(port_source(100000 - i));
    }
    let executor = executor(sources);
    assert_eq!(executor.identity(), "GenericExchangeExecutor2");
    assert_eq!(executor.schema().fields.len(), 1);

    let mut stream = executor.execute();
    let mut opened = vec![];
    let mut chunks: Vec<Vec<i32>> = vec![];
    let mut total = 0;
    while let ExchangeStep::Open(source) = stream.step() {
        opened.push(source);
        assert!(stream.is_pending());
        assert_eq!(stream.opened(Ok(())), None);
        if opened.len() == 2 {
            break;
        }
    }
    let mut merged = select_all(opened.into_iter().enumerate().map(|(i, s)| handed(i, s)));
    futures::executor::block_on(async {
        while let ExchangeStep::Poll = stream.step() {
            let (number, data) = merged.next().await.unwrap();
            assert!(stream.is_running(number));
            if let Some(chunk) = stream.received(number, data) {
                chunks.push(chunk.unwrap());
                total += 1;
                if chunks.len() == 100 {
                    chunks.dedup();
                    assert_ne!(chunks.len(), 1);
                    chunks.clear();
                }
            }
        }
    });
    assert_eq!(total, 200);
    assert!(matches!(stream.step(), ExchangeStep::End));
}

#[test]
fn each_source_keeps_its_order() {
    let mut stream = executor(vec![port_source(1), port_source(2)]).execute();
    for _ in 0..2 {
        assert!(matches!(stream.step(), ExchangeStep::Open(_)));
        stream.opened(Ok(()));
    }
    assert_eq!(stream.received(1, Ok(Some(20))), Some(Ok(20)));
    assert_eq!(stream.received(0, Ok(Some(10))), Some(Ok(10)));
    assert_eq!(stream.received(1, Ok(Some(21))), Some(Ok(21)));
    assert_eq!(stream.received::<i32>(1, Ok(None)), None);
    assert!(!stream.is_running(1));
    assert!(stream.is_running(0));
    assert!(matches!(stream.step(), ExchangeStep::Poll));
    assert_eq!(stream.received(0, Ok(Some(11))), Some(Ok(11)));
    assert_eq!(stream.received::<i32>(0, Ok(None)), None);
    assert!(matches!(stream.step(), ExchangeStep::End));
    assert!(!stream.is_running(0));
}

#[test]
fn error_of_a_source_ends_the_stream() {
    let mut stream = executor(vec![port_source(1)]).execute();
    stream.step();
    stream.opened(Ok(()));
    assert_eq!(
        stream.received::<i32>(0, Err(RwError::internal("gone"))),
        Some(Err(RwError::internal("gone")))
    );
    assert!(!stream.is_running(0));
    assert!(matches!(stream.step(), ExchangeStep::End));
}

#[test]
fn failed_source_leaves_the_rest_uncreated() {
    let mut stream = executor(vec![port_source(1), source(None, None), port_source(3)]).execute();
    assert!(matches!(stream.step(), ExchangeStep::Open(_)));
    assert_eq!(stream.opened(Ok(())), None);
    match stream.step() {
        ExchangeStep::Fail(error) => assert_eq!(error, RwError::internal("no source")),
        _ => unreachable!(),
    }
    assert!(!stream.is_pending());
    assert!(matches!(stream.step(), ExchangeStep::End));

    let mut stream = executor(vec![port_source(1), port_source(2)]).execute();
    stream.step();
    let error = stream.opened(Err(RwError::internal("refused")));
    assert_eq!(error, Some(RwError::internal("refused")));
    assert!(matches!(stream.step(), ExchangeStep::End));
}

#[test]
fn sources_are_created_once_in_order() {
    let mut stream = executor(vec![port_source(7), port_source(8), port_source(9)]).execute();
    let mut ports = vec![];
    while !stream.is_pending() {
        match stream.step() {
            ExchangeStep::Open(source) => {
                assert!(stream.is_pending());
                ports.push(source[0].as_ref().unwrap()[0]);
                assert_eq!(stream.opened(Ok(())), None);
            }
            _ => break,
        }
    }
    assert_eq!(ports, vec![7, 8, 9]);
}

#[test]
fn exchange_without_sources_is_over_at_once() {
    let mut stream = executor(vec![]).execute();
    assert!(!stream.is_pending());
    assert!(matches!(stream.step(), ExchangeStep::End));
}

#[test]
fn chunks_are_yielded_even_if_empty() {
    assert!(matches!(data_chunk_step(Ok(Some(Vec::<i32>::new()))), ChunkStep::Yield(_)));
    assert!(matches!(data_chunk_step::<i32>(Ok(None)), ChunkStep::End));
    assert!(matches!(data_chunk_step::<i32>(Err(RwError::internal("x"))), ChunkStep::Fail(_)));
}

#[test]
fn source_on_this_node_is_local() {
    let plan = DefaultCreateSource::create_source(
        &context(),
        &source(Some(addr(1)), Some(output(Some(task())))),
        TaskId::default(),
    )
    .unwrap();
    assert_eq!(
        plan,
        ExchangeSourcePlan::Local {
            task_output_id: TaskOutputId { task_id: TaskId::from(&task()), output_id: 4 },
            task_id: TaskId::default(),
        }
    );
}

#[test]
fn source_on_another_node_is_remote() {
    let plan = DefaultCreateSource::create_source(
        &context(),
        &source(Some(addr(2)), Some(output(None))),
        TaskId::default(),
    )
    .unwrap();
    assert_eq!(
        plan,
        ExchangeSourcePlan::Remote { peer_addr: addr(2), output_id: output(None) }
    );
}

#[test]
fn incomplete_sources_are_refused() {
    let create = |source: ProstExchangeSource| {
        DefaultCreateSource::create_source(&context(), &source, TaskId::default()).unwrap_err()
    };
    assert_eq!(create(ProstExchangeSource::default()), field_missing("host"));
    assert_eq!(create(source(Some(addr(1)), None)), field_missing("task_output_id"));
    assert_eq!(create(source(Some(addr(2)), None)), field_missing("task_output_id"));
    assert_eq!(create(source(Some(addr(1)), Some(output(None)))), field_missing("task_id"));
    let local = plan_source(true, &source(Some(addr(2)), Some(output(None))), TaskId::default());
    assert_eq!(local, Err(field_missing("task_id")));
}

fn builder(node_body: NodeBody<i32>) -> ExecutorBuilder<Context, i32> {
    ExecutorBuilder {
        plan_node: PlanNode { identity: "Exchange".to_string(), node_body: Some(node_body) },
        task_id: TaskId::from(&task()),
        context: context(),
    }
}

#[test]
fn executor_is_built_from_an_exchange() {
    let columns = [(1, "a"), (7, "b")];
    let node = ExchangeNode {
        sources: vec![port_source(1), port_source(2)],
        input_schema: columns
            .iter()
            .map(|(data_type, name)| NodeField { data_type: *data_type, name: name.to_string() })
            .collect(),
    };
    let executor =
        GenericExchangeExecutorBuilder::new_boxed_executor(&builder(NodeBody::Exchange(node)))
            .ok()
            .unwrap();
    assert_eq!(executor.sources, vec![port_source(1), port_source(2)]);
    assert_eq!(executor.context.local, addr(1));
    assert_eq!(executor.task_id, TaskId::from(&task()));
    assert_eq!(executor.identity(), "Exchange");
    assert_eq!(
        executor.schema().fields,
        vec![
            Field { data_type: 1, name: "a".to_string() },
            Field { data_type: 7, name: "b".to_string() },
        ]
    );
}

#[test]
fn executor_needs_an_exchange_with_sources() {
    let empty = NodeBody::Exchange(ExchangeNode { sources: vec![], input_schema: vec![] });
    let error = GenericExchangeExecutorBuilder::new_boxed_executor(&builder(empty)).err().unwrap();
    assert_eq!(error, RwError::internal("!node.get_sources().is_empty()"));
    let other = builder(NodeBody::Other("Values".to_string()));
    let error = GenericExchangeExecutorBuilder::new_boxed_executor(&other).err().unwrap();
    assert_eq!(
        error.to_string(),
        "internal error: unable to match source.plan_node().get_node_body().unwrap() \
         with NodeBody::Exchange"
    );
}
