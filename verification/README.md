# risingwave

The decisions behind three services of a RisingWave cluster, written in Verus:

- `task`: the registry of batch tasks. `TaskTable` holds one task per id, and its
  contracts say what each operation answers and leaves. `BatchManager` shares one table
  between threads behind a lock. `task::laws` states what holds over several operations.
- `executor`: the exchange. `GenericExchangeExecutorBuilder` builds the executor of an
  exchange node, `DefaultCreateSource` decides where each source is read from, and
  `ExchangeStream` is the run of an exchange as a state machine. `executor::exchange_laws`
  states what holds of a whole run.
- `meta`: the cluster service. Each call is two functions: from the request to what the
  cluster manager is asked, and from its reply to the response.

`error` holds the errors and the gRPC status that reports them, `text` the numbers and
quoted strings inside messages.

`app/` drives the library from asynchronous code: the gRPC handlers, the sending of a
task's data in the background, and the exchange as a `futures` stream.

What is not proved, but believed of other crates, stands in three places: the lock in
`src/sync.rs`, the gRPC status in `src/error.rs` and the quoting of strings in
`src/text.rs`.
