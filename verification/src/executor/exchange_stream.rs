//! The run of an exchange: its sources are opened one after the other, then their data
//! is merged in the order in which it arrives.
//!
//! The caller performs what [`ExchangeStream::step`] asks for, and reports what came of
//! it: a source that was opened with [`ExchangeStream::opened`], data that a source
//! handed over with [`ExchangeStream::received`]. A source that was created is reported
//! before the next step is asked for, so that each is created once.
use crate::error::RwError;
use crate::executor::generic_exchange::{BatchTaskContext, CreateSource, GenericExchangeExecutor};
use vstd::prelude::*;

verus! {

/// What the caller of an exchange does next.
pub enum ExchangeStep<S> {
    /// Open this source.
    Open(S),
    /// Yield this error; the stream is over.
    Fail(RwError),
    /// Wait until one of the sources that have not ended hands over data.
    Poll,
    /// The stream is over.
    End,
}

/// What becomes of what one source handed over.
pub enum ChunkStep<D> {
    /// Yield this chunk and ask the source for more.
    Yield(D),
    /// Yield this error; it ends the source.
    Fail(RwError),
    /// The source has ended.
    End,
}

/// What happens to an exchange, in the order in which it happens.
pub enum ExchangeEvent<D> {
    /// The source of this number was created, and is to be opened.
    Created(int),
    /// The next source could not be created.
    CreateFailed(RwError),
    /// The source that was created was opened.
    Opened,
    /// The source that was created could not be opened.
    OpenFailed(RwError),
    /// The source of this number handed over a chunk, its end or an error.
    Received(int, Result<Option<D>, RwError>),
    /// All sources had ended.
    Finished,
}

/// The mathematical state of a run.
pub struct ExchangeState {
    /// How many sources there are.
    pub total: nat,
    /// For each source that was opened, whether it has not ended.
    pub running: Seq<bool>,
    /// Whether a source was created and is still to be opened.
    pub pending: bool,
    /// Whether the stream is over.
    pub done: bool,
}

impl ExchangeState {
    /// The state in which an exchange of `total` sources starts.
    pub open spec fn start(total: nat) -> ExchangeState {
        ExchangeState { total, running: Seq::empty(), pending: false, done: false }
    }

    /// Sources are still being opened.
    pub open spec fn opening(self) -> bool {
        !self.done && self.running.len() < self.total
    }

    /// All sources are open and their data is being merged.
    pub open spec fn merging(self) -> bool {
        !self.done && self.running.len() == self.total
    }

    /// The source of this number was opened and has not ended.
    pub open spec fn runs(self, source: int) -> bool {
        0 <= source < self.running.len() && self.running[source]
    }

    /// Whether the event can happen in this state.
    pub open spec fn allows<D>(self, event: ExchangeEvent<D>) -> bool {
        match event {
            ExchangeEvent::Created(source) => self.opening() && !self.pending && source
                == self.running.len(),
            ExchangeEvent::CreateFailed(_) => self.opening() && !self.pending,
            ExchangeEvent::Opened => self.opening() && self.pending,
            ExchangeEvent::OpenFailed(_) => self.opening() && self.pending,
            ExchangeEvent::Received(source, _) => self.merging() && self.runs(source),
            ExchangeEvent::Finished => self.merging() && forall|i: int| !self.runs(i),
        }
    }

    /// The state after the event.
    pub open spec fn after<D>(self, event: ExchangeEvent<D>) -> ExchangeState {
        match event {
            ExchangeEvent::Created(_) => ExchangeState { pending: true, ..self },
            ExchangeEvent::Opened => ExchangeState {
                running: self.running.push(true),
                pending: false,
                ..self
            },
            ExchangeEvent::Received(_, Ok(Some(_))) => self,
            ExchangeEvent::Received(source, Ok(None)) => ExchangeState {
                running: self.running.update(source, false),
                ..self
            },
            _ => ExchangeState { pending: false, done: true, ..self },
        }
    }
}

/// What the stream yields at an event.
pub open spec fn yielded_at<D>(event: ExchangeEvent<D>) -> Option<Result<D, RwError>> {
    match event {
        ExchangeEvent::CreateFailed(error) => Some(Err(error)),
        ExchangeEvent::OpenFailed(error) => Some(Err(error)),
        ExchangeEvent::Received(_, Ok(Some(chunk))) => Some(Ok(chunk)),
        ExchangeEvent::Received(_, Err(error)) => Some(Err(error)),
        _ => None,
    }
}

/// What becomes of what one source handed over.
pub open spec fn chunk_step_of<D>(data: Result<Option<D>, RwError>) -> ChunkStep<D> {
    match data {
        Ok(Some(chunk)) => ChunkStep::Yield(chunk),
        Ok(None) => ChunkStep::End,
        Err(error) => ChunkStep::Fail(error),
    }
}

/// What becomes of what one source handed over. A chunk is yielded whatever it holds,
/// also if it is empty.
pub fn data_chunk_step<D>(data: Result<Option<D>, RwError>) -> (step: ChunkStep<D>)
    ensures
        step == chunk_step_of(data),
        data is Ok && data->Ok_0 is Some ==> step == ChunkStep::Yield(data->Ok_0->0),
        data is Ok && data->Ok_0 is None ==> step is End,
        data is Err ==> step == ChunkStep::<D>::Fail(data->Err_0),
{
    match data {
        Ok(Some(chunk)) => ChunkStep::Yield(chunk),
        Ok(None) => ChunkStep::End,
        Err(error) => ChunkStep::Fail(error),
    }
}

/// The run of an exchange.
pub struct ExchangeStream<CS, C, T> {
    executor: GenericExchangeExecutor<CS, C, T>,
    running: Vec<bool>,
    pending: bool,
    done: bool,
}

impl<CS, C, T> View for ExchangeStream<CS, C, T> {
    type V = ExchangeState;

    closed spec fn view(&self) -> ExchangeState {
        ExchangeState {
            total: self.executor.sources@.len(),
            running: self.running@,
            pending: self.pending,
            done: self.done,
        }
    }
}

impl<CS, C, T> ExchangeStream<CS, C, T> {
    #[verifier::type_invariant]
    spec fn well_formed(self) -> bool {
        &&& self.running@.len() <= self.executor.sources@.len()
        &&& self.pending ==> !self.done && self.running@.len() < self.executor.sources@.len()
    }

    /// The executor that runs.
    pub closed spec fn executor(self) -> GenericExchangeExecutor<CS, C, T> {
        self.executor
    }

    /// The run of `executor`, before its first source is opened.
    pub fn new(executor: GenericExchangeExecutor<CS, C, T>) -> (stream: ExchangeStream<CS, C, T>)
        ensures
            stream@ == ExchangeState::start(executor.sources@.len()),
            stream.executor() == executor,
            stream@.total == executor.sources@.len(),
            stream@.running.len() == 0,
            !stream@.pending,
            !stream@.done,
    {
        ExchangeStream { executor, running: Vec::new(), pending: false, done: false }
    }

    /// Whether a source was created and is still to be opened.
    pub fn is_pending(&self) -> (pending: bool)
        ensures
            pending == self@.pending,
            pending ==> self@.opening(),
            pending ==> !self@.done && self@.running.len() < self.executor().sources@.len(),
    {
        proof {
            use_type_invariant(self);
        }
        self.pending
    }

    /// Whether data of the source can be reported.
    pub fn is_running(&self, source: usize) -> (running: bool)
        ensures
            running == (self@.merging() && self@.runs(source as int)),
            running == (!self@.done && self@.running.len() == self.executor().sources@.len()
                && source < self@.running.len() && self@.running[source as int]),
    {
        proof {
            use_type_invariant(self);
        }
        !self.done && self.running.len() == self.executor.sources.len() && source
            < self.running.len() && self.running[source]
    }

    fn any_running(&self) -> (any: bool)
        ensures
            any == exists|i: int| self@.runs(i),
            any == exists|i: int| 0 <= i < self@.running.len() && self@.running[i],
    {
        let mut i: usize = 0;
        while i < self.running.len()
            invariant
                i <= self.running@.len(),
                forall|j: int| 0 <= j < i ==> !self@.runs(j),
                forall|j: int| 0 <= j < i ==> !self@.running[j],
            decreases self.running@.len() - i,
        {
            if self.running[i] {
                assert(self@.runs(i as int));
                return true;
            }
            i = i + 1;
        }
        false
    }

    /// Reports whether the source that was to be opened is open. Returns the error to
    /// yield; the stream is over with it.
    pub fn opened(&mut self, result: Result<(), RwError>) -> (yielded: Option<RwError>)
        requires
            old(self)@.pending,
        ensures
            old(self)@.opening(),
            final(self).executor() == old(self).executor(),
            match result {
                Ok(_) => yielded is None && final(self)@ == old(self)@.after(
                    ExchangeEvent::<()>::Opened,
                ),
                Err(error) => yielded == Some(error) && final(self)@ == old(self)@.after(
                    ExchangeEvent::<()>::OpenFailed(error),
                ),
            },
            !final(self)@.pending,
            final(self)@.total == old(self)@.total,
            final(self)@.done == (result is Err),
            result is Ok ==> final(self)@.running == old(self)@.running.push(true),
            result is Err ==> final(self)@.running == old(self)@.running,
    {
        proof {
            use_type_invariant(&*self);
        }
        match result {
            Ok(_) => {
                self.pending = false;
                let mut running: Vec<bool> = Vec::new();
                std::mem::swap(&mut running, &mut self.running);
                running.push(true);
                self.running = running;
                None
            },
            Err(error) => {
                self.pending = false;
                self.done = true;
                Some(error)
            },
        }
    }

    /// Reports what a source handed over. Returns what to yield; the stream is over with
    /// an error.
    pub fn received<D>(&mut self, source: usize, data: Result<Option<D>, RwError>) -> (yielded:
        Option<Result<D, RwError>>)
        requires
            old(self)@.merging(),
            old(self)@.runs(source as int),
        ensures
            final(self).executor() == old(self).executor(),
            final(self)@ == old(self)@.after(ExchangeEvent::Received(source as int, data)),
            yielded == yielded_at(ExchangeEvent::Received(source as int, data)),
            !final(self)@.pending,
            final(self)@.total == old(self)@.total,
            final(self)@.done == (data is Err),
            match data {
                Ok(Some(chunk)) => yielded == Some(Ok::<D, RwError>(chunk))
                    && final(self)@.running == old(self)@.running,
                Ok(None) => yielded is None && final(self)@.running
                    == old(self)@.running.update(source as int, false),
                Err(error) => yielded == Some(Err::<D, RwError>(error)) && final(self)@.running
                    == old(self)@.running,
            },
    {
        proof {
            use_type_invariant(&*self);
        }
        match data_chunk_step(data) {
            ChunkStep::Yield(chunk) => Some(Ok(chunk)),
            ChunkStep::End => {
                let mut running: Vec<bool> = Vec::new();
                std::mem::swap(&mut running, &mut self.running);
                running.set(source, false);
                self.running = running;
                None
            },
            ChunkStep::Fail(error) => {
                self.done = true;
                Some(Err(error))
            },
        }
    }
}

impl<CS: CreateSource<C>, C: BatchTaskContext, T> ExchangeStream<CS, C, T> {
    /// What to do next. Sources are created and opened in their order, each once; the
    /// first that fails ends the stream, and those after it are not created.
    pub fn step(&mut self) -> (step: ExchangeStep<CS::Source>)
        requires
            !old(self)@.pending,
        ensures
            final(self).executor() == old(self).executor(),
            if old(self)@.done {
                step is End && final(self)@ == old(self)@
            } else if old(self)@.opening() {
                let executor = old(self).executor();
                let source = &executor.sources@[old(self)@.running.len() as int];
                match step {
                    ExchangeStep::Open(opening) => {
                        &&& call_ensures(
                            CS::create_source,
                            (&executor.context, source, executor.task_id),
                            Ok(opening),
                        )
                        &&& final(self)@ == old(self)@.after(
                            ExchangeEvent::<()>::Created(old(self)@.running.len() as int),
                        )
                    },
                    ExchangeStep::Fail(error) => {
                        &&& call_ensures(
                            CS::create_source,
                            (&executor.context, source, executor.task_id),
                            Err(error),
                        )
                        &&& final(self)@ == old(self)@.after(
                            ExchangeEvent::<()>::CreateFailed(error),
                        )
                    },
                    _ => false,
                }
            } else if exists|i: int| old(self)@.runs(i) {
                step is Poll && final(self)@ == old(self)@
            } else {
                step is End && final(self)@ == old(self)@.after(ExchangeEvent::<()>::Finished)
            },
            old(self)@.total == old(self).executor().sources@.len(),
            final(self)@.total == old(self)@.total,
            final(self)@.running == old(self)@.running,
            !old(self)@.done ==> {
                &&& (step is Open || step is Fail) <==> old(self)@.running.len()
                    < old(self).executor().sources@.len()
                &&& step is Poll <==> old(self)@.running.len()
                    == old(self).executor().sources@.len() && exists|i: int|
                    0 <= i < old(self)@.running.len() && old(self)@.running[i]
                &&& step is End <==> old(self)@.running.len()
                    == old(self).executor().sources@.len() && forall|i: int|
                    0 <= i < old(self)@.running.len() ==> !old(self)@.running[i]
            },
            final(self)@.pending == (step is Open),
            final(self)@.done == (step is End || step is Fail),
    {
        proof {
            use_type_invariant(&*self);
        }
        if self.done {
            return ExchangeStep::End;
        }
        if self.running.len() < self.executor.sources.len() {
            let created = CS::create_source(
                &self.executor.context,
                &self.executor.sources[self.running.len()],
                self.executor.task_id.clone(),
            );
            match created {
                Ok(source) => {
                    self.pending = true;
                    ExchangeStep::Open(source)
                },
                Err(error) => {
                    self.done = true;
                    ExchangeStep::Fail(error)
                },
            }
        } else if self.any_running() {
            ExchangeStep::Poll
        } else {
            self.done = true;
            ExchangeStep::End
        }
    }
}

} // verus!
