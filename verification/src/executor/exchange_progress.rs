//! How the run of an exchange goes on, and that it can be completed.
use crate::error::RwError;
use crate::executor::exchange_laws::{can_happen, lemma_run, output, state_after};
use crate::executor::exchange_stream::{
    yielded_at, ExchangeEvent, ExchangeState, ExchangeStep, ExchangeStream,
};
use crate::executor::generic_exchange::{BatchTaskContext, CreateSource};
use vstd::prelude::*;

verus! {

/// A run that is not over can go on, whatever number of sources it has: a source that was
/// created can be opened; with none pending the next source can be created until all
/// are; then any source that has not ended can hand over anything, and the run can finish
/// where all have ended. The run can go on in no other way.
pub proof fn law_unfinished_run_goes_on<D>(state: ExchangeState)
    requires
        !state.done,
        state.running.len() <= state.total,
        state.pending ==> state.running.len() < state.total,
    ensures
        forall|source: int| #[trigger]
            state.allows(ExchangeEvent::<D>::Created(source)) <==> !state.pending
                && state.running.len() < state.total && source == state.running.len(),
        forall|error: RwError| #[trigger]
            state.allows(ExchangeEvent::<D>::CreateFailed(error)) <==> !state.pending
                && state.running.len() < state.total,
        state.allows(ExchangeEvent::<D>::Opened) <==> state.pending,
        forall|error: RwError| #[trigger]
            state.allows(ExchangeEvent::<D>::OpenFailed(error)) <==> state.pending,
        forall|source: int, data: Result<Option<D>, RwError>| #[trigger]
            state.allows(ExchangeEvent::<D>::Received(source, data)) <==> state.running.len()
                == state.total && 0 <= source < state.total && state.running[source],
        state.allows(ExchangeEvent::<D>::Finished) <==> state.running.len() == state.total
            && forall|i: int| 0 <= i < state.total ==> !#[trigger] state.running[i],
        exists|event: ExchangeEvent<D>| #[trigger] state.allows(event),
{
    let next = state.running.len() as int;
    assert forall|i: int| 0 <= i < state.total && state.allows(
        ExchangeEvent::<D>::Finished,
    ) implies !#[trigger] state.running[i] by {
        assert(!state.runs(i));
    }
    if state.pending {
        assert(state.allows(ExchangeEvent::<D>::Opened));
    } else if state.running.len() < state.total {
        assert(state.allows(ExchangeEvent::<D>::Created(next)));
    } else if exists|i: int| 0 <= i < state.total && state.running[i] {
        let i = choose|i: int| 0 <= i < state.total && state.running[i];
        assert(state.allows(ExchangeEvent::<D>::Received(i, Ok(None))));
    } else {
        assert(state.allows(ExchangeEvent::<D>::Finished));
    }
}

/// Every run that is not over has a next event: after whatever events, an exchange of any
/// number of sources waits for something that can come.
pub proof fn law_run_never_gets_stuck<D>(total: nat, events: Seq<ExchangeEvent<D>>)
    requires
        can_happen(total, events),
        !state_after(total, events).done,
    ensures
        exists|event: ExchangeEvent<D>| #[trigger] can_happen(total, events.push(event)),
        !state_after(total, events).pending && state_after(total, events).running.len() < total
            ==> can_happen(
            total,
            events.push(ExchangeEvent::Created(state_after(total, events).running.len() as int)),
        ),
{
    lemma_run(total, events);
    let state = state_after(total, events);
    law_unfinished_run_goes_on::<D>(state);
    let event = choose|event: ExchangeEvent<D>| #[trigger] state.allows(event);
    assert(events.push(event).drop_last() =~= events);
    assert(can_happen(total, events.push(event)));
    let created = ExchangeEvent::<D>::Created(state.running.len() as int);
    assert(events.push(created).drop_last() =~= events);
}

/// A run that is over does not go on.
pub proof fn law_finished_run_does_not_go_on<D>(state: ExchangeState, event: ExchangeEvent<D>)
    requires
        state.done,
    ensures
        !state.allows(event),
{
}

/// What each event leaves: creating a source only makes it the pending one; opening it
/// adds one running source; a chunk leaves the run as it is; an end stops just the
/// source that reported it; an error, whatever it comes from, and the finish end the run.
/// No event changes how many sources there are.
pub proof fn law_each_event_changes_what_it_reports<D>(
    state: ExchangeState,
    event: ExchangeEvent<D>,
)
    requires
        state.allows(event),
        state.pending ==> state.running.len() < state.total,
    ensures
        state.after(event).total == state.total,
        state.after(event).pending <==> event is Created,
        state.after(event).done <==> event is CreateFailed || event is OpenFailed
            || event is Finished || (event is Received && event->Received_1 is Err),
        event is Opened ==> {
            &&& state.after(event).running.len() == state.running.len() + 1
            &&& state.after(event).running[state.running.len() as int]
        },
        event !is Opened ==> state.after(event).running.len() == state.running.len(),
        forall|i: int|
            0 <= i < state.running.len() ==> (#[trigger] state.after(event).running[i]
                <==> state.running[i] && event != ExchangeEvent::<D>::Received(i, Ok(None))),
{
}

/// What the stream yields: every chunk and every error, as they came, and nothing else.
pub proof fn law_chunks_and_errors_are_yielded<D>(source: int, chunk: D, error: RwError)
    ensures
        yielded_at(ExchangeEvent::<D>::Received(source, Ok(Some(chunk)))) == Some(
            Ok::<D, RwError>(chunk),
        ),
        yielded_at(ExchangeEvent::<D>::Received(source, Err(error))) == Some(
            Err::<D, RwError>(error),
        ),
        yielded_at(ExchangeEvent::<D>::CreateFailed(error)) == Some(Err::<D, RwError>(error)),
        yielded_at(ExchangeEvent::<D>::OpenFailed(error)) == Some(Err::<D, RwError>(error)),
        yielded_at(ExchangeEvent::<D>::Created(source)) is None,
        yielded_at(ExchangeEvent::<D>::Opened) is None,
        yielded_at(ExchangeEvent::<D>::Received(source, Ok(None))) is None,
        yielded_at(ExchangeEvent::<D>::Finished) is None,
{
}

/// What a step asks for, as long as the run is not over and no source is pending: another
/// source until there are as many as the executor has, then data as long as a source has
/// not ended, and the end only where every one of them has.
pub proof fn law_step_follows_the_sources<CS: CreateSource<C>, C: BatchTaskContext, T>(
    stream: &mut ExchangeStream<CS, C, T>,
    step: ExchangeStep<CS::Source>,
)
    requires
        call_ensures(ExchangeStream::<CS, C, T>::step, (stream,), step),
        !stream@.done,
        !stream@.pending,
    ensures
        step is Open || step is Fail <==> old(stream)@.running.len()
            < old(stream).executor().sources@.len(),
        step is Poll <==> {
            &&& old(stream)@.running.len() == old(stream).executor().sources@.len()
            &&& exists|i: int| 0 <= i < old(stream)@.running.len() && old(stream)@.running[i]
        },
        step is End <==> {
            &&& old(stream)@.running.len() == old(stream).executor().sources@.len()
            &&& forall|i: int|
                0 <= i < old(stream)@.running.len() ==> !old(stream)@.running[i]
        },
{
}

/// The events that create and open the first `count` sources.
pub open spec fn openings<D>(count: nat) -> Seq<ExchangeEvent<D>>
    decreases count,
{
    if count == 0 {
        Seq::empty()
    } else {
        openings((count - 1) as nat).push(ExchangeEvent::Created(count - 1)).push(
            ExchangeEvent::Opened,
        )
    }
}

/// The events at which the sources hand over these chunks, each with its source.
pub open spec fn deliveries<D>(chunks: Seq<(int, D)>) -> Seq<ExchangeEvent<D>> {
    Seq::new(
        chunks.len(),
        |i: int| ExchangeEvent::Received(chunks[i].0, Ok(Some(chunks[i].1))),
    )
}

/// The events at which the first `count` sources report their ends.
pub open spec fn endings<D>(count: nat) -> Seq<ExchangeEvent<D>> {
    Seq::new(count, |i: int| ExchangeEvent::Received(i, Ok(None)))
}

/// The run in which all of `total` sources are opened, hand over the chunks and end.
pub open spec fn complete_run<D>(total: nat, chunks: Seq<(int, D)>) -> Seq<ExchangeEvent<D>> {
    (openings(total) + deliveries(chunks) + endings(total)).push(ExchangeEvent::Finished)
}

proof fn lemma_openings<D>(total: nat, count: nat)
    requires
        count <= total,
    ensures
        can_happen(total, openings::<D>(count)),
        state_after(total, openings::<D>(count)) == (ExchangeState {
            total,
            running: Seq::new(count, |i: int| true),
            pending: false,
            done: false,
        }),
        output(openings::<D>(count)) == Seq::<Result<D, RwError>>::empty(),
    decreases count,
{
    let running = Seq::new(count, |i: int| true);
    if count == 0 {
        assert(Seq::<bool>::empty() =~= running);
    } else {
        let fewer = (count - 1) as nat;
        lemma_openings::<D>(total, fewer);
        let before = openings::<D>(fewer);
        let created = before.push(ExchangeEvent::Created(fewer as int));
        let opened = created.push(ExchangeEvent::Opened);
        assert(created.drop_last() =~= before);
        assert(opened.drop_last() =~= created);
        assert(can_happen(total, created));
        assert(state_after(total, created).pending);
        assert(can_happen(total, opened));
        assert(Seq::new(fewer, |i: int| true).push(true) =~= running);
        assert(output(created) == output(before));
        assert(output(opened) == output(created));
    }
}

proof fn lemma_deliveries<D>(total: nat, chunks: Seq<(int, D)>)
    requires
        forall|i: int| 0 <= i < chunks.len() ==> 0 <= (#[trigger] chunks[i]).0 < total,
    ensures
        can_happen(total, openings::<D>(total) + deliveries(chunks)),
        state_after(total, openings::<D>(total) + deliveries(chunks)) == state_after(
            total,
            openings::<D>(total),
        ),
        output(openings::<D>(total) + deliveries(chunks)) == Seq::new(
            chunks.len(),
            |i: int| Ok::<D, RwError>(chunks[i].1),
        ),
    decreases chunks.len(),
{
    lemma_openings::<D>(total, total);
    let events = openings::<D>(total) + deliveries(chunks);
    let items = Seq::new(chunks.len(), |i: int| Ok::<D, RwError>(chunks[i].1));
    if chunks.len() == 0 {
        assert(events =~= openings::<D>(total));
        assert(items =~= Seq::<Result<D, RwError>>::empty());
    } else {
        let fewer = chunks.drop_last();
        assert forall|i: int| 0 <= i < fewer.len() implies 0 <= (#[trigger] fewer[i]).0
            < total by {
            assert(fewer[i] == chunks[i]);
        }
        lemma_deliveries(total, fewer);
        assert(events.drop_last() =~= openings::<D>(total) + deliveries(fewer));
        assert(events.last() == ExchangeEvent::<D>::Received(
            chunks.last().0,
            Ok(Some(chunks.last().1)),
        ));
        assert(chunks.last() == chunks[chunks.len() - 1]);
        assert(state_after(total, events.drop_last()).runs(chunks.last().0));
        assert(output(events) =~= items);
    }
}

proof fn lemma_endings<D>(total: nat, chunks: Seq<(int, D)>, count: nat)
    requires
        forall|i: int| 0 <= i < chunks.len() ==> 0 <= (#[trigger] chunks[i]).0 < total,
        count <= total,
    ensures
        can_happen(total, openings::<D>(total) + deliveries(chunks) + endings(count)),
        state_after(total, openings::<D>(total) + deliveries(chunks) + endings(count)) == (
        ExchangeState {
            total,
            running: Seq::new(total, |i: int| i >= count),
            pending: false,
            done: false,
        }),
        output(openings::<D>(total) + deliveries(chunks) + endings(count)) == output(
            openings::<D>(total) + deliveries(chunks),
        ),
    decreases count,
{
    lemma_openings::<D>(total, total);
    lemma_deliveries(total, chunks);
    let open = openings::<D>(total) + deliveries(chunks);
    let events = open + endings(count);
    let running = Seq::new(total, |i: int| i >= count);
    if count == 0 {
        assert(events =~= open);
        assert(Seq::new(total, |i: int| true) =~= running);
    } else {
        let fewer = (count - 1) as nat;
        lemma_endings(total, chunks, fewer);
        assert(events.drop_last() =~= open + endings(fewer));
        assert(events.last() == ExchangeEvent::<D>::Received(fewer as int, Ok(None)));
        assert(state_after(total, events.drop_last()).runs(fewer as int));
        assert(Seq::new(total, |i: int| i >= fewer).update(fewer as int, false) =~= running);
    }
}

/// An exchange of any number of sources can be run to its end, whatever chunks its
/// sources hand over and however they take turns; and then it has yielded just these
/// chunks, in the order in which they came.
pub proof fn law_exchange_can_be_completed<D>(total: nat, chunks: Seq<(int, D)>)
    requires
        forall|i: int| 0 <= i < chunks.len() ==> 0 <= (#[trigger] chunks[i]).0 < total,
    ensures
        can_happen(total, complete_run(total, chunks)),
        state_after(total, complete_run(total, chunks)).done,
        state_after(total, complete_run(total, chunks)).running.len() == total,
        output(complete_run(total, chunks)) == Seq::new(
            chunks.len(),
            |i: int| Ok::<D, RwError>(chunks[i].1),
        ),
{
    lemma_deliveries(total, chunks);
    lemma_endings(total, chunks, total);
    let events = complete_run(total, chunks);
    let before = openings::<D>(total) + deliveries(chunks) + endings(total);
    assert(events.drop_last() =~= before);
    assert(forall|i: int| !state_after(total, before).runs(i));
}

} // verus!
