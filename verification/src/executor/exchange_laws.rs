//! What holds of the whole run of an exchange.
use crate::error::RwError;
use crate::executor::exchange_stream::{yielded_at, ExchangeEvent, ExchangeState};
use vstd::prelude::*;

verus! {

/// The state of an exchange of `total` sources after the events.
pub open spec fn state_after<D>(total: nat, events: Seq<ExchangeEvent<D>>) -> ExchangeState
    decreases events.len(),
{
    if events.len() == 0 {
        ExchangeState::start(total)
    } else {
        state_after(total, events.drop_last()).after(events.last())
    }
}

/// That the events can happen to an exchange of `total` sources in this order.
pub open spec fn can_happen<D>(total: nat, events: Seq<ExchangeEvent<D>>) -> bool
    decreases events.len(),
{
    events.len() == 0 || {
        &&& can_happen(total, events.drop_last())
        &&& state_after(total, events.drop_last()).allows(events.last())
    }
}

/// What the stream yields over the events, in order.
pub open spec fn output<D>(events: Seq<ExchangeEvent<D>>) -> Seq<Result<D, RwError>>
    decreases events.len(),
{
    if events.len() == 0 {
        Seq::empty()
    } else {
        match yielded_at(events.last()) {
            Some(item) => output(events.drop_last()).push(item),
            None => output(events.drop_last()),
        }
    }
}

/// For each item that the stream yields over the events, the source it came from, and
/// -1 for a source that could not be created or opened.
pub open spec fn origins<D>(events: Seq<ExchangeEvent<D>>) -> Seq<int>
    decreases events.len(),
{
    if events.len() == 0 {
        Seq::empty()
    } else {
        match (yielded_at(events.last()), events.last()) {
            (Some(_), ExchangeEvent::Received(source, _)) => origins(events.drop_last()).push(
                source,
            ),
            (Some(_), _) => origins(events.drop_last()).push(-1),
            (None, _) => origins(events.drop_last()),
        }
    }
}

/// The items whose origin is `source`, in order.
pub open spec fn items_of<D>(
    items: Seq<Result<D, RwError>>,
    origins: Seq<int>,
    source: int,
) -> Seq<Result<D, RwError>>
    decreases items.len(),
{
    if items.len() == 0 {
        Seq::empty()
    } else {
        let rest = items_of(items.drop_last(), origins.drop_last(), source);
        if origins.last() == source {
            rest.push(items.last())
        } else {
            rest
        }
    }
}

/// The chunks that `source` handed over in the events, and its error if it had one, in
/// order.
pub open spec fn handed_over<D>(events: Seq<ExchangeEvent<D>>, source: int) -> Seq<
    Result<D, RwError>,
>
    decreases events.len(),
{
    if events.len() == 0 {
        Seq::empty()
    } else {
        let rest = handed_over(events.drop_last(), source);
        match events.last() {
            ExchangeEvent::Received(from, Ok(Some(chunk))) if from == source => rest.push(
                Ok(chunk),
            ),
            ExchangeEvent::Received(from, Err(error)) if from == source => rest.push(Err(error)),
            _ => rest,
        }
    }
}

/// That `source` reported its end at `k`.
pub open spec fn ends_at<D>(events: Seq<ExchangeEvent<D>>, k: int, source: int) -> bool {
    0 <= k < events.len() && events[k] is Received && events[k]->Received_0 == source
        && events[k]->Received_1 is Ok && events[k]->Received_1->Ok_0 is None
}

/// That `source` has reported its end.
pub open spec fn ended<D>(events: Seq<ExchangeEvent<D>>, source: int) -> bool {
    exists|k: int| ends_at(events, k, source)
}

/// That the stream yields an error at `k`.
pub open spec fn fails_at<D>(events: Seq<ExchangeEvent<D>>, k: int) -> bool {
    0 <= k < events.len() && yielded_at(events[k]) is Some && yielded_at(events[k])->0 is Err
}

/// The data of each source reaches the stream complete, once and in its own order,
/// however the sources take turns.
pub proof fn law_each_source_is_passed_on_in_order<D>(
    events: Seq<ExchangeEvent<D>>,
    source: int,
)
    requires
        source >= 0,
    ensures
        output(events).len() == origins(events).len(),
        items_of(output(events), origins(events), source) == handed_over(events, source),
    decreases events.len(),
{
    if events.len() > 0 {
        let before = events.drop_last();
        law_each_source_is_passed_on_in_order(before, source);
        if yielded_at(events.last()) is Some {
            assert(output(events).drop_last() =~= output(before));
            assert(origins(events).drop_last() =~= origins(before));
        }
    }
}

/// That the event at `k` is the one that creates, or opens, the source whose turn it is.
pub open spec fn prepares_at<D>(events: Seq<ExchangeEvent<D>>, k: int) -> bool {
    if k % 2 == 0 {
        events[k] == ExchangeEvent::<D>::Created(k / 2) || events[k] is CreateFailed
    } else {
        events[k] is Opened || events[k] is OpenFailed
    }
}

/// That the event at `k` creates or opens no source.
pub open spec fn merges_at<D>(events: Seq<ExchangeEvent<D>>, k: int) -> bool {
    events[k] is Received || events[k] is Finished
}

/// What the state says of the events that led to it.
pub(crate) proof fn lemma_run<D>(total: nat, events: Seq<ExchangeEvent<D>>)
    requires
        can_happen(total, events),
    ensures
        state_after(total, events).total == total,
        state_after(total, events).running.len() <= total,
        !state_after(total, events).done ==> if events.len() < 2 * total {
            &&& state_after(total, events).running.len() == events.len() / 2
            &&& state_after(total, events).pending == (events.len() % 2 == 1)
        } else {
            &&& state_after(total, events).running.len() == total
            &&& !state_after(total, events).pending
        },
        state_after(total, events).done <==> events.len() > 0 && (fails_at(
            events,
            events.len() - 1,
        ) || events.last() is Finished),
        forall|k: int|
            0 <= k < events.len() && k < 2 * total ==> #[trigger] prepares_at(events, k),
        forall|k: int| 2 * total <= k < events.len() ==> #[trigger] merges_at(events, k),
        forall|k: int| 0 <= k < events.len() - 1 ==> !#[trigger] fails_at(events, k),
        forall|k: int| 0 <= k < events.len() - 1 ==> !(#[trigger] events[k] is Finished),
        forall|source: int|
            0 <= source < state_after(total, events).running.len() ==> (
            #[trigger] state_after(total, events).running[source] <==> forall|k: int|
                !ends_at(events, k, source)),
        forall|k: int, source: int| #[trigger]
            ends_at(events, k, source) ==> 0 <= source < state_after(total, events).running.len(),
    decreases events.len(),
{
    if events.len() > 0 {
        let before = events.drop_last();
        let last = events.len() - 1;
        let event = events.last();
        lemma_run(total, before);
        let old_state = state_after(total, before);
        let state = state_after(total, events);
        assert(!old_state.done);
        assert forall|k: int| 0 <= k < last implies !#[trigger] fails_at(events, k) by {
            assert(events[k] == before[k]);
            assert(!fails_at(before, k));
        }
        assert forall|k: int| 0 <= k < last implies !(#[trigger] events[k] is Finished) by {
            assert(events[k] == before[k]);
            if k == last - 1 {
                assert(before.last() == before[k]);
            }
        }
        assert forall|k: int, source: int| k != last implies #[trigger] ends_at(events, k, source)
            == ends_at(before, k, source) by {}
        assert forall|k: int| 0 <= k < events.len() && k < 2 * total implies #[trigger] prepares_at(
            events,
            k,
        ) by {
            if k < last {
                assert(prepares_at(before, k));
            }
        }
        assert forall|k: int| 2 * total <= k < events.len() implies #[trigger] merges_at(
            events,
            k,
        ) by {
            if k < last {
                assert(merges_at(before, k));
            }
        }
        assert forall|source: int| 0 <= source < state.running.len() implies (
        #[trigger] state.running[source] <==> forall|k: int| !ends_at(events, k, source)) by {
            if event is Opened && source == old_state.running.len() {
                assert forall|k: int| !ends_at(events, k, source) by {
                    if k != last {
                        assert(!ends_at(before, k, source));
                    }
                }
            } else {
                assert(old_state.running[source] <==> forall|k: int|
                    !ends_at(before, k, source));
                if ends_at(events, last, source) {
                    assert(!state.running[source]);
                } else {
                    assert(state.running[source] == old_state.running[source]);
                    if old_state.running[source] {
                        assert forall|k: int| !ends_at(events, k, source) by {
                            if k != last {
                                assert(!ends_at(before, k, source));
                            }
                        }
                    } else {
                        let k = choose|k: int| ends_at(before, k, source);
                        assert(ends_at(events, k, source));
                    }
                }
            }
        }
    }
}

/// Every chunk that the stream yields was handed over by one of the sources.
pub proof fn law_every_chunk_comes_from_a_source<D>(total: nat, events: Seq<ExchangeEvent<D>>)
    requires
        can_happen(total, events),
    ensures
        output(events).len() == origins(events).len(),
        forall|i: int|
            0 <= i < output(events).len() && (#[trigger] output(events)[i]) is Ok ==> 0
                <= origins(events)[i] < total,
    decreases events.len(),
{
    law_each_source_is_passed_on_in_order(events, 0);
    if events.len() > 0 {
        let before = events.drop_last();
        lemma_run(total, before);
        law_every_chunk_comes_from_a_source(total, before);
    }
}

/// The sources are created and opened one after the other, in their order, and all of
/// them before any data is taken.
pub proof fn law_sources_are_opened_first<D>(total: nat, events: Seq<ExchangeEvent<D>>)
    requires
        can_happen(total, events),
    ensures
        forall|k: int|
            0 <= k < events.len() && k < 2 * total ==> #[trigger] prepares_at(events, k),
        forall|k: int| 2 * total <= k < events.len() ==> #[trigger] merges_at(events, k),
{
    lemma_run(total, events);
}

/// No source is created twice.
pub proof fn law_each_source_is_created_once<D>(
    total: nat,
    events: Seq<ExchangeEvent<D>>,
    i: int,
    j: int,
    source: int,
)
    requires
        can_happen(total, events),
        0 <= i < events.len(),
        0 <= j < events.len(),
        events[i] == ExchangeEvent::<D>::Created(source),
        events[j] == ExchangeEvent::<D>::Created(source),
    ensures
        i == j,
        0 <= source < total,
{
    lemma_run(total, events);
    assert(i < 2 * total ==> prepares_at(events, i));
    assert(j < 2 * total ==> prepares_at(events, j));
    assert(i >= 2 * total ==> merges_at(events, i));
    assert(j >= 2 * total ==> merges_at(events, j));
}

/// An error ends the stream: it is the last thing that happens and the last item that is
/// yielded, and every item before it is a chunk.
pub proof fn law_error_ends_the_stream<D>(total: nat, events: Seq<ExchangeEvent<D>>, k: int)
    requires
        can_happen(total, events),
        fails_at(events, k),
    ensures
        k == events.len() - 1,
        state_after(total, events).done,
        output(events).len() > 0,
        output(events).last() == yielded_at(events[k])->0,
        output(events).last() is Err,
        forall|i: int| 0 <= i < output(events).len() - 1 ==> #[trigger] output(events)[i] is Ok,
{
    lemma_run(total, events);
    lemma_output_without_errors(events.drop_last(), total);
    assert(output(events) == output(events.drop_last()).push(yielded_at(events.last())->0));
}

proof fn lemma_output_without_errors<D>(events: Seq<ExchangeEvent<D>>, total: nat)
    requires
        can_happen(total, events),
        !state_after(total, events).done || events.last() is Finished,
    ensures
        forall|i: int| 0 <= i < output(events).len() ==> #[trigger] output(events)[i] is Ok,
    decreases events.len(),
{
    if events.len() > 0 {
        lemma_run(total, events);
        lemma_output_without_errors(events.drop_last(), total);
        if events.last() !is Finished {
            assert(!fails_at(events, events.len() - 1));
        }
    }
}

/// The stream ends without an error only when every source was opened and has reported
/// its end; all that it yielded then are chunks.
pub proof fn law_stream_ends_after_all_sources<D>(total: nat, events: Seq<ExchangeEvent<D>>)
    requires
        can_happen(total, events),
        events.len() > 0,
        events.last() is Finished,
    ensures
        forall|source: int| 0 <= source < total ==> #[trigger] ended(events, source),
        forall|i: int| 0 <= i < output(events).len() ==> #[trigger] output(events)[i] is Ok,
{
    let before = events.drop_last();
    lemma_run(total, before);
    lemma_output_without_errors(events, total);
    let state = state_after(total, before);
    assert forall|source: int| 0 <= source < total implies #[trigger] ended(
        events,
        source,
    ) by {
        assert(!state.runs(source));
        assert(!state.running[source]);
        let k = choose|k: int| ends_at(before, k, source);
        assert(ends_at(events, k, source));
    }
}

/// Once every source has reported its end, the stream has nothing to wait for: if no
/// error has ended it, it can only finish.
pub proof fn law_stream_finishes_when_all_sources_ended<D>(
    total: nat,
    events: Seq<ExchangeEvent<D>>,
    next: ExchangeEvent<D>,
)
    requires
        can_happen(total, events),
        !state_after(total, events).done,
        events.len() >= 2 * total,
        forall|source: int| 0 <= source < total ==> #[trigger] ended(events, source),
    ensures
        state_after(total, events).allows(next) <==> next is Finished,
{
    lemma_run(total, events);
    let state = state_after(total, events);
    assert forall|source: int| !state.runs(source) by {
        if 0 <= source < total {
            assert(ended(events, source));
        }
    }
}

/// A source that has reported its end hands over nothing more.
pub proof fn law_ended_source_is_not_asked_again<D>(
    total: nat,
    events: Seq<ExchangeEvent<D>>,
    source: int,
    k: int,
    later: int,
)
    requires
        can_happen(total, events),
        ends_at(events, k, source),
        k < later < events.len(),
    ensures
        !(events[later] is Received && events[later]->Received_0 == source),
    decreases events.len(),
{
    let before = events.drop_last();
    if later < events.len() - 1 {
        assert(ends_at(before, k, source));
        law_ended_source_is_not_asked_again(total, before, source, k, later);
    } else {
        lemma_run(total, before);
        assert(ends_at(before, k, source));
        let state = state_after(total, before);
        assert(!state.running[source]);
        assert(!state.runs(source));
    }
}

/// A source that cannot be created or opened ends the stream before any chunk: the error
/// is all that is yielded.
pub proof fn law_failed_opening_yields_only_its_error<D>(
    total: nat,
    events: Seq<ExchangeEvent<D>>,
    error: RwError,
)
    requires
        can_happen(total, events),
        events.len() > 0,
        events.last() == ExchangeEvent::<D>::CreateFailed(error) || events.last()
            == ExchangeEvent::<D>::OpenFailed(error),
    ensures
        events.len() <= 2 * total,
        output(events) == seq![Err::<D, RwError>(error)],
{
    lemma_run(total, events);
    let before = events.drop_last();
    lemma_run(total, before);
    assert(events.len() > 2 * total ==> merges_at(events, events.len() - 1));
    lemma_nothing_yielded_while_opening(total, before);
    assert(output(events) =~= seq![Err::<D, RwError>(error)]);
}

proof fn lemma_nothing_yielded_while_opening<D>(total: nat, events: Seq<ExchangeEvent<D>>)
    requires
        can_happen(total, events),
        events.len() <= 2 * total,
        !state_after(total, events).done,
    ensures
        output(events) == Seq::<Result<D, RwError>>::empty(),
    decreases events.len(),
{
    if events.len() > 0 {
        lemma_run(total, events);
        let last = events.len() - 1;
        assert(prepares_at(events, last));
        assert(!fails_at(events, last));
        lemma_nothing_yielded_while_opening(total, events.drop_last());
    }
}

} // verus!
