//! What the steps of the iteration over observed events do.

use vstd::prelude::*;
use vstd::utf8::encode_utf8;

use crate::data::Data;
use crate::event::{
    result_model, Error, ErrorModel, Event, EventModel, InnerEvent, InnerEventModel,
};
use crate::incoming::{MpvEvent, MpvEventData, MpvEventProperty};
use crate::iter::{
    can_take_out, claim_count, handed_out, handed_positions, meant_for, taken_out, yields_model,
    EventIter, Input, Polling, Step, StepModel, Yield,
};
use crate::iter_laws::{
    claimed_inner, distinct, law_waiting_events_are_handed_out_once, results,
};
use crate::observe::{claimed, claims, has_kind, inner_events_model, Registry};

use crate::reading_laws::law_event_carries_the_changed_property;
use crate::text::law_utf8_is_read_as_itself;

verus! {

/// Whether two yields are the same event or the same error.
pub open spec fn same_yield(a: Yield, b: Yield) -> bool {
    match (a, b) {
        (Ok(x), Ok(y)) => x@ == y@,
        (Err(x), Err(y)) => x@ == y@,
        _ => false,
    }
}

/// Whether two lists of yields are the same.
pub open spec fn same_yields(a: Seq<Yield>, b: Seq<Yield>) -> bool {
    &&& a.len() == b.len()
    &&& forall|i: int| 0 <= i < a.len() ==> same_yield(#[trigger] a[i], b[i])
}

proof fn lemma_same_yields(a: Seq<Yield>, b: Seq<Yield>)
    requires
        yields_model(a) == yields_model(b),
    ensures
        same_yields(a, b),
{
    assert(yields_model(a).len() == a.len());
    assert(yields_model(b).len() == b.len());
    assert forall|i: int| 0 <= i < a.len() implies same_yield(#[trigger] a[i], b[i]) by {
        assert(yields_model(a)[i] == result_model(a[i]));
        assert(yields_model(b)[i] == result_model(b[i]));
    }
}

/// The view of an `EventIter` holds what it holds.
pub proof fn law_iter_is_seen_as_it_is(iter: EventIter)
    ensures
        iter@.local.len() == iter.local_to_observe@.len(),
        forall|i: int|
            0 <= i < iter.local_to_observe@.len() ==> #[trigger] iter@.local[i]
                == iter.local_to_observe@[i]@,
        iter@.last_no_associated_ev == iter.last_no_associated_ev,
{
}

/// The view of a step tells which step it is, and what it yields.
pub proof fn law_step_is_seen_as_it_is(step: Step)
    ensures
        match step {
            Step::Wait => step@ is Wait,
            Step::Poll(polling) => step@ matches StepModel::Poll(seen) && seen.last == polling.last
                && seen.events.len() == polling.events@.len() && forall|i: int|
                0 <= i < polling.events@.len() ==> #[trigger] seen.events[i] == result_model(
                    polling.events@[i],
                ),
            Step::Done { item, notify } => step@ matches StepModel::Done {
                item: seen,
                notify: told,
            } && told == notify && match item {
                Ok(yields) => seen matches Ok(all) && all.len() == yields@.len() && forall|i: int|
                    0 <= i < yields@.len() ==> #[trigger] all[i] == result_model(yields@[i]),
                Err(error) => seen == Err::<
                    Seq<Result<EventModel, ErrorModel>>,
                    ErrorModel,
                >(error@),
            },
        },
{
}

/// The view of what is yielded is the event or the error that is yielded.
pub proof fn law_yield_is_seen_as_it_is(y: Yield)
    ensures
        match y {
            Ok(event) => result_model(y) == Ok::<EventModel, ErrorModel>(event@),
            Err(error) => result_model(y) == Err::<EventModel, ErrorModel>(error@),
        },
{
}

/// The iteration waits before it looks for events exactly if none waits for anybody, or if it
/// found nothing the last time; and while it waits nothing changes.
pub proof fn law_iteration_waits_for_events(
    iter: &mut EventIter,
    registry: &mut Registry,
    step: Step,
)
    requires
        call_ensures(EventIter::next, (iter, registry, Input::Begin), step),
    ensures
        step is Wait <==> old(registry).observed@.len() == 0 || old(iter).last_no_associated_ev,
        step is Wait ==> final(iter)@ == old(iter)@ && final(registry)@ == old(registry)@,
{
    assert(inner_events_model(old(registry).observed@).len() == old(registry).observed@.len());
}

/// Where the iteration does not have to wait, it goes on as if it had been woken.
pub proof fn law_iteration_goes_on_as_if_woken(
    iter: &mut EventIter,
    registry: &mut Registry,
    step: Step,
    other_iter: &mut EventIter,
    other_registry: &mut Registry,
    other_step: Step,
)
    requires
        call_ensures(EventIter::next, (iter, registry, Input::Begin), step),
        call_ensures(EventIter::next, (other_iter, other_registry, Input::Woken), other_step),
        old(other_iter)@ == old(iter)@,
        old(other_registry)@ == old(registry)@,
        !(step is Wait),
    ensures
        step@ == other_step@,
        final(iter)@ == final(other_iter)@,
        final(registry)@ == final(other_registry)@,
{
}

/// A woken iteration searches libmpv's queue exactly if no event waits. The search begins with
/// nothing found, and changes nothing.
pub proof fn law_woken_iteration_searches_the_queue(
    iter: &mut EventIter,
    registry: &mut Registry,
    step: Step,
)
    requires
        call_ensures(EventIter::next, (iter, registry, Input::Woken), step),
    ensures
        step is Poll <==> old(registry).observed@.len() == 0,
        step matches Step::Poll(polling) ==> {
            &&& !polling.last
            &&& polling.events@.len() == 0
            &&& final(iter)@ == old(iter)@
            &&& final(registry)@ == old(registry)@
        },
        !(step is Wait),
{
    assert(inner_events_model(old(registry).observed@).len() == old(registry).observed@.len());
    if let Step::Poll(polling) = step {
        assert(yields_model(polling.events@).len() == polling.events@.len());
    }
}

/// Whether `y` is what is yielded for the waiting event `waiting`: its error, else the event.
pub open spec fn yields_waiting(y: Yield, waiting: InnerEventModel) -> bool {
    match waiting.err {
        Some(error) => y matches Err(yielded) && yielded@ == error,
        None => y matches Ok(yielded) && yielded@ == waiting.event,
    }
}

/// A woken iteration over events that differ from each other yields the waiting events that are
/// meant for it, each once and in their order, or says that there is none. The others stay in
/// their order, and are told to everybody if there are any.
pub proof fn law_waiting_events_are_yielded(
    iter: &mut EventIter,
    registry: &mut Registry,
    step: Step,
)
    requires
        call_ensures(EventIter::next, (iter, registry, Input::Woken), step),
        old(registry).observed@.len() > 0,
        distinct(old(iter)@.local),
    ensures
        ({
            let local = old(iter)@.local;
            let mine = old(registry)@.observed.filter(
                |waiting: InnerEventModel| claimed(local, waiting.event),
            );
            let others = old(registry)@.observed.filter(
                |waiting: InnerEventModel| !claimed(local, waiting.event),
            );
            &&& step matches Step::Done { item, notify }
            &&& notify <==> others.len() > 0
            &&& match item {
                Ok(yields) => mine.len() > 0 && yields@.len() == mine.len() && forall|i: int|
                    0 <= i < mine.len() ==> yields_waiting(#[trigger] yields@[i], mine[i]),
                Err(error) => mine.len() == 0 && error is NoAssociatedEvent,
            }
            &&& final(registry)@.observed == others
        }),
        final(registry)@.to_observe == old(registry)@.to_observe,
        final(registry)@.properties == old(registry)@.properties,
        final(iter)@.local == old(iter)@.local,
        step matches Step::Done { item, notify } ==> final(iter).last_no_associated_ev == item is Err,
{
    let local = old(iter)@.local;
    let observed = old(registry)@.observed;
    assert(inner_events_model(old(registry).observed@).len() == old(registry).observed@.len());
    law_waiting_events_are_handed_out_once(old(iter)@, old(registry)@);
    let mine = observed.filter(|waiting: InnerEventModel| claimed(local, waiting.event));
    assert(mine == claimed_inner(local, observed));
    assert(results(mine).len() == mine.len());
    if let Step::Done { item: Ok(yields), notify } = step {
        assert(yields_model(yields@).len() == yields@.len());
        assert forall|i: int| 0 <= i < mine.len() implies yields_waiting(
            #[trigger] yields@[i],
            mine[i],
        ) by {
            assert(yields_model(yields@)[i] == result_model(yields@[i]));
            assert(results(mine)[i] == mine[i].result());
        }
    }
}

/// In general a waiting event is yielded once for each of the events that claim it. Each time its
/// position is taken out, moved down by the number of those that were taken out before.
pub proof fn law_waiting_events_are_yielded_for_each_claim(
    iter: &mut EventIter,
    registry: &mut Registry,
    step: Step,
)
    requires
        call_ensures(EventIter::next, (iter, registry, Input::Woken), step),
        old(registry).observed@.len() > 0,
    ensures
        final(registry)@.observed == taken_out(
            old(registry)@.observed,
            handed_positions(old(iter)@.local, old(registry)@.observed),
        ),
        step matches Step::Done { item, notify } && (notify <==> final(registry).observed@.len() > 0)
            && match item {
            Ok(yields) => yields@.len() > 0 && yields_model(yields@) == handed_out(
                old(iter)@.local,
                old(registry)@.observed,
            ),
            Err(error) => error is NoAssociatedEvent && handed_out(
                old(iter)@.local,
                old(registry)@.observed,
            ).len() == 0,
        },
{
    assert(inner_events_model(old(registry).observed@).len() == old(registry).observed@.len());
    assert(inner_events_model(final(registry).observed@).len() == final(registry).observed@.len());
    if let Step::Done { item: Ok(yields), notify } = step {
        assert(yields_model(yields@).len() == yields@.len());
    }
}

/// How often an event is claimed, what is handed out for it, and from where: event by event.
pub proof fn law_claims_are_counted(
    local: Seq<EventModel>,
    another: EventModel,
    observed: Seq<InnerEventModel>,
    waiting: InnerEventModel,
    i: int,
)
    ensures
        claim_count(Seq::empty(), waiting.event) == 0,
        claims(another, waiting.event) ==> claim_count(local.push(another), waiting.event)
            == claim_count(local, waiting.event) + 1,
        !claims(another, waiting.event) ==> claim_count(local.push(another), waiting.event)
            == claim_count(local, waiting.event),
        handed_out(local, Seq::empty()).len() == 0,
        handed_positions(local, Seq::empty()).len() == 0,
        handed_out(local, observed.push(waiting)).len() == handed_out(local, observed).len()
            + claim_count(local, waiting.event),
        handed_positions(local, observed.push(waiting)).len() == handed_positions(
            local,
            observed,
        ).len() + claim_count(local, waiting.event),
        0 <= i < handed_out(local, observed).len() ==> handed_out(local, observed.push(waiting))[i]
            == handed_out(local, observed)[i],
        0 <= i < handed_positions(local, observed).len() ==> handed_positions(
            local,
            observed.push(waiting),
        )[i] == handed_positions(local, observed)[i],
        handed_out(local, observed).len() <= i < handed_out(local, observed.push(waiting)).len()
            ==> handed_out(local, observed.push(waiting))[i] == match waiting.err {
            Some(error) => Err(error),
            None => Ok(waiting.event),
        },
        handed_positions(local, observed).len() <= i < handed_positions(
            local,
            observed.push(waiting),
        ).len() ==> handed_positions(local, observed.push(waiting))[i] == observed.len(),
{
    assert(local.push(another).drop_last() =~= local);
    assert(observed.push(waiting).drop_last() =~= observed);
}

/// Nothing is taken out without positions; one more position takes out one more event.
pub proof fn law_positions_are_taken_out_in_turn(
    observed: Seq<InnerEventModel>,
    positions: Seq<int>,
    position: int,
)
    ensures
        taken_out(observed, Seq::empty()) == observed,
        taken_out(observed, positions.push(position)) == taken_out(observed, positions).remove(
            position - positions.len(),
        ),
        can_take_out(positions) <==> forall|n: int| 0 <= n < positions.len() ==> n <= positions[n],
{
    assert(positions.push(position).drop_last() =~= positions);
}

/// An event of libmpv's queue is meant for the observers that claim what it says; where that
/// cannot be read, for those that observe its kind.
pub proof fn law_events_of_the_queue_are_meant_for_their_observers(
    events: Seq<EventModel>,
    event: MpvEvent,
)
    ensures
        event.readable() ==> meant_for(events, event) == claimed(events, event.event()),
        !event.readable() ==> (meant_for(events, event) <==> exists|i: int|
            0 <= i < events.len() && (#[trigger] events[i]).id() == event.event_id),
{
}

/// Where the queue is found empty, the search goes on once more. The second time it ends: what was
/// found is yielded, or that nothing was, and everybody is told if events wait.
pub proof fn law_search_ends_at_the_second_empty_queue(
    iter: &mut EventIter,
    registry: &mut Registry,
    event: MpvEvent,
    polling: Polling,
    step: Step,
)
    requires
        event.event_id is NoEvent || event.event_id is QueueOverflow,
        call_ensures(EventIter::next, (iter, registry, Input::Event(event, polling)), step),
    ensures
        !polling.last ==> {
            &&& step matches Step::Poll(next)
            &&& next.last
            &&& same_yields(next.events@, polling.events@)
            &&& final(iter)@ == old(iter)@
        },
        polling.last ==> {
            &&& step matches Step::Done { item, notify }
            &&& notify <==> old(registry).observed@.len() > 0
            &&& match item {
                Ok(yields) => polling.events@.len() > 0 && same_yields(yields@, polling.events@),
                Err(error) => polling.events@.len() == 0 && error is NoAssociatedEvent,
            }
            &&& final(iter).last_no_associated_ev == item is Err
            &&& final(iter)@.local == old(iter)@.local
        },
        final(registry)@ == old(registry)@,
{
    assert(yields_model(polling.events@).len() == polling.events@.len());
    assert(inner_events_model(old(registry).observed@).len() == old(registry).observed@.len());
    match step {
        Step::Poll(next) => {
            if !polling.last {
                lemma_same_yields(next.events@, polling.events@);
            }
        },
        Step::Done { item: Ok(yields), notify } => {
            if polling.last {
                lemma_same_yields(yields@, polling.events@);
            }
        },
        _ => {},
    }
}

/// An event that is meant for the observer is found: it comes behind what was found before, as it
/// is read. Nothing else changes.
pub proof fn law_own_event_is_found(
    iter: &mut EventIter,
    registry: &mut Registry,
    event: MpvEvent,
    polling: Polling,
    step: Step,
    read: Result<Event, Error>,
)
    requires
        !(event.event_id is NoEvent),
        !(event.event_id is QueueOverflow),
        event.readable() ==> claimed(old(iter)@.local, event.event()),
        !event.readable() ==> has_kind(old(iter)@.local, event.event_id),
        call_ensures(EventIter::next, (iter, registry, Input::Event(event, polling)), step),
        call_ensures(MpvEvent::as_event, (&event,), read),
    ensures
        step matches Step::Poll(next) && next.last == polling.last && next.events@.len()
            == polling.events@.len() + 1 && same_yields(
            next.events@.take(polling.events@.len() as int),
            polling.events@,
        ) && same_yield(next.events@.last(), read),
        final(iter)@ == old(iter)@,
        final(registry)@ == old(registry)@,
{
    if let Step::Poll(next) = step {
        let found = next.events@;
        let before = polling.events@;
        assert(yields_model(before).len() == before.len());
        assert(yields_model(found).len() == found.len());
        assert(yields_model(found) == yields_model(before).push(event.result()));
        assert(yields_model(found.take(before.len() as int)) =~= yields_model(before)) by {
            assert forall|i: int| 0 <= i < before.len() implies yields_model(
                found.take(before.len() as int),
            )[i] == yields_model(before)[i] by {
                assert(yields_model(found)[i] == result_model(found[i]));
            }
        }
        lemma_same_yields(found.take(before.len() as int), before);
        assert(yields_model(found)[before.len() as int] == result_model(found[before.len() as int]));
    }
}

/// A change of a property that the observer observes is found with the very value that libmpv
/// handed out.
pub proof fn law_changed_property_is_found_with_its_value(
    iter: &mut EventIter,
    registry: &mut Registry,
    event: MpvEvent,
    raw: MpvEventProperty,
    polling: Polling,
    step: Step,
    k: int,
    name: Seq<char>,
    data: &Data,
    read: Result<Event, Error>,
)
    requires
        call_ensures(EventIter::next, (iter, registry, Input::Event(event, polling)), step),
        0 <= k < old(iter).local_to_observe@.len(),
        old(iter).local_to_observe@[k] matches Event::PropertyChange(observed) && observed.name@
            == name,
        event.error == 0,
        event.event_id is PropertyChange,
        event.data == MpvEventData::Property(raw),
        raw.name@ == encode_utf8(name),
        data is Flag || data is Int64 || data is Double,
        call_ensures(Data::format, (data,), raw.format),
        call_ensures(Data::to_raw, (data,), raw.word),
        call_ensures(MpvEvent::as_event, (&event,), read),
    ensures
        step matches Step::Poll(next) && next.events@.len() == polling.events@.len() + 1 && (
        next.events@.last() matches Ok(Event::PropertyChange(property)) && property.name@ == name
            && property.data == *data),
{
    law_utf8_is_read_as_itself(name);
    crate::value_laws::law_format_is_that_of_the_kind(data, raw.format);
    assert(event.readable());
    assert(claims(old(iter)@.local[k], event.event()));
    law_own_event_is_found(iter, registry, event, polling, step, read);
    law_event_carries_the_changed_property(&event, raw, read, name, data);
}

/// An event that is meant for others only is kept for them: it waits behind those that waited
/// before, as it is read to be kept. The search finds nothing by it.
pub proof fn law_event_of_others_waits_for_them(
    iter: &mut EventIter,
    registry: &mut Registry,
    event: MpvEvent,
    polling: Polling,
    step: Step,
    kept: InnerEvent,
)
    requires
        event.readable(),
        !claimed(old(iter)@.local, event.event()),
        claimed(old(registry)@.to_observe, event.event()),
        call_ensures(EventIter::next, (iter, registry, Input::Event(event, polling)), step),
        call_ensures(MpvEvent::as_inner_event, (&event,), kept),
    ensures
        step matches Step::Poll(next) && next.last == polling.last && same_yields(
            next.events@,
            polling.events@,
        ),
        final(registry)@.observed == old(registry)@.observed.push(kept@),
        final(registry)@.to_observe == old(registry)@.to_observe,
        final(registry)@.properties == old(registry)@.properties,
        final(iter)@ == old(iter)@,
{
    if let Step::Poll(next) = step {
        lemma_same_yields(next.events@, polling.events@);
    }
}

/// An event that is meant for nobody is dropped.
pub proof fn law_event_of_nobody_is_dropped(
    iter: &mut EventIter,
    registry: &mut Registry,
    event: MpvEvent,
    polling: Polling,
    step: Step,
)
    requires
        !(event.event_id is NoEvent),
        !(event.event_id is QueueOverflow),
        event.readable() ==> !claimed(old(iter)@.local, event.event()) && !claimed(
            old(registry)@.to_observe,
            event.event(),
        ),
        !event.readable() ==> !has_kind(old(iter)@.local, event.event_id) && !has_kind(
            old(registry)@.to_observe,
            event.event_id,
        ),
        call_ensures(EventIter::next, (iter, registry, Input::Event(event, polling)), step),
    ensures
        step matches Step::Poll(next) && next.last == polling.last && same_yields(
            next.events@,
            polling.events@,
        ),
        final(registry)@ == old(registry)@,
        final(iter)@ == old(iter)@,
{
    if let Step::Poll(next) = step {
        lemma_same_yields(next.events@, polling.events@);
    }
}

/// What says an event of libmpv's queue is what is read of it, to be yielded as well as to be
/// kept.
pub proof fn law_event_says_what_is_read_of_it(
    event: &MpvEvent,
    read: Result<Event, Error>,
    kept: InnerEvent,
)
    requires
        call_ensures(MpvEvent::as_event, (event,), read),
        call_ensures(MpvEvent::as_inner_event, (event,), kept),
    ensures
        event.error == 0 ==> (read matches Ok(it) && it@ == event.event()),
        kept.event@ == event.event(),
{
}

/// A step can be taken where the iteration waits, where the queue is empty, with an event of
/// nobody, with a readable event and a number that libmpv uses, and with one's own event of such
/// an error. For events that differ from each other it can be taken whenever the iteration is
/// woken.
pub proof fn law_which_steps_can_be_taken(
    iter: &EventIter,
    registry: &Registry,
    input: &Input,
    possible: bool,
)
    requires
        call_ensures(EventIter::can_next, (iter, registry, input), possible),
    ensures
        input is Begin && (registry.observed@.len() == 0 || iter.last_no_associated_ev) ==> possible,
        !(input is Event) && distinct(iter@.local) ==> possible,
        input matches Input::Event(event, polling) ==> {
            let own = if event.readable() {
                claimed(iter@.local, event.event())
            } else {
                has_kind(iter@.local, event.event_id)
            };
            let observed = own || if event.readable() {
                claimed(registry@.to_observe, event.event())
            } else {
                has_kind(registry@.to_observe, event.event_id)
            };
            possible <==> {
                ||| event.event_id is NoEvent
                ||| event.event_id is QueueOverflow
                ||| !observed
                ||| -20 <= event.error <= 0 && event.readable()
                ||| -20 <= event.error < 0 && own
            }
        },
{
    assert(inner_events_model(registry.observed@).len() == registry.observed@.len());
    if distinct(iter@.local) {
        law_waiting_events_are_handed_out_once(iter@, registry@);
    }
}

} // verus!
