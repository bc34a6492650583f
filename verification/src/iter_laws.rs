//! What holds of iteration as a whole.

use vstd::prelude::*;

use crate::event::{ErrorModel, EventModel, InnerEventModel};
use crate::incoming::MpvEvent;
use crate::iter::{
    can_take_out, claim_count, handed_out, handed_positions, is_void, lemma_positions_in_range,
    meant_for, taken_out, EventIterModel, InputModel, PollingModel, StepModel, Stepped,
};
use crate::observe::{claimed, claims, unclaimed_inner, RegistryModel};
use crate::observe_laws::{consistent, lemma_filter_contains, names_property};

verus! {

/// A step that yields an item yields events, at least one of them, or says that there was none;
/// and it is remembered which of the two it was.
pub proof fn law_iteration_is_endless(
    iter: EventIterModel,
    registry: RegistryModel,
    input: InputModel,
)
    ensures
        iter.stepped(registry, input).step matches StepModel::Done { item, notify } ==> {
            &&& match item {
                Ok(events) => events.len() > 0,
                Err(error) => error is NoAssociatedEvent,
            }
            &&& iter.stepped(registry, input).iter.last_no_associated_ev == item is Err
        },
{
}

/// No step changes which events are observed, nor the events of the `EventIter`.
pub proof fn law_iteration_keeps_observation(
    iter: EventIterModel,
    registry: RegistryModel,
    input: InputModel,
)
    ensures
        iter.stepped(registry, input).iter.local == iter.local,
        iter.stepped(registry, input).registry.to_observe == registry.to_observe,
        iter.stepped(registry, input).registry.properties == registry.properties,
{
}

/// Whether no two of the events claim each other.
pub open spec fn distinct(local: Seq<EventModel>) -> bool {
    forall|i: int, j: int|
        0 <= i < j < local.len() ==> !claims(#[trigger] local[i], #[trigger] local[j])
}

proof fn lemma_claim_count(local: Seq<EventModel>, event: EventModel)
    ensures
        claim_count(local, event) > 0 <==> claimed(local, event),
        distinct(local) ==> claim_count(local, event) <= 1,
    decreases local.len(),
{
    if local.len() > 0 {
        let rest = local.drop_last();
        lemma_claim_count(rest, event);
        if claimed(rest, event) {
            let i = choose|i: int| 0 <= i < rest.len() && claims(#[trigger] rest[i], event);
            assert(local[i] == rest[i]);
            assert(claimed(local, event));
            if claims(local.last(), event) {
                assert(claims(local[i], local[local.len() - 1]));
            }
        } else if claimed(local, event) {
            let i = choose|i: int| 0 <= i < local.len() && claims(#[trigger] local[i], event);
            if i < rest.len() {
                assert(rest[i] == local[i]);
            }
        }
        if claims(local.last(), event) {
            assert(claims(local[local.len() - 1], event));
        }
        if distinct(local) {
            assert forall|i: int, j: int| 0 <= i < j < rest.len() implies !claims(
                #[trigger] rest[i],
                #[trigger] rest[j],
            ) by {
                assert(rest[i] == local[i] && rest[j] == local[j]);
            }
        }
    }
}

/// The waiting events that an observer of `local` is meant by.
pub open spec fn claimed_inner(
    local: Seq<EventModel>,
    events: Seq<InnerEventModel>,
) -> Seq<InnerEventModel> {
    events.filter(|event: InnerEventModel| claimed(local, event.event))
}

/// What is handed out for waiting events.
pub open spec fn results(events: Seq<InnerEventModel>) -> Seq<Result<EventModel, ErrorModel>> {
    events.map_values(|event: InnerEventModel| event.result())
}

proof fn lemma_last_event_is_sorted(local: Seq<EventModel>, observed: Seq<InnerEventModel>)
    requires
        observed.len() > 0,
    ensures
        claimed(local, observed.last().event) ==> {
            &&& claimed_inner(local, observed) == claimed_inner(local, observed.drop_last()).push(
                observed.last(),
            )
            &&& unclaimed_inner(local, observed) == unclaimed_inner(local, observed.drop_last())
        },
        !claimed(local, observed.last().event) ==> {
            &&& claimed_inner(local, observed) == claimed_inner(local, observed.drop_last())
            &&& unclaimed_inner(local, observed) == unclaimed_inner(
                local,
                observed.drop_last(),
            ).push(observed.last())
        },
{
    reveal(Seq::filter);
}

proof fn lemma_selection(
    local: Seq<EventModel>,
    observed: Seq<InnerEventModel>,
    rest: Seq<InnerEventModel>,
)
    requires
        distinct(local),
    ensures
        handed_out(local, observed) == results(claimed_inner(local, observed)),
        can_take_out(handed_positions(local, observed)),
        handed_positions(local, observed).len() + unclaimed_inner(local, observed).len()
            == observed.len(),
        taken_out(observed + rest, handed_positions(local, observed)) == unclaimed_inner(
            local,
            observed,
        ) + rest,
    decreases observed.len(),
{
    if observed.len() == 0 {
        assert(claimed_inner(local, observed).len() == 0 && unclaimed_inner(local, observed).len()
            == 0) by {
            reveal(Seq::filter);
        }
        assert(observed + rest =~= rest);
        assert(unclaimed_inner(local, observed) + rest =~= rest);
        assert(handed_out(local, observed) =~= results(claimed_inner(local, observed)));
    } else {
        let earlier = observed.drop_last();
        let last = observed.last();
        let more = seq![last] + rest;
        lemma_selection(local, earlier, more);
        lemma_claim_count(local, last.event);
        lemma_last_event_is_sorted(local, observed);
        assert(observed + rest =~= earlier + more);
        let positions = handed_positions(local, earlier);
        let left = unclaimed_inner(local, earlier);
        if claimed(local, last.event) {
            assert(handed_positions(local, observed) =~= positions.push(earlier.len() as int));
            assert(handed_out(local, observed) =~= handed_out(local, earlier).push(last.result()));
            assert(results(claimed_inner(local, earlier).push(last)) =~= results(
                claimed_inner(local, earlier),
            ).push(last.result()));
            assert(handed_positions(local, observed).drop_last() =~= positions);
            assert((left + more).remove(left.len() as int) =~= left + rest);
        } else {
            assert(handed_positions(local, observed) =~= positions);
            assert(handed_out(local, observed) =~= handed_out(local, earlier));
            assert(left.push(last) + rest =~= left + more);
        }
    }
}

/// An `EventIter` over events that differ from each other can always look for waiting events. It
/// is handed exactly those that are meant for it, each of them once and in their order, and leaves
/// exactly the others, in their order.
pub proof fn law_waiting_events_are_handed_out_once(
    iter: EventIterModel,
    registry: RegistryModel,
)
    requires
        distinct(iter.local),
    ensures
        iter.can_step(registry, InputModel::Begin),
        iter.can_step(registry, InputModel::Woken),
        registry.observed.len() > 0 ==> iter.after_wait(registry) == iter.found(
            RegistryModel { observed: unclaimed_inner(iter.local, registry.observed), ..registry },
            results(claimed_inner(iter.local, registry.observed)),
        ),
{
    lemma_selection(iter.local, registry.observed, Seq::empty());
    assert(registry.observed + Seq::empty() =~= registry.observed);
    assert(unclaimed_inner(iter.local, registry.observed) + Seq::empty() =~= unclaimed_inner(
        iter.local,
        registry.observed,
    ));
}

/// An event that was kept reaches the `EventIter` that it is meant for as soon as that one looks
/// for waiting events: it is yielded as it would have been at once, and does not wait any longer.
pub proof fn law_kept_events_reach_their_observer(
    iter: EventIterModel,
    registry: RegistryModel,
    event: MpvEvent,
)
    requires
        distinct(iter.local),
        claimed(iter.local, event.event()),
        registry.observed.contains(event.inner()),
    ensures
        iter.after_wait(registry).step matches StepModel::Done { item: Ok(events), notify }
            && events.contains(event.result()),
        !iter.after_wait(registry).registry.observed.contains(event.inner()),
{
    law_waiting_events_are_handed_out_once(iter, registry);
    let observed = registry.observed;
    let k = choose|k: int| 0 <= k < observed.len() && observed[k] == event.inner();
    let mine = |waiting: InnerEventModel| claimed(iter.local, waiting.event);
    let others = |waiting: InnerEventModel| !claimed(iter.local, waiting.event);
    lemma_filter_contains(observed, mine);
    lemma_filter_contains(observed, others);
    assert(mine(observed[k]));
    let n = choose|n: int|
        0 <= n < observed.filter(mine).len() && observed.filter(mine)[n] == event.inner();
    assert(results(claimed_inner(iter.local, observed))[n] == event.result());
    assert forall|i: int| 0 <= i < observed.filter(others).len() implies observed.filter(others)[i]
        != event.inner() by {
        assert(others(observed.filter(others)[i]));
    }
}

/// Whether every event that is yielded is meant for an observer of `local`.
pub open spec fn all_own(
    local: Seq<EventModel>,
    events: Seq<Result<EventModel, ErrorModel>>,
) -> bool {
    forall|i: int|
        0 <= i < events.len() ==> ((#[trigger] events[i]) matches Ok(event) ==> claimed(
            local,
            event,
        ))
}

proof fn lemma_handed_out_is_own(local: Seq<EventModel>, observed: Seq<InnerEventModel>)
    ensures
        all_own(local, handed_out(local, observed)),
    decreases observed.len(),
{
    if observed.len() > 0 {
        let earlier = handed_out(local, observed.drop_last());
        let all = handed_out(local, observed);
        lemma_handed_out_is_own(local, observed.drop_last());
        lemma_claim_count(local, observed.last().event);
        assert forall|i: int| 0 <= i < all.len() implies ((#[trigger] all[i]) matches Ok(event)
            ==> claimed(local, event)) by {
            if i < earlier.len() {
                assert(all[i] == earlier[i]);
            } else {
                assert(all[i] == observed.last().result());
            }
        }
    }
}

/// An `EventIter` yields no event but its own: whatever a step finds or yields is meant for it, as
/// long as that is so of what was found before.
pub proof fn law_only_own_events_are_yielded(
    iter: EventIterModel,
    registry: RegistryModel,
    input: InputModel,
)
    requires
        iter.can_step(registry, input),
        input matches InputModel::Event(event, polling) ==> all_own(iter.local, polling.events),
    ensures
        match iter.stepped(registry, input).step {
            StepModel::Wait => true,
            StepModel::Poll(polling) => all_own(iter.local, polling.events),
            StepModel::Done { item, notify } => item matches Ok(events) ==> all_own(
                iter.local,
                events,
            ),
        },
{
    lemma_handed_out_is_own(iter.local, registry.observed);
}

/// A readable event of libmpv's queue that is meant for another observer only is not found by this
/// one, but kept for the other.
pub proof fn law_events_of_others_are_kept(
    iter: EventIterModel,
    registry: RegistryModel,
    event: MpvEvent,
    polling: PollingModel,
)
    requires
        event.readable(),
        !claimed(iter.local, event.event()),
        claimed(registry.to_observe, event.event()),
    ensures
        iter.stepped(registry, InputModel::Event(event, polling)) == (Stepped {
            iter: iter,
            registry: RegistryModel {
                observed: registry.observed.push(event.inner()),
                ..registry
            },
            step: StepModel::Poll(polling),
        }),
{
}

proof fn lemma_taken_out(observed: Seq<InnerEventModel>, positions: Seq<int>)
    requires
        can_take_out(positions),
        forall|n: int| 0 <= n < positions.len() ==> 0 <= #[trigger] positions[n] < observed.len(),
        positions.len() <= observed.len(),
    ensures
        taken_out(observed, positions).len() == observed.len() - positions.len(),
        forall|i: int|
            0 <= i < taken_out(observed, positions).len() ==> observed.contains(
                #[trigger] taken_out(observed, positions)[i],
            ),
    decreases positions.len(),
{
    if positions.len() > 0 {
        let rest = positions.drop_last();
        lemma_taken_out(observed, rest);
        let before = taken_out(observed, rest);
        let after = taken_out(observed, positions);
        let at = positions.last() - (positions.len() - 1);
        assert(positions.len() - 1 <= positions[positions.len() - 1] < observed.len());
        assert(0 <= at < before.len());
        assert forall|i: int| 0 <= i < after.len() implies observed.contains(
            #[trigger] after[i],
        ) by {
            if i < at {
                assert(after[i] == before[i]);
            } else {
                assert(after[i] == before[i + 1]);
            }
        }
    }
}

/// Every step of the iteration leaves the registry consistent.
pub proof fn law_iteration_keeps_consistency(
    iter: EventIterModel,
    registry: RegistryModel,
    input: InputModel,
)
    requires
        iter.can_step(registry, input),
        consistent(registry),
    ensures
        consistent(iter.stepped(registry, input).registry),
{
    let after = iter.stepped(registry, input).registry;
    let positions = handed_positions(iter.local, registry.observed);
    lemma_positions_in_range(iter.local, registry.observed);
    if can_take_out(positions) {
        if positions.len() > 0 {
            assert(positions.len() - 1 <= positions[positions.len() - 1]);
        }
        lemma_taken_out(registry.observed, positions);
    }
    assert forall|name: Seq<char>| #[trigger]
        after.properties.contains_key(name) <==> names_property(after.to_observe, name) by {
        assert(registry.properties.contains_key(name) <==> names_property(
            registry.to_observe,
            name,
        ));
    }
    assert forall|i: int| 0 <= i < after.observed.len() implies claimed(
        after.to_observe,
        (#[trigger] after.observed[i]).event,
    ) by {
        let waiting = after.observed[i];
        if registry.observed.contains(waiting) {
            let k = choose|k: int|
                0 <= k < registry.observed.len() && registry.observed[k] == waiting;
            assert(claimed(registry.to_observe, registry.observed[k].event));
        } else if i < registry.observed.len() {
            assert(input is Event ==> after.observed[i] == registry.observed[i]);
        }
    }
}

/// The state of a search of libmpv's queue after it was handed `events`.
pub open spec fn searched(
    iter: EventIterModel,
    registry: RegistryModel,
    polling: PollingModel,
    events: Seq<MpvEvent>,
) -> Stepped
    decreases events.len(),
{
    if events.len() == 0 {
        Stepped { iter: iter, registry: registry, step: StepModel::Poll(polling) }
    } else {
        let before = searched(iter, registry, polling, events.drop_last());
        match before.step {
            StepModel::Poll(polling) => before.iter.stepped(
                before.registry,
                InputModel::Event(events.last(), polling),
            ),
            _ => before,
        }
    }
}

/// How many of `events` say that there is nothing to hand out.
pub open spec fn void_count(events: Seq<MpvEvent>) -> nat {
    events.filter(|event: MpvEvent| is_void(event.event_id)).len()
}

/// What an observer of `local` is handed of `events`: those that are meant for it.
pub open spec fn found_events(local: Seq<EventModel>, events: Seq<MpvEvent>) -> Seq<
    Result<EventModel, ErrorModel>,
> {
    events.filter(|event: MpvEvent| meant_for(local, event)).map_values(
        |event: MpvEvent| event.result(),
    )
}

/// What is kept of `events` for others: those that are meant for somebody, but not for an observer
/// of `local`.
pub open spec fn kept_events(
    local: Seq<EventModel>,
    to_observe: Seq<EventModel>,
    events: Seq<MpvEvent>,
) -> Seq<InnerEventModel> {
    events.filter(
        |event: MpvEvent| meant_for(to_observe, event) && !meant_for(local, event),
    ).map_values(|event: MpvEvent| event.inner())
}

/// A search goes on until the queue was found empty twice. Until then each event is found, kept
/// for others, or, where nobody observes it, dropped; nothing else is added, and the order
/// stays.
pub proof fn law_search_sorts_events(
    iter: EventIterModel,
    registry: RegistryModel,
    polling: PollingModel,
    events: Seq<MpvEvent>,
)
    requires
        void_count(events) + (if polling.last {
            1nat
        } else {
            0nat
        }) < 2,
    ensures
        searched(iter, registry, polling, events) == (Stepped {
            iter: iter,
            registry: RegistryModel {
                observed: registry.observed + kept_events(
                    iter.local,
                    registry.to_observe,
                    events,
                ),
                ..registry
            },
            step: StepModel::Poll(
                PollingModel {
                    last: polling.last || void_count(events) > 0,
                    events: polling.events + found_events(iter.local, events),
                },
            ),
        }),
    decreases events.len(),
{
    reveal(Seq::filter);
    if events.len() == 0 {
        assert(registry.observed + kept_events(iter.local, registry.to_observe, events)
            =~= registry.observed);
        assert(polling.events + found_events(iter.local, events) =~= polling.events);
    } else {
        let earlier = events.drop_last();
        let event = events.last();
        law_search_sorts_events(iter, registry, polling, earlier);
        let kept = kept_events(iter.local, registry.to_observe, earlier);
        let found = found_events(iter.local, earlier);
        if meant_for(iter.local, event) {
            assert(found_events(iter.local, events) =~= found.push(event.result()));
            assert(polling.events + found.push(event.result()) =~= (polling.events + found).push(
                event.result(),
            ));
            assert(kept_events(iter.local, registry.to_observe, events) =~= kept);
        } else if meant_for(registry.to_observe, event) {
            assert(kept_events(iter.local, registry.to_observe, events) =~= kept.push(
                event.inner(),
            ));
            assert(registry.observed + kept.push(event.inner()) =~= (registry.observed
                + kept).push(event.inner()));
            assert(found_events(iter.local, events) =~= found);
        } else {
            assert(kept_events(iter.local, registry.to_observe, events) =~= kept);
            assert(found_events(iter.local, events) =~= found);
        }
    }
}

/// The second time that the queue is found empty ends the search: what was found is yielded, and
/// what was kept waits for the others, who are notified of it.
pub proof fn law_search_ends(
    iter: EventIterModel,
    registry: RegistryModel,
    events: Seq<MpvEvent>,
    end: MpvEvent,
)
    requires
        void_count(events) == 1,
        is_void(end.event_id),
    ensures
        searched(
            iter,
            registry,
            PollingModel { last: false, events: Seq::empty() },
            events.push(end),
        ) == iter.found(
            RegistryModel {
                observed: registry.observed + kept_events(
                    iter.local,
                    registry.to_observe,
                    events,
                ),
                ..registry
            },
            found_events(iter.local, events),
        ),
{
    let start = PollingModel { last: false, events: Seq::empty() };
    law_search_sorts_events(iter, registry, start, events);
    assert(events.push(end).drop_last() =~= events);
    assert(start.events + found_events(iter.local, events) =~= found_events(iter.local, events));
}

} // verus!
