//! What the calls of an observation do, from its beginning to its end.

use vstd::prelude::*;

use crate::call::{calls_model, Call};
use crate::data::Data;
use crate::event::{Error, Event, EventModel, InnerEventModel};
use crate::instance::MpvInstance;
use crate::iter::EventIter;
use crate::observe::{
    claimed, claims, events_model, has_kind, inner_events_model, next_property, Observation,
    Refusal, Registry,
};
use crate::observe_laws::{
    law_refusal_names_the_first_observed_event, law_release_tells_of_its_properties,
    lemma_refusal, lemma_without_properties, names_property, released_names,
};
use crate::parent::MpvMarker;
use crate::raw::error_of_code;

verus! {

/// The view of a registry holds what the registry holds, in its order.
pub proof fn law_registry_is_seen_as_it_is(registry: Registry)
    ensures
        registry@.to_observe.len() == registry.to_observe@.len(),
        forall|i: int|
            0 <= i < registry.to_observe@.len() ==> #[trigger] registry@.to_observe[i]
                == registry.to_observe@[i]@,
        registry@.properties == registry.properties@,
        registry@.observed.len() == registry.observed@.len(),
        forall|i: int|
            0 <= i < registry.observed@.len() ==> #[trigger] registry@.observed[i]
                == registry.observed@[i]@,
{
}

/// In a new registry nothing is observed, and nothing waits.
pub proof fn law_new_registry_is_empty(registry: Registry)
    requires
        call_ensures(Registry::new, (), registry),
    ensures
        registry.to_observe@.len() == 0,
        registry.properties@ == Map::<Seq<char>, u64>::empty(),
        registry.observed@.len() == 0,
{
    assert(registry@.to_observe.len() == 0);
    assert(registry@.observed.len() == 0);
}

/// An event is meant for the observer of another exactly if both are changes of the property of
/// one name, or both are of one other kind, whatever they carry.
pub proof fn law_events_are_claimed_by_name_or_kind(outer: EventModel, inner: EventModel)
    ensures
        claims(outer, inner) <==> match (outer, inner) {
            (EventModel::PropertyChange(p), EventModel::PropertyChange(q)) => p.name == q.name,
            (EventModel::LogMessage(_), EventModel::LogMessage(_)) => true,
            (EventModel::StartFile, EventModel::StartFile) => true,
            (EventModel::EndFile(_), EventModel::EndFile(_)) => true,
            (EventModel::FileLoaded, EventModel::FileLoaded) => true,
            (EventModel::Idle, EventModel::Idle) => true,
            (EventModel::Tick, EventModel::Tick) => true,
            (EventModel::VideoReconfig, EventModel::VideoReconfig) => true,
            (EventModel::AudioReconfig, EventModel::AudioReconfig) => true,
            (EventModel::Seek, EventModel::Seek) => true,
            (EventModel::PlaybackRestart, EventModel::PlaybackRestart) => true,
            _ => false,
        },
{
}

/// An event is meant for an observer of several events exactly if it is meant for that of one of
/// them.
pub proof fn law_events_are_claimed_one_by_one(
    local: Seq<EventModel>,
    last: EventModel,
    event: EventModel,
)
    ensures
        !claimed(Seq::empty(), event),
        claimed(local.push(last), event) <==> claimed(local, event) || claims(last, event),
{
    let all = local.push(last);
    if claimed(local, event) {
        let k = choose|k: int| 0 <= k < local.len() && claims(#[trigger] local[k], event);
        assert(all[k] == local[k]);
    }
    if claims(last, event) {
        assert(all[local.len() as int] == last);
    }
    if claimed(all, event) && !claims(last, event) {
        let k = choose|k: int| 0 <= k < all.len() && claims(#[trigger] all[k], event);
        assert(local[k] == all[k]);
    }
}

/// Whether an event is observed already: a property has a number, or another event is of the kind
/// of one that is to be observed.
pub open spec fn is_taken(registry: Registry, event: Event) -> bool {
    match event {
        Event::PropertyChange(property) => registry.properties@.contains_key(property.name@),
        _ => exists|i: int|
            0 <= i < registry.to_observe@.len() && claims(
                (#[trigger] registry.to_observe@[i])@,
                event@,
            ),
    }
}

proof fn lemma_taken(registry: Registry, event: Event)
    ensures
        is_taken(registry, event) <==> registry@.observes(event@),
{
    if !(event is PropertyChange) {
        if is_taken(registry, event) {
            let i = choose|i: int|
                0 <= i < registry.to_observe@.len() && claims(
                    (#[trigger] registry.to_observe@[i])@,
                    event@,
                );
            assert(registry@.to_observe[i].id() == event@.id());
        }
        if has_kind(registry@.to_observe, event@.id()) {
            let i = choose|i: int|
                0 <= i < registry@.to_observe.len() && (#[trigger] registry@.to_observe[i]).id()
                    == event@.id();
            assert(claims(registry.to_observe@[i]@, event@));
        }
    }
}

/// Whether `next` is the position of the first property among `events`, or their end where there
/// is none.
pub open spec fn first_property(events: Seq<Event>, from: int, next: int) -> bool {
    &&& from <= next <= events.len()
    &&& next < events.len() ==> events[next] is PropertyChange
    &&& forall|i: int| from <= i < next ==> !(#[trigger] events[i] is PropertyChange)
}

proof fn lemma_next_property(events: Seq<Event>, i: int)
    requires
        0 <= i <= events.len(),
    ensures
        first_property(events, i, next_property(events_model(events), i)),
    decreases events.len() - i,
{
    if i < events.len() {
        assert(events_model(events)[i] == events[i]@);
        if !(events[i] is PropertyChange) {
            lemma_next_property(events, i + 1);
        }
    }
}

/// Whether `after` is `before` with `events` observed too, which come last.
pub open spec fn observes_too(before: Registry, after: Registry, events: Seq<Event>) -> bool {
    &&& after.to_observe@.len() == before.to_observe@.len() + events.len()
    &&& forall|i: int|
        0 <= i < before.to_observe@.len() ==> #[trigger] after.to_observe@[i]@
            == before.to_observe@[i]@
    &&& forall|i: int|
        0 <= i < events.len() ==> after.to_observe@[before.to_observe@.len() + i]@
            == #[trigger] events[i]@
    &&& after.properties@ == before.properties@
    &&& same_waiting(before, after)
}

/// Whether the same events wait in two registries.
pub open spec fn same_waiting(a: Registry, b: Registry) -> bool {
    &&& a.observed@.len() == b.observed@.len()
    &&& forall|i: int| 0 <= i < a.observed@.len() ==> #[trigger] b.observed@[i]@ == a.observed@[i]@
}

/// Whether the same events are to be observed in two registries.
pub open spec fn same_to_observe(a: Registry, b: Registry) -> bool {
    &&& a.to_observe@.len() == b.to_observe@.len()
    &&& forall|i: int|
        0 <= i < a.to_observe@.len() ==> #[trigger] b.to_observe@[i]@ == a.to_observe@[i]@
}

/// Where one of the events is observed already, the first such event is refused, and nothing
/// changes.
pub proof fn law_first_observed_event_is_refused(
    registry: &mut Registry,
    events: Vec<Event>,
    result: Result<Observation, Error>,
    k: int,
)
    requires
        call_ensures(Registry::observe, (registry, events), result),
        0 <= k < events@.len(),
        is_taken(*old(registry), events@[k]),
        forall|i: int| 0 <= i < k ==> !is_taken(*old(registry), #[trigger] events@[i]),
    ensures
        result matches Err(Error::AlreadyObserved(event)) && (*event)@ == events@[k]@,
        *final(registry) == *old(registry),
{
    let all = events_model(events@);
    lemma_taken(*registry, events@[k]);
    assert(all[k] == events@[k]@);
    assert forall|i: int| 0 <= i < k implies !registry@.observes(#[trigger] all[i]) by {
        lemma_taken(*registry, events@[i]);
        assert(!is_taken(*registry, events@[i]));
    }
    law_refusal_names_the_first_observed_event(registry@, all);
    let event = registry@.refusal(all).unwrap();
    let n = choose|n: int|
        {
            &&& 0 <= n < all.len()
            &&& #[trigger] all[n] == event
            &&& registry@.observes(event)
            &&& forall|j: int| 0 <= j < n ==> !registry@.observes(#[trigger] all[j])
        };
    assert(n == k);
}

/// Where none of the events is observed already, all of them are from now on, behind those that
/// were observed before. It goes on with the first property among them.
pub proof fn law_new_events_are_observed(
    registry: &mut Registry,
    events: Vec<Event>,
    result: Result<Observation, Error>,
)
    requires
        call_ensures(Registry::observe, (registry, events), result),
        forall|i: int| 0 <= i < events@.len() ==> !is_taken(*old(registry), #[trigger] events@[i]),
    ensures
        result matches Ok(observation) && observation.events == events && first_property(
            events@,
            0,
            observation.next as int,
        ),
        observes_too(*old(registry), *final(registry), events@),
{
    let all = events_model(events@);
    assert forall|i: int| 0 <= i < all.len() implies !registry@.observes(#[trigger] all[i]) by {
        lemma_taken(*registry, events@[i]);
        assert(!is_taken(*registry, events@[i]));
    }
    lemma_refusal(registry@, all);
    lemma_next_property(events@, 0);
    lemma_seen(*old(registry), *final(registry), events@);
}

proof fn lemma_seen(before: Registry, after: Registry, events: Seq<Event>)
    requires
        after@ == before@.with_events(events_model(events)),
    ensures
        observes_too(before, after, events),
{
    assert(after@.to_observe.len() == before@.to_observe.len() + events.len());
    assert forall|i: int| 0 <= i < before.to_observe@.len() implies #[trigger] after.to_observe@[i]@
        == before.to_observe@[i]@ by {
        assert(after@.to_observe[i] == before@.to_observe[i]);
    }
    assert forall|i: int| 0 <= i < events.len() implies after.to_observe@[before.to_observe@.len()
        + i]@ == #[trigger] events[i]@ by {
        assert(after@.to_observe[before.to_observe@.len() + i] == events_model(events)[i]);
    }
    lemma_same_waiting(before, after);
}

proof fn lemma_same_waiting(a: Registry, b: Registry)
    requires
        b@.observed == a@.observed,
    ensures
        same_waiting(a, b),
{
    assert(inner_events_model(a.observed@).len() == a.observed@.len());
    assert(inner_events_model(b.observed@).len() == b.observed@.len());
    assert forall|i: int| 0 <= i < a.observed@.len() implies #[trigger] b.observed@[i]@
        == a.observed@[i]@ by {
        assert(inner_events_model(a.observed@)[i] == a.observed@[i]@);
        assert(inner_events_model(b.observed@)[i] == b.observed@[i]@);
    }
}

proof fn lemma_same_to_observe(a: Registry, b: Registry)
    requires
        b@.to_observe == a@.to_observe,
    ensures
        same_to_observe(a, b),
{
    assert(events_model(a.to_observe@).len() == a.to_observe@.len());
    assert(events_model(b.to_observe@).len() == b.to_observe@.len());
    assert forall|i: int| 0 <= i < a.to_observe@.len() implies #[trigger] b.to_observe@[i]@
        == a.to_observe@[i]@ by {
        assert(events_model(a.to_observe@)[i] == a.to_observe@[i]@);
        assert(events_model(b.to_observe@)[i] == b.to_observe@[i]@);
    }
}

/// An instance observes as its registry does; without one it refuses, and neither way anything
/// else of it changes.
pub proof fn law_instance_observes_as_its_registry<P: MpvMarker>(
    instance: &mut P,
    events: Vec<Event>,
    result: Result<Observation, Error>,
    registry: &mut Registry,
    same: Result<Observation, Error>,
)
    requires
        call_ensures(<P as MpvInstance>::observe_all, (instance, events), result),
        call_ensures(Registry::observe, (registry, events), same),
        old(instance).registry() matches Some(held) ==> held == old(registry)@,
    ensures
        old(instance).registry() is None ==> result == Err::<Observation, Error>(
            Error::EventsDisabled,
        ) && final(instance).registry() is None,
        old(instance).registry() is Some ==> {
            &&& final(instance).registry() == Some(final(registry)@)
            &&& match same {
                Ok(observation) => result == Ok::<Observation, Error>(observation),
                Err(error) => result matches Err(refused) && refused@ == error@,
            }
        },
        final(instance).is_initialized() == old(instance).is_initialized(),
        final(instance).suspensions() == old(instance).suspensions(),
{
}

/// libmpv is told of a property under its name, in the format of the data that was given, and
/// under the number of properties that are observed already; there is no call exactly if none is
/// left.
pub proof fn law_property_is_observed_in_its_format(
    observation: &Observation,
    registry: &Registry,
    call: Option<Call>,
)
    requires
        observation.wf(),
        call_ensures(Observation::next_call, (observation, registry), call),
    ensures
        call is None <==> observation.next == observation.events@.len(),
        observation.next < observation.events@.len() ==> {
            &&& observation.events@[observation.next as int] matches Event::PropertyChange(property)
            &&& call matches Some(Call::ObserveProperty { id, name, format })
            &&& id == registry.properties@.len() as u64
            &&& name@ == property.name@
            &&& match property.data {
                Data::String(_) => format is String,
                Data::OsdString(_) => format is OsdString,
                Data::Flag(_) => format is Flag,
                Data::Int64(_) => format is Int64,
                Data::Double(_) => format is Double,
                Data::Node(_) => format is Node,
            }
        },
{
}

/// A property that libmpv accepts is known from now on under the number by which libmpv was told
/// of it; every other property keeps its number, and nothing else changes. It goes on with the
/// next property.
pub proof fn law_accepted_property_has_the_number_of_its_call(
    observation: &mut Observation,
    registry: &mut Registry,
    call: Option<Call>,
    result: Result<(), Refusal>,
)
    requires
        old(observation).wf(),
        old(observation).next < old(observation).events@.len(),
        call_ensures(Observation::next_call, (&*old(observation), &*old(registry)), call),
        call_ensures(Observation::reply, (observation, registry, 0i32), result),
    ensures
        result is Ok,
        call matches Some(Call::ObserveProperty { id, name, format })
            && final(registry).properties@ == old(registry).properties@.insert(name@, id),
        final(observation).events == old(observation).events,
        first_property(
            old(observation).events@,
            old(observation).next + 1,
            final(observation).next as int,
        ),
        same_to_observe(*old(registry), *final(registry)),
        same_waiting(*old(registry), *final(registry)),
{
    lemma_next_property(old(observation).events@, old(observation).next + 1);
    lemma_same_to_observe(*old(registry), *final(registry));
    lemma_same_waiting(*old(registry), *final(registry));
}

/// An observation of which libmpv refuses a property ends as if its events were released: with the
/// same registry and the same calls, and with the error that libmpv answered.
pub proof fn law_refused_observation_ends_as_a_release(
    observation: &mut Observation,
    registry: &mut Registry,
    code: i32,
    result: Result<(), Refusal>,
    iter: EventIter,
    other: &mut Registry,
    calls: Vec<Call>,
)
    requires
        -20 <= code < 0,
        call_ensures(Observation::reply, (observation, registry, code), result),
        call_ensures(EventIter::release, (iter, other), calls),
        iter.local_to_observe@ == old(observation).events@,
        old(other)@ == old(registry)@,
    ensures
        result matches Err(refusal) && (refusal.error matches Error::Mpv(error) && error_of_code(
            code as int,
        ) == Some(error)) && calls_model(refusal.calls@) == calls_model(calls@),
        final(registry)@ == final(other)@,
        *final(observation) == *old(observation),
{
}

/// The `EventIter` of an observation is over its events, and has found nothing yet.
pub proof fn law_observation_becomes_its_iter(observation: Observation, iter: EventIter)
    requires
        call_ensures(Observation::finish, (observation,), iter),
    ensures
        iter.local_to_observe@.len() == observation.events@.len(),
        forall|i: int|
            0 <= i < observation.events@.len() ==> #[trigger] iter.local_to_observe@[i]@
                == observation.events@[i]@,
        !iter.last_no_associated_ev,
{
    assert(iter@.local == events_model(observation.events@));
    assert(iter@.local.len() == observation.events@.len());
    assert forall|i: int| 0 <= i < observation.events@.len() implies #[trigger] iter.local_to_observe@[i]@
        == observation.events@[i]@ by {
        assert(iter@.local[i] == events_model(observation.events@)[i]);
    }
}

/// A release takes out exactly the events that are meant for the observer, from what is to be
/// observed and from what waits, and leaves the others in their order.
pub proof fn law_release_takes_out_its_events(
    iter: EventIter,
    registry: &mut Registry,
    calls: Vec<Call>,
)
    requires
        call_ensures(EventIter::release, (iter, registry), calls),
    ensures
        final(registry)@.to_observe == old(registry)@.to_observe.filter(
            |event: EventModel| !claimed(events_model(iter.local_to_observe@), event),
        ),
        final(registry)@.observed == old(registry)@.observed.filter(
            |waiting: InnerEventModel|
                !claimed(events_model(iter.local_to_observe@), waiting.event),
        ),
{
}

/// A release takes out exactly the properties of the observer, and tells libmpv so: once for each
/// of their names, under the number that it had. The other properties keep their numbers.
pub proof fn law_release_takes_out_its_properties(
    iter: EventIter,
    registry: &mut Registry,
    calls: Vec<Call>,
    name: Seq<char>,
)
    requires
        call_ensures(EventIter::release, (iter, registry), calls),
    ensures
        final(registry).properties@.contains_key(name) <==> old(registry).properties@.contains_key(
            name,
        ) && !names_property(events_model(iter.local_to_observe@), name),
        final(registry).properties@.contains_key(name) ==> final(registry).properties@[name]
            == old(registry).properties@[name],
        exists|names: Seq<Seq<char>>| #[trigger]
            told_of(
                names,
                calls@,
                old(registry).properties@,
                events_model(iter.local_to_observe@),
            ),
{
    let local = events_model(iter.local_to_observe@);
    let properties = old(registry).properties@;
    lemma_without_properties(properties, local, name);
    law_release_tells_of_its_properties(properties, local);
    let names = released_names(properties, local);
    assert(calls_model(calls@).len() == calls@.len());
    assert forall|i: int| 0 <= i < calls@.len() implies #[trigger] calls@[i]
        == Call::UnobserveProperty(properties[names[i]]) by {
        assert(calls_model(calls@)[i] == calls@[i]@);
    }
    assert(told_of(names, calls@, properties, local));
}

/// Whether there is one call for each of `names`, under its number, and `names` are those of the
/// properties among the events `local` that have a number, each of them once.
pub open spec fn told_of(
    names: Seq<Seq<char>>,
    calls: Seq<Call>,
    properties: Map<Seq<char>, u64>,
    local: Seq<EventModel>,
) -> bool {
    &&& names.no_duplicates()
    &&& names.len() == calls.len()
    &&& forall|name: Seq<char>| #[trigger]
        names.contains(name) <==> properties.contains_key(name) && names_property(local, name)
    &&& forall|i: int|
        0 <= i < calls.len() ==> #[trigger] calls[i] == Call::UnobserveProperty(
            properties[names[i]],
        )
}

/// An observation that is begun can be gone through to its end, with any number that libmpv
/// answers.
pub proof fn law_observation_can_be_gone_through(
    registry: &mut Registry,
    events: Vec<Event>,
    result: Result<Observation, Error>,
    observation: &mut Observation,
    other: &mut Registry,
    code: i32,
    reply: Result<(), Refusal>,
)
    requires
        call_ensures(Registry::observe, (registry, events), result),
        -20 <= code <= 0,
        old(observation).wf(),
        old(observation).next < old(observation).events@.len(),
        call_ensures(Observation::reply, (observation, other, code), reply),
    ensures
        result matches Ok(begun) ==> begun.wf(),
        final(observation).wf(),
        call_requires(Observation::next_call, (&*old(observation), &*old(other))),
        final(observation).next == final(observation).events@.len() ==> call_requires(
            Observation::finish,
            (*final(observation),),
        ),
        old(observation).events@[old(observation).next as int] is PropertyChange,
{
}

} // verus!
