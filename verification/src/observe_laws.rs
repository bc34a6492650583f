//! What holds of observation as a whole.

use vstd::prelude::*;

use crate::call::CallModel;
use crate::event::{EventModel, InnerEventModel};
use crate::iter_laws::distinct;
use crate::observe::{
    claimed, claims, has_kind, next_property, unobserve_calls, with_properties, without_properties,
    RegistryModel,
};

verus! {

pub(crate) proof fn lemma_refusal(registry: RegistryModel, events: Seq<EventModel>)
    ensures
        registry.refusal(events) is None <==> forall|i: int|
            0 <= i < events.len() ==> !registry.observes(#[trigger] events[i]),
        registry.refusal(events) matches Some(event) ==> exists|i: int|
            {
                &&& 0 <= i < events.len()
                &&& #[trigger] events[i] == event
                &&& registry.observes(event)
                &&& forall|j: int| 0 <= j < i ==> !registry.observes(#[trigger] events[j])
            },
    decreases events.len(),
{
    if events.len() > 0 && !registry.observes(events[0]) {
        let rest = events.drop_first();
        lemma_refusal(registry, rest);
        if registry.refusal(rest) is None {
            assert forall|i: int| 0 <= i < events.len() implies !registry.observes(
                #[trigger] events[i],
            ) by {
                if i > 0 {
                    assert(rest[i - 1] == events[i]);
                }
            }
        } else {
            let event = registry.refusal(rest).unwrap();
            let i = choose|i: int|
                {
                    &&& 0 <= i < rest.len()
                    &&& #[trigger] rest[i] == event
                    &&& registry.observes(event)
                    &&& forall|j: int| 0 <= j < i ==> !registry.observes(#[trigger] rest[j])
                };
            assert(events[i + 1] == event);
            assert forall|j: int| 0 <= j < i + 1 implies !registry.observes(
                #[trigger] events[j],
            ) by {
                if j > 0 {
                    assert(rest[j - 1] == events[j]);
                }
            }
        }
    }
}

/// Observation is refused exactly where one of the events is observed already, and the refusal
/// names the first such event.
pub proof fn law_refusal_names_the_first_observed_event(
    registry: RegistryModel,
    events: Seq<EventModel>,
)
    ensures
        registry.refusal(events) is Some <==> exists|i: int|
            0 <= i < events.len() && registry.observes(#[trigger] events[i]),
        registry.refusal(events) matches Some(event) ==> exists|i: int|
            {
                &&& 0 <= i < events.len()
                &&& #[trigger] events[i] == event
                &&& registry.observes(event)
                &&& forall|j: int| 0 <= j < i ==> !registry.observes(#[trigger] events[j])
            },
{
    lemma_refusal(registry, events);
}

/// The registry after `events` were accepted, and libmpv was told of all their properties.
pub open spec fn observing(registry: RegistryModel, events: Seq<EventModel>) -> RegistryModel {
    RegistryModel {
        properties: with_properties(registry.properties, events),
        ..registry.with_events(events)
    }
}

/// The registry after `events` were accepted, and libmpv was told of the properties among the
/// first `n` of them.
pub open spec fn observing_up_to(
    registry: RegistryModel,
    events: Seq<EventModel>,
    n: int,
) -> RegistryModel {
    RegistryModel {
        properties: with_properties(registry.properties, events.take(n)),
        ..registry.with_events(events)
    }
}

proof fn lemma_skipped_events_register_nothing(
    properties: Map<Seq<char>, u64>,
    events: Seq<EventModel>,
    i: int,
)
    requires
        0 <= i <= events.len(),
    ensures
        i <= next_property(events, i) <= events.len(),
        with_properties(properties, events.take(i)) == with_properties(
            properties,
            events.take(next_property(events, i)),
        ),
    decreases events.len() - i,
{
    if i < events.len() && !(events[i] is PropertyChange) {
        assert(events.take(i + 1).drop_last() =~= events.take(i));
        assert(events.take(i + 1).last() == events[i]);
        lemma_skipped_events_register_nothing(properties, events, i + 1);
    }
}

/// An observation whose calls go well registers each of its properties, in the order of the
/// events: it begins with none of them, every answer adds the next one under the number of
/// properties that were observed before it, and in the end all of them are registered.
pub proof fn law_observation_registers_its_properties(
    registry: RegistryModel,
    events: Seq<EventModel>,
    n: int,
)
    ensures
        observing_up_to(registry, events, next_property(events, 0)) == registry.with_events(events),
        0 <= n < events.len() ==> (events[n] matches EventModel::PropertyChange(p) ==> {
            let during = observing_up_to(registry, events, n);
            observing_up_to(registry, events, next_property(events, n + 1)) == (RegistryModel {
                properties: during.properties.insert(p.name, during.properties.len() as u64),
                ..during
            })
        }),
        observing_up_to(registry, events, events.len() as int) == observing(registry, events),
{
    lemma_skipped_events_register_nothing(registry.properties, events, 0);
    assert(events.take(0) =~= Seq::empty());
    assert(events.take(events.len() as int) =~= events);
    if 0 <= n < events.len() {
        assert(events.take(n + 1).drop_last() =~= events.take(n));
        assert(events.take(n + 1).last() == events[n]);
        lemma_skipped_events_register_nothing(registry.properties, events, n + 1);
    }
}

/// Whether `events` hold a property of the name `name`.
pub open spec fn names_property(events: Seq<EventModel>, name: Seq<char>) -> bool {
    exists|k: int|
        {
            &&& 0 <= k < events.len()
            &&& (#[trigger] events[k]) matches EventModel::PropertyChange(p)
            &&& p.name == name
        }
}

proof fn lemma_names_property(events: Seq<EventModel>, name: Seq<char>)
    requires
        events.len() > 0,
    ensures
        names_property(events, name) <==> names_property(events.drop_last(), name) || (
        events.last() matches EventModel::PropertyChange(p) && p.name == name),
{
    let rest = events.drop_last();
    if names_property(rest, name) {
        let k = choose|k: int|
            {
                &&& 0 <= k < rest.len()
                &&& (#[trigger] rest[k]) matches EventModel::PropertyChange(p)
                &&& p.name == name
            };
        assert(events[k] == rest[k]);
    } else if names_property(events, name) {
        let k = choose|k: int|
            {
                &&& 0 <= k < events.len()
                &&& (#[trigger] events[k]) matches EventModel::PropertyChange(p)
                &&& p.name == name
            };
        if k < rest.len() {
            assert(rest[k] == events[k]);
        }
    }
    if events.last() is PropertyChange {
        assert(events[events.len() - 1] is PropertyChange);
    }
}

proof fn lemma_names_in_prefix(events: Seq<EventModel>, n: int, name: Seq<char>)
    requires
        0 <= n <= events.len(),
        names_property(events.take(n), name),
    ensures
        names_property(events, name),
{
    let prefix = events.take(n);
    let k = choose|k: int|
        {
            &&& 0 <= k < prefix.len()
            &&& (#[trigger] prefix[k]) matches EventModel::PropertyChange(p)
            &&& p.name == name
        };
    assert(events[k] == prefix[k]);
}

/// Names and claims of properties are the same.
proof fn lemma_named_is_claimed(events: Seq<EventModel>, event: EventModel)
    ensures
        event matches EventModel::PropertyChange(p) ==> names_property(events, p.name) == claimed(
            events,
            event,
        ),
        !(event is PropertyChange) ==> has_kind(events, event.id()) == claimed(events, event),
{
    if claimed(events, event) {
        let k = choose|k: int| 0 <= k < events.len() && claims(#[trigger] events[k], event);
        assert(events[k].id() == event.id());
    }
    match event {
        EventModel::PropertyChange(p) => {
            if names_property(events, p.name) {
                let k = choose|k: int|
                    {
                        &&& 0 <= k < events.len()
                        &&& (#[trigger] events[k]) matches EventModel::PropertyChange(q)
                        &&& q.name == p.name
                    };
                assert(claims(events[k], event));
            }
        },
        _ => {
            if has_kind(events, event.id()) {
                let k = choose|k: int|
                    0 <= k < events.len() && (#[trigger] events[k]).id() == event.id();
                assert(claims(events[k], event));
            }
        },
    }
}

proof fn lemma_with_properties(
    properties: Map<Seq<char>, u64>,
    events: Seq<EventModel>,
    name: Seq<char>,
)
    ensures
        with_properties(properties, events).contains_key(name) <==> properties.contains_key(name)
            || names_property(events, name),
        !names_property(events, name) && properties.contains_key(name) ==> with_properties(
            properties,
            events,
        )[name] == properties[name],
    decreases events.len(),
{
    if events.len() > 0 {
        lemma_with_properties(properties, events.drop_last(), name);
        lemma_names_property(events, name);
    }
}

pub(crate) proof fn lemma_without_properties(
    properties: Map<Seq<char>, u64>,
    local: Seq<EventModel>,
    name: Seq<char>,
)
    ensures
        without_properties(properties, local).contains_key(name) <==> properties.contains_key(name)
            && !names_property(local, name),
        without_properties(properties, local).contains_key(name) ==> without_properties(
            properties,
            local,
        )[name] == properties[name],
    decreases local.len(),
{
    if local.len() > 0 {
        lemma_without_properties(properties, local.drop_last(), name);
        lemma_names_property(local, name);
    }
}

/// The names of the properties among the events `local` that have a number, each of them once.
pub open spec fn released_names(
    properties: Map<Seq<char>, u64>,
    local: Seq<EventModel>,
) -> Seq<Seq<char>>
    decreases local.len(),
{
    if local.len() == 0 {
        Seq::empty()
    } else {
        let earlier = released_names(properties, local.drop_last());
        match local.last() {
            EventModel::PropertyChange(p) => if properties.contains_key(p.name)
                && !earlier.contains(p.name) {
                earlier.push(p.name)
            } else {
                earlier
            },
            _ => earlier,
        }
    }
}

/// The end of an observation tells libmpv of exactly the properties that it had registered: there
/// is one call for the name of each of them, with its number, and no other call.
pub proof fn law_release_tells_of_its_properties(
    properties: Map<Seq<char>, u64>,
    local: Seq<EventModel>,
)
    ensures
        released_names(properties, local).no_duplicates(),
        forall|name: Seq<char>| #[trigger]
            released_names(properties, local).contains(name) <==> properties.contains_key(name)
                && names_property(local, name),
        unobserve_calls(properties, local).len() == released_names(properties, local).len(),
        forall|i: int|
            0 <= i < released_names(properties, local).len() ==> #[trigger] unobserve_calls(
                properties,
                local,
            )[i] == CallModel::UnobserveProperty(properties[released_names(properties, local)[i]]),
    decreases local.len(),
{
    let names = released_names(properties, local);
    if local.len() > 0 {
        let rest = local.drop_last();
        let earlier = released_names(properties, rest);
        law_release_tells_of_its_properties(properties, rest);
        if let EventModel::PropertyChange(p) = local.last() {
            lemma_without_properties(properties, rest, p.name);
            assert(earlier.contains(p.name) <==> properties.contains_key(p.name) && names_property(
                rest,
                p.name,
            ));
        }
        assert forall|name: Seq<char>| #[trigger] names.contains(name) <==> properties.contains_key(
            name,
        ) && names_property(local, name) by {
            lemma_names_property(local, name);
            assert(earlier.contains(name) <==> properties.contains_key(name) && names_property(
                rest,
                name,
            ));
            if earlier.contains(name) {
                let k = choose|k: int| 0 <= k < earlier.len() && earlier[k] == name;
                assert(names[k] == name);
            } else if names.len() > earlier.len() {
                assert(names[earlier.len() as int] == names.last());
            }
        }
    }
}

/// Whether no two properties have the same number.
pub open spec fn numbers_differ(properties: Map<Seq<char>, u64>) -> bool {
    forall|a: Seq<char>, b: Seq<char>|
        properties.contains_key(a) && properties.contains_key(b) && a != b
            ==> #[trigger] properties[a] != #[trigger] properties[b]
}

/// As long as the numbers of properties differ, the end of an observation does not make libmpv
/// stop to observe the property of anybody else.
pub proof fn law_release_silences_nobody_else(
    properties: Map<Seq<char>, u64>,
    local: Seq<EventModel>,
    name: Seq<char>,
)
    requires
        numbers_differ(properties),
        properties.contains_key(name),
        !names_property(local, name),
    ensures
        !unobserve_calls(properties, local).contains(
            CallModel::UnobserveProperty(properties[name]),
        ),
{
    let names = released_names(properties, local);
    let calls = unobserve_calls(properties, local);
    law_release_tells_of_its_properties(properties, local);
    assert forall|i: int| 0 <= i < calls.len() implies #[trigger] calls[i]
        != CallModel::UnobserveProperty(properties[name]) by {
        assert(names.contains(names[i]));
        assert(properties[names[i]] != properties[name]);
    }
}

/// Whether the numbers of properties differ, and all of them are below the count of properties.
pub open spec fn numbered_from_zero(properties: Map<Seq<char>, u64>) -> bool {
    &&& properties.dom().finite()
    &&& numbers_differ(properties)
    &&& forall|name: Seq<char>| #[trigger]
        properties.contains_key(name) ==> properties[name] < properties.len()
}

/// As long as nothing is released, properties get numbers that differ: from zero on, one after the
/// other. It takes that none of them is listed twice, or observed before.
pub proof fn law_numbers_differ_until_a_release(
    registry: RegistryModel,
    events: Seq<EventModel>,
)
    requires
        numbered_from_zero(registry.properties),
        registry.refusal(events) is None,
        distinct(events),
        registry.properties.len() + events.len() <= u64::MAX,
    ensures
        numbered_from_zero(with_properties(registry.properties, events)),
{
    lemma_refusal(registry, events);
    lemma_numbers(registry, events);
}

proof fn lemma_numbers(registry: RegistryModel, events: Seq<EventModel>)
    requires
        numbered_from_zero(registry.properties),
        forall|i: int| 0 <= i < events.len() ==> !registry.observes(#[trigger] events[i]),
        distinct(events),
        registry.properties.len() + events.len() <= u64::MAX,
    ensures
        numbered_from_zero(with_properties(registry.properties, events)),
        with_properties(registry.properties, events).len() <= registry.properties.len()
            + events.len(),
    decreases events.len(),
{
    if events.len() > 0 {
        let rest = events.drop_last();
        assert forall|i: int| 0 <= i < rest.len() implies !registry.observes(#[trigger] rest[i]) by {
            assert(rest[i] == events[i]);
        }
        assert forall|i: int, j: int| 0 <= i < j < rest.len() implies !claims(
            #[trigger] rest[i],
            #[trigger] rest[j],
        ) by {
            assert(rest[i] == events[i] && rest[j] == events[j]);
        }
        lemma_numbers(registry, rest);
        let earlier = with_properties(registry.properties, rest);
        let after = with_properties(registry.properties, events);
        if let EventModel::PropertyChange(p) = events.last() {
            assert(!registry.observes(events[events.len() - 1]));
            lemma_with_properties(registry.properties, rest, p.name);
            if names_property(rest, p.name) {
                let k = choose|k: int|
                    {
                        &&& 0 <= k < rest.len()
                        &&& (#[trigger] rest[k]) matches EventModel::PropertyChange(q)
                        &&& q.name == p.name
                    };
                assert(claims(events[k], events[events.len() - 1]));
            }
            assert(after.dom() =~= earlier.dom().insert(p.name));
            assert(after.len() == earlier.len() + 1);
            assert forall|name: Seq<char>| #[trigger] after.contains_key(name) implies after[name]
                < after.len() by {
                assert(name != p.name ==> earlier.contains_key(name));
            }
            assert forall|a: Seq<char>, b: Seq<char>|
                after.contains_key(a) && after.contains_key(b) && a
                    != b implies #[trigger] after[a] != #[trigger] after[b] by {
                assert(a != p.name ==> earlier.contains_key(a) && earlier[a] < earlier.len());
                assert(b != p.name ==> earlier.contains_key(b) && earlier[b] < earlier.len());
                if a != p.name && b != p.name {
                    assert(earlier[a] != earlier[b]);
                }
            }
        }
    }
}

/// Every observed event is refused to further observers, whatever else they ask for: as long as
/// `events` are observed, nobody else can observe an event that one of them claims.
pub proof fn law_observed_events_are_exclusive(
    registry: RegistryModel,
    events: Seq<EventModel>,
    others: Seq<EventModel>,
)
    requires
        exists|i: int| 0 <= i < others.len() && claimed(events, #[trigger] others[i]),
    ensures
        observing(registry, events).refusal(others) is Some,
{
    let i = choose|i: int| 0 <= i < others.len() && claimed(events, #[trigger] others[i]);
    let other = others[i];
    let k = choose|k: int| 0 <= k < events.len() && claims(#[trigger] events[k], other);
    let after = observing(registry, events);
    match events[k] {
        EventModel::PropertyChange(p) => {
            assert(names_property(events, p.name));
            lemma_with_properties(registry.properties, events, p.name);
        },
        _ => {
            assert(after.to_observe[registry.to_observe.len() + k] == events[k]);
            assert(other.id() == events[k].id());
            assert(!(other is PropertyChange));
        },
    }
    assert(after.observes(other));
    lemma_refusal(after, others);
}

pub(crate) proof fn lemma_filter_contains<T>(s: Seq<T>, keep: spec_fn(T) -> bool)
    ensures
        forall|i: int|
            0 <= i < s.filter(keep).len() ==> keep(#[trigger] s.filter(keep)[i]) && s.contains(
                s.filter(keep)[i],
            ),
        forall|i: int|
            0 <= i < s.len() && keep(#[trigger] s[i]) ==> s.filter(keep).contains(s[i]),
    decreases s.len(),
{
    reveal(Seq::filter);
    if s.len() > 0 {
        let rest = s.drop_last();
        lemma_filter_contains(rest, keep);
        let all = s.filter(keep);
        let earlier = rest.filter(keep);
        assert forall|i: int| 0 <= i < all.len() implies keep(#[trigger] all[i]) && s.contains(
            all[i],
        ) by {
            if i < earlier.len() {
                assert(all[i] == earlier[i]);
                let k = choose|k: int| 0 <= k < rest.len() && rest[k] == earlier[i];
                assert(s[k] == all[i]);
            } else {
                assert(s[s.len() - 1] == all[i]);
            }
        }
        assert forall|i: int| 0 <= i < s.len() && keep(#[trigger] s[i]) implies all.contains(
            s[i],
        ) by {
            if i < rest.len() {
                assert(rest[i] == s[i]);
                let k = choose|k: int| 0 <= k < earlier.len() && earlier[k] == rest[i];
                assert(all[k] == s[i]);
            } else {
                assert(all[all.len() - 1] == s[i]);
            }
        }
    }
}

proof fn lemma_filter_of_sum<T>(a: Seq<T>, b: Seq<T>, keep: spec_fn(T) -> bool)
    ensures
        (a + b).filter(keep) == a.filter(keep) + b.filter(keep),
    decreases b.len(),
{
    reveal(Seq::filter);
    if b.len() == 0 {
        assert(a + b =~= a);
        assert(a.filter(keep) + b.filter(keep) =~= a.filter(keep));
    } else {
        lemma_filter_of_sum(a, b.drop_last(), keep);
        assert((a + b).drop_last() =~= a + b.drop_last());
        assert((a + b).filter(keep) =~= a.filter(keep) + b.filter(keep));
    }
}

proof fn lemma_filter_keeps_all<T>(s: Seq<T>, keep: spec_fn(T) -> bool)
    requires
        forall|i: int| 0 <= i < s.len() ==> keep(#[trigger] s[i]),
    ensures
        s.filter(keep) == s,
    decreases s.len(),
{
    reveal(Seq::filter);
    if s.len() > 0 {
        assert forall|i: int| 0 <= i < s.drop_last().len() implies keep(
            #[trigger] s.drop_last()[i],
        ) by {
            assert(s.drop_last()[i] == s[i]);
        }
        lemma_filter_keeps_all(s.drop_last(), keep);
        assert(s.filter(keep) =~= s);
    }
}

proof fn lemma_filter_keeps_none<T>(s: Seq<T>, keep: spec_fn(T) -> bool)
    requires
        forall|i: int| 0 <= i < s.len() ==> !keep(#[trigger] s[i]),
    ensures
        s.filter(keep) == Seq::<T>::empty(),
    decreases s.len(),
{
    reveal(Seq::filter);
    if s.len() > 0 {
        assert forall|i: int| 0 <= i < s.drop_last().len() implies !keep(
            #[trigger] s.drop_last()[i],
        ) by {
            assert(s.drop_last()[i] == s[i]);
        }
        lemma_filter_keeps_none(s.drop_last(), keep);
    }
}

/// Once an observation has ended, none of its events is observed or waits for anybody, and all of
/// them can be observed anew.
pub proof fn law_release_removes_the_events(registry: RegistryModel, local: Seq<EventModel>)
    ensures
        forall|i: int|
            0 <= i < registry.without(local).to_observe.len() ==> !claimed(
                local,
                #[trigger] registry.without(local).to_observe[i],
            ),
        forall|i: int|
            0 <= i < registry.without(local).observed.len() ==> !claimed(
                local,
                (#[trigger] registry.without(local).observed[i]).event,
            ),
        registry.without(local).refusal(local) is None,
{
    let after = registry.without(local);
    let keep = |event: EventModel| !claimed(local, event);
    lemma_filter_contains(registry.to_observe, keep);
    let keep_inner = |event: InnerEventModel| !claimed(local, event.event);
    lemma_filter_contains(registry.observed, keep_inner);
    assert forall|i: int| 0 <= i < after.to_observe.len() implies !claimed(
        local,
        #[trigger] after.to_observe[i],
    ) by {
        assert(keep(registry.to_observe.filter(keep)[i]));
    }
    assert forall|i: int| 0 <= i < after.observed.len() implies !claimed(
        local,
        (#[trigger] after.observed[i]).event,
    ) by {
        assert(keep_inner(registry.observed.filter(keep_inner)[i]));
    }
    assert forall|i: int| 0 <= i < local.len() implies !after.observes(#[trigger] local[i]) by {
        match local[i] {
            EventModel::PropertyChange(p) => {
                assert(names_property(local, p.name));
                lemma_without_properties(registry.properties, local, p.name);
            },
            _ => {
                if has_kind(after.to_observe, local[i].id()) {
                    let k = choose|k: int|
                        0 <= k < after.to_observe.len() && (#[trigger] after.to_observe[k]).id()
                            == local[i].id();
                    assert(claims(local[i], after.to_observe[k]));
                    assert(claimed(local, after.to_observe[k]));
                }
            },
        }
    }
    lemma_refusal(after, local);
}

/// The end of an observation leaves the events of everybody else alone in the registry: whatever
/// the observer did not claim is registered after it exactly if it was before. What libmpv stops
/// to observe goes by the numbers of properties, of which this says nothing.
pub proof fn law_release_spares_other_events(
    registry: RegistryModel,
    local: Seq<EventModel>,
    event: EventModel,
)
    requires
        !claimed(local, event),
    ensures
        registry.without(local).observes(event) == registry.observes(event),
        event matches EventModel::PropertyChange(p) ==> (registry.properties.contains_key(p.name)
            ==> registry.without(local).properties[p.name] == registry.properties[p.name]),
        registry.to_observe.contains(event) ==> registry.without(local).to_observe.contains(event),
        forall|waiting: InnerEventModel|
            waiting.event == event && registry.observed.contains(waiting)
                ==> #[trigger] registry.without(local).observed.contains(waiting),
{
    let after = registry.without(local);
    let keep = |event: EventModel| !claimed(local, event);
    lemma_filter_contains(registry.to_observe, keep);
    let keep_inner = |event: InnerEventModel| !claimed(local, event.event);
    lemma_filter_contains(registry.observed, keep_inner);
    if registry.to_observe.contains(event) {
        let k = choose|k: int| 0 <= k < registry.to_observe.len() && registry.to_observe[k] == event;
        assert(keep(registry.to_observe[k]));
    }
    assert forall|waiting: InnerEventModel|
        waiting.event == event && registry.observed.contains(
            waiting,
        ) implies #[trigger] after.observed.contains(waiting) by {
        let k = choose|k: int| 0 <= k < registry.observed.len() && registry.observed[k] == waiting;
        assert(keep_inner(registry.observed[k]));
    }
    match event {
        EventModel::PropertyChange(p) => {
            lemma_without_properties(registry.properties, local, p.name);
            if names_property(local, p.name) {
                let k = choose|k: int|
                    {
                        &&& 0 <= k < local.len()
                        &&& (#[trigger] local[k]) matches EventModel::PropertyChange(q)
                        &&& q.name == p.name
                    };
                assert(claims(local[k], event));
            }
        },
        _ => {
            if has_kind(registry.to_observe, event.id()) {
                let k = choose|k: int|
                    0 <= k < registry.to_observe.len() && (#[trigger] registry.to_observe[k]).id()
                        == event.id();
                let other = registry.to_observe[k];
                if claimed(local, other) {
                    let j = choose|j: int|
                        0 <= j < local.len() && claims(#[trigger] local[j], other);
                    assert(claims(local[j], event));
                }
                assert(keep(other));
                assert(after.to_observe.contains(other));
                let n = choose|n: int|
                    0 <= n < after.to_observe.len() && after.to_observe[n] == other;
                assert(after.to_observe[n].id() == event.id());
            }
            if has_kind(after.to_observe, event.id()) {
                let n = choose|n: int|
                    0 <= n < after.to_observe.len() && (#[trigger] after.to_observe[n]).id()
                        == event.id();
                let other = registry.to_observe.filter(keep)[n];
                assert(registry.to_observe.contains(other));
                let k = choose|k: int|
                    0 <= k < registry.to_observe.len() && registry.to_observe[k] == other;
                assert(registry.to_observe[k].id() == event.id());
            }
        },
    }
}

/// Whether the parts of a registry fit each other: the properties with a number are those that are
/// to be observed, and every waiting event is meant for somebody. This is so whenever no
/// observation is just being set up.
pub open spec fn consistent(registry: RegistryModel) -> bool {
    &&& forall|name: Seq<char>| #[trigger]
        registry.properties.contains_key(name) <==> names_property(registry.to_observe, name)
    &&& forall|i: int|
        0 <= i < registry.observed.len() ==> claimed(
            registry.to_observe,
            (#[trigger] registry.observed[i]).event,
        )
}

/// A registry in which nothing is observed is consistent.
pub proof fn law_empty_registry_is_consistent()
    ensures
        consistent(RegistryModel::empty()),
{
}

/// An event is refused only because it is among the events that somebody observes.
pub proof fn law_only_observed_events_are_refused(registry: RegistryModel, event: EventModel)
    requires
        consistent(registry),
    ensures
        registry.observes(event) <==> claimed(registry.to_observe, event),
{
    lemma_named_is_claimed(registry.to_observe, event);
    if let EventModel::PropertyChange(p) = event {
        assert(registry.properties.contains_key(p.name) <==> names_property(
            registry.to_observe,
            p.name,
        ));
    }
}

/// An observation that libmpv refuses leaves no trace, however many of its properties were
/// accepted before: the registry is as it was.
pub proof fn law_failed_observation_is_undone(
    registry: RegistryModel,
    events: Seq<EventModel>,
    n: int,
)
    requires
        registry.refusal(events) is None,
        consistent(registry),
        0 <= n <= events.len(),
    ensures
        observing_up_to(registry, events, n).without(events) == registry,
{
    lemma_refusal(registry, events);
    let during = observing_up_to(registry, events, n);
    let after = during.without(events);
    let keep = |event: EventModel| !claimed(events, event);
    let keep_inner = |event: InnerEventModel| !claimed(events, event.event);
    assert forall|other: EventModel| #[trigger]
        claimed(registry.to_observe, other) implies !claimed(events, other) by {
        law_only_observed_events_are_refused(registry, other);
        if claimed(events, other) {
            let k = choose|k: int| 0 <= k < events.len() && claims(#[trigger] events[k], other);
            assert(registry.observes(events[k]) == registry.observes(other));
        }
    }
    assert forall|i: int| 0 <= i < registry.to_observe.len() implies keep(
        #[trigger] registry.to_observe[i],
    ) by {
        assert(claims(registry.to_observe[i], registry.to_observe[i]));
        assert(claimed(registry.to_observe, registry.to_observe[i]));
    }
    assert forall|i: int| 0 <= i < registry.observed.len() implies keep_inner(
        #[trigger] registry.observed[i],
    ) by {
        assert(claimed(registry.to_observe, registry.observed[i].event));
    }
    assert forall|i: int| 0 <= i < events.len() implies !keep(#[trigger] events[i]) by {
        assert(claims(events[i], events[i]));
    }
    lemma_filter_of_sum(registry.to_observe, events, keep);
    lemma_filter_keeps_all(registry.to_observe, keep);
    lemma_filter_keeps_none(events, keep);
    lemma_filter_keeps_all(registry.observed, keep_inner);
    assert(after.to_observe =~= registry.to_observe);
    assert forall|name: Seq<char>|
        #![trigger after.properties.dom().contains(name)]
        #![trigger registry.properties.dom().contains(name)]
        #![trigger after.properties[name]]
        after.properties.contains_key(name) == registry.properties.contains_key(name) && (
        registry.properties.contains_key(name) ==> after.properties[name]
            == registry.properties[name]) by {
        lemma_without_properties(during.properties, events, name);
        lemma_with_properties(registry.properties, events.take(n), name);
        if names_property(events.take(n), name) {
            lemma_names_in_prefix(events, n, name);
        }
        if names_property(events, name) {
            let k = choose|k: int|
                {
                    &&& 0 <= k < events.len()
                    &&& (#[trigger] events[k]) matches EventModel::PropertyChange(p)
                    &&& p.name == name
                };
            assert(!registry.observes(events[k]));
        }
    }
    assert(after.properties =~= registry.properties);
}

/// The end of an observation undoes its beginning: the registry is as it was.
pub proof fn law_release_undoes_observation(registry: RegistryModel, events: Seq<EventModel>)
    requires
        registry.refusal(events) is None,
        consistent(registry),
    ensures
        observing(registry, events).without(events) == registry,
{
    law_failed_observation_is_undone(registry, events, events.len() as int);
    assert(events.take(events.len() as int) =~= events);
}

/// An observation whose properties were all accepted leaves the registry consistent.
pub proof fn law_observation_keeps_consistency(registry: RegistryModel, events: Seq<EventModel>)
    requires
        consistent(registry),
    ensures
        consistent(observing(registry, events)),
{
    let after = observing(registry, events);
    assert forall|name: Seq<char>| #[trigger]
        after.properties.contains_key(name) <==> names_property(after.to_observe, name) by {
        lemma_with_properties(registry.properties, events, name);
        assert(registry.properties.contains_key(name) <==> names_property(
            registry.to_observe,
            name,
        ));
        lemma_names_in_sum(registry.to_observe, events, name);
    }
    assert forall|i: int| 0 <= i < after.observed.len() implies claimed(
        after.to_observe,
        (#[trigger] after.observed[i]).event,
    ) by {
        let event = registry.observed[i].event;
        assert(claimed(registry.to_observe, event));
        let k = choose|k: int|
            0 <= k < registry.to_observe.len() && claims(#[trigger] registry.to_observe[k], event);
        assert(after.to_observe[k] == registry.to_observe[k]);
    }
}

proof fn lemma_names_in_sum(a: Seq<EventModel>, b: Seq<EventModel>, name: Seq<char>)
    ensures
        names_property(a + b, name) <==> names_property(a, name) || names_property(b, name),
    decreases b.len(),
{
    if b.len() == 0 {
        assert(a + b =~= a);
    } else {
        lemma_names_in_sum(a, b.drop_last(), name);
        assert((a + b).drop_last() =~= a + b.drop_last());
        lemma_names_property(a + b, name);
        lemma_names_property(b, name);
    }
}

/// The end of an observation leaves the registry consistent.
pub proof fn law_release_keeps_consistency(registry: RegistryModel, local: Seq<EventModel>)
    requires
        consistent(registry),
    ensures
        consistent(registry.without(local)),
{
    let after = registry.without(local);
    let keep = |event: EventModel| !claimed(local, event);
    let keep_inner = |event: InnerEventModel| !claimed(local, event.event);
    lemma_filter_contains(registry.to_observe, keep);
    lemma_filter_contains(registry.observed, keep_inner);
    assert forall|name: Seq<char>| #[trigger]
        after.properties.contains_key(name) <==> names_property(after.to_observe, name) by {
        lemma_without_properties(registry.properties, local, name);
        assert(registry.properties.contains_key(name) <==> names_property(
            registry.to_observe,
            name,
        ));
        if names_property(after.to_observe, name) {
            let n = choose|n: int|
                {
                    &&& 0 <= n < after.to_observe.len()
                    &&& (#[trigger] after.to_observe[n]) matches EventModel::PropertyChange(p)
                    &&& p.name == name
                };
            let event = registry.to_observe.filter(keep)[n];
            assert(keep(event) && registry.to_observe.contains(event));
            let k = choose|k: int|
                0 <= k < registry.to_observe.len() && registry.to_observe[k] == event;
            assert(registry.to_observe[k] is PropertyChange);
            lemma_named_is_claimed(local, event);
        }
        if names_property(registry.to_observe, name) && !names_property(local, name) {
            let k = choose|k: int|
                {
                    &&& 0 <= k < registry.to_observe.len()
                    &&& (#[trigger] registry.to_observe[k]) matches EventModel::PropertyChange(p)
                    &&& p.name == name
                };
            let event = registry.to_observe[k];
            lemma_named_is_claimed(local, event);
            assert(keep(event));
            let n = choose|n: int|
                0 <= n < after.to_observe.len() && after.to_observe[n] == event;
            assert(after.to_observe[n] is PropertyChange);
        }
    }
    assert forall|i: int| 0 <= i < after.observed.len() implies claimed(
        after.to_observe,
        (#[trigger] after.observed[i]).event,
    ) by {
        let waiting = registry.observed.filter(keep_inner)[i];
        assert(keep_inner(waiting) && registry.observed.contains(waiting));
        let j = choose|j: int| 0 <= j < registry.observed.len() && registry.observed[j] == waiting;
        assert(claimed(registry.to_observe, registry.observed[j].event));
        let k = choose|k: int|
            0 <= k < registry.to_observe.len() && claims(
                #[trigger] registry.to_observe[k],
                waiting.event,
            );
        let event = registry.to_observe[k];
        if claimed(local, event) {
            let m = choose|m: int| 0 <= m < local.len() && claims(#[trigger] local[m], event);
            assert(claims(local[m], waiting.event));
        }
        assert(keep(event));
        let n = choose|n: int| 0 <= n < after.to_observe.len() && after.to_observe[n] == event;
        assert(claims(after.to_observe[n], waiting.event));
    }
}

} // verus!
