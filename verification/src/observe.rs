//! Which events are observed, by whom, and how observation begins and ends.

use vstd::hash_map::StringHashMap;
use vstd::prelude::*;

use crate::call::{calls_model, Call, CallModel};
use crate::event::{
    mpv_err, mpv_failure, Error, ErrorModel, Event, EventModel, InnerEvent, InnerEventModel,
    PropertyModel,
};
use crate::raw::{known_code, MpvEventId};

verus! {

/// What the `EventIter`s of one instance share: the events that any of them observes, the
/// observed properties with the numbers under which libmpv knows them, and the events that wait
/// for the `EventIter` that observes them.
pub struct Registry {
    pub to_observe: Vec<Event>,
    pub properties: StringHashMap<u64>,
    pub observed: Vec<InnerEvent>,
}

/// What a `Registry` holds.
pub struct RegistryModel {
    pub to_observe: Seq<EventModel>,
    pub properties: Map<Seq<char>, u64>,
    pub observed: Seq<InnerEventModel>,
}

/// What a list of events says.
pub open spec fn events_model(events: Seq<Event>) -> Seq<EventModel> {
    events.map_values(|event: Event| event@)
}

/// What a list of kept events says.
pub open spec fn inner_events_model(events: Seq<InnerEvent>) -> Seq<InnerEventModel> {
    events.map_values(|event: InnerEvent| event@)
}

impl View for Registry {
    type V = RegistryModel;

    open spec fn view(&self) -> RegistryModel {
        RegistryModel {
            to_observe: events_model(self.to_observe@),
            properties: self.properties@,
            observed: inner_events_model(self.observed@),
        }
    }
}

/// Whether an observer of `outer` is meant by `inner`: both are changes of the property of one
/// name, or both are of one other kind.
pub open spec fn claims(outer: EventModel, inner: EventModel) -> bool {
    match outer {
        EventModel::PropertyChange(p) => inner matches EventModel::PropertyChange(q) && p.name
            == q.name,
        _ => outer.id() == inner.id(),
    }
}

/// Whether `event` is meant for an observer of the events `local`.
pub open spec fn claimed(local: Seq<EventModel>, event: EventModel) -> bool {
    exists|i: int| 0 <= i < local.len() && claims(#[trigger] local[i], event)
}

/// Whether one of `events` is of the kind `id`.
pub open spec fn has_kind(events: Seq<EventModel>, id: MpvEventId) -> bool {
    exists|i: int| 0 <= i < events.len() && (#[trigger] events[i]).id() == id
}

impl RegistryModel {
    /// A registry in which nothing is observed.
    pub open spec fn empty() -> RegistryModel {
        RegistryModel {
            to_observe: Seq::empty(),
            properties: Map::empty(),
            observed: Seq::empty(),
        }
    }

    /// Whether `event` is observed already: a property is known by its name, any other event by
    /// its kind.
    pub open spec fn observes(self, event: EventModel) -> bool {
        match event {
            EventModel::PropertyChange(p) => self.properties.contains_key(p.name),
            _ => has_kind(self.to_observe, event.id()),
        }
    }

    /// The first of `events` that is observed already.
    pub open spec fn refusal(self, events: Seq<EventModel>) -> Option<EventModel>
        decreases events.len(),
    {
        if events.len() == 0 {
            None
        } else if self.observes(events[0]) {
            Some(events[0])
        } else {
            self.refusal(events.drop_first())
        }
    }

    /// The registry in which `events` are observed too.
    pub open spec fn with_events(self, events: Seq<EventModel>) -> RegistryModel {
        RegistryModel { to_observe: self.to_observe + events, ..self }
    }
}

/// Whether an observer of `outer` is meant by `inner`.
pub(crate) fn event_claims(outer: &Event, inner: &Event) -> (claim: bool)
    ensures
        claim == claims(outer@, inner@),
{
    match outer {
        Event::PropertyChange(p) => match inner {
            Event::PropertyChange(q) => p.name == q.name,
            _ => false,
        },
        _ => outer.as_id() == inner.as_id(),
    }
}

/// Whether one of `events` is of the kind `id`.
pub(crate) fn contains_kind(events: &Vec<Event>, id: MpvEventId) -> (found: bool)
    ensures
        found == has_kind(events_model(events@), id),
{
    for i in 0..events.len()
        invariant
            forall|j: int| 0 <= j < i ==> (#[trigger] events_model(events@)[j]).id() != id,
    {
        if events[i].as_id() == id {
            assert(events_model(events@)[i as int].id() == id);
            return true;
        }
    }
    false
}

/// An observation that is being set up: the events, and the position of the next property that
/// libmpv has to be told of.
pub struct Observation {
    pub events: Vec<Event>,
    pub next: usize,
}

/// Why an observation has failed, and the calls by which libmpv is told that the properties which
/// it had accepted are not observed any more.
pub struct Refusal {
    pub error: Error,
    pub calls: Vec<Call>,
}

/// The first position from `i` on at which there is a property, or the length of the list.
pub open spec fn next_property(events: Seq<EventModel>, i: int) -> int
    decreases events.len() - i,
{
    if 0 <= i < events.len() && !(events[i] is PropertyChange) {
        next_property(events, i + 1)
    } else {
        i
    }
}

/// The call by which libmpv is told of a property where `properties` are observed already. Their
/// count is the number of the new one.
pub open spec fn observe_request(
    properties: Map<Seq<char>, u64>,
    property: PropertyModel,
) -> CallModel {
    CallModel::ObserveProperty {
        id: properties.len() as u64,
        name: property.name,
        format: property.data.format(),
    }
}

/// The properties after those among `events` were observed in their order. Each gets the number of
/// properties that were observed before it.
pub open spec fn with_properties(
    properties: Map<Seq<char>, u64>,
    events: Seq<EventModel>,
) -> Map<Seq<char>, u64>
    decreases events.len(),
{
    if events.len() == 0 {
        properties
    } else {
        let earlier = with_properties(properties, events.drop_last());
        match events.last() {
            EventModel::PropertyChange(p) => earlier.insert(p.name, earlier.len() as u64),
            _ => earlier,
        }
    }
}

/// The events that no observer of `local` is meant by.
pub open spec fn unclaimed(local: Seq<EventModel>, events: Seq<EventModel>) -> Seq<EventModel> {
    events.filter(|event: EventModel| !claimed(local, event))
}

/// The waiting events that no observer of `local` is meant by.
pub open spec fn unclaimed_inner(
    local: Seq<EventModel>,
    events: Seq<InnerEventModel>,
) -> Seq<InnerEventModel> {
    events.filter(|event: InnerEventModel| !claimed(local, event.event))
}

/// The properties without those among the events `local`.
pub open spec fn without_properties(
    properties: Map<Seq<char>, u64>,
    local: Seq<EventModel>,
) -> Map<Seq<char>, u64>
    decreases local.len(),
{
    if local.len() == 0 {
        properties
    } else {
        let earlier = without_properties(properties, local.drop_last());
        match local.last() {
            EventModel::PropertyChange(p) => earlier.remove(p.name),
            _ => earlier,
        }
    }
}

/// The calls by which libmpv is told that the properties among the events `local` are not observed
/// any more, each of them once and under its number.
pub open spec fn unobserve_calls(
    properties: Map<Seq<char>, u64>,
    local: Seq<EventModel>,
) -> Seq<CallModel>
    decreases local.len(),
{
    if local.len() == 0 {
        Seq::empty()
    } else {
        let earlier = unobserve_calls(properties, local.drop_last());
        let left = without_properties(properties, local.drop_last());
        match local.last() {
            EventModel::PropertyChange(p) => if left.contains_key(p.name) {
                earlier.push(CallModel::UnobserveProperty(left[p.name]))
            } else {
                earlier
            },
            _ => earlier,
        }
    }
}

impl RegistryModel {
    /// The registry after the observation of `local` has ended.
    pub open spec fn without(self, local: Seq<EventModel>) -> RegistryModel {
        RegistryModel {
            to_observe: unclaimed(local, self.to_observe),
            properties: without_properties(self.properties, local),
            observed: unclaimed_inner(local, self.observed),
        }
    }
}

/// Whether one of `local` claims `event`.
pub(crate) fn is_claimed(local: &Vec<Event>, event: &Event) -> (found: bool)
    ensures
        found == claimed(events_model(local@), event@),
{
    for i in 0..local.len()
        invariant
            forall|j: int| 0 <= j < i ==> !claims(#[trigger] events_model(local@)[j], event@),
    {
        if event_claims(&local[i], event) {
            assert(claims(events_model(local@)[i as int], event@));
            return true;
        }
    }
    false
}

impl Registry {
    /// A registry in which nothing is observed.
    pub fn new() -> (registry: Registry)
        ensures
            registry@ == RegistryModel::empty(),
    {
        let registry = Registry {
            to_observe: Vec::new(),
            properties: StringHashMap::new(),
            observed: Vec::new(),
        };
        assert(registry@.to_observe =~= Seq::empty());
        assert(registry@.observed =~= Seq::empty());
        registry
    }

    /// Whether `event` is observed already.
    fn is_observed(&self, event: &Event) -> (observed: bool)
        ensures
            observed == self@.observes(event@),
    {
        match event {
            Event::PropertyChange(p) => self.properties.contains_key(p.name.as_str()),
            _ => contains_kind(&self.to_observe, event.as_id()),
        }
    }

    /// Begins to observe `events`, unless one of them is observed already. It remains to tell
    /// libmpv of the properties among them.
    pub fn observe(&mut self, events: Vec<Event>) -> (result: Result<Observation, Error>)
        ensures
            match old(self)@.refusal(events_model(events@)) {
                Some(event) => {
                    &&& result matches Err(error)
                    &&& error@ == ErrorModel::AlreadyObserved(Box::new(event))
                    &&& *final(self) == *old(self)
                },
                None => {
                    &&& result matches Ok(observation)
                    &&& observation.wf()
                    &&& observation.events == events
                    &&& observation.next == next_property(events_model(events@), 0)
                    &&& final(self)@ == old(self)@.with_events(events_model(events@))
                },
            },
    {
        let ghost all = events_model(events@);
        let ghost before = self@;
        assert(all.skip(0) =~= all);
        for i in 0..events.len()
            invariant
                self@ == before,
                *self == *old(self),
                all == events_model(events@),
                before.refusal(all) == before.refusal(all.skip(i as int)),
        {
            assert(all.skip(i as int)[0] == events[i as int]@);
            assert(all.skip(i as int).drop_first() =~= all.skip(i + 1));
            if self.is_observed(&events[i]) {
                return Err(Error::AlreadyObserved(Box::new(events[i].clone())));
            }
        }
        assert(all.skip(all.len() as int) =~= Seq::empty());
        let ghost to_observe = before.to_observe;
        assert(to_observe + all.take(0) =~= to_observe);
        for i in 0..events.len()
            invariant
                all == events_model(events@),
                before.to_observe == to_observe,
                events_model(self.to_observe@) == to_observe + all.take(i as int),
                self.properties@ == before.properties,
                inner_events_model(self.observed@) == before.observed,
        {
            let ghost list = self.to_observe@;
            let copy = events[i].clone();
            self.to_observe.push(copy);
            assert(events_model(self.to_observe@) =~= events_model(list).push(copy@));
            assert(to_observe + all.take(i + 1) =~= (to_observe + all.take(i as int)).push(
                all[i as int],
            ));
        }
        assert(all.take(all.len() as int) =~= all);
        let mut observation = Observation { events: events, next: 0 };
        observation.skip_to_property();
        Ok(observation)
    }

    /// Ends the observation of the events `local`: they are neither observed any more, nor do they
    /// wait for anybody. The result are the calls by which libmpv is told so.
    pub(crate) fn forget(&mut self, local: &Vec<Event>) -> (calls: Vec<Call>)
        ensures
            final(self)@ == old(self)@.without(events_model(local@)),
            calls_model(calls@) == unobserve_calls(old(self)@.properties, events_model(local@)),
    {
        let ghost all = events_model(local@);
        let ghost before = self@;
        let mut to_observe: Vec<Event> = Vec::new();
        assert(events_model(to_observe@) =~= unclaimed(all, before.to_observe.take(0)));
        for i in 0..self.to_observe.len()
            invariant
                all == events_model(local@),
                before == self@,
                events_model(to_observe@) == unclaimed(all, before.to_observe.take(i as int)),
        {
            assert(before.to_observe.take(i + 1).drop_last() =~= before.to_observe.take(i as int));
            assert(before.to_observe.take(i + 1).last() == self.to_observe@[i as int]@);
            proof {
                reveal(Seq::filter);
            }
            if !is_claimed(local, &self.to_observe[i]) {
                let ghost list = to_observe@;
                let copy = self.to_observe[i].clone();
                to_observe.push(copy);
                assert(events_model(to_observe@) =~= events_model(list).push(copy@));
            }
        }
        assert(before.to_observe.take(before.to_observe.len() as int) =~= before.to_observe);
        let mut observed: Vec<InnerEvent> = Vec::new();
        assert(inner_events_model(observed@) =~= unclaimed_inner(all, before.observed.take(0)));
        for i in 0..self.observed.len()
            invariant
                all == events_model(local@),
                before == self@,
                inner_events_model(observed@) == unclaimed_inner(
                    all,
                    before.observed.take(i as int),
                ),
        {
            assert(before.observed.take(i + 1).drop_last() =~= before.observed.take(i as int));
            assert(before.observed.take(i + 1).last() == self.observed@[i as int]@);
            proof {
                reveal(Seq::filter);
            }
            if !is_claimed(local, self.observed[i].as_event()) {
                let ghost list = observed@;
                let copy = self.observed[i].clone();
                observed.push(copy);
                assert(inner_events_model(observed@) =~= inner_events_model(list).push(copy@));
            }
        }
        assert(before.observed.take(before.observed.len() as int) =~= before.observed);
        let mut calls: Vec<Call> = Vec::new();
        assert(all.take(0) =~= Seq::empty());
        assert(calls_model(calls@) =~= Seq::empty());
        for i in 0..local.len()
            invariant
                all == events_model(local@),
                self.properties@ == without_properties(
                    before.properties,
                    all.take(i as int),
                ),
                calls_model(calls@) == unobserve_calls(before.properties, all.take(i as int)),
        {
            assert(all.take(i + 1).drop_last() =~= all.take(i as int));
            assert(all.take(i + 1).last() == local@[i as int]@);
            match &local[i] {
                Event::PropertyChange(p) => {
                    match self.properties.get(p.name.as_str()) {
                        Some(id) => {
                            let ghost list = calls@;
                            calls.push(Call::UnobserveProperty(*id));
                            assert(calls_model(calls@) =~= calls_model(list).push(
                                CallModel::UnobserveProperty(*id),
                            ));
                        },
                        None => {},
                    }
                    self.properties.remove(p.name.as_str());
                },
                _ => {},
            }
        }
        assert(all.take(all.len() as int) =~= all);
        self.to_observe = to_observe;
        self.observed = observed;
        calls
    }
}

impl Observation {
    /// Whether the position is that of a property or the end of the list.
    pub open spec fn wf(self) -> bool {
        &&& self.next <= self.events@.len()
        &&& self.next < self.events@.len() ==> self.events@[self.next as int] is PropertyChange
    }

    fn skip_to_property(&mut self)
        requires
            old(self).next <= old(self).events@.len(),
        ensures
            final(self).wf(),
            final(self).events == old(self).events,
            final(self).next == next_property(events_model(old(self).events@), old(self).next as int),
    {
        let ghost all = events_model(self.events@);
        while self.next < self.events.len() && !is_property(&self.events[self.next])
            invariant
                self.events == old(self).events,
                all == events_model(self.events@),
                self.next <= self.events@.len(),
                next_property(all, self.next as int) == next_property(all, old(self).next as int),
            decreases self.events@.len() - self.next,
        {
            self.next = self.next + 1;
        }
    }
}

impl Observation {
    /// The property that libmpv has to be told of next.
    pub open spec fn property(self) -> Option<PropertyModel> {
        if self.next < self.events@.len() {
            match self.events@[self.next as int]@ {
                EventModel::PropertyChange(p) => Some(p),
                _ => None,
            }
        } else {
            None
        }
    }

    /// The call by which libmpv is told of the next property, if one is left. The number of the
    /// property is that of the properties which are observed already.
    pub fn next_call(&self, registry: &Registry) -> (call: Option<Call>)
        requires
            self.wf(),
        ensures
            match self.property() {
                Some(p) => {
                    &&& call matches Some(call)
                    &&& call@ == observe_request(registry@.properties, p)
                },
                None => call is None && self.next == self.events@.len(),
            },
    {
        if self.next < self.events.len() {
            match &self.events[self.next] {
                Event::PropertyChange(p) => Some(
                    Call::ObserveProperty {
                        id: registry.properties.len() as u64,
                        name: p.name.clone(),
                        format: p.data.format(),
                    },
                ),
                _ => None,
            }
        } else {
            None
        }
    }

    /// Takes the number with which libmpv answered `next_call`. Where the call went well, the
    /// property is known under its number from now on. Where it failed, the observation ends, and
    /// none of its events is observed any more.
    pub fn reply(&mut self, registry: &mut Registry, code: i32) -> (result: Result<(), Refusal>)
        requires
            old(self).wf(),
            old(self).next < old(self).events@.len(),
            known_code(code as int),
        ensures
            final(self).wf(),
            final(self).events == old(self).events,
            code == 0 ==> {
                &&& result is Ok
                &&& final(self).next == next_property(
                    events_model(old(self).events@),
                    old(self).next + 1,
                )
                &&& final(registry)@ == (RegistryModel {
                    properties: old(registry)@.properties.insert(
                        old(self).property().unwrap().name,
                        old(registry)@.properties.len() as u64,
                    ),
                    ..old(registry)@
                })
            },
            code != 0 ==> {
                &&& result matches Err(refusal)
                &&& refusal.error@ == mpv_failure(code)
                &&& calls_model(refusal.calls@) == unobserve_calls(
                    old(registry)@.properties,
                    events_model(old(self).events@),
                )
                &&& *final(self) == *old(self)
                &&& final(registry)@ == old(registry)@.without(events_model(old(self).events@))
            },
    {
        match mpv_err((), code) {
            Err(error) => {
                let calls = registry.forget(&self.events);
                Err(Refusal { error: error, calls: calls })
            },
            Ok(_) => {
                let id: u64 = registry.properties.len() as u64;
                match &self.events[self.next] {
                    Event::PropertyChange(p) => {
                        registry.properties.insert(p.name.clone(), id);
                    },
                    _ => {},
                }
                assert(self.next < self.events.len());
                self.next = self.next + 1;
                self.skip_to_property();
                Ok(())
            },
        }
    }
}

fn is_property(event: &Event) -> (property: bool)
    ensures
        property == event is PropertyChange,
        property == event@ is PropertyChange,
{
    match event {
        Event::PropertyChange(_) => true,
        _ => false,
    }
}

} // verus!
