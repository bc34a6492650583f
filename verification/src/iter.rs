//! The blocking iteration over observed events.

use vstd::prelude::*;

use crate::call::{calls_model, Call};
use crate::event::{result_model, Error, ErrorModel, Event, EventModel, InnerEventModel};
use crate::incoming::MpvEvent;
use crate::observe::{
    claimed, claims, contains_kind, event_claims, events_model, has_kind, inner_events_model,
    is_claimed, unobserve_calls, Observation, Registry, RegistryModel,
};
use crate::raw::{known_code, MpvError, MpvEventId};

verus! {

/// Represents a blocking iter over some observed events of an mpv instance.
/// `next` never ends the iteration, instead it yields `Error::NoAssociatedEvent`. This is done so
/// that the iterator is endless. Once the `EventIter` is released, its `Event`s are removed from
/// the "to be observed" queue, therefore new `Event` invocations won't be observed.
pub struct EventIter {
    pub local_to_observe: Vec<Event>,
    pub last_no_associated_ev: bool,
}

/// What an `EventIter` holds.
pub struct EventIterModel {
    pub local: Seq<EventModel>,
    pub last_no_associated_ev: bool,
}

impl View for EventIter {
    type V = EventIterModel;

    open spec fn view(&self) -> EventIterModel {
        EventIterModel {
            local: events_model(self.local_to_observe@),
            last_no_associated_ev: self.last_no_associated_ev,
        }
    }
}

/// What an `EventIter` yields for one event.
pub type Yield = Result<Event, Error>;

/// What a list of yielded events says.
pub open spec fn yields_model(yields: Seq<Yield>) -> Seq<Result<EventModel, ErrorModel>> {
    yields.map_values(|y: Yield| result_model(y))
}

/// A search of libmpv's queue: whether the queue was found empty once, and the events found so far.
pub struct Polling {
    pub last: bool,
    pub events: Vec<Yield>,
}

/// What a `Polling` holds.
pub struct PollingModel {
    pub last: bool,
    pub events: Seq<Result<EventModel, ErrorModel>>,
}

impl View for Polling {
    type V = PollingModel;

    open spec fn view(&self) -> PollingModel {
        PollingModel { last: self.last, events: yields_model(self.events@) }
    }
}

/// What has happened since the last step of `EventIter::next`.
pub enum Input {
    /// The iteration goes on.
    Begin,
    /// The notification that was waited for has come.
    Woken,
    /// libmpv handed out an event to the search of its queue.
    Event(MpvEvent, Polling),
}

/// What an `Input` says.
pub enum InputModel {
    Begin,
    Woken,
    Event(MpvEvent, PollingModel),
}

impl View for Input {
    type V = InputModel;

    open spec fn view(&self) -> InputModel {
        match self {
            Input::Begin => InputModel::Begin,
            Input::Woken => InputModel::Woken,
            Input::Event(event, polling) => InputModel::Event(*event, polling@),
        }
    }
}

/// What has to happen before the next step of `EventIter::next`.
pub enum Step {
    /// Wait for a notification.
    Wait,
    /// Take the next event out of libmpv's queue, without waiting for one.
    Poll(Polling),
    /// Yield `item`. Before that, where `notify` is set, notify every other `EventIter`.
    Done { item: Result<Vec<Yield>, Error>, notify: bool },
}

/// What a `Step` says.
pub enum StepModel {
    Wait,
    Poll(PollingModel),
    Done { item: Result<Seq<Result<EventModel, ErrorModel>>, ErrorModel>, notify: bool },
}

impl View for Step {
    type V = StepModel;

    open spec fn view(&self) -> StepModel {
        match self {
            Step::Wait => StepModel::Wait,
            Step::Poll(polling) => StepModel::Poll(polling@),
            Step::Done { item, notify } => StepModel::Done {
                item: match item {
                    Ok(yields) => Ok(yields_model(yields@)),
                    Err(error) => Err(error@),
                },
                notify: *notify,
            },
        }
    }
}

/// How many of the events `local` claim `event`.
pub open spec fn claim_count(local: Seq<EventModel>, event: EventModel) -> nat
    decreases local.len(),
{
    if local.len() == 0 {
        0
    } else {
        claim_count(local.drop_last(), event) + if claims(local.last(), event) {
            1nat
        } else {
            0nat
        }
    }
}

/// What an observer of `local` is handed of the waiting events: each of them once for each claim.
pub open spec fn handed_out(
    local: Seq<EventModel>,
    observed: Seq<InnerEventModel>,
) -> Seq<Result<EventModel, ErrorModel>>
    decreases observed.len(),
{
    if observed.len() == 0 {
        Seq::empty()
    } else {
        handed_out(local, observed.drop_last()) + Seq::new(
            claim_count(local, observed.last().event),
            |i: int| observed.last().result(),
        )
    }
}

/// The positions of the waiting events that an observer of `local` is handed, each of them once
/// for each claim.
pub open spec fn handed_positions(
    local: Seq<EventModel>,
    observed: Seq<InnerEventModel>,
) -> Seq<int>
    decreases observed.len(),
{
    if observed.len() == 0 {
        Seq::empty()
    } else {
        handed_positions(local, observed.drop_last()) + Seq::new(
            claim_count(local, observed.last().event),
            |i: int| observed.len() - 1,
        )
    }
}

/// What remains of the waiting events when those at `positions` are taken out one after the other,
/// each position being moved down by the number of events that were taken out before. A position
/// that occurs more than once takes the events before it along.
pub open spec fn taken_out(
    observed: Seq<InnerEventModel>,
    positions: Seq<int>,
) -> Seq<InnerEventModel>
    decreases positions.len(),
{
    if positions.len() == 0 {
        observed
    } else {
        taken_out(observed, positions.drop_last()).remove(positions.last() - (positions.len() - 1))
    }
}

/// Whether each position is still there when its turn comes.
pub open spec fn can_take_out(positions: Seq<int>) -> bool {
    forall|n: int| 0 <= n < positions.len() ==> n <= #[trigger] positions[n]
}

/// What `next` yields when it has found `events`.
pub open spec fn item_of(events: Seq<Result<EventModel, ErrorModel>>) -> Result<
    Seq<Result<EventModel, ErrorModel>>,
    ErrorModel,
> {
    if events.len() > 0 {
        Ok(events)
    } else {
        Err(ErrorModel::NoAssociatedEvent)
    }
}

/// Whether libmpv says by this kind of event that there is nothing to hand out.
pub open spec fn is_void(kind: MpvEventId) -> bool {
    kind is NoEvent || kind is QueueOverflow
}

/// Whether an event of libmpv's queue is meant for an observer of `events`. Of an event that is not
/// readable only the kind is known.
pub open spec fn meant_for(events: Seq<EventModel>, event: MpvEvent) -> bool {
    if event.readable() {
        claimed(events, event.event())
    } else {
        has_kind(events, event.event_id)
    }
}

/// The `EventIter` and the registry after a step, and the step.
pub struct Stepped {
    pub iter: EventIterModel,
    pub registry: RegistryModel,
    pub step: StepModel,
}

impl EventIterModel {
    /// Whether the iteration waits before it looks for events.
    pub open spec fn waits(self, registry: RegistryModel) -> bool {
        registry.observed.len() == 0 || self.last_no_associated_ev
    }

    /// The end of a search that found `events` and left `registry`.
    pub open spec fn found(
        self,
        registry: RegistryModel,
        events: Seq<Result<EventModel, ErrorModel>>,
    ) -> Stepped {
        Stepped {
            iter: EventIterModel { last_no_associated_ev: events.len() == 0, ..self },
            registry: registry,
            step: StepModel::Done {
                item: item_of(events),
                notify: registry.observed.len() > 0,
            },
        }
    }

    /// The step after a possible wait: the events that wait for this observer are handed out, or,
    /// where no event waits for anybody, libmpv's queue is searched.
    pub open spec fn after_wait(self, registry: RegistryModel) -> Stepped {
        if registry.observed.len() == 0 {
            Stepped {
                iter: self,
                registry: registry,
                step: StepModel::Poll(PollingModel { last: false, events: Seq::empty() }),
            }
        } else {
            self.found(
                RegistryModel {
                    observed: taken_out(
                        registry.observed,
                        handed_positions(self.local, registry.observed),
                    ),
                    ..registry
                },
                handed_out(self.local, registry.observed),
            )
        }
    }

    /// The step for an event of libmpv's queue. An event that is observed here is kept in the
    /// search, one that is observed elsewhere waits in the registry, any other is dropped. The
    /// second event that says that there is nothing to hand out ends the search.
    pub open spec fn after_event(
        self,
        registry: RegistryModel,
        event: MpvEvent,
        polling: PollingModel,
    ) -> Stepped {
        if is_void(event.event_id) {
            if polling.last {
                self.found(registry, polling.events)
            } else {
                Stepped {
                    iter: self,
                    registry: registry,
                    step: StepModel::Poll(PollingModel { last: true, ..polling }),
                }
            }
        } else if meant_for(self.local, event) {
            Stepped {
                iter: self,
                registry: registry,
                step: StepModel::Poll(
                    PollingModel { events: polling.events.push(event.result()), ..polling },
                ),
            }
        } else if meant_for(registry.to_observe, event) {
            Stepped {
                iter: self,
                registry: RegistryModel {
                    observed: registry.observed.push(event.inner()),
                    ..registry
                },
                step: StepModel::Poll(polling),
            }
        } else {
            Stepped { iter: self, registry: registry, step: StepModel::Poll(polling) }
        }
    }

    /// One step of `next`.
    pub open spec fn stepped(self, registry: RegistryModel, input: InputModel) -> Stepped {
        match input {
            InputModel::Begin => if self.waits(registry) {
                Stepped { iter: self, registry: registry, step: StepModel::Wait }
            } else {
                self.after_wait(registry)
            },
            InputModel::Woken => self.after_wait(registry),
            InputModel::Event(event, polling) => self.after_event(registry, event, polling),
        }
    }

    /// Whether `next` can take a step: the positions of the events that it hands out are all there,
    /// and an event that it has to read is readable.
    pub open spec fn can_step(self, registry: RegistryModel, input: InputModel) -> bool {
        match input {
            InputModel::Begin => self.waits(registry) || can_take_out(
                handed_positions(self.local, registry.observed),
            ),
            InputModel::Woken => can_take_out(handed_positions(self.local, registry.observed)),
            InputModel::Event(event, _) => is_void(event.event_id) || {
                &&& meant_for(self.local, event) ==> known_code(event.error as int) && (event.error
                    == 0 ==> event.readable())
                &&& meant_for(registry.to_observe, event) && !meant_for(self.local, event)
                    ==> known_code(event.error as int) && event.readable()
            },
        }
    }
}

impl Observation {
    /// The `EventIter` over the events of an observation of which libmpv knows all properties.
    pub fn finish(self) -> (iter: EventIter)
        requires
            self.next == self.events@.len(),
        ensures
            iter@ == (EventIterModel {
                local: events_model(self.events@),
                last_no_associated_ev: false,
            }),
    {
        EventIter { local_to_observe: self.events, last_no_associated_ev: false }
    }
}

/// Whether an event of libmpv's queue is meant for an observer of `events`.
fn is_meant_for(events: &Vec<Event>, event: &MpvEvent) -> (meant: bool)
    ensures
        meant == meant_for(events_model(events@), *event),
{
    if event.is_readable() {
        is_claimed(events, &event.read())
    } else {
        contains_kind(events, event.event_id)
    }
}

/// Positions as mathematical integers.
spec fn as_ints(positions: Seq<usize>) -> Seq<int> {
    positions.map_values(|i: usize| i as int)
}

/// The events that an observer is handed are among the waiting ones.
pub(crate) proof fn lemma_positions_in_range(local: Seq<EventModel>, observed: Seq<InnerEventModel>)
    ensures
        forall|n: int|
            0 <= n < handed_positions(local, observed).len() ==> 0 <= #[trigger] handed_positions(
                local,
                observed,
            )[n] < observed.len(),
    decreases observed.len(),
{
    if observed.len() > 0 {
        lemma_positions_in_range(local, observed.drop_last());
        let earlier = handed_positions(local, observed.drop_last());
        let all = handed_positions(local, observed);
        assert forall|n: int| 0 <= n < all.len() implies 0 <= #[trigger] all[n]
            < observed.len() by {
            if n < earlier.len() {
                assert(all[n] == earlier[n]);
            }
        }
    }
}

impl EventIter {
    /// Collects what this observer is handed of the waiting events, and where it stands.
    fn select(&self, registry: &Registry) -> (selection: (Vec<Yield>, Vec<usize>))
        ensures
            yields_model(selection.0@) == handed_out(self@.local, registry@.observed),
            as_ints(selection.1@) == handed_positions(self@.local, registry@.observed),
    {
        let mut yields: Vec<Yield> = Vec::new();
        let mut index: Vec<usize> = Vec::new();
        let ghost local = self@.local;
        let ghost observed = registry@.observed;
        assert(observed.take(0) =~= Seq::empty());
        assert(yields_model(yields@) =~= Seq::empty());
        assert(as_ints(index@) =~= Seq::empty());
        for i in 0..registry.observed.len()
            invariant
                local == self@.local,
                observed == registry@.observed,
                yields_model(yields@) == handed_out(local, observed.take(i as int)),
                as_ints(index@) == handed_positions(local, observed.take(i as int)),
        {
            let ghost event = observed[i as int];
            let ghost earlier_yields = yields_model(yields@);
            let ghost earlier_index = as_ints(index@);
            assert(observed.take(i + 1).drop_last() =~= observed.take(i as int));
            assert(observed.take(i + 1).last() == event);
            assert(event == registry.observed@[i as int]@);
            assert(local.take(0) =~= Seq::empty());
            assert(earlier_yields + Seq::new(0, |n: int| event.result()) =~= earlier_yields);
            assert(earlier_index + Seq::new(0, |n: int| i as int) =~= earlier_index);
            for j in 0..self.local_to_observe.len()
                invariant
                    i < registry.observed@.len(),
                    local == self@.local,
                    event == registry.observed@[i as int]@,
                    yields_model(yields@) == earlier_yields + Seq::new(
                        claim_count(local.take(j as int), event.event),
                        |n: int| event.result(),
                    ),
                    as_ints(index@) == earlier_index + Seq::new(
                        claim_count(local.take(j as int), event.event),
                        |n: int| i as int,
                    ),
            {
                let ghost count = claim_count(local.take(j as int), event.event);
                assert(local.take(j + 1).drop_last() =~= local.take(j as int));
                assert(local.take(j + 1).last() == self.local_to_observe@[j as int]@);
                if event_claims(&self.local_to_observe[j], registry.observed[i].as_event()) {
                    let ghost old_yields = yields@;
                    let ghost old_index = index@;
                    index.push(i);
                    let y = registry.observed[i].as_result();
                    yields.push(y);
                    assert(yields_model(yields@) =~= yields_model(old_yields).push(event.result()));
                    assert(as_ints(index@) =~= as_ints(old_index).push(i as int));
                    assert(yields_model(yields@) =~= earlier_yields + Seq::new(
                        count + 1,
                        |n: int| event.result(),
                    ));
                    assert(as_ints(index@) =~= earlier_index + Seq::new(
                        count + 1,
                        |n: int| i as int,
                    ));
                }
            }
            assert(local.take(local.len() as int) =~= local);
            assert(observed.take(i + 1).len() == i + 1);
            assert(handed_positions(local, observed.take(i + 1)) =~= earlier_index + Seq::new(
                claim_count(local, event.event),
                |n: int| i as int,
            ));
            assert(handed_out(local, observed.take(i + 1)) =~= earlier_yields + Seq::new(
                claim_count(local, event.event),
                |n: int| event.result(),
            ));
        }
        assert(observed.take(observed.len() as int) =~= observed);
        (yields, index)
    }

    /// Hands out the waiting events that are meant for this observer, and takes them out of the
    /// registry.
    fn take_observed(&self, registry: &mut Registry) -> (yields: Vec<Yield>)
        requires
            can_take_out(handed_positions(self@.local, old(registry)@.observed)),
        ensures
            yields_model(yields@) == handed_out(self@.local, old(registry)@.observed),
            final(registry)@ == (RegistryModel {
                observed: taken_out(
                    old(registry)@.observed,
                    handed_positions(self@.local, old(registry)@.observed),
                ),
                ..old(registry)@
            }),
    {
        let (yields, index) = self.select(registry);
        let ghost observed = registry@.observed;
        let ghost positions = as_ints(index@);
        proof {
            lemma_positions_in_range(self@.local, observed);
        }
        assert(positions.take(0) =~= Seq::empty());
        for n in 0..index.len()
            invariant
                positions == as_ints(index@),
                can_take_out(positions),
                forall|k: int| 0 <= k < positions.len() ==> 0 <= #[trigger] positions[k]
                    < observed.len(),
                registry.observed@.len() == observed.len() - n,
                inner_events_model(registry.observed@) == taken_out(
                    observed,
                    positions.take(n as int),
                ),
                registry.to_observe == old(registry).to_observe,
                registry.properties == old(registry).properties,
        {
            assert(n <= positions[n as int] < observed.len());
            assert(positions[n as int] == index@[n as int]);
            assert(positions.take(n + 1).drop_last() =~= positions.take(n as int));
            let ghost list = registry.observed@;
            registry.observed.remove(index[n] - n);
            assert(inner_events_model(registry.observed@) =~= inner_events_model(list).remove(
                index@[n as int] - n,
            ));
        }
        assert(positions.take(positions.len() as int) =~= positions);
        yields
    }

    /// Ends a search that found `events`.
    fn finish(&mut self, registry: &Registry, events: Vec<Yield>) -> (step: Step)
        ensures
            (Stepped { iter: final(self)@, registry: registry@, step: step@ }) == old(self)@.found(
                registry@,
                yields_model(events@),
            ),
    {
        let notify = !registry.observed.is_empty();
        if !events.is_empty() {
            self.last_no_associated_ev = false;
            Step::Done { item: Ok(events), notify: notify }
        } else {
            self.last_no_associated_ev = true;
            Step::Done { item: Err(Error::NoAssociatedEvent), notify: notify }
        }
    }

    fn step_after_wait(&mut self, registry: &mut Registry) -> (step: Step)
        requires
            can_take_out(handed_positions(old(self)@.local, old(registry)@.observed)),
        ensures
            (Stepped { iter: final(self)@, registry: final(registry)@, step: step@ }) == old(
                self,
            )@.after_wait(old(registry)@),
    {
        if registry.observed.is_empty() {
            let polling = Polling { last: false, events: Vec::new() };
            assert(polling@.events =~= Seq::empty());
            Step::Poll(polling)
        } else {
            let events = self.take_observed(registry);
            self.finish(registry, events)
        }
    }

    fn step_after_event(
        &mut self,
        registry: &mut Registry,
        event: MpvEvent,
        polling: Polling,
    ) -> (step: Step)
        requires
            old(self)@.can_step(old(registry)@, InputModel::Event(event, polling@)),
        ensures
            (Stepped { iter: final(self)@, registry: final(registry)@, step: step@ }) == old(
                self,
            )@.after_event(old(registry)@, event, polling@),
    {
        let mut polling = polling;
        let kind = event.event_id;
        if kind == MpvEventId::NoEvent || kind == MpvEventId::QueueOverflow {
            if polling.last {
                return self.finish(registry, polling.events);
            }
            polling.last = true;
        } else if is_meant_for(&self.local_to_observe, &event) {
            let ghost found = polling.events@;
            let y = event.as_event();
            polling.events.push(y);
            assert(yields_model(polling.events@) =~= yields_model(found).push(event.result()));
        } else if is_meant_for(&registry.to_observe, &event) {
            let ghost waiting = registry.observed@;
            let inner = event.as_inner_event();
            registry.observed.push(inner);
            assert(inner_events_model(registry.observed@) =~= inner_events_model(waiting).push(
                event.inner(),
            ));
        }
        Step::Poll(polling)
    }

    /// Takes one step towards the next item. It begins with `Input::Begin`, and goes on with the
    /// input that the last step asked for, until that step is `Step::Done`.
    pub fn next(&mut self, registry: &mut Registry, input: Input) -> (step: Step)
        requires
            old(self)@.can_step(old(registry)@, input@),
        ensures
            (Stepped { iter: final(self)@, registry: final(registry)@, step: step@ }) == old(
                self,
            )@.stepped(old(registry)@, input@),
    {
        match input {
            Input::Begin => if registry.observed.is_empty() || self.last_no_associated_ev {
                Step::Wait
            } else {
                self.step_after_wait(registry)
            },
            Input::Woken => self.step_after_wait(registry),
            Input::Event(event, polling) => self.step_after_event(registry, event, polling),
        }
    }

    /// Ends the observation: the events of this `EventIter` are neither observed any more, nor do
    /// they wait for anybody. The result are the calls by which libmpv is told so.
    pub fn release(self, registry: &mut Registry) -> (calls: Vec<Call>)
        ensures
            final(registry)@ == old(registry)@.without(self@.local),
            calls_model(calls@) == unobserve_calls(old(registry)@.properties, self@.local),
    {
        registry.forget(&self.local_to_observe)
    }

    fn can_take_observed(&self, registry: &Registry) -> (possible: bool)
        ensures
            possible == can_take_out(handed_positions(self@.local, registry@.observed)),
    {
        let (_, index) = self.select(registry);
        let ghost positions = as_ints(index@);
        for n in 0..index.len()
            invariant
                positions == as_ints(index@),
                positions == handed_positions(self@.local, registry@.observed),
                forall|k: int| 0 <= k < n ==> k <= #[trigger] positions[k],
        {
            assert(positions[n as int] == index@[n as int]);
            if index[n] < n {
                return false;
            }
        }
        true
    }

    /// Whether `next` can take a step with `input`.
    pub fn can_next(&self, registry: &Registry, input: &Input) -> (possible: bool)
        ensures
            possible == self@.can_step(registry@, input@),
    {
        match input {
            Input::Begin => registry.observed.is_empty() || self.last_no_associated_ev
                || self.can_take_observed(registry),
            Input::Woken => self.can_take_observed(registry),
            Input::Event(event, _) => {
                let kind = event.event_id;
                if kind == MpvEventId::NoEvent || kind == MpvEventId::QueueOverflow {
                    true
                } else if is_meant_for(&self.local_to_observe, event) {
                    MpvError::from_i32(event.error).is_some() && (event.error != 0
                        || event.is_readable())
                } else if is_meant_for(&registry.to_observe, event) {
                    MpvError::from_i32(event.error).is_some() && event.is_readable()
                } else {
                    true
                }
            },
        }
    }
}

} // verus!
