//! Observation of events, and the iteration over them.

use mpv::call::Call;
use mpv::data::Data;
use mpv::event::{Error, Event, InnerEvent, Property};
use mpv::incoming::{MpvEvent, MpvEventData, MpvEventProperty};
use mpv::instance::MpvInstance;
use mpv::iter::{EventIter, Input, Polling, Step, Yield};
use mpv::observe::Registry;
use mpv::parent::{MpvMarker, Opening, Parent};
use mpv::raw::{MpvError, MpvEventId, MpvFormat};
use mpv::setup::Progress;

fn change_of(name: &str) -> Event {
    Event::PropertyChange(Property::new(name, Data::Int64(0)))
}

/// Observes events, all calls of which go well, and returns the numbers and names of the calls.
fn observed(registry: &mut Registry, events: Vec<Event>) -> (EventIter, Vec<(u64, String)>) {
    let mut observation = match registry.observe(events) {
        Ok(observation) => observation,
        Err(error) => panic!("refused: {:?}", error),
    };
    let mut calls = Vec::new();
    while let Some(call) = observation.next_call(registry) {
        match call {
            Call::ObserveProperty { id, name, format } => {
                assert_eq!(format, MpvFormat::Int64);
                calls.push((id, name));
            }
            other => panic!("no observation: {:?}", other),
        }
        assert!(observation.reply(registry, 0).is_ok());
    }
    (observation.finish(), calls)
}

fn refused(registry: &mut Registry, events: Vec<Event>) -> Error {
    match registry.observe(events) {
        Ok(_) => panic!("observed"),
        Err(error) => error,
    }
}

fn released(iter: EventIter, registry: &mut Registry) -> Vec<u64> {
    let mut numbers = Vec::new();
    for call in iter.release(registry) {
        match call {
            Call::UnobserveProperty(id) => numbers.push(id),
            other => panic!("no end: {:?}", other),
        }
    }
    numbers
}

fn queued(event_id: MpvEventId) -> MpvEvent {
    MpvEvent { event_id, error: 0, data: MpvEventData::Empty }
}

fn queued_change(name: &str, value: u64) -> MpvEvent {
    MpvEvent {
        event_id: MpvEventId::PropertyChange,
        error: 0,
        data: MpvEventData::Property(MpvEventProperty {
            name: name.as_bytes().to_vec(),
            format: MpvFormat::Int64,
            word: value,
        }),
    }
}

fn waiting(event: Event) -> InnerEvent {
    InnerEvent { event, err: None }
}

fn polling_of(step: Step) -> Polling {
    match step {
        Step::Poll(polling) => polling,
        _ => panic!("no search"),
    }
}

fn outcome_of(step: Step) -> (Result<Vec<Yield>, Error>, bool) {
    match step {
        Step::Done { item, notify } => (item, notify),
        _ => panic!("not done"),
    }
}

/// Wakes an `EventIter` and hands it `events`, then an empty queue until it is done.
fn search(
    iter: &mut EventIter,
    registry: &mut Registry,
    events: Vec<MpvEvent>,
) -> (Result<Vec<Yield>, Error>, bool) {
    assert!(iter.can_next(registry, &Input::Begin));
    assert!(matches!(iter.next(registry, Input::Begin), Step::Wait));
    let mut step = iter.next(registry, Input::Woken);
    for event in events {
        let input = Input::Event(event, polling_of(step));
        assert!(iter.can_next(registry, &input));
        step = iter.next(registry, input);
    }
    for _ in 0..2 {
        let input = Input::Event(queued(MpvEventId::NoEvent), polling_of(step));
        assert!(iter.can_next(registry, &input));
        step = iter.next(registry, input);
    }
    outcome_of(step)
}

#[test]
fn observed_properties_are_numbered_in_their_order() {
    let mut registry = Registry::new();
    let events = vec![change_of("volume"), Event::Idle, change_of("speed")];
    let (iter, calls) = observed(&mut registry, events);
    assert_eq!(calls, vec![(0, "volume".to_string()), (1, "speed".to_string())]);
    assert_eq!(iter.local_to_observe.len(), 3);
    assert!(!iter.last_no_associated_ev);
    assert_eq!(registry.to_observe.len(), 3);
    assert_eq!(registry.properties.get("volume"), Some(&0));
    assert_eq!(registry.properties.get("speed"), Some(&1));
    let (_, calls) = observed(&mut registry, vec![change_of("mute")]);
    assert_eq!(calls, vec![(2, "mute".to_string())]);
}

#[test]
fn observed_event_is_refused_to_others() {
    let mut registry = Registry::new();
    observed(&mut registry, vec![Event::Idle, change_of("volume")]);
    assert_eq!(
        refused(&mut registry, vec![Event::Seek, Event::Idle, change_of("volume")]),
        Error::AlreadyObserved(Box::new(Event::Idle))
    );
    assert_eq!(
        refused(&mut registry, vec![change_of("volume"), Event::Idle]),
        Error::AlreadyObserved(Box::new(change_of("volume")))
    );
    assert_eq!(registry.to_observe.len(), 2);
    assert_eq!(registry.properties.len(), 1);
}

#[test]
fn property_is_refused_whatever_its_value() {
    let mut registry = Registry::new();
    observed(&mut registry, vec![change_of("volume")]);
    let other = Event::PropertyChange(Property::new("volume", Data::Flag(true)));
    assert!(matches!(refused(&mut registry, vec![other]), Error::AlreadyObserved(_)));
}

#[test]
fn other_events_are_not_refused() {
    let mut registry = Registry::new();
    observed(&mut registry, vec![Event::Idle, change_of("volume")]);
    observed(&mut registry, vec![Event::Seek, change_of("speed")]);
    assert_eq!(registry.to_observe.len(), 4);
}

#[test]
fn failed_call_ends_the_observation_and_undoes_it() {
    let mut registry = Registry::new();
    observed(&mut registry, vec![Event::Seek, change_of("mute")]);
    registry.observed.push(waiting(Event::Seek));
    let events = vec![change_of("volume"), change_of("speed"), Event::Idle];
    let mut observation = registry.observe(events).ok().unwrap();
    assert!(observation.reply(&mut registry, 0).is_ok());
    let refusal = observation.reply(&mut registry, -8).err().unwrap();
    assert_eq!(refusal.error, Error::Mpv(MpvError::PropertyNotFound));
    assert_eq!(refusal.calls.len(), 1);
    assert!(matches!(refusal.calls[0], Call::UnobserveProperty(1)));
    assert_eq!(registry.to_observe, vec![Event::Seek, change_of("mute")]);
    assert_eq!(registry.observed, vec![waiting(Event::Seek)]);
    assert_eq!(registry.properties.len(), 1);
    assert_eq!(registry.properties.get("mute"), Some(&0));
}

#[test]
fn events_of_a_failed_observation_can_be_observed() {
    let mut registry = Registry::new();
    let mut observation = registry.observe(vec![Event::Idle, change_of("x")]).ok().unwrap();
    let refusal = observation.reply(&mut registry, -9).err().unwrap();
    assert_eq!(refusal.error, Error::Mpv(MpvError::PropertyFormat));
    assert!(refusal.calls.is_empty());
    let (_, calls) = observed(&mut registry, vec![Event::Idle, change_of("x")]);
    assert_eq!(calls, vec![(0, "x".to_string())]);
}

#[test]
fn release_undoes_observation() {
    let mut registry = Registry::new();
    let (first, _) = observed(&mut registry, vec![Event::Idle, change_of("volume")]);
    let (second, _) = observed(&mut registry, vec![change_of("speed"), Event::Seek]);
    registry.observed.push(waiting(Event::Seek));
    registry.observed.push(waiting(Event::Idle));
    registry.observed.push(waiting(change_of("speed")));
    assert_eq!(released(second, &mut registry), vec![1]);
    assert_eq!(registry.to_observe, vec![Event::Idle, change_of("volume")]);
    assert_eq!(registry.observed, vec![waiting(Event::Idle)]);
    assert_eq!(registry.properties.get("volume"), Some(&0));
    assert_eq!(registry.properties.get("speed"), None);
    assert_eq!(released(first, &mut registry), vec![0]);
    assert!(registry.to_observe.is_empty());
    assert!(registry.observed.is_empty());
    assert_eq!(registry.properties.len(), 0);
}

#[test]
fn released_events_can_be_observed_anew() {
    let mut registry = Registry::new();
    let (iter, _) = observed(&mut registry, vec![Event::Idle, change_of("volume")]);
    released(iter, &mut registry);
    let (_, calls) = observed(&mut registry, vec![change_of("volume"), Event::Idle]);
    assert_eq!(calls, vec![(0, "volume".to_string())]);
}

#[test]
fn property_that_is_listed_twice_is_released_once() {
    let mut registry = Registry::new();
    let (iter, calls) = observed(&mut registry, vec![change_of("volume"), change_of("volume")]);
    assert_eq!(calls, vec![(0, "volume".to_string()), (1, "volume".to_string())]);
    assert_eq!(released(iter, &mut registry), vec![1]);
    assert!(registry.to_observe.is_empty());
}

#[test]
fn instance_with_events_observes() {
    let opening =
        Opening { built_for: 1, present: Some(1), created: Some(true), codes: vec![0; 8] };
    let mut parent = match Parent::new(true, &opening) {
        Progress::Finished(Ok(parent)) => parent,
        _ => panic!("no parent"),
    };
    let observation = match parent.observe_all(vec![Event::Idle, change_of("volume")]) {
        Ok(observation) => observation,
        Err(error) => panic!("refused: {:?}", error),
    };
    assert_eq!(observation.next, 1);
    assert_eq!(parent.ev_to_observe().unwrap().len(), 2);
    match parent.observe_all(vec![Event::Idle]) {
        Err(error) => assert_eq!(error, Error::AlreadyObserved(Box::new(Event::Idle))),
        Ok(_) => panic!("observed"),
    }
}

#[test]
fn observation_leaves_suspensions_alone() {
    let opening =
        Opening { built_for: 1, present: Some(1), created: Some(true), codes: vec![0; 8] };
    let mut parent = match Parent::new(true, &opening) {
        Progress::Finished(Ok(parent)) => parent,
        _ => panic!("no parent"),
    };
    parent.init().unwrap();
    parent.suspend().unwrap();
    assert!(parent.observe_all(vec![Event::Idle]).is_ok());
    assert!(parent.observe_all(vec![Event::Idle]).is_err());
    assert!(parent.initialized());
    assert!(matches!(parent.resume(), Ok(Call::Resume)));
    assert_eq!(parent.resume().unwrap_err(), Error::AlreadyResumed);
}

#[test]
fn numbers_differ_until_a_release() {
    let mut registry = Registry::new();
    let (_, first) = observed(&mut registry, vec![change_of("a"), change_of("b")]);
    let (_, second) = observed(&mut registry, vec![change_of("c")]);
    let numbers: Vec<u64> = first.iter().chain(&second).map(|(id, _)| *id).collect();
    assert_eq!(numbers, vec![0, 1, 2]);
}

#[test]
fn release_tells_of_each_property_once() {
    let mut registry = Registry::new();
    let events = vec![change_of("a"), Event::Idle, change_of("b")];
    let (first, _) = observed(&mut registry, events);
    let (second, _) = observed(&mut registry, vec![change_of("c")]);
    assert_eq!(released(first, &mut registry), vec![0, 1]);
    assert_eq!(registry.properties.get("c"), Some(&2));
    assert_eq!(released(second, &mut registry), vec![2]);
}

#[test]
fn iteration_waits_where_no_event_waits() {
    let mut registry = Registry::new();
    let (mut iter, _) = observed(&mut registry, vec![Event::Idle]);
    assert!(matches!(iter.next(&mut registry, Input::Begin), Step::Wait));
    let polling = polling_of(iter.next(&mut registry, Input::Woken));
    assert!(!polling.last);
    assert!(polling.events.is_empty());
}

#[test]
fn iteration_yields_what_the_queue_holds() {
    let mut registry = Registry::new();
    let (mut iter, _) = observed(&mut registry, vec![Event::Idle, change_of("volume")]);
    let events = vec![queued(MpvEventId::Idle), queued_change("volume", 7)];
    let (item, notify) = search(&mut iter, &mut registry, events);
    let item = item.unwrap();
    assert_eq!(item.len(), 2);
    assert_eq!(item[0], Ok(Event::Idle));
    match &item[1] {
        Ok(Event::PropertyChange(property)) => {
            assert_eq!(property.name, "volume");
            assert!(property.data.equals(&Data::Int64(7)));
        }
        other => panic!("no property: {:?}", other),
    }
    assert!(!notify);
    assert!(!iter.last_no_associated_ev);
}

#[test]
fn iteration_without_an_event_yields_an_error() {
    let mut registry = Registry::new();
    let (mut iter, _) = observed(&mut registry, vec![Event::Idle]);
    let (item, notify) = search(&mut iter, &mut registry, vec![queued(MpvEventId::Seek)]);
    assert_eq!(item, Err(Error::NoAssociatedEvent));
    assert!(!notify);
    assert!(iter.last_no_associated_ev);
    assert!(registry.observed.is_empty());
}

#[test]
fn queue_is_searched_until_it_was_empty_twice() {
    let mut registry = Registry::new();
    let (mut iter, _) = observed(&mut registry, vec![Event::Idle]);
    let events = vec![queued(MpvEventId::QueueOverflow), queued(MpvEventId::Idle)];
    assert!(matches!(iter.next(&mut registry, Input::Begin), Step::Wait));
    let mut polling = polling_of(iter.next(&mut registry, Input::Woken));
    for event in events {
        polling = polling_of(iter.next(&mut registry, Input::Event(event, polling)));
        assert!(polling.last);
    }
    let end = Input::Event(queued(MpvEventId::NoEvent), polling);
    let (item, _) = outcome_of(iter.next(&mut registry, end));
    assert_eq!(item, Ok(vec![Ok(Event::Idle)]));
}

#[test]
fn events_of_others_are_kept_for_them() {
    let mut registry = Registry::new();
    let (mut first, _) = observed(&mut registry, vec![Event::Idle]);
    let (mut second, _) = observed(&mut registry, vec![Event::Seek]);
    let events =
        vec![queued(MpvEventId::Seek), queued(MpvEventId::Idle), queued(MpvEventId::Tick)];
    let (item, notify) = search(&mut first, &mut registry, events);
    assert_eq!(item, Ok(vec![Ok(Event::Idle)]));
    assert!(notify);
    assert_eq!(registry.observed, vec![waiting(Event::Seek)]);
    let (item, notify) = outcome_of(second.next(&mut registry, Input::Begin));
    assert_eq!(item, Ok(vec![Ok(Event::Seek)]));
    assert!(!notify);
    assert!(registry.observed.is_empty());
}

#[test]
fn waiting_events_are_handed_out_in_their_order() {
    let mut registry = Registry::new();
    let (mut iter, _) = observed(&mut registry, vec![change_of("volume"), Event::Idle]);
    observed(&mut registry, vec![change_of("speed"), Event::Seek]);
    let error = Some(Error::Mpv(MpvError::Generic));
    registry.observed.push(waiting(Event::Idle));
    registry.observed.push(waiting(change_of("speed")));
    registry.observed.push(InnerEvent { event: Event::Idle, err: error });
    registry.observed.push(waiting(Event::Seek));
    registry.observed.push(waiting(change_of("volume")));
    assert!(iter.can_next(&registry, &Input::Begin));
    let (item, notify) = outcome_of(iter.next(&mut registry, Input::Begin));
    assert_eq!(
        item,
        Ok(vec![
            Ok(Event::Idle),
            Err(Error::Mpv(MpvError::Generic)),
            Ok(change_of("volume")),
        ])
    );
    assert!(notify);
    assert_eq!(registry.observed, vec![waiting(change_of("speed")), waiting(Event::Seek)]);
}

#[test]
fn iteration_waits_after_it_found_nothing() {
    let mut registry = Registry::new();
    let (mut iter, _) = observed(&mut registry, vec![Event::Idle]);
    observed(&mut registry, vec![Event::Seek]);
    registry.observed.push(waiting(Event::Seek));
    let (item, notify) = outcome_of(iter.next(&mut registry, Input::Begin));
    assert_eq!(item, Err(Error::NoAssociatedEvent));
    assert!(notify);
    assert!(matches!(iter.next(&mut registry, Input::Begin), Step::Wait));
    registry.observed.push(waiting(Event::Idle));
    let (item, _) = outcome_of(iter.next(&mut registry, Input::Woken));
    assert_eq!(item, Ok(vec![Ok(Event::Idle)]));
    assert_eq!(registry.observed, vec![waiting(Event::Seek)]);
}

#[test]
fn change_of_another_property_is_kept_for_its_observer() {
    let mut registry = Registry::new();
    let (mut pause, _) = observed(&mut registry, vec![change_of("pause")]);
    let (mut volume, _) = observed(&mut registry, vec![change_of("volume")]);
    let (item, notify) = search(&mut pause, &mut registry, vec![queued_change("volume", 1)]);
    assert_eq!(item, Err(Error::NoAssociatedEvent));
    assert!(notify);
    assert_eq!(registry.observed, vec![waiting(change_of("volume"))]);
    let (item, _) = outcome_of(volume.next(&mut registry, Input::Begin));
    assert_eq!(item, Ok(vec![Ok(change_of("volume"))]));
    assert!(registry.observed.is_empty());
}

#[test]
fn changes_of_several_properties_are_sorted_by_name() {
    let mut registry = Registry::new();
    let (mut pause, _) = observed(&mut registry, vec![change_of("pause"), Event::Idle]);
    observed(&mut registry, vec![change_of("volume")]);
    let events = vec![
        queued_change("volume", 1),
        queued_change("pause", 1),
        queued_change("speed", 1),
        queued(MpvEventId::Idle),
    ];
    let (item, notify) = search(&mut pause, &mut registry, events);
    assert_eq!(item, Ok(vec![Ok(change_of("pause")), Ok(Event::Idle)]));
    assert!(notify);
    assert_eq!(registry.observed, vec![waiting(change_of("volume"))]);
}

#[test]
fn error_of_a_queued_event_is_yielded() {
    let mut registry = Registry::new();
    let (mut iter, _) = observed(&mut registry, vec![Event::Idle]);
    let event = MpvEvent { error: -2, ..queued(MpvEventId::Idle) };
    let (item, _) = search(&mut iter, &mut registry, vec![event]);
    assert_eq!(item, Ok(vec![Err(Error::Mpv(MpvError::NoMem))]));
}

#[test]
fn event_that_is_listed_twice_is_handed_out_twice() {
    let mut registry = Registry::new();
    let (mut iter, _) = observed(&mut registry, vec![Event::Idle, Event::Idle]);
    registry.observed.push(waiting(Event::Idle));
    assert!(!iter.can_next(&registry, &Input::Begin));
    registry.observed.insert(0, waiting(Event::Seek));
    registry.observed.push(waiting(Event::Tick));
    assert!(iter.can_next(&registry, &Input::Begin));
    let (item, notify) = outcome_of(iter.next(&mut registry, Input::Begin));
    assert_eq!(item, Ok(vec![Ok(Event::Idle), Ok(Event::Idle)]));
    assert!(notify);
    assert_eq!(registry.observed, vec![waiting(Event::Tick)]);
}

#[test]
fn unreadable_events_cannot_be_taken() {
    let mut registry = Registry::new();
    let (iter, _) = observed(&mut registry, vec![change_of("volume")]);
    observed(&mut registry, vec![Event::LogMessage(None)]);
    let input = |event| Input::Event(event, Polling { last: false, events: Vec::new() });
    assert!(iter.can_next(&registry, &input(queued_change("volume", 0))));
    assert!(!iter.can_next(&registry, &input(queued(MpvEventId::PropertyChange))));
    let failed = MpvEvent { error: -1, ..queued(MpvEventId::PropertyChange) };
    assert!(iter.can_next(&registry, &input(failed)));
    let unknown = MpvEvent { error: 5, ..queued(MpvEventId::PropertyChange) };
    assert!(!iter.can_next(&registry, &input(unknown)));
    assert!(!iter.can_next(&registry, &input(queued(MpvEventId::LogMessage))));
    assert!(iter.can_next(&registry, &input(queued(MpvEventId::Shutdown))));
}
