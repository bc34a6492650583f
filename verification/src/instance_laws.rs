//! What parents and clients ask of libmpv, and what they make of its answers.

use vstd::prelude::*;

use crate::call::{Call, CallModel};
use crate::command::Path;
use crate::data::{Data, Double};
use crate::event::{Error, Event, Property};
use crate::instance::{answer_property, read_text, Codec, MpvInstance, PropertyReply};

use crate::parent::{Client, ClientOpening, MpvMarker, Opening, Parent};
use crate::raw::{error_of_code, MpvEventId, MpvFormat};
use crate::setup::{first_failure, law_first_failure_is_the_first, setup_calls, Progress};
use crate::value_laws::law_value_is_written_as_its_word;

verus! {

/// The view of a call is of the kind of the call, and holds what the call holds.
pub proof fn law_call_is_seen_as_it_is(call: Call)
    ensures
        match call {
            Call::ClientApiVersion => call@ is ClientApiVersion,
            Call::Create => call@ is Create,
            Call::CreateClient(name) => call@ == CallModel::CreateClient(name@),
            Call::RequestEvent { kind, enable } => call@ == (CallModel::RequestEvent {
                kind,
                enable,
            }),
            Call::SetWakeupCallback => call@ is SetWakeupCallback,
            Call::Initialize => call@ is Initialize,
            Call::SetOption(property) => call@ == CallModel::SetOption(property@),
            Call::SetProperty(property) => call@ == CallModel::SetProperty(property@),
            Call::GetProperty { name, format } => call@ == (CallModel::GetProperty {
                name: name@,
                format,
            }),
            Call::ObserveProperty { id, name, format } => call@ == (CallModel::ObserveProperty {
                id,
                name: name@,
                format,
            }),
            Call::UnobserveProperty(id) => call@ == CallModel::UnobserveProperty(id),
            Call::CommandString(line) => call@ == CallModel::CommandString(line@),
            Call::LoadConfigFile(file) => call@ == CallModel::LoadConfigFile(file@),
            Call::Suspend => call@ is Suspend,
            Call::Resume => call@ is Resume,
        },
{
}

/// A parent is created by asking for the version first, then for a core. Another version than the
/// one that the library was built for is a mismatch, and a core that libmpv cannot create is null.
pub proof fn law_creation_begins_with_version_and_core(
    check_events: bool,
    opening: &Opening,
    progress: Progress<Parent>,
)
    requires
        call_ensures(Parent::new, (check_events, opening), progress),
    ensures
        opening.present is None ==> progress == Progress::<Parent>::Ask(Call::ClientApiVersion),
        opening.present matches Some(present) && present != opening.built_for ==> progress
            == Progress::<Parent>::Finished(Err(Error::VersionMismatch(opening.present.unwrap()))),
        opening.present == Some(opening.built_for) && opening.created is None ==> progress
            == Progress::<Parent>::Ask(Call::Create),
        opening.present == Some(opening.built_for) && opening.created == Some(false) ==> progress
            == Progress::<Parent>::Finished(Err(Error::Null)),
{
}

/// The events that are disabled one after the other when an instance is created: those that libmpv
/// has deprecated, and, where no events are wanted, the others.
pub open spec fn disabled_kinds(check_events: bool) -> Seq<MpvEventId> {
    seq![
        MpvEventId::TracksChanged,
        MpvEventId::TrackSwitched,
        MpvEventId::Pause,
        MpvEventId::Unpause,
        MpvEventId::ScriptInputDispatch,
        MpvEventId::MetadataUpdate,
        MpvEventId::ChapterChange,
    ] + if check_events {
        Seq::empty()
    } else {
        seq![
            MpvEventId::LogMessage,
            MpvEventId::GetPropertyReply,
            MpvEventId::SetPropertyReply,
            MpvEventId::CommandReply,
            MpvEventId::StartFile,
            MpvEventId::EndFile,
            MpvEventId::FileLoaded,
            MpvEventId::Idle,
            MpvEventId::ClientMessage,
            MpvEventId::VideoReconfig,
            MpvEventId::AudioReconfig,
            MpvEventId::Seek,
            MpvEventId::PlaybackRestart,
            MpvEventId::PropertyChange,
            MpvEventId::QueueOverflow,
        ]
    }
}

/// How many calls prepare the events of an instance: one to disable each kind, and one to be woken
/// where events are wanted.
pub open spec fn setup_count(check_events: bool) -> nat {
    disabled_kinds(check_events).len() + if check_events {
        1nat
    } else {
        0nat
    }
}

/// Once there is a core, its events are prepared as long as all calls go well: each kind is
/// disabled in its turn, and where events are wanted, libmpv is told last whom to wake. Then there
/// is a new parent: not initialized, not suspended, and with an empty registry exactly if events
/// are wanted.
pub proof fn law_creation_prepares_the_events(
    check_events: bool,
    opening: &Opening,
    progress: Progress<Parent>,
)
    requires
        call_ensures(Parent::new, (check_events, opening), progress),
        opening.present == Some(opening.built_for),
        opening.created == Some(true),
        opening.codes@.len() <= setup_count(check_events),
        forall|i: int| 0 <= i < opening.codes@.len() ==> #[trigger] opening.codes@[i] == 0,
    ensures
        opening.codes@.len() < disabled_kinds(check_events).len() ==> progress == Progress::<
            Parent,
        >::Ask(
            Call::RequestEvent {
                kind: disabled_kinds(check_events)[opening.codes@.len() as int],
                enable: false,
            },
        ),
        check_events && opening.codes@.len() == disabled_kinds(check_events).len() ==> progress
            == Progress::<Parent>::Ask(Call::SetWakeupCallback),
        opening.codes@.len() == setup_count(check_events) ==> {
            &&& progress matches Progress::Finished(Ok(parent))
            &&& !parent.is_initialized()
            &&& parent.suspensions() == 0
            &&& check_events ==> (parent.registry() matches Some(registry)
                && registry.to_observe.len() == 0 && registry.observed.len() == 0
                && registry.properties == Map::<Seq<char>, u64>::empty())
            &&& !check_events ==> parent.registry() is None
        },
{
    law_first_failure_is_the_first(opening.codes@);
    let i = opening.codes@.len() as int;
    let kinds = disabled_kinds(check_events);
    assert(setup_calls(check_events).len() == setup_count(check_events));
    if i < kinds.len() {
        assert(setup_calls(check_events)[i] == CallModel::RequestEvent {
            kind: kinds[i],
            enable: false,
        });
    }
}

/// The first call that does not go well ends the creation with its error.
pub proof fn law_creation_fails_with_the_first_failure(
    check_events: bool,
    opening: &Opening,
    progress: Progress<Parent>,
    k: int,
)
    requires
        call_ensures(Parent::new, (check_events, opening), progress),
        opening.present == Some(opening.built_for),
        opening.created == Some(true),
        0 <= k < opening.codes@.len() <= setup_count(check_events),
        forall|i: int| 0 <= i < k ==> #[trigger] opening.codes@[i] == 0,
        -20 <= opening.codes@[k] < 0,
    ensures
        progress matches Progress::Finished(Err(Error::Mpv(error))) && error_of_code(
            opening.codes@[k] as int,
        ) == Some(error),
{
    law_first_failure_is_the_first(opening.codes@);
    let i = first_failure(opening.codes@).unwrap();
    assert(opening.codes@[i] != 0);
    assert(i == k);
}

/// A client needs an initialized parent. It is created under its name, and then set up as a parent
/// is: with the same calls, the same errors and a registry of its own.
pub proof fn law_client_is_set_up_as_a_parent(
    parent: &Parent,
    name: &str,
    check_events: bool,
    opening: &ClientOpening,
    progress: Progress<Client>,
    other: &Opening,
    other_progress: Progress<Parent>,
)
    requires
        call_ensures(Parent::new_client, (parent, name, check_events, opening), progress),
        call_ensures(Parent::new, (check_events, other), other_progress),
        other.present == Some(other.built_for),
        other.created == Some(true),
        other.codes@ == opening.codes@,
    ensures
        !parent.is_initialized() ==> progress == Progress::<Client>::Finished(
            Err(Error::Uninitialized),
        ),
        parent.is_initialized() && !opening.asked ==> (progress matches Progress::Ask(
            Call::CreateClient(asked),
        ) && asked@ == name@),
        parent.is_initialized() && opening.asked ==> match other_progress {
            Progress::Ask(call) => progress matches Progress::Ask(asked) && asked@ == call@,
            Progress::Finished(Err(error)) => progress matches Progress::Finished(Err(same))
                && same@ == error@,
            Progress::Finished(Ok(made)) => progress matches Progress::Finished(Ok(client))
                && client.registry() == made.registry() && client.is_initialized(),
        },
{
}

/// The core is initialized once. After that the instance counts as initialized, and nothing else
/// of it has changed; a second time is refused and changes nothing.
pub proof fn law_initialization_is_asked_for_once(parent: &mut Parent, result: Result<Call, Error>)
    requires
        call_ensures(Parent::init, (parent,), result),
    ensures
        old(parent).is_initialized() ==> result == Err::<Call, Error>(Error::AlreadyInitialized),
        !old(parent).is_initialized() ==> result == Ok::<Call, Error>(Call::Initialize),
        final(parent).is_initialized(),
        final(parent).suspensions() == old(parent).suspensions(),
        final(parent).registry() == old(parent).registry(),
{
}

/// An initialized core can be suspended any number of times, and each time is counted, until there
/// are more than can be counted. Before initialization it is refused and changes nothing.
pub proof fn law_suspensions_are_counted(parent: &mut Parent, result: Result<Call, Error>)
    requires
        call_ensures(Parent::suspend, (parent,), result),
    ensures
        old(parent).is_initialized() ==> {
            &&& result == Ok::<Call, Error>(Call::Suspend)
            &&& old(parent).suspensions() < usize::MAX ==> final(parent).suspensions() == old(
                parent,
            ).suspensions() + 1
            &&& old(parent).suspensions() == usize::MAX ==> final(parent).suspensions() == 0
        },
        !old(parent).is_initialized() ==> {
            &&& result == Err::<Call, Error>(Error::Uninitialized)
            &&& final(parent).suspensions() == old(parent).suspensions()
        },
        final(parent).is_initialized() == old(parent).is_initialized(),
        final(parent).registry() == old(parent).registry(),
{
}

/// Each suspension can be undone once. What was not suspended cannot be resumed, and what was not
/// initialized cannot either; neither changes anything.
pub proof fn law_suspensions_are_undone_one_by_one(
    parent: &mut Parent,
    result: Result<Call, Error>,
)
    requires
        call_ensures(Parent::resume, (parent,), result),
    ensures
        old(parent).is_initialized() && old(parent).suspensions() > 0 ==> {
            &&& result == Ok::<Call, Error>(Call::Resume)
            &&& final(parent).suspensions() == old(parent).suspensions() - 1
        },
        old(parent).is_initialized() && old(parent).suspensions() == 0 ==> {
            &&& result == Err::<Call, Error>(Error::AlreadyResumed)
            &&& final(parent).suspensions() == 0
        },
        !old(parent).is_initialized() ==> {
            &&& result == Err::<Call, Error>(Error::Uninitialized)
            &&& final(parent).suspensions() == old(parent).suspensions()
        },
        final(parent).is_initialized() == old(parent).is_initialized(),
        final(parent).registry() == old(parent).registry(),
{
}

/// Before initialization an option reaches libmpv with the very name and data that were given,
/// whatever their kind, but for text of the display, which is never written. After initialization
/// no option is set.
pub proof fn law_option_reaches_libmpv_as_given(
    parent: &Parent,
    option: Property,
    result: Result<Call, Error>,
)
    requires
        call_ensures(Parent::set_option, (parent, option), result),
    ensures
        parent.is_initialized() ==> result == Err::<Call, Error>(Error::AlreadyInitialized),
        !parent.is_initialized() && option.data is OsdString ==> result == Err::<Call, Error>(
            Error::OsdStringWrite,
        ),
        !parent.is_initialized() && !(option.data is OsdString) ==> (result matches Ok(
            Call::SetOption(set),
        ) && set.name@ == option.name@ && same_data(set.data, option.data)),
{
}

/// Whether two values are of one kind, and hold the same text, or the very same value.
pub open spec fn same_data(a: Data, b: Data) -> bool {
    match (a, b) {
        (Data::String(x), Data::String(y)) => x@ == y@,
        (Data::OsdString(x), Data::OsdString(y)) => x@ == y@,
        (Data::Flag(x), Data::Flag(y)) => x == y,
        (Data::Int64(x), Data::Int64(y)) => x == y,
        (Data::Double(x), Data::Double(y)) => x.bits == y.bits,
        (Data::Node(x), Data::Node(y)) => x == y,
        _ => false,
    }
}

/// A configuration file is loaded from the text of its path. A relative path is refused first,
/// then a directory.
pub proof fn law_configuration_is_an_absolute_path_to_a_file<'a>(
    parent: &Parent,
    path: Path<'a>,
    directory: bool,
    result: Result<Call, Error>,
)
    requires
        call_ensures(Parent::load_config, (parent, path, directory), result),
    ensures
        path.relative ==> result == Err::<Call, Error>(Error::ExpectedAbsolute),
        !path.relative && directory ==> result == Err::<Call, Error>(Error::ExpectedFile),
        !path.relative && !directory ==> (path.text matches Some(text) ==> (result matches Ok(
            Call::LoadConfigFile(file),
        ) && file@ == text@)),
{
}

/// The events of a kind are switched on or off as it is asked for, under the kind of the event;
/// where events are not enabled, neither is done.
pub proof fn law_events_are_switched_as_asked_for<P: MpvMarker>(
    instance: &P,
    event: &Event,
    kind: MpvEventId,
    enabled: Result<Call, Error>,
    disabled: Result<Call, Error>,
)
    requires
        call_ensures(Event::as_id, (event,), kind),
        call_ensures(<P as MpvInstance>::enable_event, (instance, event), enabled),
        call_ensures(<P as MpvInstance>::disable_event, (instance, event), disabled),
    ensures
        instance.registry() is Some ==> {
            &&& enabled == Ok::<Call, Error>(Call::RequestEvent { kind, enable: true })
            &&& disabled == Ok::<Call, Error>(Call::RequestEvent { kind, enable: false })
        },
        instance.registry() is None ==> {
            &&& enabled == Err::<Call, Error>(Error::EventsDisabled)
            &&& disabled == Err::<Call, Error>(Error::EventsDisabled)
        },
{
}

/// A property that is set reaches libmpv with the very name and data that were given, whatever
/// their kind, but for text of the display, which is never written.
pub proof fn law_property_reaches_libmpv_as_given<P: MpvMarker>(
    instance: &P,
    property: Property,
    result: Result<Call, Error>,
)
    requires
        call_ensures(<P as MpvInstance>::set_property, (instance, property), result),
    ensures
        property.data is OsdString ==> result == Err::<Call, Error>(Error::OsdStringWrite),
        !(property.data is OsdString) ==> (result matches Ok(Call::SetProperty(set)) && set.name@
            == property.name@ && same_data(set.data, property.data)),
{
}

/// Playback is paused and unpaused by the property of that name.
pub proof fn law_playback_is_paused_and_unpaused<P: MpvMarker>(
    instance: &P,
    paused: Result<Call, Error>,
    unpaused: Result<Call, Error>,
)
    requires
        call_ensures(<P as MpvInstance>::pause, (instance,), paused),
        call_ensures(<P as MpvInstance>::unpause, (instance,), unpaused),
    ensures
        paused matches Ok(Call::SetProperty(set)) && set.name@ == "pause"@ && set.data
            == Data::Flag(true),
        unpaused matches Ok(Call::SetProperty(set)) && set.name@ == "pause"@ && set.data
            == Data::Flag(false),
{
}

/// The value of a property is asked for under its name and in the format of the data that is
/// given: text as text, flags as flags, integers as integers, doubles as doubles.
pub proof fn law_property_is_asked_for_in_its_format<P: MpvMarker>(
    instance: &P,
    property: &Property,
    call: Call,
)
    requires
        call_ensures(<P as MpvInstance>::get_property, (instance, property), call),
    ensures
        call matches Call::GetProperty { name, format } && name@ == property.name@ && match property.data {
            Data::String(_) => format is String,
            Data::OsdString(_) => format is OsdString,
            Data::Flag(_) => format is Flag,
            Data::Int64(_) => format is Int64,
            Data::Double(_) => format is Double,
            Data::Node(_) => format is Node,
        },
{
}

/// The answer for a property is read in the very format in which it was asked for, and comes back
/// under the name that was asked for.
pub proof fn law_answer_is_read_in_the_format_asked_for<P: MpvMarker>(
    instance: &P,
    property: &Property,
    call: Call,
    reply: PropertyReply,
    codec: Codec,
    result: Result<Property, Error>,
    read_format: MpvFormat,
)
    requires
        call_ensures(<P as MpvInstance>::get_property, (instance, property), call),
        call_ensures(<P as MpvInstance>::got_property, (instance, property, reply, codec), result),
        result matches Ok(read) ==> call_ensures(Data::format, (&read.data,), read_format),
        !(property.data is Node),
    ensures
        result matches Ok(read) ==> (call matches Call::GetProperty { name, format } && name@
            == read.name@ && format == read_format),
{
}

/// What libmpv answered for a property is its value: the text of the bytes for strings, and what
/// the machine word is for flags, integers and doubles. Text in an encoding that is not supported
/// comes back as its bytes, and a request that failed as its error.
pub proof fn law_answer_is_the_value<P: MpvMarker>(
    instance: &P,
    property: &Property,
    reply: PropertyReply,
    codec: Codec,
    result: Result<Property, Error>,
    text: Option<String>,
)
    requires
        call_ensures(<P as MpvInstance>::got_property, (instance, property, reply, codec), result),
        call_ensures(read_text, (&reply.bytes, codec), text),
        -20 <= reply.code <= 0,
    ensures
        reply.code != 0 ==> (result matches Err(Error::Mpv(error)) && error_of_code(
            reply.code as int,
        ) == Some(error)),
        reply.code == 0 ==> value_is_answered(property, reply, text, result),
{
}

/// Whether `result` is the property that was asked for with the value that libmpv answered.
pub open spec fn value_is_answered(
    property: &Property,
    reply: PropertyReply,
    text: Option<String>,
    result: Result<Property, Error>,
) -> bool {
    match property.data {
        Data::String(_) => match text {
            Some(text) => result matches Ok(read) && read.name@ == property.name@ && (
            read.data matches Data::String(held) && held@ == text@),
            None => result matches Err(Error::UnsupportedEncoding(bytes)) && bytes@ == reply.bytes@,
        },
        Data::OsdString(_) => match text {
            Some(text) => result matches Ok(read) && read.name@ == property.name@ && (
            read.data matches Data::OsdString(held) && held@ == text@),
            None => result matches Err(Error::UnsupportedEncoding(bytes)) && bytes@ == reply.bytes@,
        },
        Data::Flag(_) => result matches Ok(read) && read.name@ == property.name@ && read.data
            == Data::Flag(reply.word != 0),
        Data::Int64(_) => result matches Ok(read) && read.name@ == property.name@ && (
        read.data matches Data::Int64(number) && (reply.word - number) % 0x1_0000_0000_0000_0000
            == 0),
        Data::Double(_) => result matches Ok(read) && read.name@ == property.name@ && read.data
            == Data::Double(Double { bits: reply.word }),
        Data::Node(_) => true,
    }
}

/// The same holds where the text of the answer has been read before.
pub proof fn law_answer_with_its_text_is_the_value(
    property: &Property,
    reply: PropertyReply,
    text: Option<String>,
    result: Result<Property, Error>,
)
    requires
        call_ensures(answer_property, (property, reply, text), result),
        -20 <= reply.code <= 0,
    ensures
        reply.code != 0 ==> (result matches Err(Error::Mpv(error)) && error_of_code(
            reply.code as int,
        ) == Some(error)),
        reply.code == 0 ==> value_is_answered(property, reply, text, result),
{
}

/// A flag, an integer or a double that was set is read back, where libmpv answers with the machine
/// word that it was handed.
pub proof fn law_set_value_is_read_back<P: MpvMarker>(
    instance: &P,
    property: Property,
    set: Result<Call, Error>,
    word: u64,
    asked: &Property,
    reply: PropertyReply,
    codec: Codec,
    result: Result<Property, Error>,
)
    requires
        property.data is Flag || property.data is Int64 || property.data is Double,
        call_ensures(<P as MpvInstance>::set_property, (instance, property), set),
        set matches Ok(Call::SetProperty(handed)) ==> call_ensures(
            Data::to_raw,
            (&handed.data,),
            word,
        ),
        asked.name@ == property.name@,
        match property.data {
            Data::Flag(_) => asked.data is Flag,
            Data::Int64(_) => asked.data is Int64,
            _ => asked.data is Double,
        },
        reply.code == 0,
        reply.word == word,
        call_ensures(<P as MpvInstance>::got_property, (instance, asked, reply, codec), result),
    ensures
        result matches Ok(read) && read.name@ == property.name@ && read.data == property.data,
{
    law_property_reaches_libmpv_as_given(instance, property, set);
    let handed = set.unwrap()->SetProperty_0;
    law_value_is_written_as_its_word(&handed.data, word);
    if let Data::Int64(number) = property.data {
        assert(word - number == 0 || word - number == 0x1_0000_0000_0000_0000);
    }
}

/// What an instance shows of its registry is what the registry holds, and it shows nothing exactly
/// if events are not enabled.
pub proof fn law_registry_is_shown_as_it_is<P: MpvMarker>(
    instance: &P,
    initialized: bool,
    check_events: bool,
    to_observe: Option<&Vec<Event>>,
    properties: Option<&vstd::hash_map::StringHashMap<u64>>,
    observed: Option<&Vec<crate::event::InnerEvent>>,
)
    requires
        call_ensures(<P as MpvMarker>::initialized, (instance,), initialized),
        call_ensures(<P as MpvMarker>::check_events, (instance,), check_events),
        call_ensures(<P as MpvMarker>::ev_to_observe, (instance,), to_observe),
        call_ensures(<P as MpvMarker>::ev_to_observe_properties, (instance,), properties),
        call_ensures(<P as MpvMarker>::ev_observed, (instance,), observed),
    ensures
        initialized == instance.is_initialized(),
        match instance.registry() {
            None => !check_events && to_observe is None && properties is None && observed is None,
            Some(registry) => {
                &&& check_events
                &&& to_observe matches Some(events)
                &&& events@.len() == registry.to_observe.len()
                &&& forall|i: int|
                    0 <= i < events@.len() ==> #[trigger] registry.to_observe[i] == events@[i]@
                &&& properties matches Some(numbers)
                &&& numbers@ == registry.properties
                &&& observed matches Some(waiting)
                &&& waiting@.len() == registry.observed.len()
                &&& forall|i: int|
                    0 <= i < waiting@.len() ==> #[trigger] registry.observed[i] == waiting@[i]@
            },
        },
{
}

/// Instances can be created with every number that libmpv answers, configuration can be loaded
/// from every path with a text and refused for the others, and every answer can be read but for a
/// node.
pub proof fn law_what_instances_can_do<'a, P: MpvMarker>(
    check_events: bool,
    opening: &Opening,
    parent: &Parent,
    name: &str,
    client: &ClientOpening,
    path: Path<'a>,
    directory: bool,
    instance: &P,
    property: &Property,
    reply: PropertyReply,
    codec: Codec,
)
    ensures
        opening.codes@.len() <= setup_count(check_events) && (forall|i: int|
            0 <= i < opening.codes@.len() ==> -20 <= #[trigger] opening.codes@[i] <= 0)
            ==> call_requires(Parent::new, (check_events, opening)),
        client.codes@.len() <= setup_count(check_events) && (forall|i: int|
            0 <= i < client.codes@.len() ==> -20 <= #[trigger] client.codes@[i] <= 0)
            ==> call_requires(Parent::new_client, (parent, name, check_events, client)),
        path.relative || directory || path.text is Some ==> call_requires(
            Parent::load_config,
            (parent, path, directory),
        ),
        -20 <= reply.code < 0 || (reply.code == 0 && !(property.data is Node)) ==> call_requires(
            <P as MpvInstance>::got_property,
            (instance, property, reply, codec),
        ),
{
    assert(setup_calls(check_events).len() == setup_count(check_events));
}

} // verus!
