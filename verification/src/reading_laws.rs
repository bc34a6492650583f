//! What is made of the events and numbers that libmpv hands out.

use vstd::prelude::*;
use vstd::utf8::{encode_utf8, valid_utf8};

use crate::data::Data;
use crate::event::{
    mpv_err, EndFile, Error, ErrorModel, Event, EventModel, InnerEvent, LogMessage, Property,
};
use crate::incoming::{
    MpvEvent, MpvEventData, MpvEventEndFile, MpvEventLogMessage, MpvEventProperty,
};
use crate::raw::{error_of_code, MpvEventId};
use crate::text::law_utf8_is_read_as_itself;
use crate::value_laws::{law_format_is_that_of_the_kind, law_value_is_written_as_its_word};

verus! {

/// The view of an event is of the kind of the event, and holds what the event holds.
pub proof fn law_event_is_seen_as_it_is(event: Event)
    ensures
        match event {
            Event::LogMessage(None) => event@ == EventModel::LogMessage(None),
            Event::LogMessage(Some(message)) => event@ == EventModel::LogMessage(Some(message@)),
            Event::StartFile => event@ is StartFile,
            Event::EndFile(None) => event@ == EventModel::EndFile(None),
            Event::EndFile(Some(end)) => event@ == EventModel::EndFile(Some(end@)),
            Event::FileLoaded => event@ is FileLoaded,
            Event::Idle => event@ is Idle,
            Event::Tick => event@ is Tick,
            Event::VideoReconfig => event@ is VideoReconfig,
            Event::AudioReconfig => event@ is AudioReconfig,
            Event::Seek => event@ is Seek,
            Event::PlaybackRestart => event@ is PlaybackRestart,
            Event::PropertyChange(property) => event@ == EventModel::PropertyChange(property@),
        },
{
}

/// The view of an error is of the kind of the error, and holds what the error holds.
pub proof fn law_error_is_seen_as_it_is(error: Error)
    ensures
        match error {
            Error::Mpv(code) => error@ == ErrorModel::Mpv(code),
            Error::AlreadyInitialized => error@ is AlreadyInitialized,
            Error::Uninitialized => error@ is Uninitialized,
            Error::AlreadyResumed => error@ is AlreadyResumed,
            Error::ExpectedAbsolute => error@ is ExpectedAbsolute,
            Error::ExpectedFile => error@ is ExpectedFile,
            Error::ParentDropped => error@ is ParentDropped,
            Error::OutOfBounds => error@ is OutOfBounds,
            Error::Loadfiles(failure) => error@ == ErrorModel::Loadfiles(
                failure.0,
                Box::new((*failure.1)@),
            ),
            Error::EventsDisabled => error@ is EventsDisabled,
            Error::AlreadyObserved(event) => error@ == ErrorModel::AlreadyObserved(
                Box::new((*event)@),
            ),
            Error::NoAssociatedEvent => error@ is NoAssociatedEvent,
            Error::OsdStringWrite => error@ is OsdStringWrite,
            Error::UnsupportedEncoding(bytes) => error@ == ErrorModel::UnsupportedEncoding(bytes@),
            Error::VersionMismatch(version) => error@ == ErrorModel::VersionMismatch(version),
            Error::Null => error@ is Null,
        },
{
}

/// The views of what events carry hold all of it.
pub proof fn law_data_of_events_is_seen_as_it_is(
    message: LogMessage,
    end: EndFile,
    property: Property,
    kept: InnerEvent,
)
    ensures
        message@.prefix == message.prefix@,
        message@.level == message.level@,
        message@.text == message.text@,
        message@.log_level == message.log_level,
        end@.reason == end.reason,
        match end.error {
            Some(error) => end@.error == Some(error@),
            None => end@.error is None,
        },
        property@.name == property.name@,
        property@.data == property.data@,
        kept@.event == kept.event@,
        match kept.err {
            Some(error) => kept@.err == Some(error@),
            None => kept@.err is None,
        },
{
}

/// A copy says what was copied.
pub proof fn law_copies_say_the_same(
    message: &LogMessage,
    message_copy: LogMessage,
    end: &EndFile,
    end_copy: EndFile,
    property: &Property,
    property_copy: Property,
    event: &Event,
    event_copy: Event,
    error: &Error,
    error_copy: Error,
    kept: &InnerEvent,
    kept_copy: InnerEvent,
)
    requires
        call_ensures(<LogMessage as Clone>::clone, (message,), message_copy),
        call_ensures(<EndFile as Clone>::clone, (end,), end_copy),
        call_ensures(<Property as Clone>::clone, (property,), property_copy),
        call_ensures(<Event as Clone>::clone, (event,), event_copy),
        call_ensures(<Error as Clone>::clone, (error,), error_copy),
        call_ensures(<InnerEvent as Clone>::clone, (kept,), kept_copy),
    ensures
        message_copy@ == message@,
        end_copy@ == end@,
        property_copy@ == property@,
        event_copy@ == event@,
        error_copy@ == error@,
        kept_copy@ == kept@,
{
}

/// A call that libmpv answers with zero went well, and yields what it was to yield. Any other
/// answer is the error of that number.
pub proof fn law_answer_is_success_or_its_error<T>(ret: T, code: i32, result: Result<T, Error>)
    requires
        call_ensures(mpv_err::<T>, (ret, code), result),
        -20 <= code <= 0,
    ensures
        code == 0 ==> result == Ok::<T, Error>(ret),
        code != 0 ==> (result matches Err(Error::Mpv(error)) && error_of_code(code as int) == Some(
            error,
        )),
{
}

/// The kind under which an event is fired is that of its own variant, whatever it carries.
pub proof fn law_kind_is_that_of_the_event(event: &Event, kind: MpvEventId)
    requires
        call_ensures(Event::as_id, (event,), kind),
    ensures
        kind is LogMessage <==> event is LogMessage,
        kind is StartFile <==> event is StartFile,
        kind is EndFile <==> event is EndFile,
        kind is FileLoaded <==> event is FileLoaded,
        kind is Idle <==> event is Idle,
        kind is Tick <==> event is Tick,
        kind is VideoReconfig <==> event is VideoReconfig,
        kind is AudioReconfig <==> event is AudioReconfig,
        kind is Seek <==> event is Seek,
        kind is PlaybackRestart <==> event is PlaybackRestart,
        kind is PropertyChange <==> event is PropertyChange,
        kind == event@.id(),
{
}

/// A kept event yields its error if it has one, else the event; and it can be looked at either
/// way.
pub proof fn law_kept_event_yields_its_error_or_itself(
    kept: &InnerEvent,
    result: Result<Event, Error>,
    event: &Event,
)
    requires
        call_ensures(InnerEvent::as_result, (kept,), result),
        call_ensures(InnerEvent::as_event, (kept,), event),
    ensures
        match kept.err {
            Some(error) => result matches Err(yielded) && yielded@ == error@,
            None => result matches Ok(yielded) && yielded@ == kept.event@,
        },
        *event == kept.event,
{
}

/// A property has the name and the data that it is made of; two are equal exactly if their names
/// are.
pub proof fn law_property_has_its_name_and_data(
    name: &str,
    data: Data,
    property: Property,
    other: &Property,
    equal: bool,
)
    requires
        call_ensures(Property::new, (name, data), property),
        call_ensures(<Property as PartialEq>::eq, (&property, other), equal),
    ensures
        property.name@ == name@,
        property.data == data,
        equal <==> name@ == other.name@,
{
}

/// A changed property is read with the value that libmpv handed out: the name that its bytes
/// encode, and the very data of which the format and the machine word are.
pub proof fn law_changed_property_carries_its_value(
    raw: &MpvEventProperty,
    property: Property,
    name: Seq<char>,
    data: &Data,
)
    requires
        call_ensures(Property::from_raw, (raw,), property),
        raw.name@ == encode_utf8(name),
        data is Flag || data is Int64 || data is Double,
        call_ensures(Data::format, (data,), raw.format),
        call_ensures(Data::to_raw, (data,), raw.word),
    ensures
        property.name@ == name,
        property.data == *data,
{
    law_utf8_is_read_as_itself(name);
    law_format_is_that_of_the_kind(data, raw.format);
    law_value_is_written_as_its_word(data, raw.word);
    if let Data::Int64(number) = *data {
        assert(raw.word - number == 0 || raw.word - number == 0x1_0000_0000_0000_0000);
    }
}

/// A changed property holds what the machine word is in the format that came with it.
pub proof fn law_changed_property_is_read_in_its_format(raw: &MpvEventProperty, property: Property)
    requires
        call_ensures(Property::from_raw, (raw,), property),
    ensures
        raw.format is Flag ==> property.data == Data::Flag(raw.word != 0),
        raw.format is Int64 ==> (property.data matches Data::Int64(number) && (raw.word - number)
            % 0x1_0000_0000_0000_0000 == 0),
        raw.format is Double ==> (property.data matches Data::Double(number) && number.bits
            == raw.word),
{
}

/// A log message is read with the texts that its bytes encode, and its verbosity.
pub proof fn law_log_message_is_read(
    raw: &MpvEventLogMessage,
    message: LogMessage,
    prefix: Seq<char>,
    level: Seq<char>,
    text: Seq<char>,
)
    requires
        call_ensures(LogMessage::from_raw, (raw,), message),
        raw.prefix@ == encode_utf8(prefix),
        raw.level@ == encode_utf8(level),
        raw.text@ == encode_utf8(text),
    ensures
        message.prefix@ == prefix,
        message.level@ == level,
        message.text@ == text,
        message.log_level == raw.log_level,
{
    law_utf8_is_read_as_itself(prefix);
    law_utf8_is_read_as_itself(level);
    law_utf8_is_read_as_itself(text);
}

/// The end of a file is read with the reason of its number, and with the error of its number.
/// There is no error exactly if libmpv gives none and the reason is none either.
pub proof fn law_end_of_file_is_read(raw: &MpvEventEndFile, end: EndFile)
    requires
        call_ensures(EndFile::from_raw, (raw,), end),
        raw.reason == 0 || 2 <= raw.reason <= 5,
        -20 <= raw.error <= 0,
    ensures
        end.reason is Eof <==> raw.reason == 0,
        end.reason is Stop <==> raw.reason == 2,
        end.reason is Quit <==> raw.reason == 3,
        end.reason is Error <==> raw.reason == 4,
        end.reason is Redirect <==> raw.reason == 5,
        end.error is None <==> raw.error == 0 && raw.reason != 4,
        end.error matches Some(error) ==> (error matches Error::Mpv(code) && error_of_code(
            raw.error as int,
        ) == Some(code)),
{
}

/// An event can be read exactly if it is of a kind that can be observed, and what it carries is of
/// that kind: texts in UTF-8, numbers that libmpv uses, values of a machine word.
pub proof fn law_which_events_are_readable(event: &MpvEvent, readable: bool)
    requires
        call_ensures(MpvEvent::is_readable, (event,), readable),
    ensures
        readable <==> match event.event_id {
            MpvEventId::LogMessage => event.data matches MpvEventData::LogMessage(message)
                && valid_utf8(message.prefix@) && valid_utf8(message.level@) && valid_utf8(
                message.text@,
            ),
            MpvEventId::EndFile => event.data matches MpvEventData::EndFile(end) && (end.reason == 0
                || 2 <= end.reason <= 5) && -20 <= end.error <= 0,
            MpvEventId::PropertyChange => event.data matches MpvEventData::Property(property)
                && valid_utf8(property.name@) && (property.format is Flag || property.format is Int64
                || property.format is Double),
            MpvEventId::StartFile
            | MpvEventId::FileLoaded
            | MpvEventId::Idle
            | MpvEventId::Tick
            | MpvEventId::VideoReconfig
            | MpvEventId::AudioReconfig
            | MpvEventId::Seek
            | MpvEventId::PlaybackRestart => true,
            _ => false,
        },
        readable == event.readable(),
{
}

/// An event without an error is read as the event of its kind, and what it carries is read with
/// it.
pub proof fn law_event_is_read_as_its_kind(
    event: &MpvEvent,
    result: Result<Event, Error>,
    message: LogMessage,
    end: EndFile,
    property: Property,
)
    requires
        call_ensures(MpvEvent::as_event, (event,), result),
        event.error == 0,
        event.data matches MpvEventData::LogMessage(raw) ==> call_ensures(
            LogMessage::from_raw,
            (&raw,),
            message,
        ),
        event.data matches MpvEventData::EndFile(raw) ==> call_ensures(
            EndFile::from_raw,
            (&raw,),
            end,
        ),
        event.data matches MpvEventData::Property(raw) ==> call_ensures(
            Property::from_raw,
            (&raw,),
            property,
        ),
    ensures
        match event.event_id {
            MpvEventId::LogMessage => event.data is LogMessage ==> (result matches Ok(
                Event::LogMessage(Some(read)),
            ) && read@ == message@),
            MpvEventId::EndFile => event.data is EndFile ==> (result matches Ok(
                Event::EndFile(Some(read)),
            ) && read@ == end@),
            MpvEventId::PropertyChange => event.data is Property ==> (result matches Ok(
                Event::PropertyChange(read),
            ) && read@ == property@),
            MpvEventId::StartFile => result == Ok::<Event, Error>(Event::StartFile),
            MpvEventId::FileLoaded => result == Ok::<Event, Error>(Event::FileLoaded),
            MpvEventId::Idle => result == Ok::<Event, Error>(Event::Idle),
            MpvEventId::Tick => result == Ok::<Event, Error>(Event::Tick),
            MpvEventId::VideoReconfig => result == Ok::<Event, Error>(Event::VideoReconfig),
            MpvEventId::AudioReconfig => result == Ok::<Event, Error>(Event::AudioReconfig),
            MpvEventId::Seek => result == Ok::<Event, Error>(Event::Seek),
            MpvEventId::PlaybackRestart => result == Ok::<Event, Error>(Event::PlaybackRestart),
            _ => true,
        },
{
}

/// An event with the change of a property is read as the change of that name to that very data.
pub proof fn law_event_carries_the_changed_property(
    event: &MpvEvent,
    raw: MpvEventProperty,
    result: Result<Event, Error>,
    name: Seq<char>,
    data: &Data,
)
    requires
        call_ensures(MpvEvent::as_event, (event,), result),
        event.error == 0,
        event.event_id is PropertyChange,
        event.data == MpvEventData::Property(raw),
        raw.name@ == encode_utf8(name),
        data is Flag || data is Int64 || data is Double,
        call_ensures(Data::format, (data,), raw.format),
        call_ensures(Data::to_raw, (data,), raw.word),
    ensures
        result matches Ok(Event::PropertyChange(property)) && property.name@ == name
            && property.data == *data,
{
    law_utf8_is_read_as_itself(name);
    law_format_is_that_of_the_kind(data, raw.format);
    law_value_is_written_as_its_word(data, raw.word);
    if let Data::Int64(number) = *data {
        assert(raw.word - number == 0 || raw.word - number == 0x1_0000_0000_0000_0000);
    }
}

/// An event with an error is read as that error, and kept as what it says beside that error: what
/// it would be read as, had it come without one. Without an error it is kept as what it is read
/// as.
pub proof fn law_error_of_an_event_is_kept_beside_it(
    event: &MpvEvent,
    result: Result<Event, Error>,
    kept: InnerEvent,
    without_error: &MpvEvent,
    read: Result<Event, Error>,
)
    requires
        call_ensures(MpvEvent::as_event, (event,), result),
        call_ensures(MpvEvent::as_inner_event, (event,), kept),
        call_ensures(MpvEvent::as_event, (without_error,), read),
        -20 <= event.error <= 0,
        *without_error == (MpvEvent { error: 0, ..*event }),
    ensures
        event.error == 0 ==> kept.err is None && (result matches Ok(it) && it@ == kept.event@),
        event.error != 0 ==> {
            &&& result matches Err(Error::Mpv(code))
            &&& error_of_code(event.error as int) == Some(code)
            &&& kept.err matches Some(Error::Mpv(kept_code))
            &&& kept_code == code
        },
        read matches Ok(it) && it@ == kept.event@,
{
}

/// Everything that libmpv hands out can be read: texts in UTF-8, its own numbers, and values of a
/// machine word. An event with an error can be yielded whatever it carries.
pub proof fn law_what_can_be_read<T>(
    ret: T,
    code: i32,
    message: &MpvEventLogMessage,
    end: &MpvEventEndFile,
    property: &MpvEventProperty,
    event: &MpvEvent,
    readable: bool,
)
    requires
        call_ensures(MpvEvent::is_readable, (event,), readable),
    ensures
        -20 <= code <= 0 ==> call_requires(mpv_err::<T>, (ret, code)),
        valid_utf8(message.prefix@) && valid_utf8(message.level@) && valid_utf8(message.text@)
            ==> call_requires(LogMessage::from_raw, (message,)),
        (end.reason == 0 || 2 <= end.reason <= 5) && -20 <= end.error <= 0 ==> call_requires(
            EndFile::from_raw,
            (end,),
        ),
        valid_utf8(property.name@) && (property.format is Flag || property.format is Int64
            || property.format is Double) ==> call_requires(Property::from_raw, (property,)),
        -20 <= event.error < 0 || (event.error == 0 && readable) ==> call_requires(
            MpvEvent::as_event,
            (event,),
        ),
        -20 <= event.error <= 0 && readable ==> call_requires(MpvEvent::as_inner_event, (event,)),
{
}

} // verus!
