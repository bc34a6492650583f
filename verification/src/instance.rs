//! What every instance of the player can do.

use vstd::prelude::*;

use crate::call::{Call, CallModel};
use crate::command::{
    cycle, cycle_command, multiply, multiply_command, Command, CommandModel, PlaylistOp,
    Screenshot, Seek, SubOp,
};
use crate::data::{data_of_word, law_words_are_read_as_written, word_of_data, Data, DataModel};
use crate::event::{
    mpv_err, mpv_failure, result_model, Error, ErrorModel, Event, EventModel, Property,
    PropertyModel,
};
use crate::observe::{
    claims, events_model, next_property, observe_request, Observation, RegistryModel,
};
use crate::parent::{MpvMarker, ParentModel};
use crate::raw::{known_code, MpvEventId};
use crate::setup::{
    find_failure, first_failure, law_first_failure_is_the_first, Progress, ProgressModel,
};
use crate::text::{
    decode, law_ascii_is_read_as_itself, law_utf8_is_read_as_itself, marked_text, text_of, utf8_str,
    utf8_text,
};

verus! {

/// The call that switches the events of one kind on or off, or why there is none.
pub open spec fn event_request(
    check_events: bool,
    kind: MpvEventId,
    enable: bool,
) -> Result<CallModel, ErrorModel> {
    if check_events {
        Ok(CallModel::RequestEvent { kind: kind, enable: enable })
    } else {
        Err(ErrorModel::EventsDisabled)
    }
}

/// The call that sets a property, or why there is none.
pub open spec fn property_call(property: PropertyModel) -> Result<CallModel, ErrorModel> {
    if property.data is OsdString {
        Err(ErrorModel::OsdStringWrite)
    } else {
        Ok(CallModel::SetProperty(property))
    }
}

/// The call that asks for the value of a property.
pub open spec fn property_request(property: PropertyModel) -> CallModel {
    CallModel::GetProperty { name: property.name, format: property.data.format() }
}

/// The property by which playback is paused.
pub open spec fn pause_property(paused: bool) -> PropertyModel {
    PropertyModel { name: "pause"@, data: DataModel::Flag(paused) }
}

/// The call that runs a command.
pub open spec fn command_call(command: CommandModel) -> CallModel {
    CallModel::CommandString(command.line())
}

/// How strings that libmpv hands out are encoded.
#[derive(Clone, Copy, Debug, PartialEq, Eq, Structural)]
pub enum Codec {
    /// In UTF-8, as mpv claims of all strings on Windows.
    Utf8,
    /// As a byte order mark says, and in ASCII without one.
    Marked,
}

/// What libmpv answered to the request for the value of a property: a number, and, where the
/// request went well, the bytes of a string without the final zero byte, or a machine word.
pub struct PropertyReply {
    pub code: i32,
    pub bytes: Vec<u8>,
    pub word: u64,
}

/// The text of a string that libmpv answered, if its encoding is supported.
pub open spec fn reply_text(bytes: Seq<u8>, codec: Codec) -> Option<Seq<char>> {
    match codec {
        Codec::Utf8 => utf8_text(bytes),
        Codec::Marked => marked_text(bytes),
    }
}

/// The property that was asked for, with the value that libmpv answered. `text` is the text of the
/// answer, which counts for strings.
pub open spec fn answered_property(
    asked: PropertyModel,
    reply: PropertyReply,
    text: Option<Seq<char>>,
) -> Result<PropertyModel, ErrorModel> {
    if reply.code != 0 {
        Err(mpv_failure(reply.code))
    } else {
        match asked.data {
            DataModel::String(_) => match text {
                Some(text) => Ok(PropertyModel { data: DataModel::String(text), ..asked }),
                None => Err(ErrorModel::UnsupportedEncoding(reply.bytes@)),
            },
            DataModel::OsdString(_) => match text {
                Some(text) => Ok(PropertyModel { data: DataModel::OsdString(text), ..asked }),
                None => Err(ErrorModel::UnsupportedEncoding(reply.bytes@)),
            },
            _ => Ok(
                PropertyModel { data: data_of_word(asked.data.format(), reply.word), ..asked },
            ),
        }
    }
}

/// Whether the answer to the request for a property can be read: libmpv uses its number, and the
/// value is no node.
pub open spec fn can_answer(asked: PropertyModel, code: i32) -> bool {
    known_code(code as int) && (code == 0 ==> !(asked.data is Node))
}

/// Reads the string that libmpv answered, if its encoding is supported.
pub fn read_text(bytes: &Vec<u8>, codec: Codec) -> (text: Option<String>)
    ensures
        text_of(text) == reply_text(bytes@, codec),
{
    match codec {
        Codec::Utf8 => match utf8_str(bytes.as_slice()) {
            Some(text) => Some(text.to_owned()),
            None => None,
        },
        Codec::Marked => decode(bytes.as_slice()),
    }
}

/// Makes the property that was asked for of what libmpv answered. `text` is the text of the
/// answer, which counts for strings.
pub fn answer_property(
    asked: &Property,
    reply: PropertyReply,
    text: Option<String>,
) -> (result: Result<Property, Error>)
    requires
        can_answer(asked@, reply.code),
    ensures
        result_model(result) == answered_property(asked@, reply, text_of(text)),
{
    match mpv_err((), reply.code) {
        Err(error) => Err(error),
        Ok(_) => match &asked.data {
            Data::String(_) => match text {
                Some(text) => Ok(Property::new(asked.name.as_str(), Data::String(text))),
                None => Err(Error::UnsupportedEncoding(reply.bytes)),
            },
            Data::OsdString(_) => match text {
                Some(text) => Ok(Property::new(asked.name.as_str(), Data::OsdString(text))),
                None => Err(Error::UnsupportedEncoding(reply.bytes)),
            },
            _ => Ok(
                Property::new(
                    asked.name.as_str(),
                    Data::from_raw(asked.data.format(), reply.word),
                ),
            ),
        },
    }
}

/// How far an operation on the playlist has come when its commands were answered with `codes`. It
/// ends at the first command that fails; where several files are loaded, the error says which.
pub open spec fn playlist_progress(op: PlaylistOp, codes: Seq<i32>) -> ProgressModel<()> {
    match first_failure(codes) {
        Some(i) => ProgressModel::Finished(
            Err(
                if op is Loadfiles {
                    ErrorModel::Loadfiles(i as usize, Box::new(mpv_failure(codes[i])))
                } else {
                    mpv_failure(codes[i])
                },
            ),
        ),
        None => if codes.len() < op.command_count() {
            ProgressModel::Ask(command_call(op.model(codes.len() as int)))
        } else {
            ProgressModel::Finished(Ok(()))
        },
    }
}

/// Whether `codes` answer no more commands than the operation has, each with a number that libmpv
/// uses, and the path in the next command has a text.
pub open spec fn can_progress(op: PlaylistOp, codes: Seq<i32>) -> bool {
    &&& codes.len() <= op.command_count()
    &&& forall|i: int| 0 <= i < codes.len() ==> known_code(#[trigger] codes[i] as int)
    &&& first_failure(codes) is None && codes.len() < op.command_count() ==> op.has_text(
        codes.len() as int,
    )
}

/// Functions that an abstraction of libmpv should cover.
pub trait MpvInstance: MpvMarker {
    /// Enable a given `Event`. Note that any event of `Event` is enabled by default,
    /// except for `Event::Tick`.
    fn enable_event(&self, e: &Event) -> (result: Result<Call, Error>)
        ensures
            result_model(result) == event_request(self.registry() is Some, e@.id(), true),
    ;

    /// Disable a given `Event`.
    fn disable_event(&self, e: &Event) -> (result: Result<Call, Error>)
        ensures
            result_model(result) == event_request(self.registry() is Some, e@.id(), false),
    ;

    /// Observe given `Event`s.
    /// Begins an observation, which becomes an `EventIter` when libmpv has been told of all
    /// properties among the events.
    fn observe_all(&mut self, events: Vec<Event>) -> (result: Result<Observation, Error>)
        ensures
            final(self).is_initialized() == old(self).is_initialized(),
            final(self).suspensions() == old(self).suspensions(),
            match old(self).registry() {
                None => {
                    &&& result matches Err(error)
                    &&& error@ is EventsDisabled
                    &&& final(self).registry() is None
                },
                Some(registry) => match registry.refusal(events_model(events@)) {
                    Some(event) => {
                        &&& result matches Err(error)
                        &&& error@ == ErrorModel::AlreadyObserved(Box::new(event))
                        &&& final(self).registry() == old(self).registry()
                    },
                    None => {
                        &&& result matches Ok(observation)
                        &&& observation.wf()
                        &&& observation.events == events
                        &&& observation.next == next_property(events_model(events@), 0)
                        &&& final(self).registry() == Some(
                            registry.with_events(events_model(events@)),
                        )
                    },
                },
            },
    ;

    /// Send a command to the `Mpv` instance. This uses `mpv_command_string` internally,
    /// so that the syntax is the same as described in the [manual for the input.conf]
    /// (https://mpv.io/manual/master/#list-of-input-commands). It is advised to use the specific
    /// method for each command, because the specific functions may check for
    /// common errors and are generally type checked (enums to specify operations).
    fn command(&self, cmd: &Command) -> (call: Call)
        ensures
            call@ == command_call(cmd@),
    ;

    /// Set the value of a property.
    fn set_property(&self, prop: Property) -> (result: Result<Call, Error>)
        ensures
            result_model(result) == property_call(prop@),
    ;

    /// Get the value of a property: the call that asks for it.
    fn get_property(&self, prop: &Property) -> (call: Call)
        ensures
            call@ == property_request(prop@),
    ;

    /// Get the value of a property: the property with the value that libmpv answered.
    fn got_property(&self, prop: &Property, reply: PropertyReply, codec: Codec) -> (result: Result<
        Property,
        Error,
    >)
        requires
            can_answer(prop@, reply.code),
        ensures
            result_model(result) == answered_property(
                prop@,
                reply,
                reply_text(reply.bytes@, codec),
            ),
    ;

    /// Seek to a position as defined by `Seek`.
    fn seek(&self, seek: Seek) -> (result: Result<Call, Error>)
        ensures
            result_model(result) == match seek.model() {
                Ok(command) => Ok(command_call(command)),
                Err(error) => Err(error),
            },
    ;

    /// Take a screenshot as defined by `Screenshot`.
    fn screenshot(&self, st: Screenshot) -> (call: Call)
        requires
            st.has_text(),
        ensures
            call@ == command_call(st.model()),
    ;

    /// Execute an operation on the playlist as defined by `PlaylistOp`. It is executed step by
    /// step: as long as the result is a call, that call has to be made, and its answer added to
    /// `codes`.
    fn playlist(&self, op: &PlaylistOp, codes: &Vec<i32>) -> (progress: Progress<()>)
        requires
            can_progress(*op, codes@),
        ensures
            progress@ == playlist_progress(*op, codes@),
    ;

    /// Cycle through a given property. `up` specifies direction. On
    /// overflow, set the property back to the minimum, on underflow set it to the maximum.
    fn cycle(&self, property: &str, up: bool) -> (call: Call)
        ensures
            call@ == command_call(cycle_command(property@, up)),
    ;

    /// Multiply any property with any positive factor.
    fn multiply(&self, property: &str, factor: usize) -> (call: Call)
        ensures
            call@ == command_call(multiply_command(property@, factor as nat)),
    ;

    /// Execute an operation as defined by `SubOp`.
    fn subtitle(&self, op: SubOp) -> (call: Call)
        requires
            op.has_text(),
        ensures
            call@ == command_call(op.model()),
    ;

    /// Pause playback at runtime.
    fn pause(&self) -> (result: Result<Call, Error>)
        ensures
            result_model(result) == Ok::<CallModel, ErrorModel>(
                CallModel::SetProperty(pause_property(true)),
            ),
    ;

    /// Unpause playback at runtime.
    fn unpause(&self) -> (result: Result<Call, Error>)
        ensures
            result_model(result) == Ok::<CallModel, ErrorModel>(
                CallModel::SetProperty(pause_property(false)),
            ),
    ;
}

impl<P: MpvMarker> MpvInstance for P {
    fn enable_event(&self, e: &Event) -> (result: Result<Call, Error>) {
        if self.check_events() {
            Ok(Call::RequestEvent { kind: e.as_id(), enable: true })
        } else {
            Err(Error::EventsDisabled)
        }
    }

    fn disable_event(&self, e: &Event) -> (result: Result<Call, Error>) {
        if self.check_events() {
            Ok(Call::RequestEvent { kind: e.as_id(), enable: false })
        } else {
            Err(Error::EventsDisabled)
        }
    }

    fn observe_all(&mut self, events: Vec<Event>) -> (result: Result<Observation, Error>) {
        match self.registry_mut() {
            Some(registry) => registry.observe(events),
            None => Err(Error::EventsDisabled),
        }
    }

    fn command(&self, cmd: &Command) -> (call: Call) {
        Call::CommandString(cmd.to_line())
    }

    fn set_property(&self, prop: Property) -> (result: Result<Call, Error>) {
        match &prop.data {
            Data::OsdString(_) => Err(Error::OsdStringWrite),
            _ => Ok(Call::SetProperty(prop)),
        }
    }

    fn get_property(&self, prop: &Property) -> (call: Call) {
        Call::GetProperty { name: prop.name.clone(), format: prop.data.format() }
    }

    fn got_property(&self, prop: &Property, reply: PropertyReply, codec: Codec) -> (result: Result<
        Property,
        Error,
    >) {
        let text = read_text(&reply.bytes, codec);
        answer_property(prop, reply, text)
    }

    fn seek(&self, seek: Seek) -> (result: Result<Call, Error>) {
        match seek.command() {
            Ok(command) => Ok(self.command(&command)),
            Err(error) => Err(error),
        }
    }

    fn screenshot(&self, st: Screenshot) -> (call: Call) {
        self.command(&st.command())
    }

    fn playlist(&self, op: &PlaylistOp, codes: &Vec<i32>) -> (progress: Progress<()>) {
        match find_failure(codes) {
            Some(i) => match mpv_err((), codes[i]) {
                Ok(_) => Progress::Finished(Ok(())),
                Err(error) => match op {
                    PlaylistOp::Loadfiles(_) => Progress::Finished(
                        Err(Error::Loadfiles((i, Box::new(error)))),
                    ),
                    _ => Progress::Finished(Err(error)),
                },
            },
            None => {
                let i: usize = codes.len();
                let count: usize = match op {
                    PlaylistOp::Loadfiles(files) => files.len(),
                    _ => 1,
                };
                if i < count {
                    Progress::Ask(self.command(&op.command(i)))
                } else {
                    Progress::Finished(Ok(()))
                }
            },
        }
    }

    fn cycle(&self, property: &str, up: bool) -> (call: Call) {
        self.command(&cycle(property, up))
    }

    fn multiply(&self, property: &str, factor: usize) -> (call: Call) {
        self.command(&multiply(property, factor))
    }

    fn subtitle(&self, op: SubOp) -> (call: Call) {
        self.command(&op.command())
    }

    fn pause(&self) -> (result: Result<Call, Error>) {
        self.set_property(Property::new("pause", Data::Flag(true)))
    }

    fn unpause(&self) -> (result: Result<Call, Error>) {
        self.set_property(Property::new("pause", Data::Flag(false)))
    }
}

/// A property that was asked for comes back under its name and in its format.
pub proof fn law_reading_keeps_name_and_format(
    asked: PropertyModel,
    reply: PropertyReply,
    text: Option<Seq<char>>,
)
    requires
        can_answer(asked, reply.code),
    ensures
        answered_property(asked, reply, text) matches Ok(property) ==> {
            &&& property.name == asked.name
            &&& property.data.format() == asked.data.format()
        },
{
}

/// Of a property that is asked for or observed only the name and the format count: with another
/// value in it, libmpv is asked the same, the answer is the same, and the same events are refused
/// and claimed.
pub proof fn law_only_name_and_format_count(
    a: PropertyModel,
    b: PropertyModel,
    reply: PropertyReply,
    text: Option<Seq<char>>,
    registry: RegistryModel,
    event: EventModel,
)
    requires
        a.name == b.name,
        a.data.format() == b.data.format(),
    ensures
        property_request(a) == property_request(b),
        answered_property(a, reply, text) == answered_property(b, reply, text),
        observe_request(registry.properties, a) == observe_request(registry.properties, b),
        registry.observes(EventModel::PropertyChange(a)) == registry.observes(
            EventModel::PropertyChange(b),
        ),
        claims(EventModel::PropertyChange(a), event) == claims(
            EventModel::PropertyChange(b),
            event,
        ),
        claims(event, EventModel::PropertyChange(a)) == claims(
            event,
            EventModel::PropertyChange(b),
        ),
{
}

/// Where libmpv answers with the value that it was handed, a property reads as it was written:
/// flags and numbers always, strings as long as they are ASCII or known to be in UTF-8.
pub proof fn law_reading_undoes_writing(
    written: PropertyModel,
    asked: PropertyModel,
    reply: PropertyReply,
    codec: Codec,
)
    requires
        property_call(written) is Ok,
        !(written.data is Node),
        asked.name == written.name,
        asked.data.format() == written.data.format(),
        reply.code == 0,
        match written.data {
            DataModel::String(text) => {
                &&& reply.bytes@ == vstd::utf8::encode_utf8(text)
                &&& codec is Utf8 || vstd::utf8::is_ascii_chars(text)
            },
            _ => reply.word == word_of_data(written.data),
        },
    ensures
        answered_property(asked, reply, reply_text(reply.bytes@, codec)) == Ok::<
            PropertyModel,
            ErrorModel,
        >(written),
{
    match written.data {
        DataModel::String(text) => {
            if codec is Utf8 {
                law_utf8_is_read_as_itself(text);
            } else {
                law_ascii_is_read_as_itself(text);
            }
        },
        _ => {
            law_words_are_read_as_written(written.data);
        },
    }
}

/// Text for the on-screen display is the only kind of data that is never written.
pub proof fn law_display_text_is_never_written(parent: ParentModel, property: PropertyModel)
    requires
        !parent.initialized,
    ensures
        property_call(property) is Err <==> property.data is OsdString,
        parent.option_call(property) is Err <==> property.data is OsdString,
        property.data is OsdString ==> {
            &&& property_call(property) == Err::<CallModel, ErrorModel>(ErrorModel::OsdStringWrite)
            &&& parent.option_call(property) == Err::<CallModel, ErrorModel>(
                ErrorModel::OsdStringWrite,
            )
        },
{
}

/// Files are loaded one after the other. The first that cannot be loaded ends the operation, and
/// the error names it; it succeeds exactly if every file was loaded.
pub proof fn law_loading_names_the_first_failure(op: PlaylistOp, codes: Seq<i32>)
    requires
        op is Loadfiles,
        can_progress(op, codes),
    ensures
        playlist_progress(op, codes) matches ProgressModel::Finished(Err(error)) ==> {
            &&& error matches ErrorModel::Loadfiles(i, inner)
            &&& i < codes.len()
            &&& codes[i as int] != 0
            &&& *inner == mpv_failure(codes[i as int])
            &&& forall|j: int| 0 <= j < i ==> #[trigger] codes[j] == 0
        },
        (playlist_progress(op, codes) matches ProgressModel::Finished(Ok(_))) <==> {
            &&& codes.len() == op.command_count()
            &&& forall|j: int| 0 <= j < codes.len() ==> #[trigger] codes[j] == 0
        },
{
    law_first_failure_is_the_first(codes);
    if let PlaylistOp::Loadfiles(files) = op {
        assert(files@.len() == files.len());
    }
}

} // verus!
