//! Events, the data they carry, and errors.

use vstd::pervasive::unreached;
use vstd::prelude::*;

use crate::data::{Data, DataModel};
use crate::raw::{error_of_code, known_code, MpvError, MpvEventId, MpvLogLevel};

verus! {

/// Represents the data of an `Event::LogMessage`.
#[derive(Debug, PartialEq, Eq)]
pub struct LogMessage {
    pub prefix: String,
    pub level: String,
    pub text: String,
    pub log_level: MpvLogLevel,
}

/// Represents the reason an `Event::EndFile` was fired.
#[derive(Clone, Copy, Debug, PartialEq, Eq, Structural)]
pub enum EndFileReason {
    Eof,
    Stop,
    Quit,
    Error,
    Redirect,
}

/// Represents the data of an `Event::EndFile`. `error` is `Some` if `EndFileReason` is `Error`.
#[derive(Debug, PartialEq)]
pub struct EndFile {
    pub reason: EndFileReason,
    pub error: Option<Error>,
}

/// Represents the data of an `Event::PropertyChange`. The `data` field is equal to the value of
/// the property.
///
/// Partial equality only implies that the names are equal.
#[derive(Debug)]
pub struct Property {
    pub name: String,
    pub data: Data,
}

/// Represents an event returned by `EventIter`.
#[derive(Debug, PartialEq)]
pub enum Event {
    LogMessage(Option<LogMessage>),
    StartFile,
    EndFile(Option<EndFile>),
    FileLoaded,
    Idle,
    Tick,
    VideoReconfig,
    AudioReconfig,
    Seek,
    PlaybackRestart,
    PropertyChange(Property),
}

/// Represents all possible error values returned by this crate.
#[derive(Debug, PartialEq)]
pub enum Error {
    /// An internal mpv error.
    Mpv(MpvError),
    /// The core has already been initialized.
    /// This error is also handled by mpv, but results in a failed assertion.
    AlreadyInitialized,
    /// Calling `suspend` on an uninitialized core will deadlock.
    Uninitialized,
    /// All `suspend` calls have already been undone.
    AlreadyResumed,
    /// Some functions only accept absolute paths.
    ExpectedAbsolute,
    /// If a file was expected, but a directory was given.
    ExpectedFile,
    /// The parent was dropped before the clients
    ParentDropped,
    /// If an argument (like a percentage > 100) was out of bounds.
    OutOfBounds,
    /// If a command failed during a `loadfiles` call, contains index of failed command and `Error`.
    Loadfiles((usize, Box<Error>)),
    /// Events are not enabled for this `Mpv` instance.
    EventsDisabled,
    /// This event is already being observed by another `EventIter`.
    AlreadyObserved(Box<Event>),
    /// No `Event` associated with this `EventIter` was found, this means a spurious wakeup.
    NoAssociatedEvent,
    /// Used a `Data::OsdString` while writing.
    OsdStringWrite,
    /// Mpv returned a string that uses an unsupported codec. Inside are the raw bytes cast to u8.
    UnsupportedEncoding(Vec<u8>),
    /// The library was compiled against a different mpv version than what is present on the system.
    VersionMismatch(u32),
    /// Mpv returned null while creating the core.
    Null,
}

/// An event that is kept for the `EventIter` that observes it, with the error it came with.
#[derive(Debug, PartialEq)]
pub struct InnerEvent {
    pub event: Event,
    pub err: Option<Error>,
}

/// What a `LogMessage` says.
pub struct LogMessageModel {
    pub prefix: Seq<char>,
    pub level: Seq<char>,
    pub text: Seq<char>,
    pub log_level: MpvLogLevel,
}

/// What an `EndFile` says.
pub struct EndFileModel {
    pub reason: EndFileReason,
    pub error: Option<ErrorModel>,
}

/// What a `Property` says.
pub struct PropertyModel {
    pub name: Seq<char>,
    pub data: DataModel,
}

/// What an `Event` says.
pub enum EventModel {
    LogMessage(Option<LogMessageModel>),
    StartFile,
    EndFile(Option<EndFileModel>),
    FileLoaded,
    Idle,
    Tick,
    VideoReconfig,
    AudioReconfig,
    Seek,
    PlaybackRestart,
    PropertyChange(PropertyModel),
}

/// What an `Error` says.
pub enum ErrorModel {
    Mpv(MpvError),
    AlreadyInitialized,
    Uninitialized,
    AlreadyResumed,
    ExpectedAbsolute,
    ExpectedFile,
    ParentDropped,
    OutOfBounds,
    Loadfiles(usize, Box<ErrorModel>),
    EventsDisabled,
    AlreadyObserved(Box<EventModel>),
    NoAssociatedEvent,
    OsdStringWrite,
    UnsupportedEncoding(Seq<u8>),
    VersionMismatch(u32),
    Null,
}

/// What an `InnerEvent` says.
pub struct InnerEventModel {
    pub event: EventModel,
    pub err: Option<ErrorModel>,
}

impl View for LogMessage {
    type V = LogMessageModel;

    open spec fn view(&self) -> LogMessageModel {
        LogMessageModel {
            prefix: self.prefix@,
            level: self.level@,
            text: self.text@,
            log_level: self.log_level,
        }
    }
}

impl View for Property {
    type V = PropertyModel;

    open spec fn view(&self) -> PropertyModel {
        PropertyModel { name: self.name@, data: self.data@ }
    }
}

impl EndFile {
    pub open spec fn model(&self) -> EndFileModel
        decreases self,
    {
        EndFileModel {
            reason: self.reason,
            error: match self.error {
                Some(error) => Some(error.model()),
                None => None,
            },
        }
    }

    fn duplicate(&self) -> (copy: Self)
        ensures
            copy.model() == self.model(),
        decreases self,
    {
        EndFile {
            reason: self.reason,
            error: match &self.error {
                Some(error) => Some(error.duplicate()),
                None => None,
            },
        }
    }
}

impl Event {
    pub open spec fn model(&self) -> EventModel
        decreases self,
    {
        match self {
            Event::LogMessage(message) => EventModel::LogMessage(
                match message {
                    Some(message) => Some(message@),
                    None => None,
                },
            ),
            Event::StartFile => EventModel::StartFile,
            Event::EndFile(end) => EventModel::EndFile(
                match end {
                    Some(end) => Some(end.model()),
                    None => None,
                },
            ),
            Event::FileLoaded => EventModel::FileLoaded,
            Event::Idle => EventModel::Idle,
            Event::Tick => EventModel::Tick,
            Event::VideoReconfig => EventModel::VideoReconfig,
            Event::AudioReconfig => EventModel::AudioReconfig,
            Event::Seek => EventModel::Seek,
            Event::PlaybackRestart => EventModel::PlaybackRestart,
            Event::PropertyChange(property) => EventModel::PropertyChange(property@),
        }
    }

    fn duplicate(&self) -> (copy: Self)
        ensures
            copy.model() == self.model(),
        decreases self,
    {
        match self {
            Event::LogMessage(message) => Event::LogMessage(
                match message {
                    Some(message) => Some(message.clone()),
                    None => None,
                },
            ),
            Event::StartFile => Event::StartFile,
            Event::EndFile(end) => Event::EndFile(
                match end {
                    Some(end) => Some(end.duplicate()),
                    None => None,
                },
            ),
            Event::FileLoaded => Event::FileLoaded,
            Event::Idle => Event::Idle,
            Event::Tick => Event::Tick,
            Event::VideoReconfig => Event::VideoReconfig,
            Event::AudioReconfig => Event::AudioReconfig,
            Event::Seek => Event::Seek,
            Event::PlaybackRestart => Event::PlaybackRestart,
            Event::PropertyChange(property) => Event::PropertyChange(property.clone()),
        }
    }
}

impl Error {
    pub open spec fn model(&self) -> ErrorModel
        decreases self,
    {
        match self {
            Error::Mpv(error) => ErrorModel::Mpv(*error),
            Error::AlreadyInitialized => ErrorModel::AlreadyInitialized,
            Error::Uninitialized => ErrorModel::Uninitialized,
            Error::AlreadyResumed => ErrorModel::AlreadyResumed,
            Error::ExpectedAbsolute => ErrorModel::ExpectedAbsolute,
            Error::ExpectedFile => ErrorModel::ExpectedFile,
            Error::ParentDropped => ErrorModel::ParentDropped,
            Error::OutOfBounds => ErrorModel::OutOfBounds,
            Error::Loadfiles(failure) => ErrorModel::Loadfiles(
                failure.0,
                Box::new(failure.1.model()),
            ),
            Error::EventsDisabled => ErrorModel::EventsDisabled,
            Error::AlreadyObserved(event) => ErrorModel::AlreadyObserved(Box::new(event.model())),
            Error::NoAssociatedEvent => ErrorModel::NoAssociatedEvent,
            Error::OsdStringWrite => ErrorModel::OsdStringWrite,
            Error::UnsupportedEncoding(bytes) => ErrorModel::UnsupportedEncoding(bytes@),
            Error::VersionMismatch(version) => ErrorModel::VersionMismatch(*version),
            Error::Null => ErrorModel::Null,
        }
    }

    fn duplicate(&self) -> (copy: Self)
        ensures
            copy.model() == self.model(),
        decreases self,
    {
        match self {
            Error::Mpv(error) => Error::Mpv(*error),
            Error::AlreadyInitialized => Error::AlreadyInitialized,
            Error::Uninitialized => Error::Uninitialized,
            Error::AlreadyResumed => Error::AlreadyResumed,
            Error::ExpectedAbsolute => Error::ExpectedAbsolute,
            Error::ExpectedFile => Error::ExpectedFile,
            Error::ParentDropped => Error::ParentDropped,
            Error::OutOfBounds => Error::OutOfBounds,
            Error::Loadfiles(failure) => Error::Loadfiles(
                (failure.0, Box::new((*failure.1).duplicate())),
            ),
            Error::EventsDisabled => Error::EventsDisabled,
            Error::AlreadyObserved(event) => Error::AlreadyObserved(Box::new((**event).duplicate())),
            Error::NoAssociatedEvent => Error::NoAssociatedEvent,
            Error::OsdStringWrite => Error::OsdStringWrite,
            Error::UnsupportedEncoding(bytes) => Error::UnsupportedEncoding(bytes.clone()),
            Error::VersionMismatch(version) => Error::VersionMismatch(*version),
            Error::Null => Error::Null,
        }
    }
}

impl View for EndFile {
    type V = EndFileModel;

    open spec fn view(&self) -> EndFileModel {
        self.model()
    }
}

impl View for Event {
    type V = EventModel;

    open spec fn view(&self) -> EventModel {
        self.model()
    }
}

impl View for Error {
    type V = ErrorModel;

    open spec fn view(&self) -> ErrorModel {
        self.model()
    }
}

impl View for InnerEvent {
    type V = InnerEventModel;

    open spec fn view(&self) -> InnerEventModel {
        InnerEventModel {
            event: self.event@,
            err: match self.err {
                Some(err) => Some(err@),
                None => None,
            },
        }
    }
}

impl Clone for LogMessage {
    fn clone(&self) -> (copy: Self)
        ensures
            copy@ == self@,
    {
        LogMessage {
            prefix: self.prefix.clone(),
            level: self.level.clone(),
            text: self.text.clone(),
            log_level: self.log_level,
        }
    }
}

impl Clone for Property {
    fn clone(&self) -> (copy: Self)
        ensures
            copy@ == self@,
    {
        Property { name: self.name.clone(), data: self.data.clone() }
    }
}

impl Clone for EndFile {
    fn clone(&self) -> (copy: Self)
        ensures
            copy@ == self@,
    {
        self.duplicate()
    }
}

impl Clone for Event {
    fn clone(&self) -> (copy: Self)
        ensures
            copy@ == self@,
    {
        self.duplicate()
    }
}

impl Clone for Error {
    fn clone(&self) -> (copy: Self)
        ensures
            copy@ == self@,
    {
        self.duplicate()
    }
}

impl Clone for InnerEvent {
    fn clone(&self) -> (copy: Self)
        ensures
            copy@ == self@,
    {
        InnerEvent {
            event: self.event.clone(),
            err: match &self.err {
                Some(err) => Some(err.clone()),
                None => None,
            },
        }
    }
}

impl PartialEq for Property {
    fn eq(&self, other: &Property) -> (equal: bool) {
        self.name == other.name
    }
}

impl vstd::std_specs::cmp::PartialEqSpecImpl for Property {
    open spec fn obeys_eq_spec() -> bool {
        true
    }

    open spec fn eq_spec(&self, other: &Property) -> bool {
        self.name@ == other.name@
    }
}

/// What a result says whose error is an `Error`.
pub open spec fn result_model<T: View>(result: Result<T, Error>) -> Result<T::V, ErrorModel> {
    match result {
        Ok(value) => Ok(value@),
        Err(error) => Err(error@),
    }
}

/// The error that libmpv reports by answering a call with `code`.
pub open spec fn mpv_failure(code: i32) -> ErrorModel
    recommends
        known_code(code as int),
{
    ErrorModel::Mpv(error_of_code(code as int).unwrap())
}

/// Turns the number with which libmpv answered a call into a result: `ret` where the call went
/// well, else the error that libmpv means.
pub fn mpv_err<T>(ret: T, err_val: i32) -> (result: Result<T, Error>)
    requires
        known_code(err_val as int),
    ensures
        match result {
            Ok(value) => err_val == 0 && value == ret,
            Err(error) => err_val != 0 && error@ == mpv_failure(err_val),
        },
{
    if err_val == 0 {
        Ok(ret)
    } else {
        match MpvError::from_i32(err_val) {
            Some(error) => Err(Error::Mpv(error)),
            None => unreached(),
        }
    }
}

impl EventModel {
    /// The kind under which libmpv fires this event.
    pub open spec fn id(self) -> MpvEventId {
        match self {
            EventModel::LogMessage(_) => MpvEventId::LogMessage,
            EventModel::StartFile => MpvEventId::StartFile,
            EventModel::EndFile(_) => MpvEventId::EndFile,
            EventModel::FileLoaded => MpvEventId::FileLoaded,
            EventModel::Idle => MpvEventId::Idle,
            EventModel::Tick => MpvEventId::Tick,
            EventModel::VideoReconfig => MpvEventId::VideoReconfig,
            EventModel::AudioReconfig => MpvEventId::AudioReconfig,
            EventModel::Seek => MpvEventId::Seek,
            EventModel::PlaybackRestart => MpvEventId::PlaybackRestart,
            EventModel::PropertyChange(_) => MpvEventId::PropertyChange,
        }
    }
}

impl Event {
    /// The kind under which libmpv fires this event.
    pub fn as_id(&self) -> (id: MpvEventId)
        ensures
            id == self@.id(),
    {
        match self {
            Event::LogMessage(_) => MpvEventId::LogMessage,
            Event::StartFile => MpvEventId::StartFile,
            Event::EndFile(_) => MpvEventId::EndFile,
            Event::FileLoaded => MpvEventId::FileLoaded,
            Event::Idle => MpvEventId::Idle,
            Event::Tick => MpvEventId::Tick,
            Event::VideoReconfig => MpvEventId::VideoReconfig,
            Event::AudioReconfig => MpvEventId::AudioReconfig,
            Event::Seek => MpvEventId::Seek,
            Event::PlaybackRestart => MpvEventId::PlaybackRestart,
            Event::PropertyChange(_) => MpvEventId::PropertyChange,
        }
    }
}

impl InnerEventModel {
    /// What an `EventIter` hands out for this event: the error where there is one.
    pub open spec fn result(self) -> Result<EventModel, ErrorModel> {
        match self.err {
            Some(err) => Err(err),
            None => Ok(self.event),
        }
    }
}

impl InnerEvent {
    /// What an `EventIter` hands out for this event: the error where there is one.
    pub fn as_result(&self) -> (result: Result<Event, Error>)
        ensures
            result_model(result) == self@.result(),
    {
        match &self.err {
            Some(err) => Err(err.clone()),
            None => Ok(self.event.clone()),
        }
    }

    /// The event itself, whether or not it came with an error.
    pub fn as_event(&self) -> (event: &Event)
        ensures
            *event == self.event,
    {
        &self.event
    }
}

impl Property {
    /// Create a `Property` that is suitable for observing.
    /// Data is used to infer the format of the property, and the value is never used if supplied to
    /// a function of this crate.
    pub fn new(name: &str, data: Data) -> (property: Property)
        ensures
            property.name@ == name@,
            property.data == data,
    {
        Property { name: name.to_owned(), data: data }
    }
}

} // verus!
