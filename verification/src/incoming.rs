//! Events as libmpv hands them out, and what is made of them.

use vstd::pervasive::unreached;
use vstd::prelude::*;
use vstd::utf8::{decode_utf8, valid_utf8};

use crate::data::{data_of_word, is_word_format, Data};
use crate::event::{
    mpv_err, mpv_failure, result_model, EndFile, EndFileModel, EndFileReason, Error, ErrorModel,
    Event, EventModel, InnerEvent, InnerEventModel, LogMessage, LogMessageModel, Property,
    PropertyModel,
};
use crate::raw::{known_code, MpvError, MpvEventId, MpvFormat, MpvLogLevel};
use crate::text::utf8_str;

verus! {

/// A log message as libmpv hands it out, its strings without the final zero byte.
#[derive(Debug)]
pub struct MpvEventLogMessage {
    pub prefix: Vec<u8>,
    pub level: Vec<u8>,
    pub text: Vec<u8>,
    pub log_level: MpvLogLevel,
}

/// The end of a file as libmpv hands it out.
#[derive(Clone, Copy, Debug)]
pub struct MpvEventEndFile {
    pub reason: i32,
    pub error: i32,
}

/// A changed property as libmpv hands it out: its name without the final zero byte, and the
/// machine word that holds its value.
#[derive(Debug)]
pub struct MpvEventProperty {
    pub name: Vec<u8>,
    pub format: MpvFormat,
    pub word: u64,
}

/// What an event of libmpv carries.
#[derive(Debug)]
pub enum MpvEventData {
    Empty,
    LogMessage(MpvEventLogMessage),
    EndFile(MpvEventEndFile),
    Property(MpvEventProperty),
}

/// An event as libmpv hands it out.
#[derive(Debug)]
pub struct MpvEvent {
    pub event_id: MpvEventId,
    pub error: i32,
    pub data: MpvEventData,
}

impl MpvEventLogMessage {
    /// Whether all strings of the message are valid UTF-8.
    pub open spec fn readable(&self) -> bool {
        valid_utf8(self.prefix@) && valid_utf8(self.level@) && valid_utf8(self.text@)
    }

    /// What the message says.
    pub open spec fn message(&self) -> LogMessageModel {
        LogMessageModel {
            prefix: decode_utf8(self.prefix@),
            level: decode_utf8(self.level@),
            text: decode_utf8(self.text@),
            log_level: self.log_level,
        }
    }
}

/// The reason that libmpv means by the number `reason`.
pub open spec fn reason_of(reason: int) -> Option<EndFileReason> {
    if reason == 0 {
        Some(EndFileReason::Eof)
    } else if reason == 2 {
        Some(EndFileReason::Stop)
    } else if reason == 3 {
        Some(EndFileReason::Quit)
    } else if reason == 4 {
        Some(EndFileReason::Error)
    } else if reason == 5 {
        Some(EndFileReason::Redirect)
    } else {
        None
    }
}

impl MpvEventEndFile {
    /// Whether both numbers are ones that libmpv uses.
    pub open spec fn readable(&self) -> bool {
        reason_of(self.reason as int) is Some && known_code(self.error as int)
    }

    /// What the end of the file says. It has an error where libmpv gives one, and where the reason
    /// is one.
    pub open spec fn end(&self) -> EndFileModel {
        EndFileModel {
            reason: reason_of(self.reason as int).unwrap(),
            error: if self.error == 0 && self.reason != 4 {
                None
            } else {
                Some(mpv_failure(self.error))
            },
        }
    }
}

impl MpvEventProperty {
    /// Whether the name is valid UTF-8, and the value fits a machine word.
    pub open spec fn readable(&self) -> bool {
        valid_utf8(self.name@) && is_word_format(self.format)
    }

    /// What the property says.
    pub open spec fn property(&self) -> PropertyModel {
        PropertyModel { name: decode_utf8(self.name@), data: data_of_word(self.format, self.word) }
    }
}

impl MpvEvent {
    /// Whether the event is of a kind that `Event` covers, and carries readable data of that kind.
    pub open spec fn readable(&self) -> bool {
        match self.event_id {
            MpvEventId::LogMessage => self.data matches MpvEventData::LogMessage(m)
                && m.readable(),
            MpvEventId::EndFile => self.data matches MpvEventData::EndFile(e) && e.readable(),
            MpvEventId::PropertyChange => self.data matches MpvEventData::Property(p)
                && p.readable(),
            MpvEventId::StartFile
            | MpvEventId::FileLoaded
            | MpvEventId::Idle
            | MpvEventId::Tick
            | MpvEventId::VideoReconfig
            | MpvEventId::AudioReconfig
            | MpvEventId::Seek
            | MpvEventId::PlaybackRestart => true,
            _ => false,
        }
    }

    /// What a readable event says, whether or not it came with an error.
    pub open spec fn event(&self) -> EventModel {
        match self.event_id {
            MpvEventId::LogMessage => EventModel::LogMessage(Some(self.data->LogMessage_0.message())),
            MpvEventId::StartFile => EventModel::StartFile,
            MpvEventId::EndFile => EventModel::EndFile(Some(self.data->EndFile_0.end())),
            MpvEventId::FileLoaded => EventModel::FileLoaded,
            MpvEventId::Idle => EventModel::Idle,
            MpvEventId::Tick => EventModel::Tick,
            MpvEventId::VideoReconfig => EventModel::VideoReconfig,
            MpvEventId::AudioReconfig => EventModel::AudioReconfig,
            MpvEventId::Seek => EventModel::Seek,
            MpvEventId::PlaybackRestart => EventModel::PlaybackRestart,
            _ => EventModel::PropertyChange(self.data->Property_0.property()),
        }
    }

    /// The error that the event came with, if any.
    pub open spec fn failure(&self) -> Option<ErrorModel> {
        if self.error == 0 {
            None
        } else {
            Some(mpv_failure(self.error))
        }
    }

    /// What is handed out for the event: its error where it has one.
    pub open spec fn result(&self) -> Result<EventModel, ErrorModel> {
        match self.failure() {
            Some(error) => Err(error),
            None => Ok(self.event()),
        }
    }

    /// What is kept of the event for another observer.
    pub open spec fn inner(&self) -> InnerEventModel {
        InnerEventModel { event: self.event(), err: self.failure() }
    }
}

fn utf8_string(bytes: &Vec<u8>) -> (text: String)
    requires
        valid_utf8(bytes@),
    ensures
        text@ == decode_utf8(bytes@),
{
    match utf8_str(bytes.as_slice()) {
        Some(text) => text.to_owned(),
        None => unreached(),
    }
}

fn is_utf8(bytes: &Vec<u8>) -> (valid: bool)
    ensures
        valid == valid_utf8(bytes@),
{
    utf8_str(bytes.as_slice()).is_some()
}

fn failure_of(code: i32) -> (failure: Option<Error>)
    requires
        known_code(code as int),
    ensures
        match failure {
            Some(error) => code != 0 && error@ == mpv_failure(code),
            None => code == 0,
        },
{
    match mpv_err((), code) {
        Ok(_) => None,
        Err(error) => Some(error),
    }
}

impl LogMessage {
    /// Reads a log message.
    pub fn from_raw(raw: &MpvEventLogMessage) -> (message: LogMessage)
        requires
            raw.readable(),
        ensures
            message@ == raw.message(),
    {
        LogMessage {
            prefix: utf8_string(&raw.prefix),
            level: utf8_string(&raw.level),
            text: utf8_string(&raw.text),
            log_level: raw.log_level,
        }
    }
}

impl EndFile {
    /// Reads the end of a file.
    pub fn from_raw(raw: &MpvEventEndFile) -> (end: EndFile)
        requires
            raw.readable(),
        ensures
            end@ == raw.end(),
    {
        EndFile {
            reason: match raw.reason {
                0 => EndFileReason::Eof,
                2 => EndFileReason::Stop,
                3 => EndFileReason::Quit,
                4 => EndFileReason::Error,
                _ => EndFileReason::Redirect,
            },
            error: if raw.reason == 4 {
                match MpvError::from_i32(raw.error) {
                    Some(error) => Some(Error::Mpv(error)),
                    None => unreached(),
                }
            } else {
                failure_of(raw.error)
            },
        }
    }
}

impl Property {
    /// Reads a changed property.
    pub fn from_raw(raw: &MpvEventProperty) -> (property: Property)
        requires
            raw.readable(),
        ensures
            property@ == raw.property(),
    {
        Property { name: utf8_string(&raw.name), data: Data::from_raw(raw.format, raw.word) }
    }
}

impl MpvEvent {
    /// Whether the event is of a kind that `Event` covers, and carries readable data of that kind.
    pub fn is_readable(&self) -> (readable: bool)
        ensures
            readable == self.readable(),
    {
        match self.event_id {
            MpvEventId::LogMessage => match &self.data {
                MpvEventData::LogMessage(m) => is_utf8(&m.prefix) && is_utf8(&m.level) && is_utf8(
                    &m.text,
                ),
                _ => false,
            },
            MpvEventId::EndFile => match &self.data {
                MpvEventData::EndFile(e) => (e.reason == 0 || (2 <= e.reason && e.reason <= 5))
                    && MpvError::from_i32(e.error).is_some(),
                _ => false,
            },
            MpvEventId::PropertyChange => match &self.data {
                MpvEventData::Property(p) => is_utf8(&p.name) && match p.format {
                    MpvFormat::Flag | MpvFormat::Int64 | MpvFormat::Double => true,
                    _ => false,
                },
                _ => false,
            },
            MpvEventId::StartFile
            | MpvEventId::FileLoaded
            | MpvEventId::Idle
            | MpvEventId::Tick
            | MpvEventId::VideoReconfig
            | MpvEventId::AudioReconfig
            | MpvEventId::Seek
            | MpvEventId::PlaybackRestart => true,
            _ => false,
        }
    }

    /// Reads what a readable event says, whether or not it came with an error.
    pub(crate) fn read(&self) -> (event: Event)
        requires
            self.readable(),
        ensures
            event@ == self.event(),
    {
        match self.event_id {
            MpvEventId::LogMessage => match &self.data {
                MpvEventData::LogMessage(m) => Event::LogMessage(Some(LogMessage::from_raw(m))),
                _ => unreached(),
            },
            MpvEventId::StartFile => Event::StartFile,
            MpvEventId::EndFile => match &self.data {
                MpvEventData::EndFile(e) => Event::EndFile(Some(EndFile::from_raw(e))),
                _ => unreached(),
            },
            MpvEventId::FileLoaded => Event::FileLoaded,
            MpvEventId::Idle => Event::Idle,
            MpvEventId::Tick => Event::Tick,
            MpvEventId::VideoReconfig => Event::VideoReconfig,
            MpvEventId::AudioReconfig => Event::AudioReconfig,
            MpvEventId::Seek => Event::Seek,
            MpvEventId::PlaybackRestart => Event::PlaybackRestart,
            _ => match &self.data {
                MpvEventData::Property(p) => Event::PropertyChange(Property::from_raw(p)),
                _ => unreached(),
            },
        }
    }

    /// What is handed out for the event: its error where it has one, else what it says.
    pub fn as_event(&self) -> (result: Result<Event, Error>)
        requires
            known_code(self.error as int),
            self.error == 0 ==> self.readable(),
        ensures
            result_model(result) == self.result(),
    {
        match mpv_err((), self.error) {
            Ok(_) => Ok(self.read()),
            Err(error) => Err(error),
        }
    }

    /// What is kept of the event for another observer: what it says, and its error.
    pub fn as_inner_event(&self) -> (inner: InnerEvent)
        requires
            known_code(self.error as int),
            self.readable(),
        ensures
            inner@ == self.inner(),
    {
        InnerEvent { event: self.read(), err: failure_of(self.error) }
    }
}

/// An event that was kept yields what it would have yielded at once.
pub proof fn law_kept_event_yields_the_same(event: MpvEvent)
    ensures
        event.inner().result() == event.result(),
{
}

/// A readable event is read as an event of the kind under which libmpv fired it.
pub proof fn law_reading_keeps_the_kind(event: MpvEvent)
    requires
        event.readable(),
    ensures
        event.event().id() == event.event_id,
{
}

/// The end of a file has an error if its reason is one.
pub proof fn law_failed_file_has_an_error(raw: MpvEventEndFile)
    requires
        raw.readable(),
    ensures
        raw.end().reason is Error ==> raw.end().error is Some,
{
}

} // verus!
