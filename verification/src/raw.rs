//! The numbered vocabulary of the libmpv client API.

use vstd::prelude::*;

verus! {

/// An error reported by libmpv.
#[derive(Clone, Copy, Debug, PartialEq, Eq, Structural)]
pub enum MpvError {
    Success,
    EventQueueFull,
    NoMem,
    Uninitialized,
    InvalidParameter,
    OptionNotFound,
    OptionFormat,
    OptionError,
    PropertyNotFound,
    PropertyFormat,
    PropertyUnavailable,
    PropertyError,
    Command,
    LoadingFailed,
    AoInitFailed,
    VoInitFailed,
    NothingToPlay,
    UnknownFormat,
    Unsupported,
    NotImplemented,
    Generic,
}

/// The error that libmpv means by the number `code`.
pub open spec fn error_of_code(code: int) -> Option<MpvError> {
    if code == 0 {
        Some(MpvError::Success)
    } else if code == -1 {
        Some(MpvError::EventQueueFull)
    } else if code == -2 {
        Some(MpvError::NoMem)
    } else if code == -3 {
        Some(MpvError::Uninitialized)
    } else if code == -4 {
        Some(MpvError::InvalidParameter)
    } else if code == -5 {
        Some(MpvError::OptionNotFound)
    } else if code == -6 {
        Some(MpvError::OptionFormat)
    } else if code == -7 {
        Some(MpvError::OptionError)
    } else if code == -8 {
        Some(MpvError::PropertyNotFound)
    } else if code == -9 {
        Some(MpvError::PropertyFormat)
    } else if code == -10 {
        Some(MpvError::PropertyUnavailable)
    } else if code == -11 {
        Some(MpvError::PropertyError)
    } else if code == -12 {
        Some(MpvError::Command)
    } else if code == -13 {
        Some(MpvError::LoadingFailed)
    } else if code == -14 {
        Some(MpvError::AoInitFailed)
    } else if code == -15 {
        Some(MpvError::VoInitFailed)
    } else if code == -16 {
        Some(MpvError::NothingToPlay)
    } else if code == -17 {
        Some(MpvError::UnknownFormat)
    } else if code == -18 {
        Some(MpvError::Unsupported)
    } else if code == -19 {
        Some(MpvError::NotImplemented)
    } else if code == -20 {
        Some(MpvError::Generic)
    } else {
        None
    }
}

/// Whether `code` is one of the numbers that libmpv answers with.
pub open spec fn known_code(code: int) -> bool {
    error_of_code(code) is Some
}

impl MpvError {
    /// The number by which libmpv refers to this error.
    pub fn as_val(&self) -> (code: i32)
        ensures
            error_of_code(code as int) == Some(*self),
    {
        match *self {
            MpvError::Success => 0,
            MpvError::EventQueueFull => -1,
            MpvError::NoMem => -2,
            MpvError::Uninitialized => -3,
            MpvError::InvalidParameter => -4,
            MpvError::OptionNotFound => -5,
            MpvError::OptionFormat => -6,
            MpvError::OptionError => -7,
            MpvError::PropertyNotFound => -8,
            MpvError::PropertyFormat => -9,
            MpvError::PropertyUnavailable => -10,
            MpvError::PropertyError => -11,
            MpvError::Command => -12,
            MpvError::LoadingFailed => -13,
            MpvError::AoInitFailed => -14,
            MpvError::VoInitFailed => -15,
            MpvError::NothingToPlay => -16,
            MpvError::UnknownFormat => -17,
            MpvError::Unsupported => -18,
            MpvError::NotImplemented => -19,
            MpvError::Generic => -20,
        }
    }

    /// The error that libmpv means by `code`, if it means any.
    pub fn from_i32(code: i32) -> (error: Option<MpvError>)
        ensures
            error == error_of_code(code as int),
    {
        match code {
            0 => Some(MpvError::Success),
            -1 => Some(MpvError::EventQueueFull),
            -2 => Some(MpvError::NoMem),
            -3 => Some(MpvError::Uninitialized),
            -4 => Some(MpvError::InvalidParameter),
            -5 => Some(MpvError::OptionNotFound),
            -6 => Some(MpvError::OptionFormat),
            -7 => Some(MpvError::OptionError),
            -8 => Some(MpvError::PropertyNotFound),
            -9 => Some(MpvError::PropertyFormat),
            -10 => Some(MpvError::PropertyUnavailable),
            -11 => Some(MpvError::PropertyError),
            -12 => Some(MpvError::Command),
            -13 => Some(MpvError::LoadingFailed),
            -14 => Some(MpvError::AoInitFailed),
            -15 => Some(MpvError::VoInitFailed),
            -16 => Some(MpvError::NothingToPlay),
            -17 => Some(MpvError::UnknownFormat),
            -18 => Some(MpvError::Unsupported),
            -19 => Some(MpvError::NotImplemented),
            -20 => Some(MpvError::Generic),
            _ => None,
        }
    }
}

/// The kind of an event in libmpv's queue.
#[derive(Clone, Copy, Debug, PartialEq, Eq, Structural)]
pub enum MpvEventId {
    NoEvent,
    Shutdown,
    LogMessage,
    GetPropertyReply,
    SetPropertyReply,
    CommandReply,
    StartFile,
    EndFile,
    FileLoaded,
    TracksChanged,
    TrackSwitched,
    Idle,
    Pause,
    Unpause,
    Tick,
    ScriptInputDispatch,
    ClientMessage,
    VideoReconfig,
    AudioReconfig,
    MetadataUpdate,
    Seek,
    PlaybackRestart,
    PropertyChange,
    ChapterChange,
    QueueOverflow,
}

/// The kind of event that libmpv means by the number `number`.
pub open spec fn kind_of_number(number: int) -> Option<MpvEventId> {
    if number == 0 {
        Some(MpvEventId::NoEvent)
    } else if number == 1 {
        Some(MpvEventId::Shutdown)
    } else if number == 2 {
        Some(MpvEventId::LogMessage)
    } else if number == 3 {
        Some(MpvEventId::GetPropertyReply)
    } else if number == 4 {
        Some(MpvEventId::SetPropertyReply)
    } else if number == 5 {
        Some(MpvEventId::CommandReply)
    } else if number == 6 {
        Some(MpvEventId::StartFile)
    } else if number == 7 {
        Some(MpvEventId::EndFile)
    } else if number == 8 {
        Some(MpvEventId::FileLoaded)
    } else if number == 9 {
        Some(MpvEventId::TracksChanged)
    } else if number == 10 {
        Some(MpvEventId::TrackSwitched)
    } else if number == 11 {
        Some(MpvEventId::Idle)
    } else if number == 12 {
        Some(MpvEventId::Pause)
    } else if number == 13 {
        Some(MpvEventId::Unpause)
    } else if number == 14 {
        Some(MpvEventId::Tick)
    } else if number == 15 {
        Some(MpvEventId::ScriptInputDispatch)
    } else if number == 16 {
        Some(MpvEventId::ClientMessage)
    } else if number == 17 {
        Some(MpvEventId::VideoReconfig)
    } else if number == 18 {
        Some(MpvEventId::AudioReconfig)
    } else if number == 19 {
        Some(MpvEventId::MetadataUpdate)
    } else if number == 20 {
        Some(MpvEventId::Seek)
    } else if number == 21 {
        Some(MpvEventId::PlaybackRestart)
    } else if number == 22 {
        Some(MpvEventId::PropertyChange)
    } else if number == 23 {
        Some(MpvEventId::ChapterChange)
    } else if number == 24 {
        Some(MpvEventId::QueueOverflow)
    } else {
        None
    }
}

impl MpvEventId {
    /// The number by which libmpv refers to this kind of event.
    pub fn as_val(self) -> (number: i32)
        ensures
            kind_of_number(number as int) == Some(self),
    {
        match self {
            MpvEventId::NoEvent => 0,
            MpvEventId::Shutdown => 1,
            MpvEventId::LogMessage => 2,
            MpvEventId::GetPropertyReply => 3,
            MpvEventId::SetPropertyReply => 4,
            MpvEventId::CommandReply => 5,
            MpvEventId::StartFile => 6,
            MpvEventId::EndFile => 7,
            MpvEventId::FileLoaded => 8,
            MpvEventId::TracksChanged => 9,
            MpvEventId::TrackSwitched => 10,
            MpvEventId::Idle => 11,
            MpvEventId::Pause => 12,
            MpvEventId::Unpause => 13,
            MpvEventId::Tick => 14,
            MpvEventId::ScriptInputDispatch => 15,
            MpvEventId::ClientMessage => 16,
            MpvEventId::VideoReconfig => 17,
            MpvEventId::AudioReconfig => 18,
            MpvEventId::MetadataUpdate => 19,
            MpvEventId::Seek => 20,
            MpvEventId::PlaybackRestart => 21,
            MpvEventId::PropertyChange => 22,
            MpvEventId::ChapterChange => 23,
            MpvEventId::QueueOverflow => 24,
        }
    }

    /// The kind of event that libmpv means by `number`, if it means any.
    pub fn from_i32(number: i32) -> (kind: Option<MpvEventId>)
        ensures
            kind == kind_of_number(number as int),
    {
        match number {
            0 => Some(MpvEventId::NoEvent),
            1 => Some(MpvEventId::Shutdown),
            2 => Some(MpvEventId::LogMessage),
            3 => Some(MpvEventId::GetPropertyReply),
            4 => Some(MpvEventId::SetPropertyReply),
            5 => Some(MpvEventId::CommandReply),
            6 => Some(MpvEventId::StartFile),
            7 => Some(MpvEventId::EndFile),
            8 => Some(MpvEventId::FileLoaded),
            9 => Some(MpvEventId::TracksChanged),
            10 => Some(MpvEventId::TrackSwitched),
            11 => Some(MpvEventId::Idle),
            12 => Some(MpvEventId::Pause),
            13 => Some(MpvEventId::Unpause),
            14 => Some(MpvEventId::Tick),
            15 => Some(MpvEventId::ScriptInputDispatch),
            16 => Some(MpvEventId::ClientMessage),
            17 => Some(MpvEventId::VideoReconfig),
            18 => Some(MpvEventId::AudioReconfig),
            19 => Some(MpvEventId::MetadataUpdate),
            20 => Some(MpvEventId::Seek),
            21 => Some(MpvEventId::PlaybackRestart),
            22 => Some(MpvEventId::PropertyChange),
            23 => Some(MpvEventId::ChapterChange),
            24 => Some(MpvEventId::QueueOverflow),
            _ => None,
        }
    }
}

/// The format in which libmpv exchanges a value.
#[derive(Clone, Copy, Debug, PartialEq, Eq, Structural)]
pub enum MpvFormat {
    NoFormat,
    String,
    OsdString,
    Flag,
    Int64,
    Double,
    Node,
    NodeArray,
    NodeMap,
    ByteArray,
}

/// The format that libmpv means by the number `number`.
pub open spec fn format_of_number(number: int) -> Option<MpvFormat> {
    if number == 0 {
        Some(MpvFormat::NoFormat)
    } else if number == 1 {
        Some(MpvFormat::String)
    } else if number == 2 {
        Some(MpvFormat::OsdString)
    } else if number == 3 {
        Some(MpvFormat::Flag)
    } else if number == 4 {
        Some(MpvFormat::Int64)
    } else if number == 5 {
        Some(MpvFormat::Double)
    } else if number == 6 {
        Some(MpvFormat::Node)
    } else if number == 7 {
        Some(MpvFormat::NodeArray)
    } else if number == 8 {
        Some(MpvFormat::NodeMap)
    } else if number == 9 {
        Some(MpvFormat::ByteArray)
    } else {
        None
    }
}

impl MpvFormat {
    /// The number by which libmpv refers to this format.
    pub fn as_val(self) -> (number: i32)
        ensures
            format_of_number(number as int) == Some(self),
    {
        match self {
            MpvFormat::NoFormat => 0,
            MpvFormat::String => 1,
            MpvFormat::OsdString => 2,
            MpvFormat::Flag => 3,
            MpvFormat::Int64 => 4,
            MpvFormat::Double => 5,
            MpvFormat::Node => 6,
            MpvFormat::NodeArray => 7,
            MpvFormat::NodeMap => 8,
            MpvFormat::ByteArray => 9,
        }
    }

    /// The format that libmpv means by `number`, if it means any.
    pub fn from_i32(number: i32) -> (format: Option<MpvFormat>)
        ensures
            format == format_of_number(number as int),
    {
        match number {
            0 => Some(MpvFormat::NoFormat),
            1 => Some(MpvFormat::String),
            2 => Some(MpvFormat::OsdString),
            3 => Some(MpvFormat::Flag),
            4 => Some(MpvFormat::Int64),
            5 => Some(MpvFormat::Double),
            6 => Some(MpvFormat::Node),
            7 => Some(MpvFormat::NodeArray),
            8 => Some(MpvFormat::NodeMap),
            9 => Some(MpvFormat::ByteArray),
            _ => None,
        }
    }
}

/// The verbosity at which a log message was written.
#[derive(Clone, Copy, Debug, PartialEq, Eq, Structural)]
pub enum MpvLogLevel {
    NoLevel,
    Fatal,
    Error,
    Warn,
    Info,
    V,
    Debug,
    Trace,
}

/// The verbosity that libmpv means by the number `number`.
pub open spec fn level_of_number(number: int) -> Option<MpvLogLevel> {
    if number == 0 {
        Some(MpvLogLevel::NoLevel)
    } else if number == 10 {
        Some(MpvLogLevel::Fatal)
    } else if number == 20 {
        Some(MpvLogLevel::Error)
    } else if number == 30 {
        Some(MpvLogLevel::Warn)
    } else if number == 40 {
        Some(MpvLogLevel::Info)
    } else if number == 50 {
        Some(MpvLogLevel::V)
    } else if number == 60 {
        Some(MpvLogLevel::Debug)
    } else if number == 70 {
        Some(MpvLogLevel::Trace)
    } else {
        None
    }
}

impl MpvLogLevel {
    /// The verbosity that libmpv means by `number`, if it means any.
    pub fn from_i32(number: i32) -> (level: Option<MpvLogLevel>)
        ensures
            level == level_of_number(number as int),
    {
        match number {
            0 => Some(MpvLogLevel::NoLevel),
            10 => Some(MpvLogLevel::Fatal),
            20 => Some(MpvLogLevel::Error),
            30 => Some(MpvLogLevel::Warn),
            40 => Some(MpvLogLevel::Info),
            50 => Some(MpvLogLevel::V),
            60 => Some(MpvLogLevel::Debug),
            70 => Some(MpvLogLevel::Trace),
            _ => None,
        }
    }
}

/// A node value as libmpv lays it out: the word it holds and the format of that word.
#[derive(Clone, Copy, Debug)]
pub struct MpvNode {
    pub word: u64,
    pub format: MpvFormat,
}

/// Different numbers mean different errors, kinds of events, formats and verbosities.
pub proof fn law_numbers_are_distinct(a: int, b: int)
    requires
        a != b,
    ensures
        error_of_code(a) is Some ==> error_of_code(a) != error_of_code(b),
        kind_of_number(a) is Some ==> kind_of_number(a) != kind_of_number(b),
        format_of_number(a) is Some ==> format_of_number(a) != format_of_number(b),
        level_of_number(a) is Some ==> level_of_number(a) != level_of_number(b),
{
}

} // verus!
