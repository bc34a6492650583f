//! Events, errors, and what is made of what libmpv hands out.

use mpv::data::Data;
use mpv::event::{
    mpv_err, EndFile, EndFileReason, Error, Event, InnerEvent, LogMessage, Property,
};
use mpv::incoming::{
    MpvEvent, MpvEventData, MpvEventEndFile, MpvEventLogMessage, MpvEventProperty,
};
use mpv::raw::{MpvError, MpvEventId, MpvFormat, MpvLogLevel};

fn plain_event(event_id: MpvEventId, error: i32) -> MpvEvent {
    MpvEvent { event_id, error, data: MpvEventData::Empty }
}

fn raw_message(text: &[u8]) -> MpvEventLogMessage {
    MpvEventLogMessage {
        prefix: b"cplayer".to_vec(),
        level: b"warn".to_vec(),
        text: text.to_vec(),
        log_level: MpvLogLevel::Warn,
    }
}

fn raw_property(name: &[u8], format: MpvFormat, word: u64) -> MpvEventProperty {
    MpvEventProperty { name: name.to_vec(), format, word }
}

fn end_event(reason: i32, error: i32) -> MpvEvent {
    MpvEvent {
        event_id: MpvEventId::EndFile,
        error: 0,
        data: MpvEventData::EndFile(MpvEventEndFile { reason, error }),
    }
}

#[test]
fn zero_is_success() {
    assert_eq!(mpv_err(5, 0), Ok(5));
}

#[test]
fn other_numbers_are_errors() {
    assert_eq!(mpv_err((), -2), Err(Error::Mpv(MpvError::NoMem)));
    assert_eq!(mpv_err((), -20), Err(Error::Mpv(MpvError::Generic)));
}

#[test]
fn events_have_kinds() {
    let property = Property::new("volume", Data::Int64(0));
    assert_eq!(Event::LogMessage(None).as_id(), MpvEventId::LogMessage);
    assert_eq!(Event::StartFile.as_id(), MpvEventId::StartFile);
    assert_eq!(Event::EndFile(None).as_id(), MpvEventId::EndFile);
    assert_eq!(Event::FileLoaded.as_id(), MpvEventId::FileLoaded);
    assert_eq!(Event::Idle.as_id(), MpvEventId::Idle);
    assert_eq!(Event::Tick.as_id(), MpvEventId::Tick);
    assert_eq!(Event::VideoReconfig.as_id(), MpvEventId::VideoReconfig);
    assert_eq!(Event::AudioReconfig.as_id(), MpvEventId::AudioReconfig);
    assert_eq!(Event::Seek.as_id(), MpvEventId::Seek);
    assert_eq!(Event::PlaybackRestart.as_id(), MpvEventId::PlaybackRestart);
    assert_eq!(Event::PropertyChange(property).as_id(), MpvEventId::PropertyChange);
}

#[test]
fn properties_are_equal_by_name() {
    let a = Property::new("volume", Data::Int64(1));
    assert!(a == Property::new("volume", Data::Flag(true)));
    assert!(a != Property::new("speed", Data::Int64(1)));
}

#[test]
fn kept_event_yields_its_error_first() {
    let good = InnerEvent { event: Event::Idle, err: None };
    assert_eq!(good.as_result(), Ok(Event::Idle));
    assert_eq!(good.as_event(), &Event::Idle);
    let bad = InnerEvent { event: Event::Idle, err: Some(Error::Mpv(MpvError::Generic)) };
    assert_eq!(bad.as_result(), Err(Error::Mpv(MpvError::Generic)));
    assert_eq!(bad.as_event(), &Event::Idle);
    assert_eq!(bad.clone(), bad);
}

#[test]
fn log_messages_are_read() {
    let message = LogMessage::from_raw(&raw_message("naïve".as_bytes()));
    assert_eq!(message.prefix, "cplayer");
    assert_eq!(message.level, "warn");
    assert_eq!(message.text, "naïve");
    assert_eq!(message.log_level, MpvLogLevel::Warn);
    let event = MpvEvent {
        event_id: MpvEventId::LogMessage,
        error: 0,
        data: MpvEventData::LogMessage(raw_message("naïve".as_bytes())),
    };
    assert_eq!(event.as_event(), Ok(Event::LogMessage(Some(message))));
}

#[test]
fn ends_of_files_are_read() {
    let reasons = [
        (0, EndFileReason::Eof),
        (2, EndFileReason::Stop),
        (3, EndFileReason::Quit),
        (5, EndFileReason::Redirect),
    ];
    for (number, reason) in reasons {
        let end = EndFile::from_raw(&MpvEventEndFile { reason: number, error: 0 });
        assert_eq!(end, EndFile { reason, error: None });
    }
}

#[test]
fn failed_file_comes_with_its_error() {
    let end = EndFile::from_raw(&MpvEventEndFile { reason: 4, error: -13 });
    assert_eq!(end.reason, EndFileReason::Error);
    assert_eq!(end.error, Some(Error::Mpv(MpvError::LoadingFailed)));
    assert_eq!(end_event(4, -13).as_event(), Ok(Event::EndFile(Some(end))));
}

#[test]
fn failed_file_has_an_error_even_if_libmpv_gives_none() {
    let end = EndFile::from_raw(&MpvEventEndFile { reason: 4, error: 0 });
    assert_eq!(end.reason, EndFileReason::Error);
    assert_eq!(end.error, Some(Error::Mpv(MpvError::Success)));
    let end = EndFile::from_raw(&MpvEventEndFile { reason: 2, error: -13 });
    assert_eq!(end.error, Some(Error::Mpv(MpvError::LoadingFailed)));
}

#[test]
fn changed_properties_are_read() {
    let property = Property::from_raw(&raw_property(b"volume", MpvFormat::Int64, u64::MAX));
    assert_eq!(property.name, "volume");
    assert!(matches!(property.data, Data::Int64(-1)));
    let event = MpvEvent {
        event_id: MpvEventId::PropertyChange,
        error: 0,
        data: MpvEventData::Property(raw_property(b"pause", MpvFormat::Flag, 1)),
    };
    match event.as_event() {
        Ok(Event::PropertyChange(property)) => {
            assert_eq!(property.name, "pause");
            assert!(matches!(property.data, Data::Flag(true)));
        }
        other => panic!("no property: {:?}", other),
    }
}

#[test]
fn plain_events_are_read() {
    let kinds = [
        (MpvEventId::StartFile, Event::StartFile),
        (MpvEventId::FileLoaded, Event::FileLoaded),
        (MpvEventId::Idle, Event::Idle),
        (MpvEventId::Tick, Event::Tick),
        (MpvEventId::VideoReconfig, Event::VideoReconfig),
        (MpvEventId::AudioReconfig, Event::AudioReconfig),
        (MpvEventId::Seek, Event::Seek),
        (MpvEventId::PlaybackRestart, Event::PlaybackRestart),
    ];
    for (kind, event) in kinds {
        assert_eq!(event.as_id(), kind);
        assert_eq!(plain_event(kind, 0).as_event(), Ok(event));
    }
}

#[test]
fn error_of_an_event_comes_before_the_event() {
    let event = plain_event(MpvEventId::Seek, -11);
    assert_eq!(event.as_event(), Err(Error::Mpv(MpvError::PropertyError)));
}

#[test]
fn kept_event_yields_what_it_would_have_yielded_at_once() {
    for error in [0, -11] {
        let event = plain_event(MpvEventId::Seek, error);
        let kept = event.as_inner_event();
        assert_eq!(kept.as_event(), &Event::Seek);
        assert_eq!(kept.as_result(), event.as_event());
    }
}

#[test]
fn readable_events() {
    assert!(plain_event(MpvEventId::Idle, 0).is_readable());
    assert!(!plain_event(MpvEventId::Shutdown, 0).is_readable());
    assert!(!plain_event(MpvEventId::NoEvent, 0).is_readable());
    assert!(!plain_event(MpvEventId::LogMessage, 0).is_readable());
    assert!(!plain_event(MpvEventId::EndFile, 0).is_readable());
    assert!(!plain_event(MpvEventId::PropertyChange, 0).is_readable());
    assert!(end_event(0, 0).is_readable());
    assert!(end_event(5, -20).is_readable());
    assert!(!end_event(1, 0).is_readable());
    assert!(!end_event(6, 0).is_readable());
    assert!(!end_event(0, -21).is_readable());
}

#[test]
fn broken_utf8_is_not_readable() {
    let message = |text: &[u8]| MpvEvent {
        event_id: MpvEventId::LogMessage,
        error: 0,
        data: MpvEventData::LogMessage(raw_message(text)),
    };
    assert!(message(b"text").is_readable());
    assert!(!message(&[0x80]).is_readable());
    let property = |name: &[u8], format| MpvEvent {
        event_id: MpvEventId::PropertyChange,
        error: 0,
        data: MpvEventData::Property(raw_property(name, format, 0)),
    };
    assert!(property(b"speed", MpvFormat::Double).is_readable());
    assert!(!property(&[0xff], MpvFormat::Double).is_readable());
    assert!(!property(b"speed", MpvFormat::String).is_readable());
    assert!(!property(b"speed", MpvFormat::Node).is_readable());
}

#[test]
fn errors_are_cloned_with_all_they_hold() {
    let event = Event::EndFile(Some(EndFile {
        reason: EndFileReason::Error,
        error: Some(Error::UnsupportedEncoding(vec![1, 2])),
    }));
    let errors = [
        Error::AlreadyObserved(Box::new(event)),
        Error::Loadfiles((3, Box::new(Error::VersionMismatch(9)))),
        Error::ParentDropped,
    ];
    for error in &errors {
        assert_eq!(&error.clone(), error);
    }
}
