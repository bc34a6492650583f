//! Parents and clients: how they are created, and what they may do when.

use mpv::call::Call;
use mpv::command::Path;
use mpv::data::{Data, Double};
use mpv::event::{Error, Event, Property};
use mpv::instance::{answer_property, Codec, MpvInstance, PropertyReply};
use mpv::parent::{Client, ClientOpening, MpvMarker, Opening, Parent};
use mpv::raw::{MpvError, MpvEventId, MpvFormat, MpvNode};
use mpv::setup::Progress;

fn opening_with(codes: Vec<i32>) -> Opening {
    Opening { built_for: 65556, present: Some(65556), created: Some(true), codes }
}

fn make_parent(check_events: bool) -> Parent {
    let count = if check_events { 8 } else { 22 };
    match Parent::new(check_events, &opening_with(vec![0; count])) {
        Progress::Finished(Ok(parent)) => parent,
        _ => panic!("no parent"),
    }
}

fn make_client(check_events: bool) -> Client {
    let mut parent = make_parent(false);
    parent.init().unwrap();
    let count = if check_events { 8 } else { 22 };
    let opening = ClientOpening { asked: true, codes: vec![0; count] };
    match parent.new_client("client", check_events, &opening) {
        Progress::Finished(Ok(client)) => client,
        _ => panic!("no client"),
    }
}

fn finished_error<T>(progress: Progress<T>) -> Error {
    match progress {
        Progress::Finished(Err(error)) => error,
        _ => panic!("no error"),
    }
}

fn disabled_kind(call: Call) -> MpvEventId {
    match call {
        Call::RequestEvent { kind, enable: false } => kind,
        other => panic!("no request: {:?}", other),
    }
}

fn deprecated() -> Vec<MpvEventId> {
    vec![
        MpvEventId::TracksChanged,
        MpvEventId::TrackSwitched,
        MpvEventId::Pause,
        MpvEventId::Unpause,
        MpvEventId::ScriptInputDispatch,
        MpvEventId::MetadataUpdate,
        MpvEventId::ChapterChange,
    ]
}

fn reply_of(code: i32, bytes: &[u8], word: u64) -> PropertyReply {
    PropertyReply { code, bytes: bytes.to_vec(), word }
}

#[test]
fn creation_first_asks_for_the_version_then_for_a_core() {
    let mut opening = Opening { built_for: 3, present: None, created: None, codes: Vec::new() };
    assert!(matches!(Parent::new(true, &opening), Progress::Ask(Call::ClientApiVersion)));
    opening.present = Some(3);
    assert!(matches!(Parent::new(true, &opening), Progress::Ask(Call::Create)));
}

#[test]
fn other_version_is_a_mismatch() {
    let opening = Opening { built_for: 3, present: Some(4), created: Some(true), codes: vec![] };
    assert_eq!(finished_error(Parent::new(false, &opening)), Error::VersionMismatch(4));
}

#[test]
fn missing_core_is_null() {
    let opening = Opening { built_for: 3, present: Some(3), created: Some(false), codes: vec![] };
    assert_eq!(finished_error(Parent::new(false, &opening)), Error::Null);
}

#[test]
fn events_are_prepared_where_they_are_wanted() {
    let mut opening = opening_with(Vec::new());
    for kind in deprecated() {
        match Parent::new(true, &opening) {
            Progress::Ask(call) => assert_eq!(disabled_kind(call), kind),
            _ => panic!("no call"),
        }
        opening.codes.push(0);
    }
    assert!(matches!(Parent::new(true, &opening), Progress::Ask(Call::SetWakeupCallback)));
    opening.codes.push(0);
    match Parent::new(true, &opening) {
        Progress::Finished(Ok(parent)) => {
            assert!(!parent.initialized());
            assert!(parent.check_events());
            assert_eq!(parent.ev_to_observe().unwrap().len(), 0);
            assert_eq!(parent.ev_to_observe_properties().unwrap().len(), 0);
            assert_eq!(parent.ev_observed().unwrap().len(), 0);
        }
        _ => panic!("no parent"),
    }
}

#[test]
fn events_are_disabled_where_they_are_not_wanted() {
    let mut kinds = deprecated();
    kinds.extend(vec![
        MpvEventId::LogMessage,
        MpvEventId::GetPropertyReply,
        MpvEventId::SetPropertyReply,
        MpvEventId::CommandReply,
        MpvEventId::StartFile,
        MpvEventId::EndFile,
        MpvEventId::FileLoaded,
        MpvEventId::Idle,
        MpvEventId::ClientMessage,
        MpvEventId::VideoReconfig,
        MpvEventId::AudioReconfig,
        MpvEventId::Seek,
        MpvEventId::PlaybackRestart,
        MpvEventId::PropertyChange,
        MpvEventId::QueueOverflow,
    ]);
    let mut opening = opening_with(Vec::new());
    for kind in kinds {
        match Parent::new(false, &opening) {
            Progress::Ask(call) => assert_eq!(disabled_kind(call), kind),
            _ => panic!("no call"),
        }
        opening.codes.push(0);
    }
    match Parent::new(false, &opening) {
        Progress::Finished(Ok(mut parent)) => {
            assert!(!parent.check_events());
            assert!(parent.ev_to_observe().is_none());
            assert!(parent.ev_to_observe_properties().is_none());
            assert!(parent.ev_observed().is_none());
            assert!(parent.registry_mut().is_none());
        }
        _ => panic!("no parent"),
    }
}

#[test]
fn failed_call_ends_the_creation() {
    assert_eq!(
        finished_error(Parent::new(true, &opening_with(vec![0, 0, -4]))),
        Error::Mpv(MpvError::InvalidParameter)
    );
    assert_eq!(
        finished_error(Parent::new(false, &opening_with(vec![0, 0, 0, 0, 0, 0, 0, 0, -1]))),
        Error::Mpv(MpvError::EventQueueFull)
    );
}

#[test]
fn client_needs_an_initialized_parent() {
    let mut parent = make_parent(false);
    let opening = ClientOpening { asked: false, codes: Vec::new() };
    assert_eq!(finished_error(parent.new_client("c", false, &opening)), Error::Uninitialized);
    parent.init().unwrap();
    match parent.new_client("c", false, &opening) {
        Progress::Ask(Call::CreateClient(name)) => assert_eq!(name, "c"),
        _ => panic!("no call"),
    }
}

#[test]
fn client_prepares_its_own_events() {
    let mut parent = make_parent(false);
    parent.init().unwrap();
    let mut opening = ClientOpening { asked: true, codes: vec![0; 7] };
    assert!(matches!(
        parent.new_client("c", true, &opening),
        Progress::Ask(Call::SetWakeupCallback)
    ));
    match parent.new_client("c", false, &opening) {
        Progress::Ask(call) => assert_eq!(disabled_kind(call), MpvEventId::LogMessage),
        _ => panic!("no call"),
    }
    opening.codes[6] = -20;
    assert_eq!(
        finished_error(parent.new_client("c", true, &opening)),
        Error::Mpv(MpvError::Generic)
    );
    let client = make_client(true);
    assert!(client.initialized());
    assert!(client.check_events());
    assert!(!make_client(false).check_events());
}

#[test]
fn initialization_happens_once() {
    let mut parent = make_parent(false);
    assert!(matches!(parent.init(), Ok(Call::Initialize)));
    assert!(parent.initialized());
    assert_eq!(parent.init().unwrap_err(), Error::AlreadyInitialized);
}

#[test]
fn uninitialized_core_is_not_suspended() {
    let mut parent = make_parent(false);
    assert_eq!(parent.suspend().unwrap_err(), Error::Uninitialized);
    assert_eq!(parent.resume().unwrap_err(), Error::Uninitialized);
}

#[test]
fn each_suspension_takes_one_resume() {
    let mut parent = make_parent(false);
    parent.init().unwrap();
    assert_eq!(parent.resume().unwrap_err(), Error::AlreadyResumed);
    for _ in 0..3 {
        assert!(matches!(parent.suspend(), Ok(Call::Suspend)));
    }
    for _ in 0..3 {
        assert!(matches!(parent.resume(), Ok(Call::Resume)));
    }
    assert_eq!(parent.resume().unwrap_err(), Error::AlreadyResumed);
}

#[test]
fn options_are_set_before_initialization() {
    let mut parent = make_parent(false);
    match parent.set_option(Property::new("volume", Data::Int64(50))) {
        Ok(Call::SetOption(option)) => {
            assert_eq!(option.name, "volume");
            assert!(matches!(option.data, Data::Int64(50)));
        }
        other => panic!("no option: {:?}", other),
    }
    match parent.set_option(Property::new("vo", Data::String("null".to_string()))) {
        Ok(Call::SetOption(option)) => {
            assert_eq!(option.name, "vo");
            assert!(option.data.equals(&Data::String("null".to_string())));
        }
        other => panic!("no option: {:?}", other),
    }
    assert_eq!(
        parent.set_option(Property::new("vo", Data::OsdString(String::new()))).unwrap_err(),
        Error::OsdStringWrite
    );
    parent.init().unwrap();
    assert_eq!(
        parent.set_option(Property::new("volume", Data::Int64(50))).unwrap_err(),
        Error::AlreadyInitialized
    );
    assert_eq!(
        parent.set_option(Property::new("vo", Data::OsdString(String::new()))).unwrap_err(),
        Error::AlreadyInitialized
    );
}

#[test]
fn configuration_is_an_absolute_path_to_a_file() {
    let parent = make_parent(false);
    let absolute = Path { text: Some("/etc/mpv.conf"), relative: false };
    match parent.load_config(absolute, false) {
        Ok(Call::LoadConfigFile(file)) => assert_eq!(file, "/etc/mpv.conf"),
        other => panic!("no file: {:?}", other),
    }
    assert_eq!(parent.load_config(absolute, true).unwrap_err(), Error::ExpectedFile);
    let relative = Path { text: Some("mpv.conf"), relative: true };
    assert_eq!(parent.load_config(relative, false).unwrap_err(), Error::ExpectedAbsolute);
    assert_eq!(parent.load_config(relative, true).unwrap_err(), Error::ExpectedAbsolute);
    let no_text = Path { text: None, relative: true };
    assert_eq!(parent.load_config(no_text, false).unwrap_err(), Error::ExpectedAbsolute);
}

#[test]
fn events_are_switched_on_and_off() {
    let client = make_client(true);
    assert!(matches!(
        client.enable_event(&Event::Tick),
        Ok(Call::RequestEvent { kind: MpvEventId::Tick, enable: true })
    ));
    assert!(matches!(
        client.disable_event(&Event::Seek),
        Ok(Call::RequestEvent { kind: MpvEventId::Seek, enable: false })
    ));
}

#[test]
fn instance_without_events_refuses_them() {
    let mut client = make_client(false);
    assert_eq!(client.enable_event(&Event::Tick).unwrap_err(), Error::EventsDisabled);
    assert_eq!(client.disable_event(&Event::Tick).unwrap_err(), Error::EventsDisabled);
    match client.observe_all(vec![Event::Idle]) {
        Err(error) => assert_eq!(error, Error::EventsDisabled),
        Ok(_) => panic!("observed"),
    }
}

#[test]
fn properties_are_set() {
    let parent = make_parent(false);
    for data in [Data::String("a".to_string()), Data::Flag(true), Data::Int64(-2)] {
        match parent.set_property(Property::new("x", data.clone())) {
            Ok(Call::SetProperty(property)) => {
                assert_eq!(property.name, "x");
                assert!(property.data.equals(&data));
            }
            other => panic!("no property: {:?}", other),
        }
    }
    assert_eq!(
        parent.set_property(Property::new("x", Data::OsdString(String::new()))).unwrap_err(),
        Error::OsdStringWrite
    );
}

#[test]
fn playback_is_paused_and_unpaused() {
    let parent = make_parent(false);
    for (call, paused) in [(parent.pause(), true), (parent.unpause(), false)] {
        match call {
            Ok(Call::SetProperty(property)) => {
                assert_eq!(property.name, "pause");
                assert!(property.data.equals(&Data::Flag(paused)));
            }
            other => panic!("no property: {:?}", other),
        }
    }
}

#[test]
fn properties_are_asked_for_by_name_and_format() {
    let parent = make_parent(false);
    for data in [Data::Int64(1), Data::Int64(2)] {
        match parent.get_property(&Property::new("volume", data)) {
            Call::GetProperty { name, format } => {
                assert_eq!(name, "volume");
                assert_eq!(format, MpvFormat::Int64);
            }
            other => panic!("no request: {:?}", other),
        }
    }
}

#[test]
fn answered_words_are_read_in_the_format_asked_for() {
    let parent = make_parent(false);
    let asked = [
        (Data::Flag(false), 1, Data::Flag(true)),
        (Data::Int64(0), u64::MAX, Data::Int64(-1)),
        (
            Data::Double(Double { bits: 0 }),
            1.25f64.to_bits(),
            Data::Double(Double { bits: 1.25f64.to_bits() }),
        ),
    ];
    for (data, word, value) in asked {
        let property = Property::new("x", data);
        let got = parent.got_property(&property, reply_of(0, &[], word), Codec::Marked).unwrap();
        assert_eq!(got.name, "x");
        assert!(got.data.equals(&value));
    }
}

#[test]
fn answered_text_is_read() {
    let parent = make_parent(false);
    let title = Property::new("title", Data::String(String::new()));
    let display = Property::new("title", Data::OsdString(String::new()));
    let bytes = "トゥッティ！".as_bytes();
    let got = parent.got_property(&title, reply_of(0, b"abc", 0), Codec::Marked).unwrap();
    assert!(got.data.equals(&Data::String("abc".to_string())));
    let got = parent.got_property(&display, reply_of(0, b"abc", 0), Codec::Marked).unwrap();
    assert!(got.data.equals(&Data::OsdString("abc".to_string())));
    let got = parent.got_property(&title, reply_of(0, bytes, 0), Codec::Utf8).unwrap();
    assert!(got.data.equals(&Data::String("トゥッティ！".to_string())));
    let utf16 = [0xff, 0xfe, 0x61, 0x00];
    let got = parent.got_property(&title, reply_of(0, &utf16, 0), Codec::Marked).unwrap();
    assert!(got.data.equals(&Data::String("a".to_string())));
}

#[test]
fn text_in_an_unsupported_encoding_comes_back_as_bytes() {
    let parent = make_parent(false);
    let title = Property::new("title", Data::String(String::new()));
    let display = Property::new("title", Data::OsdString(String::new()));
    let bytes = "ト".as_bytes();
    assert_eq!(
        parent.got_property(&title, reply_of(0, bytes, 0), Codec::Marked).unwrap_err(),
        Error::UnsupportedEncoding(bytes.to_vec())
    );
    assert_eq!(
        parent.got_property(&display, reply_of(0, &[0xff], 0), Codec::Utf8).unwrap_err(),
        Error::UnsupportedEncoding(vec![0xff])
    );
}

#[test]
fn failed_request_for_a_property_is_an_error() {
    let parent = make_parent(false);
    let title = Property::new("title", Data::String(String::new()));
    let node = MpvNode { word: 0, format: MpvFormat::NoFormat };
    let tree = Property::new("metadata", Data::Node(node));
    assert_eq!(
        parent.got_property(&title, reply_of(-10, &[], 0), Codec::Marked).unwrap_err(),
        Error::Mpv(MpvError::PropertyUnavailable)
    );
    assert_eq!(
        parent.got_property(&tree, reply_of(-8, &[], 0), Codec::Marked).unwrap_err(),
        Error::Mpv(MpvError::PropertyNotFound)
    );
}

#[test]
fn text_of_the_answer_counts_for_strings_only() {
    let volume = Property::new("volume", Data::Int64(0));
    let got = answer_property(&volume, reply_of(0, &[0xff], 7), None).unwrap();
    assert!(got.data.equals(&Data::Int64(7)));
    let title = Property::new("title", Data::String(String::new()));
    let got = answer_property(&title, reply_of(0, &[], 7), Some("t".to_string())).unwrap();
    assert!(got.data.equals(&Data::String("t".to_string())));
}
