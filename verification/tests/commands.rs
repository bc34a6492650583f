//! The command lines that are sent to the player.

use mpv::call::Call;
use mpv::command::{
    cycle, multiply, Command, Duration, File, FileState, Path, PlaylistOp, Screenshot, Seek, SubOp,
};
use mpv::event::Error;
use mpv::instance::MpvInstance;
use mpv::parent::{Opening, Parent};
use mpv::raw::MpvError;
use mpv::setup::Progress;

fn quiet_parent() -> Parent {
    let opening =
        Opening { built_for: 1, present: Some(1), created: Some(true), codes: vec![0; 22] };
    match Parent::new(false, &opening) {
        Progress::Finished(Ok(parent)) => parent,
        _ => panic!("no parent"),
    }
}

fn line_of(call: Call) -> String {
    match call {
        Call::CommandString(line) => line,
        other => panic!("no command: {:?}", other),
    }
}

fn file_path(text: &str) -> Path<'_> {
    Path { text: Some(text), relative: false }
}

fn seconds(secs: u64) -> Duration {
    Duration { secs, nanos: 0 }
}

fn seek_line(seek: Seek) -> String {
    line_of(quiet_parent().seek(seek).unwrap())
}

fn playlist_line(op: PlaylistOp) -> String {
    match quiet_parent().playlist(&op, &Vec::new()) {
        Progress::Ask(call) => line_of(call),
        Progress::Finished(_) => panic!("no command"),
    }
}

fn subtitle_line(op: SubOp) -> String {
    line_of(quiet_parent().subtitle(op))
}

#[test]
fn command_without_arguments_is_its_name() {
    assert_eq!(Command::new("stop", None).to_line(), "stop");
    assert_eq!(line_of(quiet_parent().command(&Command::new("stop", None))), "stop");
}

#[test]
fn empty_list_of_arguments_adds_nothing() {
    let command = Command::new("stop", Some(vec![]));
    assert_eq!(command.to_line(), "stop");
    assert!(command.clone().args.is_some());
    assert!(Command::new("stop", None).clone().args.is_none());
}

#[test]
fn each_argument_follows_one_space() {
    let args = vec!["volume".to_string(), "".to_string(), "a b".to_string()];
    let command = Command::new("add", Some(args));
    assert_eq!(command.to_line(), "add volume  a b");
    assert_eq!(command.clone().to_line(), "add volume  a b");
}

#[test]
fn seek_by_time() {
    assert_eq!(seek_line(Seek::RelativeForward(seconds(90))), "seek 90 relative");
    assert_eq!(seek_line(Seek::RelativeBackward(seconds(7))), "seek -7 relative");
    assert_eq!(seek_line(Seek::RelativeBackward(seconds(0))), "seek -0 relative");
    assert_eq!(seek_line(Seek::Absolute(seconds(3600))), "seek 3600 absolute");
    assert_eq!(
        seek_line(Seek::Absolute(seconds(u64::MAX))),
        "seek 18446744073709551615 absolute"
    );
}

#[test]
fn fractions_of_a_second_do_not_count() {
    let span = Duration { secs: 12, nanos: 999_999_999 };
    assert_eq!(span.as_secs(), 12);
    assert_eq!(seek_line(Seek::RelativeForward(span)), "seek 12 relative");
    assert_eq!(seek_line(Seek::RelativeBackward(span)), "seek -12 relative");
    assert_eq!(seek_line(Seek::Absolute(span)), "seek 12 absolute");
}

#[test]
fn seek_by_percentage() {
    assert_eq!(seek_line(Seek::RelativePercent(0)), "seek 0 relative-percent");
    assert_eq!(seek_line(Seek::RelativePercent(100)), "seek 100 relative-percent");
    assert_eq!(seek_line(Seek::AbsolutePercent(55)), "seek 55 absolute-percent");
    assert_eq!(seek_line(Seek::AbsolutePercent(100)), "seek 100 absolute-percent");
}

#[test]
fn percentages_above_one_hundred_are_out_of_bounds() {
    let parent = quiet_parent();
    assert_eq!(parent.seek(Seek::RelativePercent(101)).unwrap_err(), Error::OutOfBounds);
    assert_eq!(parent.seek(Seek::AbsolutePercent(usize::MAX)).unwrap_err(), Error::OutOfBounds);
    assert_eq!(Seek::AbsolutePercent(101).command().unwrap_err(), Error::OutOfBounds);
}

#[test]
fn seek_by_step() {
    assert_eq!(seek_line(Seek::Revert), "revert-seek");
    assert_eq!(seek_line(Seek::RevertMark), "revert-seek mark");
    assert_eq!(seek_line(Seek::Frame), "frame-step");
    assert_eq!(seek_line(Seek::FrameBack), "frame-back-step");
}

#[test]
fn screenshots() {
    let parent = quiet_parent();
    let file = file_path("/tmp/a.png");
    assert_eq!(line_of(parent.screenshot(Screenshot::Subtitles)), "screenshot subtitles");
    assert_eq!(
        line_of(parent.screenshot(Screenshot::SubtitlesFile(file))),
        "screenshot /tmp/a.png subtitles"
    );
    assert_eq!(line_of(parent.screenshot(Screenshot::Video)), "screenshot video");
    assert_eq!(
        line_of(parent.screenshot(Screenshot::VideoFile(file))),
        "screenshot /tmp/a.png video"
    );
    assert_eq!(line_of(parent.screenshot(Screenshot::Window)), "screenshot window");
    assert_eq!(
        line_of(parent.screenshot(Screenshot::WindowFile(file))),
        "screenshot /tmp/a.png window"
    );
}

#[test]
fn playlist_operations() {
    let list = file_path("/music/all.m3u");
    assert_eq!(playlist_line(PlaylistOp::NextWeak), "playlist-next weak");
    assert_eq!(playlist_line(PlaylistOp::NextForce), "playlist-next force");
    assert_eq!(playlist_line(PlaylistOp::PreviousWeak), "playlist-previous weak");
    assert_eq!(playlist_line(PlaylistOp::PreviousForce), "playlist-previous force");
    assert_eq!(
        playlist_line(PlaylistOp::LoadlistReplace(list)),
        "loadlist \"/music/all.m3u\" replace"
    );
    assert_eq!(
        playlist_line(PlaylistOp::LoadlistAppend(list)),
        "loadlist \"/music/all.m3u\" append"
    );
    assert_eq!(playlist_line(PlaylistOp::Clear), "playlist-clear");
    assert_eq!(playlist_line(PlaylistOp::RemoveCurrent), "playlist-remove current");
    assert_eq!(playlist_line(PlaylistOp::RemoveIndex(10)), "playlist-remove 10");
    assert_eq!(playlist_line(PlaylistOp::Move((1, 22))), "playlist-move 1 22");
    assert_eq!(playlist_line(PlaylistOp::Shuffle), "playlist-shuffle");
}

#[test]
fn single_playlist_operation_ends_with_its_answer() {
    let parent = quiet_parent();
    assert!(matches!(
        parent.playlist(&PlaylistOp::Clear, &vec![0]),
        Progress::Finished(Ok(()))
    ));
    match parent.playlist(&PlaylistOp::Clear, &vec![-12]) {
        Progress::Finished(Err(error)) => assert_eq!(error, Error::Mpv(MpvError::Command)),
        _ => panic!("no error"),
    }
}

#[test]
fn files_are_loaded_one_after_the_other() {
    let parent = quiet_parent();
    let files = [
        File::new(file_path("/a b.mkv"), FileState::Replace, None),
        File::new(file_path("/c.mkv"), FileState::Append, Some("start=10")),
        File::new(file_path("/d.mkv"), FileState::AppendPlay, None),
    ];
    let op = PlaylistOp::Loadfiles(&files);
    let mut codes = Vec::new();
    let mut lines = Vec::new();
    while let Progress::Ask(call) = parent.playlist(&op, &codes) {
        lines.push(line_of(call));
        codes.push(0);
    }
    assert_eq!(
        lines,
        vec![
            "loadfile \"/a b.mkv\" replace ",
            "loadfile \"/c.mkv\" append start=10",
            "loadfile \"/d.mkv\" append-play ",
        ]
    );
    assert!(matches!(parent.playlist(&op, &codes), Progress::Finished(Ok(()))));
}

#[test]
fn failure_to_load_names_the_first_file_that_failed() {
    let parent = quiet_parent();
    let file = File::new(file_path("/a.mkv"), FileState::Append, None);
    let files = [file, file, file];
    let op = PlaylistOp::Loadfiles(&files);
    match parent.playlist(&op, &vec![0, -13]) {
        Progress::Finished(Err(error)) => assert_eq!(
            error,
            Error::Loadfiles((1, Box::new(Error::Mpv(MpvError::LoadingFailed))))
        ),
        _ => panic!("no error"),
    }
}

#[test]
fn no_files_are_loaded_at_once() {
    let files: [File; 0] = [];
    assert!(matches!(
        quiet_parent().playlist(&PlaylistOp::Loadfiles(&files), &Vec::new()),
        Progress::Finished(Ok(()))
    ));
}

#[test]
fn words_of_file_states() {
    assert_eq!(FileState::Replace.val(), "replace");
    assert_eq!(FileState::Append.val(), "append");
    assert_eq!(FileState::AppendPlay.val(), "append-play");
}

#[test]
fn subtitles_are_added() {
    let sub = file_path("/s u.srt");
    assert_eq!(subtitle_line(SubOp::AddSelect(sub, None, None)), "sub-add \"/s u.srt\" select");
    assert_eq!(
        subtitle_line(SubOp::AddAuto(sub, Some("Title"), None)),
        "sub-add \"/s u.srt\" auto Title"
    );
    assert_eq!(
        subtitle_line(SubOp::AddCached(sub, None, Some("eng"))),
        "sub-add \"/s u.srt\" cached \"\" eng"
    );
    assert_eq!(
        subtitle_line(SubOp::AddSelect(sub, Some("Title"), Some("eng"))),
        "sub-add \"/s u.srt\" select Title eng"
    );
}

#[test]
fn language_never_stands_in_the_place_of_the_title() {
    let sub = file_path("/s.srt");
    assert_eq!(
        subtitle_line(SubOp::AddSelect(sub, None, Some("en"))),
        "sub-add \"/s.srt\" select \"\" en"
    );
    assert_eq!(
        subtitle_line(SubOp::AddSelect(sub, None, Some("en"))),
        subtitle_line(SubOp::AddSelect(sub, Some("\"\""), Some("en")))
    );
    assert_eq!(
        subtitle_line(SubOp::AddSelect(sub, Some("en"), None)),
        "sub-add \"/s.srt\" select en"
    );
}

#[test]
fn subtitle_tracks() {
    assert_eq!(subtitle_line(SubOp::Remove(None)), "sub-remove");
    assert_eq!(subtitle_line(SubOp::Remove(Some(3))), "sub-remove 3");
    assert_eq!(subtitle_line(SubOp::Reload(None)), "sub-reload");
    assert_eq!(subtitle_line(SubOp::Reload(Some(0))), "sub-reload 0");
    assert_eq!(subtitle_line(SubOp::Step(5)), "sub-step 5");
    assert_eq!(subtitle_line(SubOp::Step(-5)), "sub-step -5");
    assert_eq!(
        subtitle_line(SubOp::Step(isize::MIN)),
        format!("sub-step {}", isize::MIN)
    );
    assert_eq!(subtitle_line(SubOp::SeekForward), "sub-seek 1");
    assert_eq!(subtitle_line(SubOp::SeekBackward), "sub-seek -1");
}

#[test]
fn properties_are_cycled_and_multiplied() {
    let parent = quiet_parent();
    assert_eq!(line_of(parent.cycle("sub", true)), "cycle sub up");
    assert_eq!(line_of(parent.cycle("sub", false)), "cycle sub down");
    assert_eq!(line_of(parent.multiply("speed", 2)), "multiply speed 2");
    assert_eq!(cycle("mute", true).to_line(), "cycle mute up");
    assert_eq!(multiply("speed", 0).to_line(), "multiply speed 0");
}
