//! What the player is sent for each operation.

use vstd::prelude::*;

use crate::call::Call;
use crate::command::{
    binary_command, bare_command, spaced, texts, unary_command, Command, Duration, File, FileState,
    Path, PlaylistOp, Screenshot, Seek, SubOp,
};
use crate::event::Error;
use crate::instance::MpvInstance;
use crate::parent::MpvMarker;
use crate::raw::error_of_code;
use crate::setup::{first_failure, law_first_failure_is_the_first, Progress};
use crate::text::{decimal, signed_decimal};

verus! {

proof fn lemma_lines(name: Seq<char>, first: Seq<char>, second: Seq<char>)
    ensures
        bare_command(name).line() == name,
        unary_command(name, first).line() == name + " "@ + first,
        binary_command(name, first, second).line() == name + " "@ + first + " "@ + second,
{
    reveal_with_fuel(spaced, 4);
    assert(bare_command(name).line() =~= name);
    assert(seq![first].drop_last() =~= Seq::empty());
    assert(unary_command(name, first).line() =~= name + " "@ + first);
    assert(seq![first, second].drop_last() =~= seq![first]);
    assert(binary_command(name, first, second).line() =~= name + " "@ + first + " "@ + second);
}

/// A command keeps the name and the arguments that it is made of.
pub proof fn law_command_keeps_name_and_arguments<'a>(
    name: &'a str,
    args: Option<Vec<String>>,
    command: Command<'a>,
    copy: Command<'a>,
)
    requires
        call_ensures(Command::new, (name, args), command),
        call_ensures(<Command as Clone>::clone, (&command,), copy),
    ensures
        command.name == name,
        command.args == args,
        copy.name@ == name@,
        match args {
            None => copy.args is None,
            Some(args) => copy.args matches Some(copies) && copies@.len() == args@.len() && forall|
                i: int,
            |
                0 <= i < args@.len() ==> #[trigger] copies@[i]@ == args@[i]@,
        },
{
    if let Some(args) = args {
        let copies = copy.args.unwrap();
        assert(texts(copies@) == texts(args@));
        assert(texts(copies@).len() == texts(args@).len());
        assert forall|i: int| 0 <= i < args@.len() implies #[trigger] copies@[i]@ == args@[i]@ by {
            assert(texts(copies@)[i] == texts(args@)[i]);
        }
    }
}

/// The line of a command without arguments is its name.
pub proof fn law_line_without_arguments_is_the_name<'a>(command: &Command<'a>, line: String)
    requires
        call_ensures(Command::to_line, (command,), line),
        command.args matches Some(args) ==> args@.len() == 0,
    ensures
        line@ == command.name@,
{
    assert(command@.args =~= Seq::empty());
    lemma_lines(command.name@, ""@, ""@);
}

/// One more argument adds one space and the argument to the line, and changes nothing before it.
pub proof fn law_argument_is_added_to_the_line<'a>(
    command: &Command<'a>,
    line: String,
    longer: &Command<'a>,
    longer_line: String,
    arg: String,
)
    requires
        call_ensures(Command::to_line, (command,), line),
        call_ensures(Command::to_line, (longer,), longer_line),
        longer.name@ == command.name@,
        longer.args matches Some(args) && args@ == (match command.args {
            Some(args) => args@,
            None => Seq::empty(),
        }).push(arg),
    ensures
        longer_line@ == line@ + " "@ + arg@,
{
    assert(longer@.args =~= command@.args.push(arg@));
    assert(longer@.args.drop_last() =~= command@.args);
    assert(longer_line@ =~= line@ + " "@ + arg@);
}

/// A command is sent as its line.
pub proof fn law_command_is_sent_as_its_line<'a, P: MpvMarker>(
    instance: &P,
    command: &Command<'a>,
    call: Call,
    line: String,
)
    requires
        call_ensures(<P as MpvInstance>::command, (instance, command), call),
        call_ensures(Command::to_line, (command,), line),
    ensures
        call matches Call::CommandString(sent) && sent@ == line@,
{
}

/// Seeking sends the whole seconds or the percentage in decimal, and how they are meant; backwards
/// they have a minus sign. Other seeks are words alone. More than a hundred percent are out of
/// bounds.
pub proof fn law_seek_sends_what_is_asked_for<P: MpvMarker>(
    instance: &P,
    seek: Seek,
    result: Result<Call, Error>,
)
    requires
        call_ensures(<P as MpvInstance>::seek, (instance, seek), result),
    ensures
        match seek {
            Seek::RelativeForward(d) => result matches Ok(Call::CommandString(line)) && line@
                == "seek"@ + " "@ + decimal(d.secs as nat) + " "@ + "relative"@,
            Seek::RelativeBackward(d) => result matches Ok(Call::CommandString(line)) && line@
                == "seek"@ + " "@ + ("-"@ + decimal(d.secs as nat)) + " "@ + "relative"@,
            Seek::Absolute(d) => result matches Ok(Call::CommandString(line)) && line@ == "seek"@
                + " "@ + decimal(d.secs as nat) + " "@ + "absolute"@,
            Seek::RelativePercent(p) => if p <= 100 {
                result matches Ok(Call::CommandString(line)) && line@ == "seek"@ + " "@ + decimal(
                    p as nat,
                ) + " "@ + "relative-percent"@
            } else {
                result == Err::<Call, Error>(Error::OutOfBounds)
            },
            Seek::AbsolutePercent(p) => if p <= 100 {
                result matches Ok(Call::CommandString(line)) && line@ == "seek"@ + " "@ + decimal(
                    p as nat,
                ) + " "@ + "absolute-percent"@
            } else {
                result == Err::<Call, Error>(Error::OutOfBounds)
            },
            Seek::Revert => result matches Ok(Call::CommandString(line)) && line@ == "revert-seek"@,
            Seek::RevertMark => result matches Ok(Call::CommandString(line)) && line@
                == "revert-seek"@ + " "@ + "mark"@,
            Seek::Frame => result matches Ok(Call::CommandString(line)) && line@ == "frame-step"@,
            Seek::FrameBack => result matches Ok(Call::CommandString(line)) && line@
                == "frame-back-step"@,
        },
{
    match seek {
        Seek::RelativeForward(d) => {
            lemma_lines("seek"@, decimal(d.secs as nat), "relative"@);
        },
        Seek::RelativeBackward(d) => {
            lemma_lines("seek"@, "-"@ + decimal(d.secs as nat), "relative"@);
        },
        Seek::Absolute(d) => {
            lemma_lines("seek"@, decimal(d.secs as nat), "absolute"@);
        },
        Seek::RelativePercent(p) => {
            lemma_lines("seek"@, decimal(p as nat), "relative-percent"@);
        },
        Seek::AbsolutePercent(p) => {
            lemma_lines("seek"@, decimal(p as nat), "absolute-percent"@);
        },
        Seek::Revert => {
            lemma_lines("revert-seek"@, ""@, ""@);
        },
        Seek::RevertMark => {
            lemma_lines("revert-seek"@, "mark"@, ""@);
        },
        Seek::Frame => {
            lemma_lines("frame-step"@, ""@, ""@);
        },
        Seek::FrameBack => {
            lemma_lines("frame-back-step"@, ""@, ""@);
        },
    }
}

/// The command of a seek makes the line that is sent, and is refused where the seek is.
pub proof fn law_command_of_a_seek_is_sent<P: MpvMarker>(
    instance: &P,
    seek: Seek,
    result: Result<Call, Error>,
    command: Result<Command<'static>, Error>,
    line: String,
)
    requires
        call_ensures(<P as MpvInstance>::seek, (instance, seek), result),
        call_ensures(Seek::command, (&seek,), command),
        command matches Ok(made) ==> call_ensures(Command::to_line, (&made,), line),
    ensures
        command is Ok <==> result is Ok,
        command is Ok ==> (result matches Ok(Call::CommandString(sent)) && sent@ == line@),
{
}

/// A span of time has the whole seconds that it was given.
pub proof fn law_whole_seconds_are_those_given(span: &Duration, secs: u64)
    requires
        call_ensures(Duration::as_secs, (span,), secs),
    ensures
        secs == span.secs,
{
}

/// A screenshot is sent with what it is to show, behind the path of the file where there is one.
pub proof fn law_screenshot_sends_path_and_content<'a, P: MpvMarker>(
    instance: &P,
    shot: Screenshot<'a>,
    call: Call,
)
    requires
        call_ensures(<P as MpvInstance>::screenshot, (instance, shot), call),
    ensures
        call matches Call::CommandString(line) && match shot {
            Screenshot::Subtitles => line@ == "screenshot"@ + " "@ + "subtitles"@,
            Screenshot::SubtitlesFile(p) => p.text matches Some(text) ==> line@ == "screenshot"@
                + " "@ + text@ + " "@ + "subtitles"@,
            Screenshot::Video => line@ == "screenshot"@ + " "@ + "video"@,
            Screenshot::VideoFile(p) => p.text matches Some(text) ==> line@ == "screenshot"@ + " "@
                + text@ + " "@ + "video"@,
            Screenshot::Window => line@ == "screenshot"@ + " "@ + "window"@,
            Screenshot::WindowFile(p) => p.text matches Some(text) ==> line@ == "screenshot"@
                + " "@ + text@ + " "@ + "window"@,
        },
{
    let text = match shot {
        Screenshot::SubtitlesFile(p) | Screenshot::VideoFile(p) | Screenshot::WindowFile(p) =>
            p.text.unwrap()@,
        _ => ""@,
    };
    lemma_lines("screenshot"@, text, "subtitles"@);
    lemma_lines("screenshot"@, text, "video"@);
    lemma_lines("screenshot"@, text, "window"@);
    lemma_lines("screenshot"@, "subtitles"@, ""@);
    lemma_lines("screenshot"@, "video"@, ""@);
    lemma_lines("screenshot"@, "window"@, ""@);
}

/// A file keeps what it is made of.
pub proof fn law_file_keeps_what_it_is_made_of<'a>(
    path: Path<'a>,
    state: FileState,
    options: Option<&'a str>,
    file: File<'a>,
)
    requires
        call_ensures(File::new, (path, state, options), file),
    ensures
        file.path == path,
        file.state == state,
        file.options == options,
{
}

/// The states of a file have their words.
pub proof fn law_states_have_their_words(state: &FileState, word: &str)
    requires
        call_ensures(FileState::val, (state,), word),
    ensures
        state is Replace ==> word@ == "replace"@,
        state is Append ==> word@ == "append"@,
        state is AppendPlay ==> word@ == "append-play"@,
{
}

/// The line that loads a file has its path between quotes, then the word of its state, and ends
/// with its options. Without options it ends with the space in front of them.
pub proof fn law_file_is_loaded_with_state_and_options<'a>(
    file: &File<'a>,
    command: Command<'static>,
    line: String,
    word: &str,
)
    requires
        file.path.text is Some,
        call_ensures(File::command, (file,), command),
        call_ensures(Command::to_line, (&command,), line),
        call_ensures(FileState::val, (&file.state,), word),
    ensures
        line@ == "loadfile"@ + " "@ + "\""@ + file.path.text.unwrap()@ + "\""@ + " "@ + word@ + " "@
            + (match file.options {
            Some(options) => options@,
            None => Seq::empty(),
        }),
{
    reveal_with_fuel(spaced, 5);
    reveal_strlit("");
    let args = command@.args;
    assert(args.len() == 3);
    assert(args.drop_last() =~= seq![args[0], args[1]]);
    assert(args.drop_last().drop_last() =~= seq![args[0]]);
    assert(args.drop_last().drop_last().drop_last() =~= Seq::empty());
    assert(line@ =~= "loadfile"@ + " "@ + "\""@ + file.path.text.unwrap()@ + "\""@ + " "@ + word@
        + " "@ + (match file.options {
        Some(options) => options@,
        None => Seq::empty(),
    }));
}

/// The options of a file are the end of its line, whatever its path and its state: without them
/// the line is the same up to there.
pub proof fn law_options_end_the_line<'a>(
    with: &File<'a>,
    with_command: Command<'static>,
    with_line: String,
    without: &File<'a>,
    without_command: Command<'static>,
    without_line: String,
    options: &'a str,
)
    requires
        with.path.text is Some,
        with.options == Some(options),
        *without == (File { options: None, ..*with }),
        call_ensures(File::command, (with,), with_command),
        call_ensures(Command::to_line, (&with_command,), with_line),
        call_ensures(File::command, (without,), without_command),
        call_ensures(Command::to_line, (&without_command,), without_line),
    ensures
        with_line@ == without_line@ + options@,
{
    reveal_with_fuel(spaced, 5);
    reveal_strlit("");
    let a = with_command@.args;
    let b = without_command@.args;
    assert(a.drop_last() =~= b.drop_last());
    assert(with_line@ =~= without_line@ + options@);
}

/// The lines of the operations on the playlist that take one command: words, paths between quotes,
/// and positions in decimal, in the order in which they are given.
pub proof fn law_playlist_sends_what_is_asked_for<'a, P: MpvMarker>(
    instance: &P,
    op: &PlaylistOp<'a>,
    codes: &Vec<i32>,
    progress: Progress<()>,
)
    requires
        !(op is Loadfiles),
        codes@.len() == 0,
        call_ensures(<P as MpvInstance>::playlist, (instance, op, codes), progress),
    ensures
        progress matches Progress::Ask(Call::CommandString(line)) && match *op {
            PlaylistOp::NextWeak => line@ == "playlist-next"@ + " "@ + "weak"@,
            PlaylistOp::NextForce => line@ == "playlist-next"@ + " "@ + "force"@,
            PlaylistOp::PreviousWeak => line@ == "playlist-previous"@ + " "@ + "weak"@,
            PlaylistOp::PreviousForce => line@ == "playlist-previous"@ + " "@ + "force"@,
            PlaylistOp::Loadfiles(_) => true,
            PlaylistOp::LoadlistReplace(p) => p.text matches Some(text) ==> line@ == "loadlist"@
                + " "@ + ("\""@ + text@ + "\""@) + " "@ + "replace"@,
            PlaylistOp::LoadlistAppend(p) => p.text matches Some(text) ==> line@ == "loadlist"@
                + " "@ + ("\""@ + text@ + "\""@) + " "@ + "append"@,
            PlaylistOp::Clear => line@ == "playlist-clear"@,
            PlaylistOp::RemoveCurrent => line@ == "playlist-remove"@ + " "@ + "current"@,
            PlaylistOp::RemoveIndex(index) => line@ == "playlist-remove"@ + " "@ + decimal(
                index as nat,
            ),
            PlaylistOp::Move((item, place)) => line@ == "playlist-move"@ + " "@ + decimal(
                item as nat,
            ) + " "@ + decimal(place as nat),
            PlaylistOp::Shuffle => line@ == "playlist-shuffle"@,
        },
{
    match *op {
        PlaylistOp::NextWeak => {
            lemma_lines("playlist-next"@, "weak"@, ""@);
        },
        PlaylistOp::NextForce => {
            lemma_lines("playlist-next"@, "force"@, ""@);
        },
        PlaylistOp::PreviousWeak => {
            lemma_lines("playlist-previous"@, "weak"@, ""@);
        },
        PlaylistOp::PreviousForce => {
            lemma_lines("playlist-previous"@, "force"@, ""@);
        },
        PlaylistOp::Loadfiles(_) => {},
        PlaylistOp::LoadlistReplace(p) => {
            lemma_lines("loadlist"@, "\""@ + p.text.unwrap()@ + "\""@, "replace"@);
        },
        PlaylistOp::LoadlistAppend(p) => {
            lemma_lines("loadlist"@, "\""@ + p.text.unwrap()@ + "\""@, "append"@);
        },
        PlaylistOp::Clear => {
            lemma_lines("playlist-clear"@, ""@, ""@);
        },
        PlaylistOp::RemoveCurrent => {
            lemma_lines("playlist-remove"@, "current"@, ""@);
        },
        PlaylistOp::RemoveIndex(index) => {
            lemma_lines("playlist-remove"@, decimal(index as nat), ""@);
        },
        PlaylistOp::Move((item, place)) => {
            lemma_lines("playlist-move"@, decimal(item as nat), decimal(place as nat));
        },
        PlaylistOp::Shuffle => {
            lemma_lines("playlist-shuffle"@, ""@, ""@);
        },
    }
}

/// An operation of one command ends with the answer to it: well, or with its error.
pub proof fn law_playlist_operation_ends_with_its_answer<'a, P: MpvMarker>(
    instance: &P,
    op: &PlaylistOp<'a>,
    codes: &Vec<i32>,
    progress: Progress<()>,
)
    requires
        !(op is Loadfiles),
        codes@.len() == 1,
        -20 <= codes@[0] <= 0,
        call_ensures(<P as MpvInstance>::playlist, (instance, op, codes), progress),
    ensures
        codes@[0] == 0 ==> progress == Progress::<()>::Finished(Ok(())),
        codes@[0] != 0 ==> (progress matches Progress::Finished(Err(Error::Mpv(error)))
            && error_of_code(codes@[0] as int) == Some(error)),
{
    law_first_failure_is_the_first(codes@);
}

/// Files are loaded in their order: as long as all commands went well, the next one is that of the
/// file whose turn it is, and after the last file all is well.
pub proof fn law_files_are_loaded_in_order<'a, P: MpvMarker>(
    instance: &P,
    files: &'a [File<'a>],
    codes: &Vec<i32>,
    progress: Progress<()>,
    command: Command<'static>,
    line: String,
)
    requires
        codes@.len() <= files@.len(),
        forall|i: int| 0 <= i < codes@.len() ==> #[trigger] codes@[i] == 0,
        call_ensures(
            <P as MpvInstance>::playlist,
            (instance, &PlaylistOp::Loadfiles(files), codes),
            progress,
        ),
        codes@.len() < files@.len() ==> call_ensures(
            File::command,
            (&files@[codes@.len() as int],),
            command,
        ) && call_ensures(Command::to_line, (&command,), line),
    ensures
        codes@.len() < files@.len() ==> (progress matches Progress::Ask(Call::CommandString(sent))
            && sent@ == line@),
        codes@.len() == files@.len() ==> progress == Progress::<()>::Finished(Ok(())),
{
    law_first_failure_is_the_first(codes@);
}

/// The first file that cannot be loaded ends the operation. The error says which file it was, and
/// what went wrong.
pub proof fn law_loading_fails_with_the_first_failure<'a, P: MpvMarker>(
    instance: &P,
    files: &'a [File<'a>],
    codes: &Vec<i32>,
    progress: Progress<()>,
    k: int,
)
    requires
        codes@.len() <= files@.len(),
        0 <= k < codes@.len(),
        forall|i: int| 0 <= i < k ==> #[trigger] codes@[i] == 0,
        -20 <= codes@[k] < 0,
        call_ensures(
            <P as MpvInstance>::playlist,
            (instance, &PlaylistOp::Loadfiles(files), codes),
            progress,
        ),
    ensures
        progress matches Progress::Finished(Err(Error::Loadfiles(failure))) && failure.0 == k && (
        *failure.1 matches Error::Mpv(error) && error_of_code(codes@[k] as int) == Some(error)),
{
    law_first_failure_is_the_first(codes@);
    assert(files@.len() == files.len());
    let i = first_failure(codes@).unwrap();
    assert(codes@[i] != 0);
    assert(i == k);
    match progress {
        Progress::Finished(Err(Error::Loadfiles(failure))) => {
            assert((*failure.1)@ == crate::event::mpv_failure(codes@[k]));
        },
        _ => {},
    }
}

/// A command of an operation on the playlist makes the line that is sent in its turn.
pub proof fn law_command_of_a_playlist_operation_is_sent<'a, P: MpvMarker>(
    instance: &P,
    op: &PlaylistOp<'a>,
    codes: &Vec<i32>,
    progress: Progress<()>,
    command: Command<'static>,
    line: String,
)
    requires
        forall|i: int| 0 <= i < codes@.len() ==> #[trigger] codes@[i] == 0,
        match *op {
            PlaylistOp::Loadfiles(files) => codes@.len() < files@.len(),
            _ => codes@.len() == 0,
        },
        call_ensures(<P as MpvInstance>::playlist, (instance, op, codes), progress),
        call_ensures(PlaylistOp::command, (op, codes@.len() as usize), command),
        call_ensures(Command::to_line, (&command,), line),
    ensures
        progress matches Progress::Ask(Call::CommandString(sent)) && sent@ == line@,
{
    law_first_failure_is_the_first(codes@);
    assert(codes@.len() == codes.len());
}

/// Adding a subtitle sends its path between quotes, how it is added, its title and its language,
/// in this order. An empty title between quotes holds the place of a title that is missing where
/// the language is given. Tracks and steps are sent in decimal.
pub proof fn law_subtitle_sends_what_is_asked_for<'a, P: MpvMarker>(
    instance: &P,
    op: SubOp<'a>,
    call: Call,
)
    requires
        call_ensures(<P as MpvInstance>::subtitle, (instance, op), call),
    ensures
        call matches Call::CommandString(line) && match op {
            SubOp::AddSelect(p, t, l) => p.text matches Some(text) ==> line@ == added(
                text@,
                "select"@,
                t,
                l,
            ),
            SubOp::AddAuto(p, t, l) => p.text matches Some(text) ==> line@ == added(
                text@,
                "auto"@,
                t,
                l,
            ),
            SubOp::AddCached(p, t, l) => p.text matches Some(text) ==> line@ == added(
                text@,
                "cached"@,
                t,
                l,
            ),
            SubOp::Remove(None) => line@ == "sub-remove"@,
            SubOp::Remove(Some(track)) => line@ == "sub-remove"@ + " "@ + decimal(track as nat),
            SubOp::Reload(None) => line@ == "sub-reload"@,
            SubOp::Reload(Some(track)) => line@ == "sub-reload"@ + " "@ + decimal(track as nat),
            SubOp::Step(count) => line@ == "sub-step"@ + " "@ + signed_decimal(count as int),
            SubOp::SeekForward => line@ == "sub-seek"@ + " "@ + "1"@,
            SubOp::SeekBackward => line@ == "sub-seek"@ + " "@ + "-1"@,
        },
{
    match op {
        SubOp::AddSelect(p, t, l) | SubOp::AddAuto(p, t, l) | SubOp::AddCached(p, t, l) => {
            if p.text is Some {
                lemma_added(p.text.unwrap()@, "select"@, t, l);
                lemma_added(p.text.unwrap()@, "auto"@, t, l);
                lemma_added(p.text.unwrap()@, "cached"@, t, l);
            }
        },
        SubOp::Remove(track) => {
            lemma_lines("sub-remove"@, decimal(track.unwrap() as nat), ""@);
        },
        SubOp::Reload(track) => {
            lemma_lines("sub-reload"@, decimal(track.unwrap() as nat), ""@);
        },
        SubOp::Step(count) => {
            lemma_lines("sub-step"@, signed_decimal(count as int), ""@);
        },
        SubOp::SeekForward => {
            lemma_lines("sub-seek"@, "1"@, ""@);
        },
        SubOp::SeekBackward => {
            lemma_lines("sub-seek"@, "-1"@, ""@);
        },
    }
}

/// The line that adds the subtitle at `path`.
pub open spec fn added(
    path: Seq<char>,
    mode: Seq<char>,
    title: Option<&str>,
    language: Option<&str>,
) -> Seq<char> {
    let start = "sub-add"@ + " "@ + "\""@ + path + "\""@ + " "@ + mode;
    match language {
        None => match title {
            None => start,
            Some(title) => start + " "@ + title@,
        },
        Some(language) => start + " "@ + (match title {
            None => "\""@ + "\""@,
            Some(title) => title@,
        }) + " "@ + language@,
    }
}

proof fn lemma_added(
    path: Seq<char>,
    mode: Seq<char>,
    title: Option<&str>,
    language: Option<&str>,
)
    ensures
        binary_command(
            "sub-add"@,
            "\""@ + path + "\""@,
            mode + crate::command::title_and_language(title, language),
        ).line() == added(path, mode, title, language),
{
    reveal_strlit("\"");
    reveal_strlit(" ");
    reveal_strlit(" \"\" ");
    let rest = crate::command::title_and_language(title, language);
    lemma_lines("sub-add"@, "\""@ + path + "\""@, mode + rest);
    if title is None && language is Some {
        assert(" \"\" "@ =~= " "@ + "\""@ + "\""@ + " "@);
    }
    assert("sub-add"@ + " "@ + ("\""@ + path + "\""@) + " "@ + (mode + rest) =~= added(
        path,
        mode,
        title,
        language,
    ));
}

/// The commands of screenshots and subtitles make the lines that are sent.
pub proof fn law_commands_of_operations_are_sent<'a, P: MpvMarker>(
    instance: &P,
    shot: Screenshot<'a>,
    shot_call: Call,
    shot_command: Command<'static>,
    shot_line: String,
    op: SubOp<'a>,
    op_call: Call,
    op_command: Command<'static>,
    op_line: String,
)
    requires
        call_ensures(<P as MpvInstance>::screenshot, (instance, shot), shot_call),
        call_ensures(Screenshot::command, (&shot,), shot_command),
        call_ensures(Command::to_line, (&shot_command,), shot_line),
        call_ensures(<P as MpvInstance>::subtitle, (instance, op), op_call),
        call_ensures(SubOp::command, (&op,), op_command),
        call_ensures(Command::to_line, (&op_command,), op_line),
    ensures
        shot_call matches Call::CommandString(sent) && sent@ == shot_line@,
        op_call matches Call::CommandString(sent) && sent@ == op_line@,
{
}

/// A property is cycled up or down, and multiplied by the factor, as it is asked for.
pub proof fn law_properties_are_cycled_and_multiplied<P: MpvMarker>(
    instance: &P,
    property: &str,
    up: bool,
    cycled: Call,
    cycle: Command<'static>,
    factor: usize,
    multiplied: Call,
    multiply: Command<'static>,
)
    requires
        call_ensures(<P as MpvInstance>::cycle, (instance, property, up), cycled),
        call_ensures(crate::command::cycle, (property, up), cycle),
        call_ensures(<P as MpvInstance>::multiply, (instance, property, factor), multiplied),
        call_ensures(crate::command::multiply, (property, factor), multiply),
    ensures
        cycled matches Call::CommandString(line) && line@ == "cycle"@ + " "@ + property@ + " "@ + (
        if up {
            "up"@
        } else {
            "down"@
        }) && line@ == cycle@.line(),
        multiplied matches Call::CommandString(line) && line@ == "multiply"@ + " "@ + property@
            + " "@ + decimal(factor as nat) && line@ == multiply@.line(),
{
    lemma_lines("cycle"@, property@, "up"@);
    lemma_lines("cycle"@, property@, "down"@);
    lemma_lines("multiply"@, property@, decimal(factor as nat));
}

/// Every operation can be executed whose paths have a text.
pub proof fn law_what_can_be_executed<'a, P: MpvMarker>(
    instance: &P,
    seek: Seek,
    shot: Screenshot<'a>,
    op: &PlaylistOp<'a>,
    codes: &Vec<i32>,
    sub: SubOp<'a>,
)
    ensures
        call_requires(<P as MpvInstance>::seek, (instance, seek)),
        match shot {
            Screenshot::SubtitlesFile(p) | Screenshot::VideoFile(p) | Screenshot::WindowFile(p) =>
                p.text is Some,
            _ => true,
        } ==> call_requires(<P as MpvInstance>::screenshot, (instance, shot)),
        match *op {
            PlaylistOp::Loadfiles(files) => codes@.len() <= files@.len() && forall|i: int|
                0 <= i < files@.len() ==> (#[trigger] files@[i]).path.text is Some,
            PlaylistOp::LoadlistReplace(p) | PlaylistOp::LoadlistAppend(p) => codes@.len() <= 1
                && p.text is Some,
            _ => codes@.len() <= 1,
        } && (forall|i: int| 0 <= i < codes@.len() ==> -20 <= #[trigger] codes@[i] <= 0)
            ==> call_requires(<P as MpvInstance>::playlist, (instance, op, codes)),
        match sub {
            SubOp::AddSelect(p, _, _) | SubOp::AddAuto(p, _, _) | SubOp::AddCached(p, _, _) =>
                p.text is Some,
            _ => true,
        } ==> call_requires(<P as MpvInstance>::subtitle, (instance, sub)),
{
}

} // verus!
