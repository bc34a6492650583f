//! Commands in the syntax of mpv's `input.conf`, and the operations that become commands.

use vstd::pervasive::unreached;
use vstd::prelude::*;
use vstd::string::StringExecFns;

use crate::event::{result_model, Error, ErrorModel};
use crate::text::{decimal, decimal_string, signed_decimal, signed_decimal_string};

verus! {

/// What is known of a path in the file system: its text, unless that is no valid UTF-8, and
/// whether it is relative.
#[derive(Clone, Copy, Debug, PartialEq, Eq)]
pub struct Path<'a> {
    pub text: Option<&'a str>,
    pub relative: bool,
}

/// A span of time in whole seconds and the nanoseconds left over.
#[derive(Clone, Copy, Debug, PartialEq, Eq)]
pub struct Duration {
    pub secs: u64,
    pub nanos: u32,
}

impl Duration {
    /// The whole seconds of the span.
    pub fn as_secs(&self) -> (secs: u64)
        ensures
            secs == self.secs,
    {
        self.secs
    }
}

/// Represents a command that can be executed by `Mpv`.
#[derive(Debug)]
pub struct Command<'a> {
    pub name: &'a str,
    pub args: Option<Vec<String>>,
}

/// The texts of a list of strings.
pub open spec fn texts(strings: Seq<String>) -> Seq<Seq<char>> {
    strings.map_values(|s: String| s@)
}

/// Each argument with one space in front of it.
pub open spec fn spaced(args: Seq<Seq<char>>) -> Seq<char>
    decreases args.len(),
{
    if args.len() == 0 {
        Seq::empty()
    } else {
        spaced(args.drop_last()) + " "@ + args.last()
    }
}

/// A command line: the name of the command, then its arguments.
pub open spec fn command_line(name: Seq<char>, args: Seq<Seq<char>>) -> Seq<char> {
    name + spaced(args)
}

/// What a `Command` says: its name and its arguments.
pub struct CommandModel {
    pub name: Seq<char>,
    pub args: Seq<Seq<char>>,
}

impl CommandModel {
    /// The command line that is sent to the player.
    pub open spec fn line(self) -> Seq<char> {
        command_line(self.name, self.args)
    }
}

impl<'a> View for Command<'a> {
    type V = CommandModel;

    open spec fn view(&self) -> CommandModel {
        CommandModel {
            name: self.name@,
            args: match self.args {
                Some(args) => texts(args@),
                None => Seq::empty(),
            },
        }
    }
}

impl<'a> Command<'a> {
    /// Create a new `MpvCommand`.
    pub fn new(name: &'a str, args: Option<Vec<String>>) -> (command: Command<'a>)
        ensures
            command.name == name,
            command.args == args,
    {
        Command { name: name, args: args }
    }

    /// Writes the command line that is sent to the player: the name, and each argument after one
    /// space.
    pub fn to_line(&self) -> (line: String)
        ensures
            line@ == self@.line(),
    {
        let mut line = self.name.to_owned();
        match &self.args {
            None => {
                assert(line@ =~= self@.line());
            },
            Some(args) => {
                let ghost all = texts(args@);
                assert(line@ =~= command_line(self.name@, all.take(0)));
                for i in 0..args.len()
                    invariant
                        all == texts(args@),
                        line@ == command_line(self.name@, all.take(i as int)),
                {
                    line.append(" ");
                    line.append(args[i].as_str());
                    assert(all.take(i + 1).drop_last() =~= all.take(i as int));
                    assert(line@ =~= command_line(self.name@, all.take(i + 1)));
                }
                assert(all.take(args.len() as int) =~= all);
            },
        }
        line
    }

    /// A command without arguments.
    fn bare(name: &'a str) -> (command: Command<'a>)
        ensures
            command@ == bare_command(name@),
    {
        Command::new(name, None)
    }

    /// A command with one argument.
    fn unary(name: &'a str, arg: String) -> (command: Command<'a>)
        ensures
            command@ == unary_command(name@, arg@),
    {
        let command = Command::new(name, Some(vec![arg]));
        assert(command@.args =~= seq![arg@]);
        command
    }

    /// A command with two arguments.
    fn binary(name: &'a str, first: String, second: String) -> (command: Command<'a>)
        ensures
            command@ == binary_command(name@, first@, second@),
    {
        let command = Command::new(name, Some(vec![first, second]));
        assert(command@.args =~= seq![first@, second@]);
        command
    }
}

impl<'a> Clone for Command<'a> {
    fn clone(&self) -> (copy: Self)
        ensures
            copy@ == self@,
            copy.args is Some == self.args is Some,
    {
        let copy = Command {
            name: self.name,
            args: match &self.args {
                Some(args) => Some(args.clone()),
                None => None,
            },
        };
        assert(copy@.args =~= self@.args);
        copy
    }
}

/// A command without arguments.
pub open spec fn bare_command(name: Seq<char>) -> CommandModel {
    CommandModel { name: name, args: Seq::empty() }
}

/// A command with one argument.
pub open spec fn unary_command(name: Seq<char>, arg: Seq<char>) -> CommandModel {
    CommandModel { name: name, args: seq![arg] }
}

/// A command with two arguments.
pub open spec fn binary_command(
    name: Seq<char>,
    first: Seq<char>,
    second: Seq<char>,
) -> CommandModel {
    CommandModel { name: name, args: seq![first, second] }
}

/// `text` between double quotes.
pub open spec fn quoted(text: Seq<char>) -> Seq<char> {
    "\""@ + text + "\""@
}

/// Writes `text` between double quotes.
fn quote(text: &str) -> (result: String)
    ensures
        result@ == quoted(text@),
{
    let mut result = "\"".to_owned();
    result.append(text);
    result.append("\"");
    result
}

impl<'a> Path<'a> {
    /// The text of a path that has one.
    pub open spec fn chars(self) -> Seq<char>
        recommends
            self.text is Some,
    {
        self.text.unwrap()@
    }

    pub(crate) fn to_str(&self) -> (text: &'a str)
        requires
            self.text is Some,
        ensures
            text@ == self.chars(),
    {
        match self.text {
            Some(text) => text,
            None => unreached(),
        }
    }
}

/// Represents possible seek operations by `seek`.
#[derive(Clone, Copy, Debug, PartialEq, Eq)]
pub enum Seek {
    /// Seek forward relatively from current position at runtime.
    /// This is less exact than `seek_abs`, see [mpv manual]
    /// (https://mpv.io/manual/master/#command-interface-
    /// [relative|absolute|absolute-percent|relative-percent|exact|keyframes]).
    RelativeForward(Duration),
    /// See `RelativeForward`.
    RelativeBackward(Duration),
    /// Seek to a given absolute time at runtime.
    Absolute(Duration),
    /// Seek to a given relative percent position at runtime.
    /// If `usize` is bigger than the remaining playtime, the next file is played.
    RelativePercent(usize),
    /// Seek to a given absolute percent position at runtime.
    AbsolutePercent(usize),
    /// Revert one previous `seek` invocation. If this is called twice, this
    /// reverts the previous revert seek.
    Revert,
    /// Mark the current position. The next `seek_revert` call will revert
    /// to the marked position.
    RevertMark,
    /// Play exactly one frame, and then pause. This does nothing with
    /// audio-only playback.
    Frame,
    /// Play exactly the last frame, and then pause. This does nothing with
    /// audio-only playback. See [this]
    /// (https://mpv.io/manual/master/#command-interface-frame-back-step)
    /// for performance issues.
    FrameBack,
}

impl Seek {
    /// The command for this operation. A percentage above one hundred has none: libmpv would seek
    /// to the end, but it is confusing and may be an indicator of bugs.
    pub open spec fn model(self) -> Result<CommandModel, ErrorModel> {
        match self {
            Seek::RelativeForward(d) => Ok(
                binary_command("seek"@, decimal(d.secs as nat), "relative"@),
            ),
            Seek::RelativeBackward(d) => Ok(
                binary_command("seek"@, "-"@ + decimal(d.secs as nat), "relative"@),
            ),
            Seek::Absolute(d) => Ok(binary_command("seek"@, decimal(d.secs as nat), "absolute"@)),
            Seek::RelativePercent(p) => if p > 100 {
                Err(ErrorModel::OutOfBounds)
            } else {
                Ok(binary_command("seek"@, decimal(p as nat), "relative-percent"@))
            },
            Seek::AbsolutePercent(p) => if p > 100 {
                Err(ErrorModel::OutOfBounds)
            } else {
                Ok(binary_command("seek"@, decimal(p as nat), "absolute-percent"@))
            },
            Seek::Revert => Ok(bare_command("revert-seek"@)),
            Seek::RevertMark => Ok(unary_command("revert-seek"@, "mark"@)),
            Seek::Frame => Ok(bare_command("frame-step"@)),
            Seek::FrameBack => Ok(bare_command("frame-back-step"@)),
        }
    }

    /// The command for this operation.
    pub fn command(&self) -> (result: Result<Command<'static>, Error>)
        ensures
            result_model(result) == self.model(),
    {
        match *self {
            Seek::RelativeForward(d) => Ok(
                Command::binary("seek", decimal_string(d.as_secs()), "relative".to_owned()),
            ),
            Seek::RelativeBackward(d) => {
                let mut offset = "-".to_owned();
                offset.append(decimal_string(d.as_secs()).as_str());
                Ok(Command::binary("seek", offset, "relative".to_owned()))
            },
            Seek::Absolute(d) => Ok(
                Command::binary("seek", decimal_string(d.as_secs()), "absolute".to_owned()),
            ),
            Seek::RelativePercent(p) => if p > 100 {
                Err(Error::OutOfBounds)
            } else {
                Ok(
                    Command::binary(
                        "seek",
                        decimal_string(p as u64),
                        "relative-percent".to_owned(),
                    ),
                )
            },
            Seek::AbsolutePercent(p) => if p > 100 {
                Err(Error::OutOfBounds)
            } else {
                Ok(
                    Command::binary(
                        "seek",
                        decimal_string(p as u64),
                        "absolute-percent".to_owned(),
                    ),
                )
            },
            Seek::Revert => Ok(Command::bare("revert-seek")),
            Seek::RevertMark => Ok(Command::unary("revert-seek", "mark".to_owned())),
            Seek::Frame => Ok(Command::bare("frame-step")),
            Seek::FrameBack => Ok(Command::bare("frame-back-step")),
        }
    }
}

/// Represents possible screenshot operations by `screenshot`.
#[derive(Clone, Copy, Debug, PartialEq, Eq)]
pub enum Screenshot<'a> {
    /// "Save the video image, in its original resolution, and with subtitles.
    /// Some video outputs may still include the OSD in the output under certain circumstances.".
    Subtitles,
    /// "Take a screenshot and save it to a given file. The format of the file will be guessed by
    /// the extension (and --screenshot-format is ignored - the behaviour when the extension is
    /// missing or unknown is arbitrary). If the file already exists, it's overwritten. Like all
    /// input command parameters, the filename is subject to property expansion as described in
    /// Property Expansion.".
    SubtitlesFile(Path<'a>),
    /// "Like subtitles, but typically without OSD or subtitles.
    /// The exact behaviour depends on the selected video output.".
    Video,
    /// See `screenshot_subtitles_to_file`.
    VideoFile(Path<'a>),
    /// "Save the contents of the mpv window. Typically scaled, with OSD
    /// and subtitles. The exact behaviour depends on the selected video output, and if no support
    /// is available, this will act like video.".
    Window,
    /// See `screenshot_subtitles_to_file`.
    WindowFile(Path<'a>),
}

impl<'a> Screenshot<'a> {
    /// Whether the path of the operation, if it has one, has a text.
    pub open spec fn has_text(self) -> bool {
        match self {
            Screenshot::SubtitlesFile(p) | Screenshot::VideoFile(p) | Screenshot::WindowFile(p) =>
                p.text is Some,
            _ => true,
        }
    }

    /// The command for this operation.
    pub open spec fn model(self) -> CommandModel {
        match self {
            Screenshot::Subtitles => unary_command("screenshot"@, "subtitles"@),
            Screenshot::SubtitlesFile(p) => binary_command(
                "screenshot"@,
                p.chars(),
                "subtitles"@,
            ),
            Screenshot::Video => unary_command("screenshot"@, "video"@),
            Screenshot::VideoFile(p) => binary_command("screenshot"@, p.chars(), "video"@),
            Screenshot::Window => unary_command("screenshot"@, "window"@),
            Screenshot::WindowFile(p) => binary_command("screenshot"@, p.chars(), "window"@),
        }
    }

    /// The command for this operation.
    pub fn command(&self) -> (command: Command<'static>)
        requires
            self.has_text(),
        ensures
            command@ == self.model(),
    {
        match *self {
            Screenshot::Subtitles => Command::unary("screenshot", "subtitles".to_owned()),
            Screenshot::SubtitlesFile(p) => Command::binary(
                "screenshot",
                p.to_str().to_owned(),
                "subtitles".to_owned(),
            ),
            Screenshot::Video => Command::unary("screenshot", "video".to_owned()),
            Screenshot::VideoFile(p) => Command::binary(
                "screenshot",
                p.to_str().to_owned(),
                "video".to_owned(),
            ),
            Screenshot::Window => Command::unary("screenshot", "window".to_owned()),
            Screenshot::WindowFile(p) => Command::binary(
                "screenshot",
                p.to_str().to_owned(),
                "window".to_owned(),
            ),
        }
    }
}

/// Represents how a `File` is inserted into the playlist.
#[derive(Clone, Copy, Debug, PartialEq, Eq)]
pub enum FileState {
    /// Replace the current track.
    Replace,
    /// Append to the current playlist.
    Append,
    /// If current playlist is empty: play, otherwise append to playlist.
    AppendPlay,
}

impl FileState {
    /// The word by which the player knows this state.
    pub open spec fn word(self) -> Seq<char> {
        match self {
            FileState::Replace => "replace"@,
            FileState::Append => "append"@,
            FileState::AppendPlay => "append-play"@,
        }
    }

    /// The word by which the player knows this state.
    pub fn val(&self) -> (word: &str)
        ensures
            word@ == self.word(),
    {
        match *self {
            FileState::Replace => "replace",
            FileState::Append => "append",
            FileState::AppendPlay => "append-play",
        }
    }
}

/// Represents data needed for `PlaylistOp::Loadfiles`.
#[derive(Clone, Copy, Debug)]
pub struct File<'a> {
    pub path: Path<'a>,
    pub state: FileState,
    pub options: Option<&'a str>,
}

/// The characters of an optional text, none of them where it is missing.
pub open spec fn chars_or_empty(text: Option<&str>) -> Seq<char> {
    match text {
        Some(text) => text@,
        None => ""@,
    }
}

impl<'a> File<'a> {
    /// Create a new `File`.
    pub fn new(path: Path<'a>, state: FileState, opts: Option<&'a str>) -> (file: File<'a>)
        ensures
            file.path == path,
            file.state == state,
            file.options == opts,
    {
        File { path: path, state: state, options: opts }
    }

    /// The command that loads this file.
    pub open spec fn model(self) -> CommandModel {
        CommandModel {
            name: "loadfile"@,
            args: seq![
                quoted(self.path.chars()),
                self.state.word(),
                chars_or_empty(self.options),
            ],
        }
    }

    /// The command that loads this file.
    pub fn command(&self) -> (command: Command<'static>)
        requires
            self.path.text is Some,
        ensures
            command@ == self.model(),
    {
        let options = match self.options {
            Some(options) => options,
            None => "",
        };
        let command = Command::new(
            "loadfile",
            Some(
                vec![
                    quote(self.path.to_str()),
                    self.state.val().to_owned(),
                    options.to_owned(),
                ],
            ),
        );
        assert(command@.args =~= self.model().args);
        command
    }
}

/// Represents operations on the playlist supported by `playlist`.
#[derive(Clone, Copy, Debug)]
pub enum PlaylistOp<'a> {
    /// Play the next item of the current playlist.
    /// This does nothing if the current item is the last item.
    NextWeak,
    /// Play the next item of the current playlist.
    /// This terminates playback if the current item is the last item.
    NextForce,
    /// Play the previous item of the current playlist.
    /// This does nothing if the current item is the first item.
    PreviousWeak,
    /// Play the previous item of the current playlist.
    /// This terminates playback if the current item is the first item.
    PreviousForce,
    /// Load any number of files with any playlist insertion behaviour,
    /// and any optional options that are set during playback of the specific item.
    Loadfiles(&'a [File<'a>]),
    /// Load the given playlist file. Replace current playlist.
    LoadlistReplace(Path<'a>),
    /// Load the given playlist file. Append to current playlist.
    LoadlistAppend(Path<'a>),
    /// Clear the current playlist, except the currently played item.
    Clear,
    /// Remove the currently selected playlist item.
    RemoveCurrent,
    /// Remove the item at position `usize`.
    RemoveIndex(usize),
    /// Move item `usize` to the position of item `usize`.
    Move((usize, usize)),
    /// Shuffle the playlist.
    Shuffle,
}

impl<'a> PlaylistOp<'a> {
    /// How many commands the operation takes.
    pub open spec fn command_count(self) -> nat {
        match self {
            PlaylistOp::Loadfiles(files) => files@.len(),
            _ => 1,
        }
    }

    /// Whether the path in the command at position `i`, if there is one, has a text.
    pub open spec fn has_text(self, i: int) -> bool {
        match self {
            PlaylistOp::Loadfiles(files) => files@[i].path.text is Some,
            PlaylistOp::LoadlistReplace(p) | PlaylistOp::LoadlistAppend(p) => p.text is Some,
            _ => true,
        }
    }

    /// The command at position `i` of the operation.
    pub open spec fn model(self, i: int) -> CommandModel {
        match self {
            PlaylistOp::NextWeak => unary_command("playlist-next"@, "weak"@),
            PlaylistOp::NextForce => unary_command("playlist-next"@, "force"@),
            PlaylistOp::PreviousWeak => unary_command("playlist-previous"@, "weak"@),
            PlaylistOp::PreviousForce => unary_command("playlist-previous"@, "force"@),
            PlaylistOp::LoadlistReplace(p) => binary_command(
                "loadlist"@,
                quoted(p.chars()),
                "replace"@,
            ),
            PlaylistOp::LoadlistAppend(p) => binary_command(
                "loadlist"@,
                quoted(p.chars()),
                "append"@,
            ),
            PlaylistOp::Clear => bare_command("playlist-clear"@),
            PlaylistOp::RemoveCurrent => unary_command("playlist-remove"@, "current"@),
            PlaylistOp::RemoveIndex(index) => unary_command(
                "playlist-remove"@,
                decimal(index as nat),
            ),
            PlaylistOp::Move(items) => binary_command(
                "playlist-move"@,
                decimal(items.0 as nat),
                decimal(items.1 as nat),
            ),
            PlaylistOp::Shuffle => bare_command("playlist-shuffle"@),
            PlaylistOp::Loadfiles(files) => files@[i].model(),
        }
    }

    /// The command at position `i` of the operation.
    pub fn command(&self, i: usize) -> (command: Command<'static>)
        requires
            i < self.command_count(),
            self.has_text(i as int),
        ensures
            command@ == self.model(i as int),
    {
        match self {
            PlaylistOp::NextWeak => Command::unary("playlist-next", "weak".to_owned()),
            PlaylistOp::NextForce => Command::unary("playlist-next", "force".to_owned()),
            PlaylistOp::PreviousWeak => Command::unary("playlist-previous", "weak".to_owned()),
            PlaylistOp::PreviousForce => Command::unary("playlist-previous", "force".to_owned()),
            PlaylistOp::LoadlistReplace(p) => Command::binary(
                "loadlist",
                quote(p.to_str()),
                "replace".to_owned(),
            ),
            PlaylistOp::LoadlistAppend(p) => Command::binary(
                "loadlist",
                quote(p.to_str()),
                "append".to_owned(),
            ),
            PlaylistOp::Clear => Command::bare("playlist-clear"),
            PlaylistOp::RemoveCurrent => Command::unary("playlist-remove", "current".to_owned()),
            PlaylistOp::RemoveIndex(index) => Command::unary(
                "playlist-remove",
                decimal_string(*index as u64),
            ),
            PlaylistOp::Move(items) => Command::binary(
                "playlist-move",
                decimal_string(items.0 as u64),
                decimal_string(items.1 as u64),
            ),
            PlaylistOp::Shuffle => Command::bare("playlist-shuffle"),
            PlaylistOp::Loadfiles(files) => files[i].command(),
        }
    }
}

/// Represents operations supported by `subtitle`.
#[derive(Clone, Copy, Debug, PartialEq, Eq)]
pub enum SubOp<'a> {
    /// Add and select the subtitle immediately.
    /// The second argument is the title, third is the language.
    AddSelect(Path<'a>, Option<&'a str>, Option<&'a str>),
    ///  See `AddSelect`. "Don't select the subtitle.
    /// (Or in some special situations, let the default stream selection mechanism decide.)".
    AddAuto(Path<'a>, Option<&'a str>, Option<&'a str>),
    /// See `AddSelect`. "Select the subtitle. If a subtitle with the same file name was
    /// already added, that one is selected, instead of loading a duplicate entry.
    /// (In this case, title/language are ignored, and if the was changed since it was loaded,
    /// these changes won't be reflected.)".
    AddCached(Path<'a>, Option<&'a str>, Option<&'a str>),
    /// Remove the given subtitle track. If the id argument is missing, remove the current
    /// track. (Works on external subtitle files only.)
    Remove(Option<usize>),
    /// Reload the given subtitle tracks. If the id argument is missing, reload the current
    /// track. (Works on external subtitle files only.)
    Reload(Option<usize>),
    /// Change subtitle timing such, that the subtitle event after the next `isize` subtitle
    /// events is displayed. `isize` can be negative to step backwards.
    Step(isize),
    /// Seek to the next subtitle. This is similar to sub-step, except that it seeks video and
    /// audio instead of adjusting the subtitle delay.
    /// For embedded subtitles (like with matroska), this works only with subtitle events that
    /// have already been displayed, or are within a short prefetch range.
    SeekForward,
    /// See `SeekForward`.
    SeekBackward,
}

/// The title and the language of a subtitle, each after one space. Where only the language is
/// given, an empty title between quotes holds the place of the title.
pub open spec fn title_and_language(title: Option<&str>, language: Option<&str>) -> Seq<char> {
    match (title, language) {
        (None, None) => Seq::empty(),
        (Some(title), None) => " "@ + title@,
        (None, Some(language)) => " \"\" "@ + language@,
        (Some(title), Some(language)) => " "@ + title@ + " "@ + language@,
    }
}

/// The command that adds a subtitle: its path, and how it is added, then its title and language.
pub open spec fn add_subtitle_command(
    path: Path,
    mode: Seq<char>,
    title: Option<&str>,
    language: Option<&str>,
) -> CommandModel {
    binary_command(
        "sub-add"@,
        quoted(path.chars()),
        mode + title_and_language(title, language),
    )
}

/// A command on a subtitle track, with the number of the track where it is given.
pub open spec fn track_command(name: Seq<char>, track: Option<usize>) -> CommandModel {
    match track {
        Some(track) => unary_command(name, decimal(track as nat)),
        None => bare_command(name),
    }
}

fn add_subtitle(
    path: Path,
    mode: &str,
    title: Option<&str>,
    language: Option<&str>,
) -> (command: Command<'static>)
    requires
        path.text is Some,
    ensures
        command@ == add_subtitle_command(path, mode@, title, language),
{
    let mut how = mode.to_owned();
    match (title, language) {
        (None, None) => {},
        (Some(title), None) => {
            how.append(" ");
            how.append(title);
        },
        (None, Some(language)) => {
            how.append(" \"\" ");
            how.append(language);
        },
        (Some(title), Some(language)) => {
            how.append(" ");
            how.append(title);
            how.append(" ");
            how.append(language);
        },
    }
    assert(how@ =~= mode@ + title_and_language(title, language));
    Command::binary("sub-add", quote(path.to_str()), how)
}

fn on_track(name: &'static str, track: Option<usize>) -> (command: Command<'static>)
    ensures
        command@ == track_command(name@, track),
{
    match track {
        Some(track) => Command::unary(name, decimal_string(track as u64)),
        None => Command::bare(name),
    }
}

impl<'a> SubOp<'a> {
    /// Whether the path of the operation, if it has one, has a text.
    pub open spec fn has_text(self) -> bool {
        match self {
            SubOp::AddSelect(p, _, _) | SubOp::AddAuto(p, _, _) | SubOp::AddCached(p, _, _) =>
                p.text is Some,
            _ => true,
        }
    }

    /// The command for this operation.
    pub open spec fn model(self) -> CommandModel {
        match self {
            SubOp::AddSelect(p, t, l) => add_subtitle_command(p, "select"@, t, l),
            SubOp::AddAuto(p, t, l) => add_subtitle_command(p, "auto"@, t, l),
            SubOp::AddCached(p, t, l) => add_subtitle_command(p, "cached"@, t, l),
            SubOp::Remove(track) => track_command("sub-remove"@, track),
            SubOp::Reload(track) => track_command("sub-reload"@, track),
            SubOp::Step(i) => unary_command("sub-step"@, signed_decimal(i as int)),
            SubOp::SeekForward => unary_command("sub-seek"@, "1"@),
            SubOp::SeekBackward => unary_command("sub-seek"@, "-1"@),
        }
    }

    /// The command for this operation.
    pub fn command(&self) -> (command: Command<'static>)
        requires
            self.has_text(),
        ensures
            command@ == self.model(),
    {
        match *self {
            SubOp::AddSelect(p, t, l) => add_subtitle(p, "select", t, l),
            SubOp::AddAuto(p, t, l) => add_subtitle(p, "auto", t, l),
            SubOp::AddCached(p, t, l) => add_subtitle(p, "cached", t, l),
            SubOp::Remove(track) => on_track("sub-remove", track),
            SubOp::Reload(track) => on_track("sub-reload", track),
            SubOp::Step(i) => Command::unary("sub-step", signed_decimal_string(i as i64)),
            SubOp::SeekForward => Command::unary("sub-seek", "1".to_owned()),
            SubOp::SeekBackward => Command::unary("sub-seek", "-1".to_owned()),
        }
    }
}

/// The command that cycles through the values of a property.
pub open spec fn cycle_command(property: Seq<char>, up: bool) -> CommandModel {
    binary_command(
        "cycle"@,
        property,
        if up {
            "up"@
        } else {
            "down"@
        },
    )
}

/// The command that multiplies a property.
pub open spec fn multiply_command(property: Seq<char>, factor: nat) -> CommandModel {
    binary_command("multiply"@, property, decimal(factor))
}

/// Cycle through a given property. `up` specifies direction. On
/// overflow, set the property back to the minimum, on underflow set it to the maximum.
pub fn cycle(property: &str, up: bool) -> (command: Command<'static>)
    ensures
        command@ == cycle_command(property@, up),
{
    Command::binary(
        "cycle",
        property.to_owned(),
        if up {
            "up".to_owned()
        } else {
            "down".to_owned()
        },
    )
}

/// Multiply any property with any positive factor.
pub fn multiply(property: &str, factor: usize) -> (command: Command<'static>)
    ensures
        command@ == multiply_command(property@, factor as nat),
{
    Command::binary("multiply", property.to_owned(), decimal_string(factor as u64))
}

/// A command line begins with the name of the command, and each further argument only adds to it:
/// one space and the argument.
pub proof fn law_arguments_follow_the_name(command: CommandModel, arg: Seq<char>)
    ensures
        bare_command(command.name).line() == command.name,
        (CommandModel { args: command.args.push(arg), ..command }).line() == command.line() + " "@
            + arg,
{
    assert(command.args.push(arg).drop_last() =~= command.args);
    assert(bare_command(command.name).line() =~= command.name);
    assert((CommandModel { args: command.args.push(arg), ..command }).line() =~= command.line()
        + " "@ + arg);
}

/// An empty list of arguments makes the same command line as none at all.
pub proof fn law_no_arguments_are_an_empty_list(with: Command, without: Command)
    requires
        with.name@ == without.name@,
        with.args matches Some(args) && args@.len() == 0,
        without.args is None,
    ensures
        with@.line() == without@.line(),
{
    assert(with@.args =~= without@.args);
}

/// A language without a title is sent as it is with an empty title between quotes, so that it never
/// stands in the place of the title.
pub proof fn law_missing_title_counts_as_an_empty_one(
    path: Path,
    mode: Seq<char>,
    empty: &str,
    language: &str,
)
    requires
        empty@ == "\"\""@,
    ensures
        add_subtitle_command(path, mode, None, Some(language)) == add_subtitle_command(
            path,
            mode,
            Some(empty),
            Some(language),
        ),
{
    reveal_strlit("\"\"");
    reveal_strlit(" \"\" ");
    reveal_strlit(" ");
    assert(title_and_language(None, Some(language)) =~= title_and_language(
        Some(empty),
        Some(language),
    ));
}

/// Seeking is refused exactly for percentages above one hundred.
pub proof fn law_seek_is_refused_out_of_bounds(seek: Seek)
    ensures
        seek.model() is Err <==> match seek {
            Seek::RelativePercent(p) | Seek::AbsolutePercent(p) => p > 100,
            _ => false,
        },
        seek.model() matches Err(error) ==> error is OutOfBounds,
{
}

/// Only the whole seconds of a span of time count.
pub proof fn law_seek_ignores_fractions(a: Duration, b: Duration)
    requires
        a.secs == b.secs,
    ensures
        Seek::RelativeForward(a).model() == Seek::RelativeForward(b).model(),
        Seek::RelativeBackward(a).model() == Seek::RelativeBackward(b).model(),
        Seek::Absolute(a).model() == Seek::Absolute(b).model(),
{
}

} // verus!
