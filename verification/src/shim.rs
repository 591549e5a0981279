//! The engine's view of files, environment and music, brought to the
//! console's terms.
//!
//! The engine speaks in C conventions: mode strings, numbered seek origins,
//! environment variables, music by name. Each function here maps one of
//! them; what the console has no answer for comes back as `None`, and the
//! runtime treats that as fatal where the engine cannot go on.

use vstd::prelude::*;
use vstd::string::StringExecFns;

verus! {

/// The volume of music that plays, in thousandths.
pub const MUSIC_VOLUME: i32 = 200;

/// How a file is opened.
#[derive(Clone, Copy, PartialEq, Eq, Structural, Debug)]
pub enum FileMode {
    Read,
    Write,
}

/// Where a seek starts from.
#[derive(Clone, Copy, PartialEq, Eq, Structural, Debug)]
pub enum SeekOrigin {
    Begin,
    Current,
    End,
}

/// What to do about a piece of music.
#[derive(Clone, Copy, PartialEq, Eq, Structural, Debug)]
pub enum MusicAction {
    /// The file could not be opened: music falls silent.
    Mute,
    /// The file is played at `volume` thousandths.
    Play { volume: i32, looping: bool },
}

/// The mode that a mode string asks for: `r` and `rb` read, `w` and `wb`
/// write, and nothing else is a mode.
pub open spec fn file_mode_of(mode: Seq<char>) -> Option<FileMode> {
    if mode == "r"@ || mode == "rb"@ {
        Some(FileMode::Read)
    } else if mode == "w"@ || mode == "wb"@ {
        Some(FileMode::Write)
    } else {
        None
    }
}

/// The origin that a number names: 0 the beginning, 1 the current
/// position, 2 the end.
pub open spec fn seek_origin_of(origin: i32) -> Option<SeekOrigin> {
    if origin == 0 {
        Some(SeekOrigin::Begin)
    } else if origin == 1 {
        Some(SeekOrigin::Current)
    } else if origin == 2 {
        Some(SeekOrigin::End)
    } else {
        None
    }
}

/// The value of an environment variable: two variables are set, to fixed
/// paths.
pub open spec fn getenv_of(var: Seq<char>) -> Option<Seq<char>> {
    if var == "DOOMWADDIR"@ {
        Some("/cd/content"@)
    } else if var == "HOME"@ {
        Some("/ma"@)
    } else {
        None
    }
}

/// The path of the file that holds the music `id`.
pub open spec fn music_path_of(id: Seq<char>) -> Seq<char> {
    "/cd/content/midi/"@ + id + ".mid"@
}

/// Whether two strings hold the same text.
pub fn same_text(a: &str, b: &str) -> (same: bool)
    ensures
        same == (a@ == b@),
{
    a.to_owned() == b.to_owned()
}

/// The mode that the engine's mode string asks for.
pub fn file_mode(mode: &str) -> (parsed: Option<FileMode>)
    ensures
        parsed == file_mode_of(mode@),
{
    if same_text(mode, "r") || same_text(mode, "rb") {
        Some(FileMode::Read)
    } else if same_text(mode, "w") || same_text(mode, "wb") {
        Some(FileMode::Write)
    } else {
        None
    }
}

/// The origin that the engine's seek number names.
pub fn seek_origin(origin: i32) -> (parsed: Option<SeekOrigin>)
    ensures
        parsed == seek_origin_of(origin),
{
    if origin == 0 {
        Some(SeekOrigin::Begin)
    } else if origin == 1 {
        Some(SeekOrigin::Current)
    } else if origin == 2 {
        Some(SeekOrigin::End)
    } else {
        None
    }
}

/// The value that the engine gets for the environment variable `var`.
pub fn getenv(var: &str) -> (value: Option<&'static str>)
    ensures
        match value {
            Some(text) => getenv_of(var@) == Some(text@),
            None => getenv_of(var@) is None,
        },
{
    if same_text(var, "DOOMWADDIR") {
        Some("/cd/content")
    } else if same_text(var, "HOME") {
        Some("/ma")
    } else {
        None
    }
}

/// The path of the file that holds the music `id`.
pub fn music_path(id: &str) -> (path: String)
    ensures
        path@ == music_path_of(id@),
{
    let mut path = String::from_str("/cd/content/midi/");
    path.append(id);
    path.append(".mid");
    path
}

/// What to do about a piece of music whose file was `opened` or not, and
/// which the engine wants looped unless `looping` is zero.
pub fn music_action(opened: bool, looping: i32) -> (action: MusicAction)
    ensures
        action == (if opened {
            MusicAction::Play { volume: MUSIC_VOLUME, looping: looping != 0 }
        } else {
            MusicAction::Mute
        }),
{
    if opened {
        MusicAction::Play { volume: MUSIC_VOLUME, looping: looping != 0 }
    } else {
        MusicAction::Mute
    }
}

} // verus!
