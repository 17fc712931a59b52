//! The choices a front end offers (content kinds, repeat modes, shells, sub
//! commands) and the parsing of their command-line spellings.
use vstd::prelude::*;
use vstd::string::*;

use crate::reference::ContentKind;
use crate::reference::same_text;
use crate::status::RepeatState;

verus! {

/// A content kind as offered to a chat user.
#[derive(Clone, Copy, Debug, PartialEq, Eq, Structural)]
pub enum SearchTypeChoice {
    Track,
    Album,
    Playlist,
    Artist,
    Episode,
    Show,
}

/// A repeat mode as offered to a chat user.
#[derive(Clone, Copy, Debug, PartialEq, Eq, Structural)]
pub enum RepeatStateChoice {
    Off,
    Track,
    Context,
}

/// What the queue command can do besides queueing.
#[derive(Clone, Copy, Debug, PartialEq, Eq, Structural)]
pub enum QueueCommands {
    /// List the current queue.
    List,
}

/// What the device command can do.
#[derive(Clone, Debug, PartialEq, Eq)]
pub enum DeviceCommands {
    /// Connect to the named device, or to the first one.
    Connect { name: Option<String> },
    /// List the devices.
    List,
    /// Describe the device in use.
    Status,
}

/// A shell that completions can be written for.
#[derive(Clone, Copy, Debug, PartialEq, Eq, Structural)]
pub enum ShellChoice {
    Bash,
    Elvish,
    Fish,
    Zsh,
    PowerShell,
}

pub open spec fn kind_of_choice(c: SearchTypeChoice) -> ContentKind {
    match c {
        SearchTypeChoice::Track => ContentKind::Track,
        SearchTypeChoice::Album => ContentKind::Album,
        SearchTypeChoice::Playlist => ContentKind::Playlist,
        SearchTypeChoice::Artist => ContentKind::Artist,
        SearchTypeChoice::Episode => ContentKind::Episode,
        SearchTypeChoice::Show => ContentKind::Show,
    }
}

impl From<SearchTypeChoice> for ContentKind {
    fn from(c: SearchTypeChoice) -> (r: ContentKind) {
        match c {
            SearchTypeChoice::Track => ContentKind::Track,
            SearchTypeChoice::Album => ContentKind::Album,
            SearchTypeChoice::Playlist => ContentKind::Playlist,
            SearchTypeChoice::Artist => ContentKind::Artist,
            SearchTypeChoice::Episode => ContentKind::Episode,
            SearchTypeChoice::Show => ContentKind::Show,
        }
    }
}

impl vstd::std_specs::convert::FromSpecImpl<SearchTypeChoice> for ContentKind {
    open spec fn obeys_from_spec() -> bool {
        true
    }

    open spec fn from_spec(c: SearchTypeChoice) -> ContentKind {
        kind_of_choice(c)
    }
}

pub open spec fn state_of_choice(c: RepeatStateChoice) -> RepeatState {
    match c {
        RepeatStateChoice::Off => RepeatState::Off,
        RepeatStateChoice::Track => RepeatState::Track,
        RepeatStateChoice::Context => RepeatState::Context,
    }
}

impl From<RepeatStateChoice> for RepeatState {
    fn from(c: RepeatStateChoice) -> (r: RepeatState) {
        match c {
            RepeatStateChoice::Off => RepeatState::Off,
            RepeatStateChoice::Track => RepeatState::Track,
            RepeatStateChoice::Context => RepeatState::Context,
        }
    }
}

impl vstd::std_specs::convert::FromSpecImpl<RepeatStateChoice> for RepeatState {
    open spec fn obeys_from_spec() -> bool {
        true
    }

    open spec fn from_spec(c: RepeatStateChoice) -> RepeatState {
        state_of_choice(c)
    }
}

/// ASCII upper-case letters lowered; every other character kept.
pub open spec fn ascii_lower_char(c: char) -> char {
    if 'A' <= c && c <= 'Z' {
        ((c as u32) + 32) as char
    } else {
        c
    }
}

pub open spec fn ascii_lower(s: Seq<char>) -> Seq<char> {
    s.map_values(|c: char| ascii_lower_char(c))
}

/// Relies on `str::to_ascii_lowercase`: each ASCII upper-case letter is
/// replaced by its lower-case letter, every other character is kept.
#[verifier::external_body]
fn to_ascii_lowercase(s: &str) -> (r: String)
    ensures
        r@ == ascii_lower(s@),
{
    s.to_ascii_lowercase()
}

/// Reads a content kind, ignoring ASCII case.
pub fn type_parser(s: &str) -> (r: Result<ContentKind, String>)
    ensures
        match ContentKind::from_keyword(ascii_lower(s@)) {
            Some(k) => r == Ok::<ContentKind, String>(k),
            None => r matches Err(m) && m@
                == "must be 'track', 'album', 'playlist', 'artist', 'episode', or 'show'"@,
        },
{
    let lower = to_ascii_lowercase(s);
    match ContentKind::parse_keyword(lower.as_str()) {
        Some(k) => Ok(k),
        None => Err(String::from_str("must be 'track', 'album', 'playlist', 'artist', 'episode', or 'show'")),
    }
}

/// The repeat mode a spelling names: on, true and context repeat the context,
/// track the track, off and false nothing.
pub open spec fn repeat_of(s: Seq<char>) -> Option<RepeatState> {
    if s == "true"@ || s == "on"@ || s == "context"@ {
        Some(RepeatState::Context)
    } else if s == "track"@ {
        Some(RepeatState::Track)
    } else if s == "false"@ || s == "off"@ {
        Some(RepeatState::Off)
    } else {
        None
    }
}

/// Reads a repeat mode, ignoring ASCII case.
pub fn repeat_parser(s: &str) -> (r: Result<RepeatState, String>)
    ensures
        match repeat_of(ascii_lower(s@)) {
            Some(k) => r == Ok::<RepeatState, String>(k),
            None => r matches Err(m) && m@ == "must be 'on', 'context', 'track', or 'off'"@,
        },
{
    let lower = to_ascii_lowercase(s);
    let l = lower.as_str();
    if same_text(l, "true") || same_text(l, "on") || same_text(l, "context") {
        Ok(RepeatState::Context)
    } else if same_text(l, "track") {
        Ok(RepeatState::Track)
    } else if same_text(l, "false") || same_text(l, "off") {
        Ok(RepeatState::Off)
    } else {
        Err(String::from_str("must be 'on', 'context', 'track', or 'off'"))
    }
}

/// The shell a spelling names.
pub open spec fn shell_of(s: Seq<char>) -> Option<ShellChoice> {
    if s == "bash"@ {
        Some(ShellChoice::Bash)
    } else if s == "elvish"@ {
        Some(ShellChoice::Elvish)
    } else if s == "fish"@ {
        Some(ShellChoice::Fish)
    } else if s == "zsh"@ {
        Some(ShellChoice::Zsh)
    } else if s == "powershell"@ || s == "power-shell"@ {
        Some(ShellChoice::PowerShell)
    } else {
        None
    }
}

/// Reads a shell name, ignoring ASCII case.
pub fn shell_parser(s: &str) -> (r: Result<ShellChoice, String>)
    ensures
        match shell_of(ascii_lower(s@)) {
            Some(k) => r == Ok::<ShellChoice, String>(k),
            None => r matches Err(m) && m@ == s@
                + " not supported, must be 'bash', 'zsh', 'fish', 'elvish', or 'powershell'"@,
        },
{
    let lower = to_ascii_lowercase(s);
    let l = lower.as_str();
    if same_text(l, "bash") {
        Ok(ShellChoice::Bash)
    } else if same_text(l, "elvish") {
        Ok(ShellChoice::Elvish)
    } else if same_text(l, "fish") {
        Ok(ShellChoice::Fish)
    } else if same_text(l, "zsh") {
        Ok(ShellChoice::Zsh)
    } else if same_text(l, "powershell") || same_text(l, "power-shell") {
        Ok(ShellChoice::PowerShell)
    } else {
        let mut m = String::from_str(s);
        m.append(" not supported, must be 'bash', 'zsh', 'fish', 'elvish', or 'powershell'");
        Err(m)
    }
}

} // verus!
