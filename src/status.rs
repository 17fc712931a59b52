//! Snapshots of playback and of the play queue, and the lines that describe them.
use vstd::prelude::*;
use vstd::string::*;

use crate::device::Device;
use crate::error::OperationError;
use crate::model::{first_artist, primary_artist, ContentInfo, PlayableItem};
use crate::reference::{uri_meaning, ContentId, ContentKind};
use crate::response::Response;
use crate::text::{
    clock_text, decimal, decimal_string, duration_clock_format, push_line,
    right_aligned3, right_aligned3_string,
};

verus! {

/// What the player repeats.
#[derive(Clone, Copy, Debug, PartialEq, Eq, Structural)]
pub enum RepeatState {
    Off,
    Track,
    Context,
}

impl RepeatState {
    pub open spec fn label(self) -> Seq<char> {
        match self {
            RepeatState::Off => "Off"@,
            RepeatState::Track => "Track"@,
            RepeatState::Context => "Context"@,
        }
    }

    pub fn label_str(&self) -> (r: &'static str)
        ensures
            r@ == self.label(),
    {
        match self {
            RepeatState::Off => "Off",
            RepeatState::Track => "Track",
            RepeatState::Context => "Context",
        }
    }
}

/// A point-in-time read of what the service is playing.
#[derive(Clone, Debug, PartialEq, Eq)]
pub struct PlaybackSnapshot {
    pub is_playing: bool,
    /// The canonical URI of the context being played, if any.
    pub context_uri: Option<String>,
    pub item: Option<PlayableItem>,
    /// Elapsed time in the current item, in whole seconds.
    pub progress_secs: Option<u64>,
    pub device: Device,
    pub shuffle: bool,
    pub repeat: RepeatState,
}

/// The item playing now and the items queued after it, in order.
#[derive(Clone, Debug, PartialEq, Eq)]
pub struct QueueSnapshot {
    pub currently_playing: Option<PlayableItem>,
    pub queue: Vec<PlayableItem>,
}

/// `name — artist`, or the name alone when no artist is credited.
pub open spec fn credit_line(name: Seq<char>, artist: Option<Seq<char>>) -> Seq<char> {
    match artist {
        Some(a) => name + " \u{2014} "@ + a,
        None => name,
    }
}

/// The line of the current item in a status.
pub open spec fn item_line<T: ContentInfo>(item: T) -> Seq<char> {
    credit_line(item.name_view(), first_artist(item.artists_view()))
}

/// The context of a playback, as an identifier to fetch. Fails with
/// `NoActivePlayback` when there is no playback, and as `from_uri` does when
/// the context's URI is not a canonical one.
pub fn status_context(playback: &Option<PlaybackSnapshot>) -> (r: Result<Option<ContentId>, OperationError>)
    ensures
        match playback {
            None => r == Err::<Option<ContentId>, OperationError>(OperationError::NoActivePlayback),
            Some(p) => match p.context_uri {
                None => r matches Ok(None),
                Some(u) => match uri_meaning(u@) {
                    Ok(id) => r matches Ok(Some(c)) && c@ == id,
                    Err(e) => r == Err::<Option<ContentId>, OperationError>(e),
                },
            },
        },
{
    match playback {
        None => Err(OperationError::NoActivePlayback),
        Some(p) => match &p.context_uri {
            None => Ok(None),
            Some(u) => match ContentId::from_uri(u.as_str()) {
                Ok(id) => Ok(Some(id)),
                Err(e) => Err(e),
            },
        },
    }
}

/// The lines of a status, in order: playing or paused; the context with its
/// name, if one is played; the current item and, when the elapsed time is
/// known, `elapsed / duration`; the volume, when known; shuffle; repeat.
pub open spec fn status_view(p: PlaybackSnapshot, context: Option<(ContentKind, Seq<char>)>) -> Seq<Seq<char>> {
    seq![
        if p.is_playing {
            "Playing"@
        } else {
            "Paused"@
        },
    ] + context_lines(context) + item_lines(p) + volume_lines(p) + seq![
        "Shuffle: "@ + if p.shuffle {
            "On"@
        } else {
            "Off"@
        },
        "Repeat: "@ + p.repeat.label(),
    ]
}

pub open spec fn context_lines(context: Option<(ContentKind, Seq<char>)>) -> Seq<Seq<char>> {
    match context {
        Some((k, n)) => seq![k.label() + ": "@ + n],
        None => Seq::empty(),
    }
}

pub open spec fn item_lines(p: PlaybackSnapshot) -> Seq<Seq<char>> {
    match p.item {
        Some(it) => seq![item_line(it)] + match p.progress_secs {
            Some(pr) => seq![
                clock_text(pr as nat) + " / "@ + clock_text(it.duration_view()->0 as nat),
            ],
            None => Seq::empty(),
        },
        None => Seq::empty(),
    }
}

pub open spec fn volume_lines(p: PlaybackSnapshot) -> Seq<Seq<char>> {
    match p.device.volume_percent {
        Some(v) => seq!["Volume: "@ + decimal(v as nat) + "%"@],
        None => Seq::empty(),
    }
}

pub open spec fn context_view(context: Option<(ContentKind, String)>) -> Option<(ContentKind, Seq<char>)> {
    match context {
        Some((k, n)) => Some((k, n@)),
        None => None,
    }
}

fn credit_text(name: String, artist: Option<String>) -> (r: String)
    ensures
        r@ == credit_line(
            name@,
            match artist {
                Some(a) => Some(a@),
                None => None,
            },
        ),
{
    let mut r = name;
    match artist {
        Some(a) => {
            r.append(" \u{2014} ");
            r.append(a.as_str());
        },
        None => {},
    }
    r
}

fn push_context(lines: &mut Vec<String>, context: Option<(ContentKind, String)>)
    ensures
        final(lines).deep_view() == old(lines).deep_view() + context_lines(context_view(context)),
{
    match context {
        Some((k, n)) => {
            let mut line = String::from_str(k.label_str());
            line.append(": ");
            line.append(n.as_str());
            push_line(lines, line);
        },
        None => {},
    }
    assert(final(lines).deep_view() =~= old(lines).deep_view() + context_lines(context_view(context)));
}

fn push_item(lines: &mut Vec<String>, playback: &PlaybackSnapshot)
    ensures
        final(lines).deep_view() == old(lines).deep_view() + item_lines(*playback),
{
    match &playback.item {
        Some(it) => {
            push_line(lines, credit_text(it.name(), primary_artist(it)));
            match playback.progress_secs {
                Some(pr) => {
                    let mut line = duration_clock_format(pr);
                    line.append(" / ");
                    line.append(duration_clock_format(it.length_secs()).as_str());
                    push_line(lines, line);
                },
                None => {},
            }
        },
        None => {},
    }
    assert(final(lines).deep_view() =~= old(lines).deep_view() + item_lines(*playback));
}

fn push_volume(lines: &mut Vec<String>, playback: &PlaybackSnapshot)
    ensures
        final(lines).deep_view() == old(lines).deep_view() + volume_lines(*playback),
{
    match playback.device.volume_percent {
        Some(v) => {
            let mut line = String::from_str("Volume: ");
            line.append(decimal_string(v as u64).as_str());
            line.append("%");
            push_line(lines, line);
        },
        None => {},
    }
    assert(final(lines).deep_view() =~= old(lines).deep_view() + volume_lines(*playback));
}

/// Describes a playback; `context` is the kind and name of the context
/// being played, when there is one.
pub fn status(playback: &PlaybackSnapshot, context: Option<(ContentKind, String)>) -> (r: Response)
    ensures
        r@ == (status_view(*playback, context_view(context)), true),
{
    let ghost ctx_view = context_view(context);
    let mut lines: Vec<String> = Vec::new();
    push_line(
        &mut lines,
        String::from_str(
            if playback.is_playing {
                "Playing"
            } else {
                "Paused"
            },
        ),
    );
    push_context(&mut lines, context);
    push_item(&mut lines, playback);
    push_volume(&mut lines, playback);
    let mut shuffle = String::from_str("Shuffle: ");
    shuffle.append(
        if playback.shuffle {
            "On"
        } else {
            "Off"
        },
    );
    push_line(&mut lines, shuffle);
    let mut repeat = String::from_str("Repeat: ");
    repeat.append(playback.repeat.label_str());
    push_line(&mut lines, repeat);
    assert(lines.deep_view() =~= status_view(*playback, ctx_view));
    Response::from_lines(lines, true)
}

/// The line of the item playing now in a queue listing.
pub open spec fn current_line(item: PlayableItem) -> Seq<char> {
    match first_artist(item.artists_view()) {
        Some(a) => "Currently playing "@ + item.name_view() + " by "@ + a,
        None => "Currently playing "@ + item.name_view(),
    }
}

/// The line of the queued item at 1-based position `index`.
pub open spec fn entry_line(index: nat, item: PlayableItem) -> Seq<char> {
    right_aligned3(index) + ". "@ + credit_line(item.name_view(), first_artist(item.artists_view()))
}

/// The lines of a queue listing: the item playing now, if any, then each
/// queued item numbered from 1.
pub open spec fn queue_view(q: QueueSnapshot) -> Seq<Seq<char>> {
    (match q.currently_playing {
        Some(it) => seq![current_line(it)],
        None => Seq::empty(),
    }) + Seq::new(q.queue@.len(), |i: int| entry_line((i + 1) as nat, q.queue@[i]))
}

/// Lists the play queue.
pub fn queue_list(q: &QueueSnapshot) -> (r: Response)
    ensures
        r@ == (queue_view(*q), true),
{
    let mut lines: Vec<String> = Vec::new();
    match &q.currently_playing {
        Some(it) => {
            let mut line = String::from_str("Currently playing ");
            line.append(it.name().as_str());
            match primary_artist(it) {
                Some(a) => {
                    line.append(" by ");
                    line.append(a.as_str());
                },
                None => {},
            }
            push_line(&mut lines, line);
        },
        None => {},
    }
    let ghost first = lines.deep_view();
    let mut i: usize = 0;
    while i < q.queue.len()
        invariant
            i <= q.queue@.len(),
            lines.deep_view() =~= first + Seq::new(
                i as nat,
                |j: int| entry_line((j + 1) as nat, q.queue@[j]),
            ),
        decreases q.queue.len() - i,
    {
        let it = &q.queue[i];
        let mut line = right_aligned3_string((i + 1) as u64);
        line.append(". ");
        line.append(credit_text(it.name(), primary_artist(it)).as_str());
        push_line(&mut lines, line);
        i += 1;
    }
    assert(lines.deep_view() =~= queue_view(*q));
    Response::from_lines(lines, true)
}

/// The device of the current playback, if there is one.
pub fn active_device(playback: Option<PlaybackSnapshot>) -> (r: Option<Device>)
    ensures
        match playback {
            Some(p) => r == Some(p.device),
            None => r is None,
        },
{
    match playback {
        Some(p) => Some(p.device),
        None => None,
    }
}

} // verus!
