//! Metadata of content, in a simplified form (from searches and listings)
//! and a full form (from a direct fetch), and the identifiers of what can
//! be played item by item or as a context.
use vstd::prelude::*;
use vstd::string::*;

use crate::reference::{ContentId, ContentKind, IdView};
use crate::text::{copy_string, copy_strings};

verus! {

/// The identifier of something played item by item: a track or an episode.
#[derive(Clone, Debug, PartialEq, Eq)]
pub enum PlayableId {
    Track(String),
    Episode(String),
}

impl View for PlayableId {
    type V = IdView;

    open spec fn view(&self) -> IdView {
        match self {
            PlayableId::Track(s) => (ContentKind::Track, s@),
            PlayableId::Episode(s) => (ContentKind::Episode, s@),
        }
    }
}

impl PlayableId {
    pub fn duplicate(&self) -> (r: PlayableId)
        ensures
            r@ == self@,
    {
        match self {
            PlayableId::Track(s) => PlayableId::Track(copy_string(s)),
            PlayableId::Episode(s) => PlayableId::Episode(copy_string(s)),
        }
    }

    /// The identifier of a track or an episode as a playable one.
    pub fn from_content(id: ContentId) -> (r: Option<PlayableId>)
        ensures
            id@.0.is_playable() ==> (r matches Some(p) && p@ == id@),
            !id@.0.is_playable() ==> r is None,
    {
        match id {
            ContentId::Track(s) => Some(PlayableId::Track(s)),
            ContentId::Episode(s) => Some(PlayableId::Episode(s)),
            _ => None,
        }
    }
}

/// The identifier of something played as a whole: album, playlist, artist or show.
#[derive(Clone, Debug, PartialEq, Eq)]
pub enum PlayContextId {
    Album(String),
    Playlist(String),
    Artist(String),
    Show(String),
}

impl View for PlayContextId {
    type V = IdView;

    open spec fn view(&self) -> IdView {
        match self {
            PlayContextId::Album(s) => (ContentKind::Album, s@),
            PlayContextId::Playlist(s) => (ContentKind::Playlist, s@),
            PlayContextId::Artist(s) => (ContentKind::Artist, s@),
            PlayContextId::Show(s) => (ContentKind::Show, s@),
        }
    }
}

impl PlayContextId {
    /// The identifier of an album, playlist, artist or show as a context.
    pub fn from_content(id: ContentId) -> (r: Option<PlayContextId>)
        ensures
            !id@.0.is_playable() ==> (r matches Some(p) && p@ == id@),
            id@.0.is_playable() ==> r is None,
    {
        match id {
            ContentId::Album(s) => Some(PlayContextId::Album(s)),
            ContentId::Playlist(s) => Some(PlayContextId::Playlist(s)),
            ContentId::Artist(s) => Some(PlayContextId::Artist(s)),
            ContentId::Show(s) => Some(PlayContextId::Show(s)),
            _ => None,
        }
    }
}

/// A track, simplified or full.
#[derive(Clone, Debug, PartialEq, Eq)]
pub struct TrackInfo {
    pub id: String,
    pub name: String,
    /// Names of the credited artists, primary first.
    pub artists: Vec<String>,
    pub duration_secs: u64,
}

/// An episode of a show, simplified or full.
#[derive(Clone, Debug, PartialEq, Eq)]
pub struct EpisodeInfo {
    pub id: String,
    pub name: String,
    pub duration_secs: u64,
}

/// A simplified album.
#[derive(Clone, Debug, PartialEq, Eq)]
pub struct AlbumInfo {
    pub id: String,
    pub name: String,
    pub artists: Vec<String>,
}

/// A full album, with the ids of its tracks in album order.
#[derive(Clone, Debug, PartialEq, Eq)]
pub struct FullAlbumInfo {
    pub id: String,
    pub name: String,
    pub artists: Vec<String>,
    pub tracks: Vec<String>,
}

/// Content known by id and name alone: a simplified playlist, show or
/// artist, or a full artist.
#[derive(Clone, Debug, PartialEq, Eq)]
pub struct NamedInfo {
    pub id: String,
    pub name: String,
}

/// A full playlist, with its items in playlist order.
#[derive(Clone, Debug, PartialEq, Eq)]
pub struct FullPlaylistInfo {
    pub id: String,
    pub name: String,
    pub items: Vec<PlayableId>,
}

/// A full show, with the ids of its episodes in show order.
#[derive(Clone, Debug, PartialEq, Eq)]
pub struct FullShowInfo {
    pub id: String,
    pub name: String,
    pub episodes: Vec<String>,
}

/// Metadata of one piece of content: six kinds, each simplified or full.
#[derive(Clone, Debug, PartialEq, Eq)]
pub enum ContentType {
    SimplifiedTrack(TrackInfo),
    SimplifiedAlbum(AlbumInfo),
    SimplifiedPlaylist(NamedInfo),
    SimplifiedArtist(NamedInfo),
    SimplifiedShow(NamedInfo),
    SimplifiedEpisode(EpisodeInfo),
    FullTrack(TrackInfo),
    FullAlbum(FullAlbumInfo),
    FullPlaylist(FullPlaylistInfo),
    FullArtist(NamedInfo),
    FullShow(FullShowInfo),
    FullEpisode(EpisodeInfo),
}

/// The item being played: a full track or a full episode.
#[derive(Clone, Debug, PartialEq, Eq)]
pub enum PlayableItem {
    Track(TrackInfo),
    Episode(EpisodeInfo),
}

/// What every piece of metadata tells: a name, the credited artists, and a
/// duration where the content has one.
pub trait ContentInfo {
    spec fn name_view(&self) -> Seq<char>;

    spec fn artists_view(&self) -> Seq<Seq<char>>;

    spec fn duration_view(&self) -> Option<u64>;

    fn name(&self) -> (r: String)
        ensures
            r@ == self.name_view(),
    ;

    fn artists(&self) -> (r: Vec<String>)
        ensures
            r.deep_view() == self.artists_view(),
    ;

    fn duration(&self) -> (r: Option<u64>)
        ensures
            r == self.duration_view(),
    ;
}

/// The primary artist named by a list of credits, if any.
pub open spec fn first_artist(artists: Seq<Seq<char>>) -> Option<Seq<char>> {
    if artists.len() > 0 {
        Some(artists[0])
    } else {
        None
    }
}

/// The primary artist of a piece of content, if it credits one.
pub fn primary_artist<T: ContentInfo>(item: &T) -> (r: Option<String>)
    ensures
        match r {
            Some(a) => first_artist(item.artists_view()) == Some(a@),
            None => first_artist(item.artists_view()) is None,
        },
{
    let mut artists = item.artists();
    if artists.len() > 0 {
        proof {
            assert(artists.deep_view()[0] == artists@[0]@);
        }
        Some(artists.swap_remove(0))
    } else {
        None
    }
}

pub open spec fn track_ids(kind: ContentKind, ids: Seq<Seq<char>>) -> Seq<IdView> {
    Seq::new(ids.len(), |i: int| (kind, ids[i]))
}

fn playable_ids(episodes: bool, ids: &Vec<String>) -> (r: Vec<PlayableId>)
    ensures
        r@.map_values(|p: PlayableId| p@) == track_ids(
            if episodes {
                ContentKind::Episode
            } else {
                ContentKind::Track
            },
            ids.deep_view(),
        ),
{
    let ghost kind = if episodes {
        ContentKind::Episode
    } else {
        ContentKind::Track
    };
    let mut r: Vec<PlayableId> = Vec::new();
    let mut i: usize = 0;
    while i < ids.len()
        invariant
            i <= ids.len(),
            r@.len() == i,
            kind == (if episodes {
                ContentKind::Episode
            } else {
                ContentKind::Track
            }),
            r@.map_values(|p: PlayableId| p@) =~= track_ids(kind, ids.deep_view()).subrange(
                0,
                i as int,
            ),
        decreases ids.len() - i,
    {
        let ghost prev = r@.map_values(|p: PlayableId| p@);
        let s = copy_string(&ids[i]);
        if episodes {
            r.push(PlayableId::Episode(s));
        } else {
            r.push(PlayableId::Track(s));
        }
        proof {
            let all = track_ids(kind, ids.deep_view());
            assert(ids.deep_view()[i as int] == ids@[i as int]@);
            assert(r@[i as int]@ == (kind, ids@[i as int]@));
            assert(all[i as int] == (kind, ids@[i as int]@));
            assert(r@.map_values(|p: PlayableId| p@) =~= prev.push(all[i as int]));
            assert(all.subrange(0, i + 1) =~= all.subrange(0, i as int).push(all[i as int]));
        }
        i += 1;
    }
    assert(r@.map_values(|p: PlayableId| p@) =~= track_ids(kind, ids.deep_view()));
    r
}

fn copy_playables(v: &Vec<PlayableId>) -> (r: Vec<PlayableId>)
    ensures
        r@.map_values(|p: PlayableId| p@) == v@.map_values(|p: PlayableId| p@),
{
    let mut r: Vec<PlayableId> = Vec::new();
    let mut i: usize = 0;
    while i < v.len()
        invariant
            i <= v.len(),
            r@.map_values(|p: PlayableId| p@) =~= v@.map_values(|p: PlayableId| p@).subrange(
                0,
                i as int,
            ),
        decreases v.len() - i,
    {
        let ghost prev = r@.map_values(|p: PlayableId| p@);
        r.push(v[i].duplicate());
        proof {
            let all = v@.map_values(|p: PlayableId| p@);
            assert(r@.map_values(|p: PlayableId| p@) =~= prev.push(all[i as int]));
            assert(all.subrange(0, i + 1) =~= all.subrange(0, i as int).push(all[i as int]));
        }
        i += 1;
    }
    assert(r@.map_values(|p: PlayableId| p@) =~= v@.map_values(|p: PlayableId| p@));
    r
}

impl ContentType {
    /// The kind of content described.
    pub open spec fn kind_view(&self) -> ContentKind {
        match self {
            ContentType::SimplifiedTrack(_) | ContentType::FullTrack(_) => ContentKind::Track,
            ContentType::SimplifiedAlbum(_) | ContentType::FullAlbum(_) => ContentKind::Album,
            ContentType::SimplifiedPlaylist(_) | ContentType::FullPlaylist(_) => ContentKind::Playlist,
            ContentType::SimplifiedArtist(_) | ContentType::FullArtist(_) => ContentKind::Artist,
            ContentType::SimplifiedShow(_) | ContentType::FullShow(_) => ContentKind::Show,
            ContentType::SimplifiedEpisode(_) | ContentType::FullEpisode(_) => ContentKind::Episode,
        }
    }

    /// The id text of the content described.
    pub open spec fn id_view(&self) -> Seq<char> {
        match self {
            ContentType::SimplifiedTrack(i) => i.id@,
            ContentType::SimplifiedAlbum(i) => i.id@,
            ContentType::SimplifiedPlaylist(i) => i.id@,
            ContentType::SimplifiedArtist(i) => i.id@,
            ContentType::SimplifiedShow(i) => i.id@,
            ContentType::SimplifiedEpisode(i) => i.id@,
            ContentType::FullTrack(i) => i.id@,
            ContentType::FullAlbum(i) => i.id@,
            ContentType::FullPlaylist(i) => i.id@,
            ContentType::FullArtist(i) => i.id@,
            ContentType::FullShow(i) => i.id@,
            ContentType::FullEpisode(i) => i.id@,
        }
    }

    /// The playable children, in order, of a full album, playlist or show;
    /// `None` (not applicable, which differs from empty) for every other form.
    pub open spec fn children_view(&self) -> Option<Seq<IdView>> {
        match self {
            ContentType::FullAlbum(i) => Some(track_ids(ContentKind::Track, i.tracks.deep_view())),
            ContentType::FullPlaylist(i) => Some(i.items@.map_values(|p: PlayableId| p@)),
            ContentType::FullShow(i) => Some(track_ids(ContentKind::Episode, i.episodes.deep_view())),
            _ => None,
        }
    }

    /// The identifier of the content described.
    pub fn content_id(&self) -> (r: ContentId)
        ensures
            r@ == (self.kind_view(), self.id_view()),
    {
        let id = match self {
            ContentType::SimplifiedTrack(i) => copy_string(&i.id),
            ContentType::SimplifiedAlbum(i) => copy_string(&i.id),
            ContentType::SimplifiedPlaylist(i) => copy_string(&i.id),
            ContentType::SimplifiedArtist(i) => copy_string(&i.id),
            ContentType::SimplifiedShow(i) => copy_string(&i.id),
            ContentType::SimplifiedEpisode(i) => copy_string(&i.id),
            ContentType::FullTrack(i) => copy_string(&i.id),
            ContentType::FullAlbum(i) => copy_string(&i.id),
            ContentType::FullPlaylist(i) => copy_string(&i.id),
            ContentType::FullArtist(i) => copy_string(&i.id),
            ContentType::FullShow(i) => copy_string(&i.id),
            ContentType::FullEpisode(i) => copy_string(&i.id),
        };
        let kind = match self {
            ContentType::SimplifiedTrack(_) | ContentType::FullTrack(_) => ContentKind::Track,
            ContentType::SimplifiedAlbum(_) | ContentType::FullAlbum(_) => ContentKind::Album,
            ContentType::SimplifiedPlaylist(_) | ContentType::FullPlaylist(_) => ContentKind::Playlist,
            ContentType::SimplifiedArtist(_) | ContentType::FullArtist(_) => ContentKind::Artist,
            ContentType::SimplifiedShow(_) | ContentType::FullShow(_) => ContentKind::Show,
            ContentType::SimplifiedEpisode(_) | ContentType::FullEpisode(_) => ContentKind::Episode,
        };
        ContentId::new(kind, id)
    }

    /// The playable children, in order, of a full album, playlist or show;
    /// `None` for every other form.
    pub fn ids(&self) -> (r: Option<Vec<PlayableId>>)
        ensures
            match r {
                Some(v) => self.children_view() == Some(v@.map_values(|p: PlayableId| p@)),
                None => self.children_view() is None,
            },
    {
        match self {
            ContentType::FullAlbum(i) => Some(playable_ids(false, &i.tracks)),
            ContentType::FullPlaylist(i) => Some(copy_playables(&i.items)),
            ContentType::FullShow(i) => Some(playable_ids(true, &i.episodes)),
            _ => None,
        }
    }
}

impl ContentInfo for ContentType {
    open spec fn name_view(&self) -> Seq<char> {
        match self {
            ContentType::SimplifiedTrack(i) => i.name@,
            ContentType::SimplifiedAlbum(i) => i.name@,
            ContentType::SimplifiedPlaylist(i) => i.name@,
            ContentType::SimplifiedArtist(i) => i.name@,
            ContentType::SimplifiedShow(i) => i.name@,
            ContentType::SimplifiedEpisode(i) => i.name@,
            ContentType::FullTrack(i) => i.name@,
            ContentType::FullAlbum(i) => i.name@,
            ContentType::FullPlaylist(i) => i.name@,
            ContentType::FullArtist(i) => i.name@,
            ContentType::FullShow(i) => i.name@,
            ContentType::FullEpisode(i) => i.name@,
        }
    }

    /// Tracks and albums credit their artists; an artist credits itself;
    /// playlists, shows and episodes credit no one.
    open spec fn artists_view(&self) -> Seq<Seq<char>> {
        match self {
            ContentType::SimplifiedTrack(i) => i.artists.deep_view(),
            ContentType::SimplifiedAlbum(i) => i.artists.deep_view(),
            ContentType::SimplifiedArtist(i) => seq![i.name@],
            ContentType::FullTrack(i) => i.artists.deep_view(),
            ContentType::FullAlbum(i) => i.artists.deep_view(),
            ContentType::FullArtist(i) => seq![i.name@],
            _ => Seq::empty(),
        }
    }

    /// Only tracks and episodes have a duration.
    open spec fn duration_view(&self) -> Option<u64> {
        match self {
            ContentType::SimplifiedTrack(i) => Some(i.duration_secs),
            ContentType::FullTrack(i) => Some(i.duration_secs),
            ContentType::SimplifiedEpisode(i) => Some(i.duration_secs),
            ContentType::FullEpisode(i) => Some(i.duration_secs),
            _ => None,
        }
    }

    fn name(&self) -> (r: String) {
        match self {
            ContentType::SimplifiedTrack(i) => copy_string(&i.name),
            ContentType::SimplifiedAlbum(i) => copy_string(&i.name),
            ContentType::SimplifiedPlaylist(i) => copy_string(&i.name),
            ContentType::SimplifiedArtist(i) => copy_string(&i.name),
            ContentType::SimplifiedShow(i) => copy_string(&i.name),
            ContentType::SimplifiedEpisode(i) => copy_string(&i.name),
            ContentType::FullTrack(i) => copy_string(&i.name),
            ContentType::FullAlbum(i) => copy_string(&i.name),
            ContentType::FullPlaylist(i) => copy_string(&i.name),
            ContentType::FullArtist(i) => copy_string(&i.name),
            ContentType::FullShow(i) => copy_string(&i.name),
            ContentType::FullEpisode(i) => copy_string(&i.name),
        }
    }

    fn artists(&self) -> (r: Vec<String>) {
        match self {
            ContentType::SimplifiedTrack(i) => copy_strings(&i.artists),
            ContentType::SimplifiedAlbum(i) => copy_strings(&i.artists),
            ContentType::SimplifiedArtist(i) => single(&i.name),
            ContentType::FullTrack(i) => copy_strings(&i.artists),
            ContentType::FullAlbum(i) => copy_strings(&i.artists),
            ContentType::FullArtist(i) => single(&i.name),
            _ => {
                let r: Vec<String> = Vec::new();
                assert(r.deep_view() =~= Seq::<Seq<char>>::empty());
                r
            },
        }
    }

    fn duration(&self) -> (r: Option<u64>) {
        match self {
            ContentType::SimplifiedTrack(i) => Some(i.duration_secs),
            ContentType::FullTrack(i) => Some(i.duration_secs),
            ContentType::SimplifiedEpisode(i) => Some(i.duration_secs),
            ContentType::FullEpisode(i) => Some(i.duration_secs),
            _ => None,
        }
    }
}

fn single(s: &String) -> (r: Vec<String>)
    ensures
        r.deep_view() == seq![s@],
{
    let mut r: Vec<String> = Vec::new();
    r.push(copy_string(s));
    assert(r.deep_view() =~= seq![s@]);
    r
}

impl ContentInfo for PlayableItem {
    open spec fn name_view(&self) -> Seq<char> {
        match self {
            PlayableItem::Track(i) => i.name@,
            PlayableItem::Episode(i) => i.name@,
        }
    }

    open spec fn artists_view(&self) -> Seq<Seq<char>> {
        match self {
            PlayableItem::Track(i) => i.artists.deep_view(),
            PlayableItem::Episode(_) => Seq::empty(),
        }
    }

    open spec fn duration_view(&self) -> Option<u64> {
        match self {
            PlayableItem::Track(i) => Some(i.duration_secs),
            PlayableItem::Episode(i) => Some(i.duration_secs),
        }
    }

    fn name(&self) -> (r: String) {
        match self {
            PlayableItem::Track(i) => copy_string(&i.name),
            PlayableItem::Episode(i) => copy_string(&i.name),
        }
    }

    fn artists(&self) -> (r: Vec<String>) {
        match self {
            PlayableItem::Track(i) => copy_strings(&i.artists),
            PlayableItem::Episode(_) => {
                let r: Vec<String> = Vec::new();
                assert(r.deep_view() =~= Seq::<Seq<char>>::empty());
                r
            },
        }
    }

    fn duration(&self) -> (r: Option<u64>) {
        match self {
            PlayableItem::Track(i) => Some(i.duration_secs),
            PlayableItem::Episode(i) => Some(i.duration_secs),
        }
    }
}

impl PlayableItem {
    /// The length of the item in whole seconds.
    pub fn length_secs(&self) -> (r: u64)
        ensures
            self.duration_view() == Some(r),
    {
        match self {
            PlayableItem::Track(i) => i.duration_secs,
            PlayableItem::Episode(i) => i.duration_secs,
        }
    }
}

} // verus!

verus! {

impl From<PlayableId> for ContentId {
    fn from(id: PlayableId) -> (r: ContentId) {
        match id {
            PlayableId::Track(s) => ContentId::Track(s),
            PlayableId::Episode(s) => ContentId::Episode(s),
        }
    }
}

impl vstd::std_specs::convert::FromSpecImpl<PlayableId> for ContentId {
    open spec fn obeys_from_spec() -> bool {
        true
    }

    open spec fn from_spec(id: PlayableId) -> ContentId {
        match id {
            PlayableId::Track(s) => ContentId::Track(s),
            PlayableId::Episode(s) => ContentId::Episode(s),
        }
    }
}

impl From<PlayContextId> for ContentId {
    fn from(id: PlayContextId) -> (r: ContentId) {
        match id {
            PlayContextId::Album(s) => ContentId::Album(s),
            PlayContextId::Playlist(s) => ContentId::Playlist(s),
            PlayContextId::Artist(s) => ContentId::Artist(s),
            PlayContextId::Show(s) => ContentId::Show(s),
        }
    }
}

impl vstd::std_specs::convert::FromSpecImpl<PlayContextId> for ContentId {
    open spec fn obeys_from_spec() -> bool {
        true
    }

    open spec fn from_spec(id: PlayContextId) -> ContentId {
        match id {
            PlayContextId::Album(s) => ContentId::Album(s),
            PlayContextId::Playlist(s) => ContentId::Playlist(s),
            PlayContextId::Artist(s) => ContentId::Artist(s),
            PlayContextId::Show(s) => ContentId::Show(s),
        }
    }
}

} // verus!
