//! Content kinds, typed identifiers, and the parsing of canonical URIs
//! (`spotify:{kind}:{id}`) and web links (`https://open.spotify.com/{kind}/{id}`).
use vstd::prelude::*;
use vstd::string::*;

use crate::error::OperationError;

verus! {

/// The six kinds of content the service names.
#[derive(Clone, Copy, Debug, PartialEq, Eq, Structural)]
pub enum ContentKind {
    Track,
    Album,
    Playlist,
    Artist,
    Show,
    Episode,
}

/// The view of an identifier: its kind and its id text.
pub type IdView = (ContentKind, Seq<char>);

impl ContentKind {
    /// The keyword that names the kind in URIs and web links.
    pub open spec fn keyword(self) -> Seq<char> {
        match self {
            ContentKind::Track => "track"@,
            ContentKind::Album => "album"@,
            ContentKind::Playlist => "playlist"@,
            ContentKind::Artist => "artist"@,
            ContentKind::Show => "show"@,
            ContentKind::Episode => "episode"@,
        }
    }

    /// The capitalised name used in status lines.
    pub open spec fn label(self) -> Seq<char> {
        match self {
            ContentKind::Track => "Track"@,
            ContentKind::Album => "Album"@,
            ContentKind::Playlist => "Playlist"@,
            ContentKind::Artist => "Artist"@,
            ContentKind::Show => "Show"@,
            ContentKind::Episode => "Episode"@,
        }
    }

    /// The kind that a keyword names, if any (exact and case-sensitive).
    pub open spec fn from_keyword(s: Seq<char>) -> Option<ContentKind> {
        if s == "track"@ {
            Some(ContentKind::Track)
        } else if s == "album"@ {
            Some(ContentKind::Album)
        } else if s == "playlist"@ {
            Some(ContentKind::Playlist)
        } else if s == "artist"@ {
            Some(ContentKind::Artist)
        } else if s == "show"@ {
            Some(ContentKind::Show)
        } else if s == "episode"@ {
            Some(ContentKind::Episode)
        } else {
            None
        }
    }

    /// Tracks and episodes are played one by one; the other kinds are contexts.
    pub open spec fn is_playable(self) -> bool {
        self == ContentKind::Track || self == ContentKind::Episode
    }

    pub fn keyword_str(&self) -> (r: &'static str)
        ensures
            r@ == self.keyword(),
    {
        match self {
            ContentKind::Track => "track",
            ContentKind::Album => "album",
            ContentKind::Playlist => "playlist",
            ContentKind::Artist => "artist",
            ContentKind::Show => "show",
            ContentKind::Episode => "episode",
        }
    }

    pub fn label_str(&self) -> (r: &'static str)
        ensures
            r@ == self.label(),
    {
        match self {
            ContentKind::Track => "Track",
            ContentKind::Album => "Album",
            ContentKind::Playlist => "Playlist",
            ContentKind::Artist => "Artist",
            ContentKind::Show => "Show",
            ContentKind::Episode => "Episode",
        }
    }

    pub fn is_playable_kind(&self) -> (r: bool)
        ensures
            r == self.is_playable(),
    {
        match self {
            ContentKind::Track | ContentKind::Episode => true,
            _ => false,
        }
    }

    /// Reads a kind keyword from `s`, exactly and case-sensitively.
    pub fn parse_keyword(s: &str) -> (r: Option<ContentKind>)
        ensures
            r == ContentKind::from_keyword(s@),
    {
        if same_text(s, "track") {
            Some(ContentKind::Track)
        } else if same_text(s, "album") {
            Some(ContentKind::Album)
        } else if same_text(s, "playlist") {
            Some(ContentKind::Playlist)
        } else if same_text(s, "artist") {
            Some(ContentKind::Artist)
        } else if same_text(s, "show") {
            Some(ContentKind::Show)
        } else if same_text(s, "episode") {
            Some(ContentKind::Episode)
        } else {
            None
        }
    }
}

/// Whether two strings hold the same characters.
pub fn same_text(a: &str, b: &str) -> (r: bool)
    ensures
        r == (a@ == b@),
{
    let n = a.unicode_len();
    if n != b.unicode_len() {
        return false;
    }
    let mut i: usize = 0;
    while i < n
        invariant
            n == a@.len(),
            n == b@.len(),
            i <= n,
            forall|j: int| 0 <= j < i ==> a@[j] == b@[j],
        decreases n - i,
    {
        if a.get_char(i) != b.get_char(i) {
            return false;
        }
        i += 1;
    }
    assert(a@ =~= b@);
    true
}

/// Index of the first `c` in `s` at or after `from`, or `s.len()` if there is none.
pub open spec fn find_first(s: Seq<char>, c: char, from: int) -> int
    decreases s.len() - from,
{
    if from < 0 || from >= s.len() {
        s.len() as int
    } else if s[from] == c {
        from
    } else {
        find_first(s, c, from + 1)
    }
}

/// Index of the last `c` in `s` before `end`, or -1 if there is none.
pub open spec fn find_last(s: Seq<char>, c: char, end: int) -> int
    decreases end,
{
    if end <= 0 || end > s.len() {
        -1
    } else if s[end - 1] == c {
        end - 1
    } else {
        find_last(s, c, end - 1)
    }
}

/// `find_first` lands within `[from, len]`, on a `c` unless at `len`, and
/// passes no `c` on its way.
pub proof fn lemma_find_first_bounds(s: Seq<char>, c: char, from: int)
    requires
        0 <= from <= s.len(),
    ensures
        from <= find_first(s, c, from) <= s.len(),
        find_first(s, c, from) < s.len() ==> s[find_first(s, c, from)] == c,
        forall|j: int| from <= j < find_first(s, c, from) ==> s[j] != c,
    decreases s.len() - from,
{
    if from < s.len() && s[from] != c {
        lemma_find_first_bounds(s, c, from + 1);
    }
}

/// `find_last` lands within `[-1, end)`, on a `c` unless at -1, and passes no
/// `c` on its way.
pub proof fn lemma_find_last_bounds(s: Seq<char>, c: char, end: int)
    requires
        0 <= end <= s.len(),
    ensures
        -1 <= find_last(s, c, end) < end,
        find_last(s, c, end) >= 0 ==> s[find_last(s, c, end)] == c,
        forall|j: int| find_last(s, c, end) < j < end ==> s[j] != c,
    decreases end,
{
    if end > 0 && s[end - 1] != c {
        lemma_find_last_bounds(s, c, end - 1);
    }
}

pub fn first_index_of(s: &str, c: char, from: usize) -> (r: usize)
    requires
        from <= s@.len(),
    ensures
        r as int == find_first(s@, c, from as int),
        from <= r <= s@.len(),
{
    proof {
        lemma_find_first_bounds(s@, c, from as int);
    }
    let n = s.unicode_len();
    let mut i = from;
    while i < n
        invariant
            n == s@.len(),
            from <= i <= n,
            find_first(s@, c, i as int) == find_first(s@, c, from as int),
        decreases n - i,
    {
        if s.get_char(i) == c {
            return i;
        }
        i += 1;
    }
    i
}

pub fn last_index_of(s: &str, c: char, end: usize) -> (r: Option<usize>)
    requires
        end <= s@.len(),
    ensures
        match r {
            Some(i) => i as int == find_last(s@, c, end as int) && i < end,
            None => find_last(s@, c, end as int) == -1,
        },
{
    let mut i = end;
    while i > 0
        invariant
            i <= end <= s@.len(),
            find_last(s@, c, i as int) == find_last(s@, c, end as int),
        decreases i,
    {
        if s.get_char(i - 1) == c {
            return Some(i - 1);
        }
        i -= 1;
    }
    None
}

/// What a canonical URI names: `spotify:{kind}:{id}`, where the id is all
/// that follows the second colon.
pub open spec fn uri_meaning(s: Seq<char>) -> Result<IdView, OperationError> {
    let c1 = find_first(s, ':', 0);
    let c2 = find_first(s, ':', c1 + 1);
    if c2 >= s.len() {
        Err(OperationError::MalformedReference)
    } else if s.subrange(0, c1) != "spotify"@ {
        Err(OperationError::MalformedReference)
    } else {
        match ContentKind::from_keyword(s.subrange(c1 + 1, c2)) {
            None => Err(OperationError::UnknownKind),
            Some(k) => Ok((k, s.subrange(c2 + 1, s.len() as int))),
        }
    }
}

/// The canonical URI that a web link names, if it is one: the query is cut at
/// the first `?`, the last path segment is the id, the one before it the
/// kind, and the one before that must be the service's host.
pub open spec fn link_meaning(s: Seq<char>) -> Option<Seq<char>> {
    let base = s.subrange(0, find_first(s, '?', 0));
    let l1 = find_last(base, '/', base.len() as int);
    let l2 = find_last(base, '/', l1);
    let l3 = find_last(base, '/', l2);
    if l1 < 0 || l2 < 0 {
        None
    } else if base.subrange(l3 + 1, l2) != "open.spotify.com"@ {
        None
    } else {
        Some("spotify:"@ + base.subrange(l2 + 1, l1) + ":"@ + base.subrange(
            l1 + 1,
            base.len() as int,
        ))
    }
}

/// A typed identifier: one of the six kinds, with the id the service gave it.
#[derive(Clone, Debug, PartialEq, Eq)]
pub enum ContentId {
    Track(String),
    Album(String),
    Playlist(String),
    Artist(String),
    Show(String),
    Episode(String),
}

impl View for ContentId {
    type V = IdView;

    open spec fn view(&self) -> IdView {
        match self {
            ContentId::Track(s) => (ContentKind::Track, s@),
            ContentId::Album(s) => (ContentKind::Album, s@),
            ContentId::Playlist(s) => (ContentKind::Playlist, s@),
            ContentId::Artist(s) => (ContentKind::Artist, s@),
            ContentId::Show(s) => (ContentKind::Show, s@),
            ContentId::Episode(s) => (ContentKind::Episode, s@),
        }
    }
}

impl ContentId {
    /// Builds the identifier of kind `kind` for `id`.
    pub fn new(kind: ContentKind, id: String) -> (r: ContentId)
        ensures
            r@ == (kind, id@),
    {
        match kind {
            ContentKind::Track => ContentId::Track(id),
            ContentKind::Album => ContentId::Album(id),
            ContentKind::Playlist => ContentId::Playlist(id),
            ContentKind::Artist => ContentId::Artist(id),
            ContentKind::Show => ContentId::Show(id),
            ContentKind::Episode => ContentId::Episode(id),
        }
    }

    pub fn kind(&self) -> (r: ContentKind)
        ensures
            r == self@.0,
    {
        match self {
            ContentId::Track(_) => ContentKind::Track,
            ContentId::Album(_) => ContentKind::Album,
            ContentId::Playlist(_) => ContentKind::Playlist,
            ContentId::Artist(_) => ContentKind::Artist,
            ContentId::Show(_) => ContentKind::Show,
            ContentId::Episode(_) => ContentKind::Episode,
        }
    }

    pub fn id(&self) -> (r: &str)
        ensures
            r@ == self@.1,
    {
        match self {
            ContentId::Track(s) => s.as_str(),
            ContentId::Album(s) => s.as_str(),
            ContentId::Playlist(s) => s.as_str(),
            ContentId::Artist(s) => s.as_str(),
            ContentId::Show(s) => s.as_str(),
            ContentId::Episode(s) => s.as_str(),
        }
    }

    /// A copy of this identifier.
    pub fn duplicate(&self) -> (r: ContentId)
        ensures
            r@ == self@,
    {
        ContentId::new(self.kind(), String::from_str(self.id()))
    }

    /// Parses a canonical URI `spotify:{kind}:{id}`. Fails with
    /// `MalformedReference` when the text has fewer than two colons or does
    /// not start with `spotify`, and with `UnknownKind` when the second token
    /// is not one of the six kind keywords.
    pub fn from_uri(uri: &str) -> (r: Result<ContentId, OperationError>)
        ensures
            match r {
                Ok(id) => uri_meaning(uri@) == Ok::<IdView, OperationError>(id@),
                Err(e) => uri_meaning(uri@) == Err::<IdView, OperationError>(e),
            },
    {
        let n = uri.unicode_len();
        let c1 = first_index_of(uri, ':', 0);
        if c1 >= n {
            return Err(OperationError::MalformedReference);
        }
        let c2 = first_index_of(uri, ':', c1 + 1);
        if c2 >= n {
            return Err(OperationError::MalformedReference);
        }
        if !same_text(uri.substring_char(0, c1), "spotify") {
            return Err(OperationError::MalformedReference);
        }
        match ContentKind::parse_keyword(uri.substring_char(c1 + 1, c2)) {
            None => Err(OperationError::UnknownKind),
            Some(k) => Ok(ContentId::new(k, String::from_str(uri.substring_char(c2 + 1, n)))),
        }
    }

    /// Parses a web link into the identifier it names. Fails with
    /// `MalformedReference` when the text is not a link to the service, and
    /// otherwise as `from_uri` does on the canonical URI.
    pub fn from_url(url: &str) -> (r: Result<ContentId, OperationError>)
        ensures
            match link_meaning(url@) {
                None => r == Err::<ContentId, OperationError>(OperationError::MalformedReference),
                Some(u) => match r {
                    Ok(id) => uri_meaning(u) == Ok::<IdView, OperationError>(id@),
                    Err(e) => uri_meaning(u) == Err::<IdView, OperationError>(e),
                },
            },
    {
        match url_to_uri(url) {
            None => Err(OperationError::MalformedReference),
            Some(uri) => ContentId::from_uri(uri.as_str()),
        }
    }
}

/// Turns a web link into the canonical URI it names, or `None` when it is
/// not a link to the service.
pub fn url_to_uri(url: &str) -> (r: Option<String>)
    ensures
        match r {
            Some(u) => link_meaning(url@) == Some(u@),
            None => link_meaning(url@) is None,
        },
{
    let q = first_index_of(url, '?', 0);
    let base = url.substring_char(0, q);
    let n = base.unicode_len();
    let l1 = match last_index_of(base, '/', n) {
        Some(i) => i,
        None => return None,
    };
    let l2 = match last_index_of(base, '/', l1) {
        Some(i) => i,
        None => return None,
    };
    let start = match last_index_of(base, '/', l2) {
        Some(i) => i + 1,
        None => 0,
    };
    if !same_text(base.substring_char(start, l2), "open.spotify.com") {
        return None;
    }
    let mut r = String::from_str("spotify:");
    r.append(base.substring_char(l2 + 1, l1));
    r.append(":");
    r.append(base.substring_char(l1 + 1, n));
    Some(r)
}

} // verus!

verus! {

proof fn lemma_find_first_at(s: Seq<char>, c: char, from: int, p: int)
    requires
        0 <= from <= p < s.len(),
        s[p] == c,
        forall|j: int| from <= j < p ==> s[j] != c,
    ensures
        find_first(s, c, from) == p,
    decreases p - from,
{
    if from < p {
        lemma_find_first_at(s, c, from + 1, p);
    }
}

proof fn lemma_keyword_facts(k: ContentKind)
    ensures
        ContentKind::from_keyword(k.keyword()) == Some(k),
        forall|j: int| 0 <= j < k.keyword().len() ==> k.keyword()[j] != ':',
{
    reveal_strlit("track");
    reveal_strlit("album");
    reveal_strlit("playlist");
    reveal_strlit("artist");
    reveal_strlit("show");
    reveal_strlit("episode");
    let t = "track"@;
    let al = "album"@;
    let p = "playlist"@;
    let ar = "artist"@;
    let sh = "show"@;
    // The keywords differ in length or in one of their first two letters.
    assert(t.len() == 5 && al.len() == 5 && p.len() == 8 && ar.len() == 6 && sh.len() == 4);
    assert(al[0] != t[0]);
    assert(ar[1] != al[1]);
    assert(k.keyword()[0] != t[0] || k == ContentKind::Track);
}

/// A canonical URI `spotify:{k}:{id}` names the content of kind `k` whose id
/// is `id`, character for character.
pub proof fn lemma_uri_round_trip(k: ContentKind, id: Seq<char>)
    ensures
        uri_meaning("spotify:"@ + k.keyword() + ":"@ + id) == Ok::<IdView, OperationError>(
            (k, id),
        ),
{
    reveal_strlit("spotify:");
    reveal_strlit("spotify");
    reveal_strlit(":");
    lemma_keyword_facts(k);
    let kw = k.keyword();
    let s = "spotify:"@ + kw + ":"@ + id;
    let c2 = 8 + kw.len() as int;
    assert(s[7] == ':');
    assert forall|j: int| 0 <= j < 7 implies s[j] != ':' by {
        assert(s[j] == "spotify"@[j]);
    }
    lemma_find_first_at(s, ':', 0, 7);
    assert(s[c2] == ':');
    assert forall|j: int| 8 <= j < c2 implies s[j] != ':' by {
        assert(s[j] == kw[j - 8]);
    }
    lemma_find_first_at(s, ':', 8, c2);
    assert(s.subrange(0, 7) =~= "spotify"@);
    assert(s.subrange(8, c2) =~= kw);
    assert(s.subrange(c2 + 1, s.len() as int) =~= id);
}

/// Text with fewer than two colons is never a canonical URI: it is refused as
/// malformed.
pub proof fn lemma_uri_needs_two_colons(s: Seq<char>)
    requires
        !(exists|i: int, j: int| 0 <= i < j < s.len() && s[i] == ':' && s[j] == ':'),
    ensures
        uri_meaning(s) == Err::<IdView, OperationError>(OperationError::MalformedReference),
{
    lemma_find_first_bounds(s, ':', 0);
    let c1 = find_first(s, ':', 0);
    if c1 < s.len() {
        lemma_find_first_bounds(s, ':', c1 + 1);
        let c2 = find_first(s, ':', c1 + 1);
        if c2 < s.len() {
            assert(0 <= c1 < c2 < s.len() && s[c1] == ':' && s[c2] == ':');
        }
    } else {
        assert(find_first(s, ':', c1 + 1) == s.len());
    }
}

} // verus!
