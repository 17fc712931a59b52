//! Playing and queueing by query, URI or link, planned as a conversation
//! with the remote service: the task asks for one remote call at a time and
//! decides what comes next from the reply.
use vstd::prelude::*;
use vstd::string::*;

use crate::error::{OperationError, RemoteError};
use crate::model::{first_artist, primary_artist, ContentInfo, ContentType, PlayContextId, PlayableId};
use crate::reference::{link_meaning, uri_meaning, url_to_uri, ContentId, ContentKind, IdView};
use crate::response::{Response, ResponseView};
use crate::search::resolve_first;

verus! {

/// A remote call that the task asks for.
#[derive(Debug, PartialEq, Eq)]
pub enum PlayRequest {
    /// Resume the current playback.
    Resume,
    /// Search for content of one kind, with at most `limit` results.
    Search { query: String, kind: ContentKind, limit: u32 },
    /// Fetch the full metadata of the content.
    Fetch(ContentId),
    /// Replace the play queue with exactly these items and play them.
    StartItems(Vec<PlayableId>),
    /// Play a whole album, playlist, artist or show.
    StartContext(PlayContextId),
    /// Append one item to the end of the play queue.
    Enqueue(PlayableId),
}

pub enum RequestView {
    Resume,
    Search(Seq<char>, ContentKind, u32),
    Fetch(IdView),
    StartItems(Seq<IdView>),
    StartContext(IdView),
    Enqueue(IdView),
}

impl View for PlayRequest {
    type V = RequestView;

    open spec fn view(&self) -> RequestView {
        match self {
            PlayRequest::Resume => RequestView::Resume,
            PlayRequest::Search { query, kind, limit } => RequestView::Search(query@, *kind, *limit),
            PlayRequest::Fetch(id) => RequestView::Fetch(id@),
            PlayRequest::StartItems(v) => RequestView::StartItems(v@.map_values(|p: PlayableId| p@)),
            PlayRequest::StartContext(id) => RequestView::StartContext(id@),
            PlayRequest::Enqueue(id) => RequestView::Enqueue(id@),
        }
    }
}

/// The service's answer to the pending request.
#[derive(Debug)]
pub enum PlayReply {
    /// The call succeeded and returns nothing.
    Done,
    /// A search returned these identifiers, best first.
    Found(Vec<ContentId>),
    /// A fetch returned this metadata.
    Fetched(ContentType),
    /// The call failed.
    Failed(RemoteError),
}

/// What the task asks next: one more remote call, or the end with its result.
#[derive(Debug)]
pub enum PlayStep {
    Call(PlayRequest),
    Finish(Result<Response, OperationError>),
}

pub enum StepView {
    Call(RequestView),
    Finish(Result<ResponseView, OperationError>),
}

impl View for PlayStep {
    type V = StepView;

    open spec fn view(&self) -> StepView {
        match self {
            PlayStep::Call(r) => StepView::Call(r@),
            PlayStep::Finish(Ok(resp)) => StepView::Finish(Ok(resp@)),
            PlayStep::Finish(Err(e)) => StepView::Finish(Err(*e)),
        }
    }
}

#[derive(Debug)]
enum Stage {
    Resuming,
    Searching,
    Starting(ContentId),
    Loading(ContentId),
    Expanding { id: ContentId, children: Vec<PlayableId>, done: usize },
    Describing(ContentId),
    Finished,
}

/// Where the task stands: what reply it waits for, about which content.
pub enum StageView {
    /// Waiting for the resume call.
    Resuming,
    /// Waiting for the search results.
    Searching,
    /// Waiting for the single playback or queue call on this content.
    Starting(IdView),
    /// Waiting for the full metadata of a context whose children are to be queued.
    Loading(IdView),
    /// Queueing the children of a context one by one; the child at `done`
    /// is the call in flight.
    Expanding(IdView, Seq<IdView>, nat),
    /// Waiting for the metadata that names what was played or queued.
    Describing(IdView),
    /// Nothing is pending.
    Finished,
}

/// A play-or-queue operation in progress.
#[derive(Debug)]
pub struct PlayTask {
    queue: bool,
    stage: Stage,
}

/// The view of a task: whether it queues (rather than plays now), and its stage.
pub type TaskView = (bool, StageView);

impl View for PlayTask {
    type V = TaskView;

    closed spec fn view(&self) -> TaskView {
        (
            self.queue,
            match self.stage {
                Stage::Resuming => StageView::Resuming,
                Stage::Searching => StageView::Searching,
                Stage::Starting(id) => StageView::Starting(id@),
                Stage::Loading(id) => StageView::Loading(id@),
                Stage::Expanding { id, children, done } => StageView::Expanding(
                    id@,
                    children@.map_values(|p: PlayableId| p@),
                    done as nat,
                ),
                Stage::Describing(id) => StageView::Describing(id@),
                Stage::Finished => StageView::Finished,
            },
        )
    }
}

/// The line that reports what was played or queued.
pub open spec fn played_line(queue: bool, name: Seq<char>, artist: Option<Seq<char>>) -> Seq<
    char,
> {
    let prefix = if queue {
        "Queued"@
    } else {
        "Now playing"@
    };
    match artist {
        Some(a) => prefix + " "@ + name + " by "@ + a,
        None => prefix + " "@ + name,
    }
}

/// The first call for a resolved identifier: tracks and episodes are played
/// directly or queued as themselves; a context is played whole, or, to be
/// queued, first fetched so that its children can be queued one by one.
pub open spec fn dispatch_view(queue: bool, id: IdView) -> (StageView, StepView) {
    if !queue {
        if id.0.is_playable() {
            (StageView::Starting(id), StepView::Call(RequestView::StartItems(seq![id])))
        } else {
            (StageView::Starting(id), StepView::Call(RequestView::StartContext(id)))
        }
    } else {
        if id.0.is_playable() {
            (StageView::Starting(id), StepView::Call(RequestView::Enqueue(id)))
        } else {
            (StageView::Loading(id), StepView::Call(RequestView::Fetch(id)))
        }
    }
}

/// How a task begins. No query, or an empty one, resumes playback. A link is turned into its
/// identifier (a text that is no link, or whose URI does not parse, is an invalid reference). Any other
/// query is searched for, one result, of the given kind or else tracks.
pub open spec fn play_start(query: Option<Seq<char>>, kind: Option<ContentKind>, is_url: bool, queue: bool) -> (TaskView, StepView) {
    match query {
        None => ((queue, StageView::Resuming), StepView::Call(RequestView::Resume)),
        Some(q) => if q.len() == 0 {
            ((queue, StageView::Resuming), StepView::Call(RequestView::Resume))
        } else if is_url {
            match link_meaning(q) {
                None => (
                    (queue, StageView::Finished),
                    StepView::Finish(Err(OperationError::InvalidReference)),
                ),
                Some(u) => match uri_meaning(u) {
                    Err(_) => (
                        (queue, StageView::Finished),
                        StepView::Finish(Err(OperationError::InvalidReference)),
                    ),
                    Ok(id) => {
                        let (s, step) = dispatch_view(queue, id);
                        ((queue, s), step)
                    },
                },
            }
        } else {
            (
                (queue, StageView::Searching),
                StepView::Call(
                    RequestView::Search(
                        q,
                        match kind {
                            Some(k) => k,
                            None => ContentKind::Track,
                        },
                        1,
                    ),
                ),
            )
        },
    }
}

pub open spec fn finish_with(queue: bool, e: OperationError) -> (TaskView, StepView) {
    ((queue, StageView::Finished), StepView::Finish(Err(e)))
}

/// One step of a task: from its stage and the reply to its pending call, the
/// next stage and what it asks next. A failed call ends the task with that
/// failure; in the middle of queueing a context's children it ends it with a
/// partial failure that carries the failed call's error.
pub open spec fn play_next(t: TaskView, reply: PlayReply) -> (TaskView, StepView) {
    let queue = t.0;
    match (t.1, reply) {
        (StageView::Resuming, PlayReply::Done) => (
            (queue, StageView::Finished),
            StepView::Finish(Ok((seq!["Resumed playback"@], false))),
        ),
        (StageView::Searching, PlayReply::Found(ids)) => if ids@.len() == 0 {
            finish_with(queue, OperationError::EmptySearchResult)
        } else {
            let (s, step) = dispatch_view(queue, ids@[0]@);
            ((queue, s), step)
        },
        (StageView::Starting(id), PlayReply::Done) => (
            (queue, StageView::Describing(id)),
            StepView::Call(RequestView::Fetch(id)),
        ),
        (StageView::Loading(id), PlayReply::Fetched(m)) => match m.children_view() {
            None => finish_with(queue, OperationError::QueueUnsupported),
            Some(c) => if c.len() == 0 {
                ((queue, StageView::Describing(id)), StepView::Call(RequestView::Fetch(id)))
            } else {
                ((queue, StageView::Expanding(id, c, 0)), StepView::Call(RequestView::Enqueue(c[0])))
            },
        },
        (StageView::Expanding(id, c, done), PlayReply::Done) => if done + 1 < c.len() {
            (
                (queue, StageView::Expanding(id, c, done + 1)),
                StepView::Call(RequestView::Enqueue(c[done + 1 as int])),
            )
        } else {
            ((queue, StageView::Describing(id)), StepView::Call(RequestView::Fetch(id)))
        },
        (StageView::Expanding(_, _, _), PlayReply::Failed(e)) => finish_with(
            queue,
            OperationError::QueueExpansionPartialFailure(e),
        ),
        (StageView::Describing(_), PlayReply::Fetched(m)) => (
            (queue, StageView::Finished),
            StepView::Finish(
                Ok((seq![played_line(queue, m.name_view(), first_artist(m.artists_view()))], true)),
            ),
        ),
        (StageView::Finished, _) => finish_with(queue, OperationError::UnexpectedReply),
        (_, PlayReply::Failed(e)) => finish_with(queue, OperationError::Remote(e)),
        _ => finish_with(queue, OperationError::UnexpectedReply),
    }
}

impl PlayTask {
    /// The task's own consistency: a context being queued has a child in flight.
    pub closed spec fn wf(&self) -> bool {
        match self.stage {
            Stage::Expanding { children, done, .. } => done < children@.len(),
            _ => true,
        }
    }

    pub fn is_queue(&self) -> (r: bool)
        ensures
            r == self@.0,
    {
        self.queue
    }

    fn dispatch(queue: bool, id: ContentId) -> (r: (Stage, PlayStep))
        ensures
            ({
                let t = PlayTask { queue, stage: r.0 };
                &&& (t@.1, r.1@) == dispatch_view(queue, id@)
                &&& t.wf()
            }),
    {
        let keep = id.duplicate();
        let step = match id {
            ContentId::Track(s) => if queue {
                PlayStep::Call(PlayRequest::Enqueue(PlayableId::Track(s)))
            } else {
                PlayStep::Call(PlayRequest::StartItems(one(PlayableId::Track(s))))
            },
            ContentId::Episode(s) => if queue {
                PlayStep::Call(PlayRequest::Enqueue(PlayableId::Episode(s)))
            } else {
                PlayStep::Call(PlayRequest::StartItems(one(PlayableId::Episode(s))))
            },
            ContentId::Album(s) => if queue {
                PlayStep::Call(PlayRequest::Fetch(ContentId::Album(s)))
            } else {
                PlayStep::Call(PlayRequest::StartContext(PlayContextId::Album(s)))
            },
            ContentId::Playlist(s) => if queue {
                PlayStep::Call(PlayRequest::Fetch(ContentId::Playlist(s)))
            } else {
                PlayStep::Call(PlayRequest::StartContext(PlayContextId::Playlist(s)))
            },
            ContentId::Artist(s) => if queue {
                PlayStep::Call(PlayRequest::Fetch(ContentId::Artist(s)))
            } else {
                PlayStep::Call(PlayRequest::StartContext(PlayContextId::Artist(s)))
            },
            ContentId::Show(s) => if queue {
                PlayStep::Call(PlayRequest::Fetch(ContentId::Show(s)))
            } else {
                PlayStep::Call(PlayRequest::StartContext(PlayContextId::Show(s)))
            },
        };
        if queue && !keep.kind().is_playable_kind() {
            (Stage::Loading(keep), step)
        } else {
            (Stage::Starting(keep), step)
        }
    }

    /// Begins a play (`queue` false) or queue (`queue` true) operation and
    /// says what it asks first.
    pub fn start(query: Option<String>, kind: Option<ContentKind>, is_url: bool, queue: bool) -> (r: (PlayTask, PlayStep))
        ensures
            (r.0@, r.1@) == play_start(
                match query {
                    Some(q) => Some(q@),
                    None => None,
                },
                kind,
                is_url,
                queue,
            ),
            r.0.wf(),
    {
        match query {
            None => (PlayTask { queue, stage: Stage::Resuming }, PlayStep::Call(PlayRequest::Resume)),
            Some(q) => if q.as_str().unicode_len() == 0 {
                (PlayTask { queue, stage: Stage::Resuming }, PlayStep::Call(PlayRequest::Resume))
            } else if is_url {
                match url_to_uri(q.as_str()) {
                    None => (
                        PlayTask { queue, stage: Stage::Finished },
                        PlayStep::Finish(Err(OperationError::InvalidReference)),
                    ),
                    Some(u) => match ContentId::from_uri(u.as_str()) {
                        Err(_) => (
                            PlayTask { queue, stage: Stage::Finished },
                            PlayStep::Finish(Err(OperationError::InvalidReference)),
                        ),
                        Ok(id) => {
                            let (stage, step) = PlayTask::dispatch(queue, id);
                            (PlayTask { queue, stage }, step)
                        },
                    },
                }
            } else {
                let kind = match kind {
                    Some(k) => k,
                    None => ContentKind::Track,
                };
                (
                    PlayTask { queue, stage: Stage::Searching },
                    PlayStep::Call(PlayRequest::Search { query: q, kind, limit: 1 }),
                )
            },
        }
    }

    fn finish(queue: bool, e: OperationError) -> (r: (PlayTask, PlayStep))
        ensures
            (r.0@, r.1@) == finish_with(queue, e),
            r.0.wf(),
    {
        (PlayTask { queue, stage: Stage::Finished }, PlayStep::Finish(Err(e)))
    }

    /// Hands the task the reply to its pending call; it answers with its next
    /// state and what it asks next.
    pub fn resume(self, reply: PlayReply) -> (r: (PlayTask, PlayStep))
        requires
            self.wf(),
        ensures
            (r.0@, r.1@) == play_next(self@, reply),
            r.0.wf(),
    {
        let queue = self.queue;
        match self.stage {
            Stage::Resuming => match reply {
                PlayReply::Done => {
                    proof {
                        reveal_strlit("Resumed playback");
                    }
                    let line = String::from_str("Resumed playback");
                    (PlayTask { queue, stage: Stage::Finished }, PlayStep::Finish(Ok(Response::single(line, false))))
                },
                PlayReply::Failed(e) => PlayTask::finish(queue, OperationError::Remote(e)),
                _ => PlayTask::finish(queue, OperationError::UnexpectedReply),
            },
            Stage::Searching => match reply {
                PlayReply::Found(ids) => match resolve_first(ids) {
                    Err(e) => PlayTask::finish(queue, e),
                    Ok(first) => {
                        let (stage, step) = PlayTask::dispatch(queue, first);
                        (PlayTask { queue, stage }, step)
                    },
                },
                PlayReply::Failed(e) => PlayTask::finish(queue, OperationError::Remote(e)),
                _ => PlayTask::finish(queue, OperationError::UnexpectedReply),
            },
            Stage::Starting(id) => match reply {
                PlayReply::Done => {
                    let fetch = id.duplicate();
                    (PlayTask { queue, stage: Stage::Describing(id) }, PlayStep::Call(PlayRequest::Fetch(fetch)))
                },
                PlayReply::Failed(e) => PlayTask::finish(queue, OperationError::Remote(e)),
                _ => PlayTask::finish(queue, OperationError::UnexpectedReply),
            },
            Stage::Loading(id) => match reply {
                PlayReply::Fetched(m) => match m.ids() {
                    None => PlayTask::finish(queue, OperationError::QueueUnsupported),
                    Some(children) => if children.len() == 0 {
                        let fetch = id.duplicate();
                        (PlayTask { queue, stage: Stage::Describing(id) }, PlayStep::Call(PlayRequest::Fetch(fetch)))
                    } else {
                        let first = children[0].duplicate();
                        (
                            PlayTask { queue, stage: Stage::Expanding { id, children, done: 0 } },
                            PlayStep::Call(PlayRequest::Enqueue(first)),
                        )
                    },
                },
                PlayReply::Failed(e) => PlayTask::finish(queue, OperationError::Remote(e)),
                _ => PlayTask::finish(queue, OperationError::UnexpectedReply),
            },
            Stage::Expanding { id, children, done } => match reply {
                PlayReply::Done => if done < children.len() - 1 {
                    let next = children[done + 1].duplicate();
                    (
                        PlayTask { queue, stage: Stage::Expanding { id, children, done: done + 1 } },
                        PlayStep::Call(PlayRequest::Enqueue(next)),
                    )
                } else {
                    let fetch = id.duplicate();
                    (PlayTask { queue, stage: Stage::Describing(id) }, PlayStep::Call(PlayRequest::Fetch(fetch)))
                },
                PlayReply::Failed(e) => PlayTask::finish(queue, OperationError::QueueExpansionPartialFailure(e)),
                _ => PlayTask::finish(queue, OperationError::UnexpectedReply),
            },
            Stage::Describing(_) => match reply {
                PlayReply::Fetched(m) => {
                    let line = played_text(queue, &m);
                    (PlayTask { queue, stage: Stage::Finished }, PlayStep::Finish(Ok(Response::single(line, true))))
                },
                PlayReply::Failed(e) => PlayTask::finish(queue, OperationError::Remote(e)),
                _ => PlayTask::finish(queue, OperationError::UnexpectedReply),
            },
            Stage::Finished => PlayTask::finish(queue, OperationError::UnexpectedReply),
        }
    }
}

fn one(p: PlayableId) -> (r: Vec<PlayableId>)
    ensures
        r@.map_values(|q: PlayableId| q@) == seq![p@],
{
    let mut r: Vec<PlayableId> = Vec::new();
    r.push(p);
    assert(r@.map_values(|q: PlayableId| q@) =~= seq![p@]);
    r
}

/// The line that reports what was played or queued, from its metadata.
pub fn played_text(queue: bool, m: &ContentType) -> (r: String)
    ensures
        r@ == played_line(queue, m.name_view(), first_artist(m.artists_view())),
{
    proof {
        reveal_strlit("Queued");
        reveal_strlit("Now playing");
        reveal_strlit(" ");
        reveal_strlit(" by ");
    }
    let mut r = if queue {
        String::from_str("Queued")
    } else {
        String::from_str("Now playing")
    };
    r.append(" ");
    r.append(m.name().as_str());
    match primary_artist(m) {
        Some(a) => {
            r.append(" by ");
            r.append(a.as_str());
        },
        None => {},
    }
    r
}

} // verus!

verus! {

/// The steps a task takes when handed the replies in order.
pub open spec fn play_run(t: TaskView, replies: Seq<PlayReply>) -> Seq<StepView>
    decreases replies.len(),
{
    if replies.len() == 0 {
        Seq::empty()
    } else {
        let (next, step) = play_next(t, replies[0]);
        seq![step] + play_run(next, replies.drop_first())
    }
}

/// `n` successful replies.
pub open spec fn dones(n: nat) -> Seq<PlayReply> {
    Seq::new(n, |i: int| PlayReply::Done)
}

/// One enqueue call for each of the items, in order.
pub open spec fn enqueue_calls(items: Seq<IdView>) -> Seq<StepView> {
    items.map_values(|x: IdView| StepView::Call(RequestView::Enqueue(x)))
}

proof fn lemma_run_cons(t: TaskView, first: PlayReply, rest: Seq<PlayReply>)
    ensures
        play_run(t, seq![first] + rest) == seq![play_next(t, first).1] + play_run(
            play_next(t, first).0,
            rest,
        ),
{
    let all = seq![first] + rest;
    assert(all[0] == first);
    assert(all.drop_first() =~= rest);
}

proof fn lemma_expanding_completes(queue: bool, id: IdView, c: Seq<IdView>, j: int)
    requires
        0 <= j < c.len(),
    ensures
        play_run((queue, StageView::Expanding(id, c, j as nat)), dones((c.len() - j) as nat))
            == enqueue_calls(c.subrange(j + 1, c.len() as int)) + seq![
            StepView::Call(RequestView::Fetch(id)),
        ],
    decreases c.len() - j,
{
    let n = (c.len() - j) as nat;
    let t = (queue, StageView::Expanding(id, c, j as nat));
    assert(dones(n) =~= seq![PlayReply::Done] + dones((n - 1) as nat));
    lemma_run_cons(t, PlayReply::Done, dones((n - 1) as nat));
    if j + 1 < c.len() {
        lemma_expanding_completes(queue, id, c, j + 1);
        assert(enqueue_calls(c.subrange(j + 1, c.len() as int)) =~= seq![
            StepView::Call(RequestView::Enqueue(c[j + 1])),
        ] + enqueue_calls(c.subrange(j + 2, c.len() as int)));
    } else {
        assert(dones((n - 1) as nat) =~= Seq::<PlayReply>::empty());
        assert(enqueue_calls(c.subrange(j + 1, c.len() as int)) =~= Seq::<StepView>::empty());
    }
}

proof fn lemma_expanding_fails(queue: bool, id: IdView, c: Seq<IdView>, j: int, k: int, e: RemoteError)
    requires
        0 <= j <= k < c.len(),
    ensures
        play_run(
            (queue, StageView::Expanding(id, c, j as nat)),
            dones((k - j) as nat) + seq![PlayReply::Failed(e)],
        ) == enqueue_calls(c.subrange(j + 1, k + 1)) + seq![
            StepView::Finish(Err(OperationError::QueueExpansionPartialFailure(e))),
        ],
    decreases k - j,
{
    let t = (queue, StageView::Expanding(id, c, j as nat));
    if j == k {
        assert(dones(0) + seq![PlayReply::Failed(e)] =~= seq![PlayReply::Failed(e)] + Seq::<
            PlayReply,
        >::empty());
        lemma_run_cons(t, PlayReply::Failed(e), Seq::empty());
        assert(enqueue_calls(c.subrange(j + 1, k + 1)) =~= Seq::<StepView>::empty());
    } else {
        let rest = dones((k - j - 1) as nat) + seq![PlayReply::Failed(e)];
        assert(dones((k - j) as nat) + seq![PlayReply::Failed(e)] =~= seq![PlayReply::Done]
            + rest);
        lemma_run_cons(t, PlayReply::Done, rest);
        lemma_expanding_fails(queue, id, c, j + 1, k, e);
        assert(enqueue_calls(c.subrange(j + 1, k + 1)) =~= seq![
            StepView::Call(RequestView::Enqueue(c[j + 1])),
        ] + enqueue_calls(c.subrange(j + 2, k + 1)));
    }
}

/// Queueing a context whose full metadata lists `N` children issues exactly
/// `N` enqueue calls, one per child in the children's order, and then only
/// the fetch that names what was queued.
pub proof fn lemma_queue_context_enqueues_each_child(id: IdView, m: ContentType)
    requires
        m.children_view() is Some,
    ensures
        play_run(
            (true, StageView::Loading(id)),
            seq![PlayReply::Fetched(m)] + dones(m.children_view()->0.len()),
        ) == enqueue_calls(m.children_view()->0) + seq![StepView::Call(RequestView::Fetch(id))],
{
    let c = m.children_view()->0;
    let t = (true, StageView::Loading(id));
    lemma_run_cons(t, PlayReply::Fetched(m), dones(c.len()));
    if c.len() == 0 {
        assert(dones(0) =~= Seq::<PlayReply>::empty());
        assert(enqueue_calls(c) =~= Seq::<StepView>::empty());
    } else {
        lemma_expanding_completes(true, id, c, 0);
        assert(enqueue_calls(c) =~= seq![StepView::Call(RequestView::Enqueue(c[0]))]
            + enqueue_calls(c.subrange(1, c.len() as int)));
    }
}

/// When queueing a context's children, if the call for the child at `k`
/// fails, the calls for the children before it were issued, in order, no
/// call follows it, and the reported error carries exactly that call's error.
pub proof fn lemma_queue_context_stops_at_first_failure(
    id: IdView,
    m: ContentType,
    k: int,
    e: RemoteError,
)
    requires
        m.children_view() is Some,
        0 <= k < m.children_view()->0.len(),
    ensures
        play_run(
            (true, StageView::Loading(id)),
            seq![PlayReply::Fetched(m)] + dones(k as nat) + seq![PlayReply::Failed(e)],
        ) == enqueue_calls(m.children_view()->0.subrange(0, k + 1)) + seq![
            StepView::Finish(Err(OperationError::QueueExpansionPartialFailure(e))),
        ],
{
    let c = m.children_view()->0;
    let t = (true, StageView::Loading(id));
    let rest = dones(k as nat) + seq![PlayReply::Failed(e)];
    assert(seq![PlayReply::Fetched(m)] + dones(k as nat) + seq![PlayReply::Failed(e)] =~= seq![
        PlayReply::Fetched(m),
    ] + rest);
    lemma_run_cons(t, PlayReply::Fetched(m), rest);
    lemma_expanding_fails(true, id, c, 0, k, e);
    assert(enqueue_calls(c.subrange(0, k + 1)) =~= seq![
        StepView::Call(RequestView::Enqueue(c[0])),
    ] + enqueue_calls(c.subrange(1, k + 1)));
}

/// Playing a track or an episode now makes exactly one playback call, with
/// that item alone; what follows is only the fetch that names it.
pub proof fn lemma_play_now_starts_only_that_item(id: IdView, m: ContentType)
    requires
        id.0.is_playable(),
    ensures
        dispatch_view(false, id).1 == StepView::Call(RequestView::StartItems(seq![id])),
        play_run((false, dispatch_view(false, id).0), seq![PlayReply::Done, PlayReply::Fetched(m)])
            == seq![
            StepView::Call(RequestView::Fetch(id)),
            StepView::Finish(
                Ok((seq![played_line(false, m.name_view(), first_artist(m.artists_view()))], true)),
            ),
        ],
{
    let t = (false, dispatch_view(false, id).0);
    assert(seq![PlayReply::Done, PlayReply::Fetched(m)] =~= seq![PlayReply::Done] + seq![
        PlayReply::Fetched(m),
    ]);
    lemma_run_cons(t, PlayReply::Done, seq![PlayReply::Fetched(m)]);
    let t2 = play_next(t, PlayReply::Done).0;
    assert(seq![PlayReply::Fetched(m)] =~= seq![PlayReply::Fetched(m)] + Seq::<PlayReply>::empty());
    lemma_run_cons(t2, PlayReply::Fetched(m), Seq::empty());
    assert(play_run(play_next(t2, PlayReply::Fetched(m)).0, Seq::empty()) =~= Seq::<StepView>::empty());
}

} // verus!
