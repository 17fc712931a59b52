use fishify::dispatch::{PlayReply, PlayRequest, PlayStep, PlayTask};
use fishify::error::{OperationError, RemoteError};
use fishify::model::{ContentType, FullAlbumInfo, NamedInfo, PlayContextId, PlayableId, TrackInfo};
use fishify::reference::{ContentId, ContentKind};
use fishify::response::Response;

fn track(id: &str, name: &str, artist: &str) -> ContentType {
    ContentType::FullTrack(TrackInfo {
        id: id.to_string(),
        name: name.to_string(),
        artists: vec![artist.to_string()],
        duration_secs: 200,
    })
}

fn album(id: &str, tracks: &[&str]) -> ContentType {
    ContentType::FullAlbum(FullAlbumInfo {
        id: id.to_string(),
        name: "Blue".to_string(),
        artists: vec!["Joni Mitchell".to_string()],
        tracks: tracks.iter().map(|t| t.to_string()).collect(),
    })
}

fn remote(message: &str) -> RemoteError {
    RemoteError { not_found: false, message: message.to_string() }
}

fn call(step: PlayStep) -> PlayRequest {
    match step {
        PlayStep::Call(r) => r,
        PlayStep::Finish(r) => panic!("expected a call, got {r:?}"),
    }
}

fn finish(step: PlayStep) -> Result<Response, OperationError> {
    match step {
        PlayStep::Finish(r) => r,
        PlayStep::Call(r) => panic!("expected the end, got {r:?}"),
    }
}

#[test]
fn play_now_track_starts_only_that_item() {
    let (task, step) = PlayTask::start(Some("spotify:track:t1".to_string()), None, false, false);
    assert_eq!(
        call(step),
        PlayRequest::Search { query: "spotify:track:t1".to_string(), kind: ContentKind::Track, limit: 1 }
    );
    let (task, step) = task.resume(PlayReply::Found(vec![ContentId::Track("t1".to_string())]));
    assert_eq!(call(step), PlayRequest::StartItems(vec![PlayableId::Track("t1".to_string())]));
    let (task, step) = task.resume(PlayReply::Done);
    assert_eq!(call(step), PlayRequest::Fetch(ContentId::Track("t1".to_string())));
    let (_, step) = task.resume(PlayReply::Fetched(track("t1", "Song", "Singer")));
    let response = finish(step).unwrap();
    assert_eq!(response.lines, vec!["Now playing Song by Singer".to_string()]);
    assert!(response.verbose);
}

#[test]
fn play_link_to_album_plays_the_context() {
    let (task, step) =
        PlayTask::start(Some("https://open.spotify.com/album/a1?si=x".to_string()), None, true, false);
    assert_eq!(call(step), PlayRequest::StartContext(PlayContextId::Album("a1".to_string())));
    let (task, step) = task.resume(PlayReply::Done);
    assert_eq!(call(step), PlayRequest::Fetch(ContentId::Album("a1".to_string())));
    let (_, step) = task.resume(PlayReply::Fetched(album("a1", &["t1"])));
    assert_eq!(finish(step).unwrap().lines, vec!["Now playing Blue by Joni Mitchell".to_string()]);
}

#[test]
fn queue_track_appends_it() {
    let (task, step) =
        PlayTask::start(Some("https://open.spotify.com/track/t9".to_string()), None, true, true);
    assert_eq!(call(step), PlayRequest::Enqueue(PlayableId::Track("t9".to_string())));
    let (task, step) = task.resume(PlayReply::Done);
    assert_eq!(call(step), PlayRequest::Fetch(ContentId::Track("t9".to_string())));
    let (_, step) = task.resume(PlayReply::Fetched(track("t9", "Song", "Singer")));
    assert_eq!(finish(step).unwrap().lines, vec!["Queued Song by Singer".to_string()]);
}

#[test]
fn queue_album_enqueues_each_track_in_order() {
    let (mut task, step) =
        PlayTask::start(Some("https://open.spotify.com/album/a1".to_string()), None, true, true);
    assert_eq!(call(step), PlayRequest::Fetch(ContentId::Album("a1".to_string())));
    let mut reply = PlayReply::Fetched(album("a1", &["t1", "t2", "t3"]));
    let mut enqueued = vec![];
    loop {
        let (next, step) = task.resume(reply);
        task = next;
        match call(step) {
            PlayRequest::Enqueue(id) => enqueued.push(id),
            PlayRequest::Fetch(id) => {
                assert_eq!(id, ContentId::Album("a1".to_string()));
                break;
            }
            other => panic!("unexpected {other:?}"),
        }
        reply = PlayReply::Done;
    }
    assert_eq!(
        enqueued,
        vec![
            PlayableId::Track("t1".to_string()),
            PlayableId::Track("t2".to_string()),
            PlayableId::Track("t3".to_string()),
        ]
    );
    let (_, step) = task.resume(PlayReply::Fetched(album("a1", &["t1", "t2", "t3"])));
    assert_eq!(finish(step).unwrap().lines, vec!["Queued Blue by Joni Mitchell".to_string()]);
}

#[test]
fn queue_album_stops_at_first_failing_call() {
    let (task, _) = PlayTask::start(Some("https://open.spotify.com/album/a1".to_string()), None, true, true);
    let (task, step) = task.resume(PlayReply::Fetched(album("a1", &["t1", "t2", "t3"])));
    assert_eq!(call(step), PlayRequest::Enqueue(PlayableId::Track("t1".to_string())));
    let (task, step) = task.resume(PlayReply::Done);
    assert_eq!(call(step), PlayRequest::Enqueue(PlayableId::Track("t2".to_string())));
    let (_, step) = task.resume(PlayReply::Failed(remote("rate limited")));
    assert_eq!(
        finish(step),
        Err(OperationError::QueueExpansionPartialFailure(remote("rate limited")))
    );
}

#[test]
fn queue_empty_album_enqueues_nothing() {
    let (task, _) = PlayTask::start(Some("https://open.spotify.com/album/a1".to_string()), None, true, true);
    let (_, step) = task.resume(PlayReply::Fetched(album("a1", &[])));
    assert_eq!(call(step), PlayRequest::Fetch(ContentId::Album("a1".to_string())));
}

#[test]
fn queue_artist_is_unsupported() {
    let (task, step) =
        PlayTask::start(Some("https://open.spotify.com/artist/r1".to_string()), None, true, true);
    assert_eq!(call(step), PlayRequest::Fetch(ContentId::Artist("r1".to_string())));
    let artist = ContentType::FullArtist(NamedInfo { id: "r1".to_string(), name: "Band".to_string() });
    let (_, step) = task.resume(PlayReply::Fetched(artist));
    assert_eq!(finish(step), Err(OperationError::QueueUnsupported));
}

#[test]
fn play_artist_plays_the_context() {
    let (_, step) =
        PlayTask::start(Some("https://open.spotify.com/artist/r1".to_string()), None, true, false);
    assert_eq!(call(step), PlayRequest::StartContext(PlayContextId::Artist("r1".to_string())));
}

#[test]
fn no_query_resumes_playback() {
    let (task, step) = PlayTask::start(None, None, false, false);
    assert_eq!(call(step), PlayRequest::Resume);
    let (_, step) = task.resume(PlayReply::Done);
    let response = finish(step).unwrap();
    assert_eq!(response.lines, vec!["Resumed playback".to_string()]);
    assert!(!response.verbose);
}

#[test]
fn search_uses_requested_kind() {
    let (_, step) = PlayTask::start(Some("blue".to_string()), Some(ContentKind::Album), false, false);
    assert_eq!(
        call(step),
        PlayRequest::Search { query: "blue".to_string(), kind: ContentKind::Album, limit: 1 }
    );
}

#[test]
fn search_without_results_fails() {
    let (task, _) = PlayTask::start(Some("nothing".to_string()), None, false, false);
    let (_, step) = task.resume(PlayReply::Found(vec![]));
    assert_eq!(finish(step), Err(OperationError::EmptySearchResult));
}

#[test]
fn invalid_link_is_an_invalid_reference() {
    let (_, step) = PlayTask::start(Some("not a link".to_string()), None, true, false);
    assert_eq!(finish(step), Err(OperationError::InvalidReference));
}

#[test]
fn link_with_unknown_kind_is_refused() {
    let (_, step) = PlayTask::start(Some("https://open.spotify.com/user/u1".to_string()), None, true, false);
    assert_eq!(finish(step), Err(OperationError::InvalidReference));
    let (_, step) = PlayTask::start(Some("https://open.spotify.com/bogus/x".to_string()), None, true, true);
    assert_eq!(finish(step), Err(OperationError::InvalidReference));
}

#[test]
fn remote_failure_ends_the_task() {
    let (task, _) = PlayTask::start(None, None, false, false);
    let (_, step) = task.resume(PlayReply::Failed(remote("down")));
    assert_eq!(finish(step), Err(OperationError::Remote(remote("down"))));
}

#[test]
fn unexpected_reply_is_reported() {
    let (task, _) = PlayTask::start(None, None, false, false);
    let (_, step) = task.resume(PlayReply::Found(vec![]));
    assert_eq!(finish(step), Err(OperationError::UnexpectedReply));
}

#[test]
fn empty_query_resumes_playback() {
    let (_, step) = PlayTask::start(Some(String::new()), None, false, false);
    assert_eq!(call(step), PlayRequest::Resume);
}
