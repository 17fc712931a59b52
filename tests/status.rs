use fishify::device::Device;
use fishify::error::OperationError;
use fishify::model::{EpisodeInfo, PlayableItem, TrackInfo};
use fishify::reference::{ContentId, ContentKind};
use fishify::status::{
    active_device, queue_list, status, status_context, PlaybackSnapshot, QueueSnapshot, RepeatState,
};

fn song() -> PlayableItem {
    PlayableItem::Track(TrackInfo {
        id: "t1".to_string(),
        name: "Song".to_string(),
        artists: vec!["Singer".to_string()],
        duration_secs: 3661,
    })
}

fn snapshot() -> PlaybackSnapshot {
    PlaybackSnapshot {
        is_playing: true,
        context_uri: Some("spotify:album:a1".to_string()),
        item: Some(song()),
        progress_secs: Some(65),
        device: Device {
            id: Some("d1".to_string()),
            name: "Office".to_string(),
            device_type: "Computer".to_string(),
            is_active: true,
            volume_percent: Some(40),
        },
        shuffle: false,
        repeat: RepeatState::Context,
    }
}

#[test]
fn full_status() {
    let r = status(&snapshot(), Some((ContentKind::Album, "Blue".to_string())));
    assert_eq!(
        r.lines,
        vec![
            "Playing".to_string(),
            "Album: Blue".to_string(),
            "Song \u{2014} Singer".to_string(),
            "1:05 / 1:01:01".to_string(),
            "Volume: 40%".to_string(),
            "Shuffle: Off".to_string(),
            "Repeat: Context".to_string(),
        ]
    );
    assert!(r.verbose);
}

#[test]
fn minimal_status() {
    let mut s = snapshot();
    s.is_playing = false;
    s.context_uri = None;
    s.item = None;
    s.device.volume_percent = None;
    s.shuffle = true;
    s.repeat = RepeatState::Off;
    let r = status(&s, None);
    assert_eq!(
        r.lines,
        vec!["Paused".to_string(), "Shuffle: On".to_string(), "Repeat: Off".to_string()]
    );
}

#[test]
fn status_of_episode_without_progress() {
    let mut s = snapshot();
    s.item = Some(PlayableItem::Episode(EpisodeInfo {
        id: "e".to_string(),
        name: "Ep".to_string(),
        duration_secs: 10,
    }));
    s.progress_secs = None;
    let r = status(&s, None);
    assert_eq!(r.lines[1], "Ep");
    assert_eq!(r.lines[2], "Volume: 40%");
}

#[test]
fn status_context_resolution() {
    assert_eq!(status_context(&None), Err(OperationError::NoActivePlayback));
    assert_eq!(
        status_context(&Some(snapshot())),
        Ok(Some(ContentId::Album("a1".to_string())))
    );
    let mut s = snapshot();
    s.context_uri = None;
    assert_eq!(status_context(&Some(s)), Ok(None));
    let mut s = snapshot();
    s.context_uri = Some("spotify:user:u1:collection".to_string());
    assert_eq!(status_context(&Some(s)), Err(OperationError::UnknownKind));
}

#[test]
fn active_device_of_playback() {
    assert_eq!(active_device(None), None);
    assert_eq!(active_device(Some(snapshot())).unwrap().name, "Office");
}

#[test]
fn queue_listing() {
    let q = QueueSnapshot {
        currently_playing: Some(song()),
        queue: vec![
            PlayableItem::Episode(EpisodeInfo { id: "e".to_string(), name: "Ep".to_string(), duration_secs: 1 }),
            song(),
        ],
    };
    let r = queue_list(&q);
    assert_eq!(
        r.lines,
        vec![
            "Currently playing Song by Singer".to_string(),
            "  1. Ep".to_string(),
            "  2. Song \u{2014} Singer".to_string(),
        ]
    );
    let empty = QueueSnapshot { currently_playing: None, queue: vec![] };
    assert!(queue_list(&empty).lines.is_empty());
}
