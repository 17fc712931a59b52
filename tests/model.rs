use fishify::model::{
    primary_artist, AlbumInfo, ContentInfo, ContentType, EpisodeInfo, FullPlaylistInfo,
    FullShowInfo, NamedInfo, PlayContextId, PlayableId, PlayableItem, TrackInfo,
};
use fishify::reference::ContentId;

#[test]
fn derived_facts_of_metadata() {
    let t = ContentType::SimplifiedTrack(TrackInfo {
        id: "t".to_string(),
        name: "Song".to_string(),
        artists: vec!["A".to_string(), "B".to_string()],
        duration_secs: 61,
    });
    assert_eq!(t.name(), "Song");
    assert_eq!(t.artists(), vec!["A".to_string(), "B".to_string()]);
    assert_eq!(primary_artist(&t), Some("A".to_string()));
    assert_eq!(t.duration(), Some(61));
    assert_eq!(t.ids(), None);
    assert_eq!(t.content_id(), ContentId::Track("t".to_string()));

    let p = ContentType::SimplifiedPlaylist(NamedInfo { id: "p".to_string(), name: "Mix".to_string() });
    assert!(p.artists().is_empty());
    assert_eq!(p.duration(), None);
    assert_eq!(p.ids(), None);

    let r = ContentType::FullArtist(NamedInfo { id: "r".to_string(), name: "Band".to_string() });
    assert_eq!(r.artists(), vec!["Band".to_string()]);

    let a = ContentType::SimplifiedAlbum(AlbumInfo {
        id: "a".to_string(),
        name: "Record".to_string(),
        artists: vec![],
    });
    assert_eq!(primary_artist(&a), None);
}

#[test]
fn children_of_full_playlist_and_show() {
    let items = vec![PlayableId::Track("t1".to_string()), PlayableId::Episode("e1".to_string())];
    let p = ContentType::FullPlaylist(FullPlaylistInfo {
        id: "p".to_string(),
        name: "Mix".to_string(),
        items: items.clone(),
    });
    assert_eq!(p.ids(), Some(items));
    let s = ContentType::FullShow(FullShowInfo {
        id: "s".to_string(),
        name: "Talk".to_string(),
        episodes: vec!["e1".to_string(), "e2".to_string()],
    });
    assert_eq!(
        s.ids(),
        Some(vec![PlayableId::Episode("e1".to_string()), PlayableId::Episode("e2".to_string())])
    );
    let empty = ContentType::FullShow(FullShowInfo { id: "s".to_string(), name: "Talk".to_string(), episodes: vec![] });
    assert_eq!(empty.ids(), Some(vec![]));
}

#[test]
fn playable_item_facts() {
    let e = PlayableItem::Episode(EpisodeInfo { id: "e".to_string(), name: "Ep".to_string(), duration_secs: 90 });
    assert_eq!(e.name(), "Ep");
    assert!(e.artists().is_empty());
    assert_eq!(e.duration(), Some(90));
    assert_eq!(e.length_secs(), 90);
}

#[test]
fn identifiers_convert_to_content_ids() {
    assert_eq!(ContentId::from(PlayableId::Episode("e".to_string())), ContentId::Episode("e".to_string()));
    assert_eq!(ContentId::from(PlayContextId::Show("s".to_string())), ContentId::Show("s".to_string()));
}
