use fishify::error::OperationError;
use fishify::model::{AlbumInfo, ContentType, NamedInfo};
use fishify::reference::{ContentId, ContentKind};
use fishify::search::{resolve_first, search, search_params};

fn results() -> Vec<ContentType> {
    vec![
        ContentType::SimplifiedAlbum(AlbumInfo {
            id: "a1".to_string(),
            name: "Blue".to_string(),
            artists: vec!["Joni Mitchell".to_string()],
        }),
        ContentType::SimplifiedPlaylist(NamedInfo { id: "pl1".to_string(), name: "Mix".to_string() }),
    ]
}

#[test]
fn empty_results_resolve_to_an_error_but_list_to_nothing() {
    assert_eq!(resolve_first(vec![]), Err(OperationError::EmptySearchResult));
    let listed = search(&vec![]);
    assert!(listed.lines.is_empty());
    assert!(listed.verbose);
}

#[test]
fn resolve_takes_the_best_result() {
    let ids = ContentId::from_search(&results());
    assert_eq!(
        ids,
        vec![ContentId::Album("a1".to_string()), ContentId::Playlist("pl1".to_string())]
    );
    assert_eq!(resolve_first(ids), Ok(ContentId::Album("a1".to_string())));
}

#[test]
fn listing_shows_name_and_primary_artist() {
    assert_eq!(
        search(&results()).lines,
        vec!["Blue \u{2014} Joni Mitchell".to_string(), "Mix".to_string()]
    );
}

#[test]
fn search_defaults() {
    assert_eq!(search_params(None, None), (ContentKind::Track, 10));
    assert_eq!(search_params(Some(ContentKind::Show), Some(3)), (ContentKind::Show, 3));
}
