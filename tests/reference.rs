use fishify::error::OperationError;
use fishify::reference::{url_to_uri, ContentId, ContentKind};

#[test]
fn uri_of_each_kind_keeps_kind_and_id() {
    let cases = [
        ("track", ContentKind::Track),
        ("album", ContentKind::Album),
        ("playlist", ContentKind::Playlist),
        ("artist", ContentKind::Artist),
        ("show", ContentKind::Show),
        ("episode", ContentKind::Episode),
    ];
    for (keyword, kind) in cases {
        let uri = format!("spotify:{keyword}:4uLU6hMCjMI75M1A2tKUQC");
        let id = ContentId::from_uri(&uri).unwrap();
        assert_eq!(id.kind(), kind);
        assert_eq!(id.id(), "4uLU6hMCjMI75M1A2tKUQC");
    }
}

#[test]
fn uri_id_is_everything_after_the_second_colon() {
    let id = ContentId::from_uri("spotify:playlist:a:b c").unwrap();
    assert_eq!(id, ContentId::Playlist("a:b c".to_string()));
    let empty = ContentId::from_uri("spotify:track:").unwrap();
    assert_eq!(empty, ContentId::Track(String::new()));
}

#[test]
fn uri_with_fewer_than_two_colons_is_malformed() {
    for text in ["", "spotify", "spotify:track", "track/abc", ":"] {
        assert_eq!(ContentId::from_uri(text), Err(OperationError::MalformedReference));
    }
}

#[test]
fn uri_without_service_prefix_is_malformed() {
    assert_eq!(ContentId::from_uri("other:track:abc"), Err(OperationError::MalformedReference));
}

#[test]
fn uri_with_unknown_kind_fails() {
    assert_eq!(ContentId::from_uri("spotify:bogus:xyz"), Err(OperationError::UnknownKind));
    assert_eq!(ContentId::from_uri("spotify:Track:xyz"), Err(OperationError::UnknownKind));
}

#[test]
fn link_names_the_same_identifier_as_its_uri() {
    let from_link = ContentId::from_url("https://open.spotify.com/track/abc123?si=xyz").unwrap();
    let from_uri = ContentId::from_uri("spotify:track:abc123").unwrap();
    assert_eq!(from_link, from_uri);
}

#[test]
fn link_becomes_canonical_uri() {
    assert_eq!(
        url_to_uri("https://open.spotify.com/album/xyz?si=1/2"),
        Some("spotify:album:xyz".to_string())
    );
    assert_eq!(url_to_uri("open.spotify.com/show/s1"), Some("spotify:show:s1".to_string()));
}

#[test]
fn link_to_another_host_is_refused() {
    assert_eq!(url_to_uri("https://example.com/track/abc"), None);
    assert_eq!(url_to_uri("track/abc"), None);
    assert_eq!(url_to_uri("abc"), None);
    assert_eq!(
        ContentId::from_url("https://example.com/track/abc"),
        Err(OperationError::MalformedReference)
    );
}

#[test]
fn link_with_unknown_kind_fails_as_uri_does() {
    assert_eq!(
        ContentId::from_url("https://open.spotify.com/user/abc"),
        Err(OperationError::UnknownKind)
    );
}
