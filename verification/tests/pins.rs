use spotify_cli::storage::pins::pin::Pin;
use spotify_cli::storage::pins::resource_type::ResourceType;
use spotify_cli::storage::pins::store::{PinError, PinStore};
use std::str::FromStr;

fn pin(kind: ResourceType, id: &str, alias: &str, tags: &[&str]) -> Pin {
    Pin::new(kind, id.to_string(), alias.to_string(), tags.iter().map(|t| t.to_string()).collect())
}

#[test]
fn pin_new() {
    let pin = pin(ResourceType::Track, "track123", "favorite", &["rock", "chill"]);
    assert_eq!(pin.id, "track123");
    assert_eq!(pin.alias, "favorite");
    assert_eq!(pin.tags.len(), 2);
}

#[test]
fn pin_uri_track() {
    assert_eq!(pin(ResourceType::Track, "abc123", "test", &[]).uri(), "spotify:track:abc123");
}

#[test]
fn pin_uri_playlist() {
    assert_eq!(pin(ResourceType::Playlist, "xyz789", "test", &[]).uri(), "spotify:playlist:xyz789");
}

#[test]
fn pin_uri_album() {
    assert_eq!(pin(ResourceType::Album, "album123", "test", &[]).uri(), "spotify:album:album123");
}

#[test]
fn extract_id_from_plain_id() {
    assert_eq!(Pin::extract_id("abc123"), "abc123");
}

#[test]
fn extract_id_from_spotify_uri() {
    assert_eq!(Pin::extract_id("spotify:track:abc123"), "abc123");
}

#[test]
fn extract_id_from_spotify_url() {
    assert_eq!(Pin::extract_id("https://open.spotify.com/track/abc123"), "abc123");
}

#[test]
fn extract_id_from_spotify_url_with_query() {
    assert_eq!(Pin::extract_id("https://open.spotify.com/track/abc123?si=xyz"), "abc123");
}

#[test]
fn extract_id_of_uri_is_the_id() {
    let p = pin(ResourceType::Episode, "ep42", "e", &[]);
    assert_eq!(Pin::extract_id(&p.uri()), "ep42");
}

#[test]
fn as_str_all_types() {
    assert_eq!(ResourceType::Playlist.as_str(), "playlist");
    assert_eq!(ResourceType::Track.as_str(), "track");
    assert_eq!(ResourceType::Album.as_str(), "album");
    assert_eq!(ResourceType::Artist.as_str(), "artist");
    assert_eq!(ResourceType::Show.as_str(), "show");
    assert_eq!(ResourceType::Episode.as_str(), "episode");
    assert_eq!(ResourceType::Audiobook.as_str(), "audiobook");
}

#[test]
fn from_str_valid() {
    assert_eq!(ResourceType::from_str("playlist").unwrap(), ResourceType::Playlist);
    assert_eq!(ResourceType::from_str("track").unwrap(), ResourceType::Track);
    assert_eq!(ResourceType::from_str("album").unwrap(), ResourceType::Album);
    assert_eq!(ResourceType::from_str("artist").unwrap(), ResourceType::Artist);
    assert_eq!(ResourceType::from_str("show").unwrap(), ResourceType::Show);
    assert_eq!(ResourceType::from_str("episode").unwrap(), ResourceType::Episode);
    assert_eq!(ResourceType::from_str("audiobook").unwrap(), ResourceType::Audiobook);
}

#[test]
fn from_str_case_insensitive() {
    assert_eq!(ResourceType::from_str("PLAYLIST").unwrap(), ResourceType::Playlist);
    assert_eq!(ResourceType::from_str("Track").unwrap(), ResourceType::Track);
    assert_eq!(ResourceType::from_str("ALBUM").unwrap(), ResourceType::Album);
}

#[test]
fn from_str_invalid() {
    let result = ResourceType::from_str("invalid");
    assert!(result.is_err());
    let message = result.unwrap_err();
    assert!(message.contains("Invalid resource type"));
    assert_eq!(
        message,
        "Invalid resource type 'invalid'. Valid types: playlist, track, album, artist, show, episode, audiobook"
    );
}

#[test]
fn equality() {
    assert_eq!(ResourceType::Track, ResourceType::Track);
    assert_ne!(ResourceType::Track, ResourceType::Album);
}

#[test]
fn copy_trait() {
    let rt = ResourceType::Album;
    let copied1 = rt;
    let copied2 = rt;
    assert_eq!(rt, copied1);
    assert_eq!(rt, copied2);
}

#[test]
fn name_round_trips_through_parse() {
    for t in [
        ResourceType::Playlist,
        ResourceType::Track,
        ResourceType::Album,
        ResourceType::Artist,
        ResourceType::Show,
        ResourceType::Episode,
        ResourceType::Audiobook,
    ] {
        assert_eq!(ResourceType::from_str(t.as_str()).unwrap(), t);
    }
}

#[test]
fn pin_error_display() {
    assert_eq!(PinError::NotFound("x".to_string()).message(), "Pin not found: x");
    assert_eq!(PinError::AlreadyExists("y".to_string()).message(), "Pin already exists with alias: y");
    assert!(PinError::NotFound("test".to_string()).message().contains("test"));
    assert!(PinError::AlreadyExists("alias".to_string()).message().contains("alias"));
}

#[test]
fn store_add_rejects_duplicate_alias_case_insensitively() {
    let mut store = PinStore::default();
    assert!(store.add(pin(ResourceType::Track, "t1", "Chill", &[])).is_ok());
    match store.add(pin(ResourceType::Album, "a1", "chill", &[])) {
        Err(PinError::AlreadyExists(alias)) => assert_eq!(alias, "chill"),
        other => panic!("unexpected {:?}", other),
    }
    assert_eq!(store.all().len(), 1);
}

#[test]
fn store_remove_by_alias_or_id() {
    let mut store = PinStore::default();
    store.add(pin(ResourceType::Track, "t1", "one", &[])).unwrap();
    store.add(pin(ResourceType::Playlist, "p2", "two", &[])).unwrap();
    assert_eq!(store.remove("ONE").unwrap().id, "t1");
    assert_eq!(store.remove("p2").unwrap().alias, "two");
    match store.remove("missing") {
        Err(PinError::NotFound(what)) => assert_eq!(what, "missing"),
        other => panic!("unexpected {:?}", other),
    }
    assert!(store.all().is_empty());
}

#[test]
fn store_list_filters_by_type_and_find_by_alias() {
    let mut store = PinStore::default();
    store.add(pin(ResourceType::Track, "t1", "one", &[])).unwrap();
    store.add(pin(ResourceType::Playlist, "p2", "two", &[])).unwrap();
    store.add(pin(ResourceType::Track, "t3", "three", &[])).unwrap();
    let tracks = store.list(Some(ResourceType::Track));
    assert_eq!(tracks.len(), 2);
    assert_eq!(tracks[0].id, "t1");
    assert_eq!(tracks[1].id, "t3");
    assert_eq!(store.list(None).len(), 3);
    assert_eq!(store.find_by_alias("TWO").unwrap().id, "p2");
    assert!(store.find_by_alias("four").is_none());
}
