use spotify_cli::io::output::{ErrorKind, Response, Status};
use spotify_cli::json::JsonValue;
use spotify_cli::rpc::dispatch::SearchFilters;
use spotify_cli::storage::fuzzy::levenshtein_distance;
use spotify_cli::storage::pins::pin::Pin;
use spotify_cli::storage::pins::resource_type::ResourceType;
use spotify_cli::types::album::Album;
use spotify_cli::types::playback::PlaybackState;
use spotify_cli::types::track::Track;

fn s(x: &str) -> String {
    x.to_string()
}

fn track(id: &str, name: &str, duration_ms: u64) -> Track {
    Track {
        album: None,
        artists: None,
        available_markets: None,
        disc_number: None,
        duration_ms,
        explicit: None,
        external_ids: None,
        external_urls: None,
        href: None,
        id: s(id),
        is_playable: None,
        linked_from: None,
        restrictions: None,
        name: s(name),
        popularity: None,
        preview_url: None,
        track_number: None,
        item_type: s("track"),
        uri: s("u"),
        is_local: None,
    }
}

fn album_released(date: &str) -> Album {
    Album {
        album_type: None,
        total_tracks: None,
        available_markets: None,
        external_urls: None,
        href: None,
        id: s("a"),
        images: None,
        name: s("A"),
        release_date: Some(s(date)),
        release_date_precision: None,
        restrictions: None,
        item_type: s("album"),
        uri: s("u"),
        artists: Some(vec![]),
        tracks: None,
        copyrights: None,
        external_ids: None,
        genres: None,
        label: None,
        popularity: None,
    }
}

fn playing(progress_ms: u64) -> PlaybackState {
    PlaybackState {
        device: None,
        repeat_state: None,
        shuffle_state: None,
        context: None,
        timestamp: None,
        progress_ms: Some(progress_ms),
        is_playing: true,
        item: Some(track("t", "T", 180000)),
        currently_playing_type: None,
        actions: None,
    }
}

#[test]
fn test_search_filters_empty() {
    let filters = SearchFilters::default();
    assert!(!filters.has_filters());
    assert_eq!(filters.build_query("test"), "test");
}

#[test]
fn test_search_filters_with_artist() {
    let filters = SearchFilters { artist: Some("Radiohead".to_string()), ..Default::default() };

    assert!(filters.has_filters());
    let query = filters.build_query("creep");
    assert!(query.contains("creep"));
    assert!(query.contains("artist:Radiohead"));
}

#[test]
fn test_search_filters_multiple() {
    let filters = SearchFilters {
        artist: Some("Beatles".to_string()),
        album: Some("Abbey Road".to_string()),
        year: Some("1969".to_string()),
        ..Default::default()
    };

    let query = filters.build_query("");
    assert!(query.contains("artist:Beatles"));
    assert!(query.contains("album:Abbey Road"));
    assert!(query.contains("year:1969"));
}

#[test]
fn test_search_filters_tags() {
    let filters = SearchFilters { new: true, hipster: true, ..Default::default() };

    let query = filters.build_query("indie");
    assert!(query.contains("tag:new"));
    assert!(query.contains("tag:hipster"));
}

#[test]
fn test_search_filters_all_fields() {
    let filters = SearchFilters {
        artist: Some("Artist".to_string()),
        album: Some("Album".to_string()),
        track: Some("Track".to_string()),
        year: Some("2023".to_string()),
        genre: Some("rock".to_string()),
        isrc: Some("US1234567890".to_string()),
        upc: Some("012345678901".to_string()),
        new: true,
        hipster: true,
    };

    let query = filters.build_query("query");
    assert!(query.contains("query"));
    assert!(query.contains("artist:Artist"));
    assert!(query.contains("album:Album"));
    assert!(query.contains("track:Track"));
    assert!(query.contains("year:2023"));
    assert!(query.contains("genre:rock"));
    assert!(query.contains("isrc:US1234567890"));
    assert!(query.contains("upc:012345678901"));
    assert!(query.contains("tag:new"));
    assert!(query.contains("tag:hipster"));
}

#[test]
fn search_filters_query_is_space_separated_in_field_order() {
    let filters = SearchFilters {
        year: Some("1969".to_string()),
        artist: Some("Beatles".to_string()),
        new: true,
        ..Default::default()
    };
    assert_eq!(filters.build_query("abbey"), "abbey artist:Beatles year:1969 tag:new");
    assert_eq!(filters.build_query(""), "artist:Beatles year:1969 tag:new");
}

#[test]
fn test_extract_id_from_url() {
    let url = "https://open.spotify.com/track/4iV5W9uYEdYUVa79Axb7Rh";
    let id = Pin::extract_id(url);
    assert_eq!(id, "4iV5W9uYEdYUVa79Axb7Rh");
}

#[test]
fn test_extract_id_from_url_with_params() {
    let url = "https://open.spotify.com/track/4iV5W9uYEdYUVa79Axb7Rh?si=abc123";
    let id = Pin::extract_id(url);
    assert_eq!(id, "4iV5W9uYEdYUVa79Axb7Rh");
}

#[test]
fn test_extract_id_from_uri() {
    let uri = "spotify:track:4iV5W9uYEdYUVa79Axb7Rh";
    let id = Pin::extract_id(uri);
    assert_eq!(id, "4iV5W9uYEdYUVa79Axb7Rh");
}

#[test]
fn test_extract_id_passthrough() {
    let id = "4iV5W9uYEdYUVa79Axb7Rh";
    let result = Pin::extract_id(id);
    assert_eq!(result, "4iV5W9uYEdYUVa79Axb7Rh");
}

#[test]
fn test_pin_creation() {
    let pin = Pin::new(
        ResourceType::Playlist,
        "test-id".to_string(),
        "my-playlist".to_string(),
        vec!["chill".to_string(), "focus".to_string()],
    );

    assert_eq!(pin.resource_type, ResourceType::Playlist);
    assert_eq!(pin.id, "test-id");
    assert_eq!(pin.alias, "my-playlist");
    assert_eq!(pin.tags.len(), 2);
}

#[test]
fn test_pin_uri_generation() {
    let pin = Pin::new(ResourceType::Track, "abc123".to_string(), "favorite".to_string(), vec![]);

    assert_eq!(pin.uri(), "spotify:track:abc123");
}

#[test]
fn test_pin_uri_for_each_type() {
    let types = [
        (ResourceType::Track, "spotify:track:id123"),
        (ResourceType::Album, "spotify:album:id123"),
        (ResourceType::Artist, "spotify:artist:id123"),
        (ResourceType::Playlist, "spotify:playlist:id123"),
        (ResourceType::Show, "spotify:show:id123"),
        (ResourceType::Episode, "spotify:episode:id123"),
        (ResourceType::Audiobook, "spotify:audiobook:id123"),
    ];

    for (resource_type, expected_uri) in types {
        let pin = Pin::new(resource_type, "id123".to_string(), "test".to_string(), vec![]);
        assert_eq!(pin.uri(), expected_uri);
    }
}

#[test]
fn test_error_kind_string_representation() {
    assert_eq!(ErrorKind::Network.as_str(), "network_error");
    assert_eq!(ErrorKind::Api.as_str(), "api_error");
    assert_eq!(ErrorKind::Auth.as_str(), "auth_error");
    assert_eq!(ErrorKind::NotFound.as_str(), "not_found");
    assert_eq!(ErrorKind::Forbidden.as_str(), "forbidden");
    assert_eq!(ErrorKind::RateLimited.as_str(), "rate_limited");
    assert_eq!(ErrorKind::Validation.as_str(), "validation_error");
    assert_eq!(ErrorKind::Storage.as_str(), "storage_error");
    assert_eq!(ErrorKind::Config.as_str(), "config_error");
    assert_eq!(ErrorKind::Player.as_str(), "player_error");
}

#[test]
fn test_response_status_variants() {
    let success = Response::success(200, "OK");
    assert!(matches!(success.status, Status::Success));

    let error = Response::err(500, "Error", ErrorKind::Api);
    assert!(matches!(error.status, Status::Error));
}

#[test]
fn error_with_details_keeps_kind_and_details() {
    let resp = Response::err_with_details(500, "Storage failed", ErrorKind::Storage, "Could not write to disk");
    assert!(matches!(resp.status, Status::Error));
    assert_eq!(resp.code, 500);
    let e = resp.error.unwrap();
    assert_eq!(e.kind.as_str(), "storage_error");
    assert!(matches!(e.details, Some(JsonValue::Str(ref d)) if d == "Could not write to disk"));
}

#[test]
fn test_resource_type_as_str() {
    assert_eq!(ResourceType::Track.as_str(), "track");
    assert_eq!(ResourceType::Album.as_str(), "album");
    assert_eq!(ResourceType::Artist.as_str(), "artist");
    assert_eq!(ResourceType::Playlist.as_str(), "playlist");
    assert_eq!(ResourceType::Show.as_str(), "show");
    assert_eq!(ResourceType::Episode.as_str(), "episode");
    assert_eq!(ResourceType::Audiobook.as_str(), "audiobook");
}

#[test]
fn test_resource_type_from_str() {
    assert_eq!("track".parse::<ResourceType>().unwrap(), ResourceType::Track);
    assert_eq!("album".parse::<ResourceType>().unwrap(), ResourceType::Album);
    assert_eq!("artist".parse::<ResourceType>().unwrap(), ResourceType::Artist);
    assert_eq!("playlist".parse::<ResourceType>().unwrap(), ResourceType::Playlist);
    assert_eq!("show".parse::<ResourceType>().unwrap(), ResourceType::Show);
    assert_eq!("episode".parse::<ResourceType>().unwrap(), ResourceType::Episode);
    assert_eq!("audiobook".parse::<ResourceType>().unwrap(), ResourceType::Audiobook);
}

#[test]
fn test_resource_type_from_str_invalid() {
    assert!("invalid".parse::<ResourceType>().is_err());
    assert!("".parse::<ResourceType>().is_err());
}

#[test]
fn test_levenshtein_identical_strings() {
    assert_eq!(levenshtein_distance("hello", "hello"), 0);
    assert_eq!(levenshtein_distance("", ""), 0);
}

#[test]
fn test_levenshtein_empty_string() {
    assert_eq!(levenshtein_distance("", "abc"), 3);
    assert_eq!(levenshtein_distance("abc", ""), 3);
}

#[test]
fn test_levenshtein_single_char_diff() {
    assert_eq!(levenshtein_distance("cat", "bat"), 1);
    assert_eq!(levenshtein_distance("cat", "car"), 1);
    assert_eq!(levenshtein_distance("cat", "cats"), 1);
}

#[test]
fn test_levenshtein_multiple_operations() {
    assert_eq!(levenshtein_distance("kitten", "sitting"), 3);
    assert_eq!(levenshtein_distance("saturday", "sunday"), 3);
}

#[test]
fn test_extract_id_various_url_formats() {
    let test_cases = [
        ("https://open.spotify.com/track/123", "123"),
        ("https://open.spotify.com/album/456", "456"),
        ("https://open.spotify.com/playlist/789?si=abc", "789"),
        ("https://open.spotify.com/artist/abc123", "abc123"),
    ];

    for (url, expected) in test_cases {
        assert_eq!(Pin::extract_id(url), expected, "Failed for URL: {}", url);
    }
}

#[test]
fn test_extract_id_various_uri_formats() {
    let test_cases = [
        ("spotify:track:123", "123"),
        ("spotify:album:456", "456"),
        ("spotify:playlist:789", "789"),
        ("spotify:artist:abc", "abc"),
    ];

    for (uri, expected) in test_cases {
        assert_eq!(Pin::extract_id(uri), expected, "Failed for URI: {}", uri);
    }
}

#[test]
fn test_track_duration_formatting() {
    let cases = [(0, "0:00"), (1000, "0:01"), (59000, "0:59"), (60000, "1:00"), (90000, "1:30"), (3600000, "60:00")];

    for (ms, expected) in cases {
        let t = track("t", "T", ms);
        assert_eq!(t.duration_str(), expected, "Failed for {}ms", ms);
    }
}

#[test]
fn test_album_release_year_formats() {
    let test_cases = [("2023-06-15", Some("2023")), ("2023-06", Some("2023")), ("2023", Some("2023"))];

    for (date, expected) in test_cases {
        let album = album_released(date);
        assert_eq!(album.release_year(), expected, "Failed for date: {}", date);
    }
}

#[test]
fn test_playback_state_progress_formatting() {
    let cases = [(0, "0:00"), (30000, "0:30"), (65000, "1:05"), (180000, "3:00")];

    for (progress, expected) in cases {
        let state = playing(progress);
        assert_eq!(state.progress_str(), expected, "Failed for {}ms", progress);
    }
}
