use spotify_cli::types::album::{Album, AlbumSimplified, AlbumType, SavedAlbum};
use spotify_cli::types::artist::{
    Artist, ArtistSimplified, ArtistTopTracksResponse, FollowedArtistsCursored, FollowedArtistsResponse,
    RelatedArtistsResponse,
};
use spotify_cli::types::common::{Followers, Image, Paginated};
use spotify_cli::types::playback::{
    Device, DevicesResponse, PlayHistory, PlaybackActions, PlaybackContext, PlaybackState, QueueResponse,
    RecentlyPlayedCursors, RecentlyPlayedResponse,
};
use spotify_cli::types::playlist::{
    CategoryPlaylists, FeaturedPlaylists, Playlist, PlaylistSimplified, PlaylistTrack, PlaylistTracksRef,
};
use spotify_cli::types::track::{SavedTrack, Track, TrackSimplified};
use spotify_cli::types::user::UserPublic;

fn s(x: &str) -> String {
    x.to_string()
}

fn image(url: &str, size: u32) -> Image {
    Image { url: s(url), width: Some(size), height: Some(size) }
}

fn artist_s(id: &str, name: &str) -> ArtistSimplified {
    ArtistSimplified {
        external_urls: None,
        href: None,
        id: s(id),
        name: s(name),
        item_type: s("artist"),
        uri: format!("spotify:artist:{}", id),
    }
}

fn artist(id: &str, name: &str) -> Artist {
    Artist {
        external_urls: None,
        followers: None,
        genres: None,
        href: None,
        id: s(id),
        images: None,
        name: s(name),
        popularity: None,
        item_type: s("artist"),
        uri: format!("spotify:artist:{}", id),
    }
}

fn album_s(id: &str, name: &str) -> AlbumSimplified {
    AlbumSimplified {
        album_type: None,
        total_tracks: None,
        available_markets: None,
        external_urls: None,
        href: None,
        id: s(id),
        images: None,
        name: s(name),
        release_date: None,
        release_date_precision: None,
        restrictions: None,
        item_type: s("album"),
        uri: format!("spotify:album:{}", id),
        artists: None,
    }
}

fn album(id: &str, name: &str) -> Album {
    Album {
        album_type: None,
        total_tracks: None,
        available_markets: None,
        external_urls: None,
        href: None,
        id: s(id),
        images: None,
        name: s(name),
        release_date: None,
        release_date_precision: None,
        restrictions: None,
        item_type: s("album"),
        uri: format!("spotify:album:{}", id),
        artists: None,
        tracks: None,
        copyrights: None,
        external_ids: None,
        genres: None,
        label: None,
        popularity: None,
    }
}

fn track_s(id: &str, name: &str, duration_ms: u64) -> TrackSimplified {
    TrackSimplified {
        artists: None,
        available_markets: None,
        disc_number: None,
        duration_ms,
        explicit: None,
        external_urls: None,
        href: None,
        id: s(id),
        is_playable: None,
        linked_from: None,
        restrictions: None,
        name: s(name),
        preview_url: None,
        track_number: None,
        item_type: s("track"),
        uri: format!("spotify:track:{}", id),
        is_local: None,
    }
}

fn track(id: &str, name: &str, duration_ms: u64) -> Track {
    Track {
        album: None,
        artists: None,
        available_markets: None,
        disc_number: None,
        duration_ms,
        explicit: None,
        external_ids: None,
        external_urls: None,
        href: None,
        id: s(id),
        is_playable: None,
        linked_from: None,
        restrictions: None,
        name: s(name),
        popularity: None,
        preview_url: None,
        track_number: None,
        item_type: s("track"),
        uri: format!("spotify:track:{}", id),
        is_local: None,
    }
}

fn device(id: Option<&str>, is_active: bool, name: &str, kind: &str) -> Device {
    Device {
        id: id.map(s),
        is_active,
        is_private_session: None,
        is_restricted: None,
        name: s(name),
        device_type: s(kind),
        volume_percent: None,
        supports_volume: None,
    }
}

fn playback(is_playing: bool) -> PlaybackState {
    PlaybackState {
        device: None,
        repeat_state: None,
        shuffle_state: None,
        context: None,
        timestamp: None,
        progress_ms: None,
        is_playing,
        item: None,
        currently_playing_type: None,
        actions: None,
    }
}

fn user(id: &str, display_name: Option<&str>) -> UserPublic {
    UserPublic {
        display_name: display_name.map(s),
        external_urls: None,
        followers: None,
        href: None,
        id: s(id),
        images: None,
        item_type: s("user"),
        uri: format!("spotify:user:{}", id),
    }
}

fn playlist_s(id: &str, name: &str) -> PlaylistSimplified {
    PlaylistSimplified {
        collaborative: None,
        description: None,
        external_urls: None,
        href: None,
        id: s(id),
        images: None,
        name: s(name),
        owner: None,
        public: None,
        snapshot_id: None,
        tracks: None,
        item_type: s("playlist"),
        uri: format!("spotify:playlist:{}", id),
    }
}

fn playlist(id: &str, name: &str) -> Playlist {
    Playlist {
        collaborative: None,
        description: None,
        external_urls: None,
        followers: None,
        href: None,
        id: s(id),
        images: None,
        name: s(name),
        owner: None,
        public: None,
        snapshot_id: None,
        tracks: None,
        item_type: s("playlist"),
        uri: format!("spotify:playlist:{}", id),
    }
}

fn page<T>(href: &str, items: Vec<T>, total: u32, limit: u32) -> Paginated<T> {
    Paginated { href: s(href), limit, next: None, offset: 0, previous: None, total, items }
}

// ---- albums ----

#[test]
fn album_type_deserializes() {
    assert_eq!(AlbumType::from_api_name("album"), Some(AlbumType::Album));
    assert_eq!(AlbumType::from_api_name("single"), Some(AlbumType::Single));
    assert_eq!(AlbumType::from_api_name("compilation"), Some(AlbumType::Compilation));
}

#[test]
fn album_simplified_deserializes() {
    let mut album = album_s("album123", "Test Album");
    album.album_type = Some(s("album"));
    album.total_tracks = Some(12);
    album.release_date = Some(s("2024-01-15"));
    assert_eq!(album.id, "album123");
    assert_eq!(album.name, "Test Album");
    assert_eq!(album.total_tracks, Some(12));
}

#[test]
fn album_simplified_image_url() {
    let mut album = album_s("album123", "Test Album");
    album.images = Some(vec![image("https://cover.jpg", 640)]);
    assert_eq!(album.image_url(), Some("https://cover.jpg"));
}

#[test]
fn album_simplified_image_url_none() {
    let album = album_s("album123", "Test Album");
    assert!(album.image_url().is_none());
}

#[test]
fn album_simplified_artist_name() {
    let mut album = album_s("album123", "Test Album");
    album.artists = Some(vec![artist_s("artist1", "Test Artist")]);
    assert_eq!(album.artist_name(), Some("Test Artist"));
}

#[test]
fn album_simplified_artist_name_none() {
    let album = album_s("album123", "Test Album");
    assert!(album.artist_name().is_none());
}

#[test]
fn album_full_deserializes() {
    let mut album = album("album123", "Test Album");
    album.album_type = Some(s("album"));
    album.total_tracks = Some(12);
    album.release_date = Some(s("2024-01-15"));
    album.popularity = Some(75);
    album.label = Some(s("Test Label"));
    album.genres = Some(vec![s("rock"), s("alternative")]);
    assert_eq!(album.id, "album123");
    assert_eq!(album.popularity, Some(75));
    assert_eq!(album.label, Some("Test Label".to_string()));
}

#[test]
fn album_image_url() {
    let mut album = album("album123", "Test Album");
    album.images = Some(vec![image("https://large.jpg", 640)]);
    assert_eq!(album.image_url(), Some("https://large.jpg"));
}

#[test]
fn album_artist_name() {
    let mut album = album("album123", "Test Album");
    album.artists = Some(vec![artist_s("artist1", "Primary Artist")]);
    assert_eq!(album.artist_name(), Some("Primary Artist"));
}

#[test]
fn album_release_year() {
    let mut album = album("album123", "Test Album");
    album.release_date = Some(s("2024-01-15"));
    assert_eq!(album.release_year(), Some("2024"));
}

#[test]
fn album_release_year_none() {
    let album = album("album123", "Test Album");
    assert!(album.release_year().is_none());
}

#[test]
fn album_release_year_of_bare_year() {
    let mut album = album("album123", "Test Album");
    album.release_date = Some(s("1999"));
    assert_eq!(album.release_year(), Some("1999"));
}

#[test]
fn saved_album_deserializes() {
    let saved = SavedAlbum { added_at: s("2024-01-15T10:30:00Z"), album: album("album123", "Test Album") };
    assert_eq!(saved.added_at, "2024-01-15T10:30:00Z");
    assert_eq!(saved.album.id, "album123");
}

// ---- artists ----

#[test]
fn artist_simplified_deserializes() {
    let artist = artist_s("abc123", "Test Artist");
    assert_eq!(artist.id, "abc123");
    assert_eq!(artist.name, "Test Artist");
}

#[test]
fn artist_full_deserializes() {
    let mut artist = artist("abc123", "Test Artist");
    artist.genres = Some(vec![s("rock"), s("alternative")]);
    artist.popularity = Some(75);
    artist.followers = Some(Followers { href: None, total: 1000000 });
    assert_eq!(artist.id, "abc123");
    assert_eq!(artist.popularity, Some(75));
    assert_eq!(artist.genres.as_ref().unwrap().len(), 2);
}

#[test]
fn artist_image_url_returns_first_image() {
    let mut artist = artist("abc123", "Test Artist");
    artist.images = Some(vec![image("https://large.jpg", 640), image("https://medium.jpg", 300)]);
    assert_eq!(artist.image_url(), Some("https://large.jpg"));
}

#[test]
fn artist_image_url_returns_none_when_no_images() {
    let artist = artist("abc123", "Test Artist");
    assert!(artist.image_url().is_none());
}

#[test]
fn artist_top_tracks_response_deserializes() {
    let resp = ArtistTopTracksResponse { tracks: vec![] };
    assert!(resp.tracks.is_empty());
}

#[test]
fn related_artists_response_deserializes() {
    let resp = RelatedArtistsResponse { artists: vec![] };
    assert!(resp.artists.is_empty());
}

#[test]
fn followed_artists_response_deserializes() {
    let resp = FollowedArtistsResponse {
        artists: FollowedArtistsCursored {
            href: None,
            limit: Some(20),
            next: None,
            cursors: None,
            total: Some(0),
            items: vec![],
        },
    };
    assert!(resp.artists.items.is_empty());
}

// ---- tracks ----

#[test]
fn track_simplified_deserializes() {
    let mut track = track_s("track123", "Test Song", 210000);
    track.track_number = Some(5);
    track.disc_number = Some(1);
    assert_eq!(track.id, "track123");
    assert_eq!(track.name, "Test Song");
    assert_eq!(track.duration_ms, 210000);
}

#[test]
fn track_simplified_artist_name() {
    let mut track = track_s("track123", "Test Song", 210000);
    track.artists = Some(vec![artist_s("artist1", "Test Artist")]);
    assert_eq!(track.artist_name(), Some("Test Artist"));
}

#[test]
fn track_simplified_artist_name_none() {
    let track = track_s("track123", "Test Song", 210000);
    assert!(track.artist_name().is_none());
}

#[test]
fn track_simplified_duration_str() {
    let track = track_s("track123", "Test Song", 210000);
    assert_eq!(track.duration_str(), "3:30");
}

#[test]
fn track_full_deserializes() {
    let mut track = track("track123", "Test Song", 210000);
    track.popularity = Some(75);
    track.explicit = Some(true);
    assert_eq!(track.id, "track123");
    assert_eq!(track.popularity, Some(75));
    assert_eq!(track.explicit, Some(true));
}

#[test]
fn track_artist_name() {
    let mut track = track("track123", "Test Song", 210000);
    track.artists = Some(vec![artist_s("artist1", "Primary Artist")]);
    assert_eq!(track.artist_name(), Some("Primary Artist"));
}

#[test]
fn track_artist_names_multiple() {
    let mut track = track("track123", "Test Song", 210000);
    track.artists = Some(vec![artist_s("artist1", "Artist One"), artist_s("artist2", "Artist Two")]);
    assert_eq!(track.artist_names(), "Artist One, Artist Two");
}

#[test]
fn track_artist_names_empty() {
    let track = track("track123", "Test Song", 210000);
    assert_eq!(track.artist_names(), "");
}

#[test]
fn track_album_name() {
    let mut track = track("track123", "Test Song", 210000);
    track.album = Some(album_s("album1", "Test Album"));
    assert_eq!(track.album_name(), Some("Test Album"));
}

#[test]
fn track_album_name_none() {
    let track = track("track123", "Test Song", 210000);
    assert!(track.album_name().is_none());
}

#[test]
fn track_duration_str() {
    let track = track("track123", "Test Song", 185000);
    assert_eq!(track.duration_str(), "3:05");
}

#[test]
fn track_duration_str_over_an_hour() {
    let track = track("track123", "Long Mix", 3_725_999);
    assert_eq!(track.duration_str(), "62:05");
}

#[test]
fn track_image_url() {
    let mut album = album_s("album1", "Test Album");
    album.images = Some(vec![image("https://cover.jpg", 640)]);
    let mut track = track("track123", "Test Song", 210000);
    track.album = Some(album);
    assert_eq!(track.image_url(), Some("https://cover.jpg"));
}

#[test]
fn saved_track_deserializes() {
    let saved = SavedTrack { added_at: s("2024-01-15T10:30:00Z"), track: track("track123", "Test Song", 210000) };
    assert_eq!(saved.added_at, "2024-01-15T10:30:00Z");
    assert_eq!(saved.track.id, "track123");
}

// ---- playback ----

#[test]
fn device_deserializes() {
    let mut device = device(Some("device123"), true, "Living Room Speaker", "Speaker");
    device.volume_percent = Some(75);
    assert_eq!(device.id, Some("device123".to_string()));
    assert!(device.is_active);
    assert_eq!(device.name, "Living Room Speaker");
    assert_eq!(device.device_type, "Speaker");
}

#[test]
fn device_type_display_known_types() {
    let make_device = |t: &str| device(None, false, "Test", t);
    assert_eq!(make_device("Computer").device_type_display(), "Computer");
    assert_eq!(make_device("Smartphone").device_type_display(), "Phone");
    assert_eq!(make_device("Speaker").device_type_display(), "Speaker");
    assert_eq!(make_device("TV").device_type_display(), "TV");
    assert_eq!(make_device("AVR").device_type_display(), "Receiver");
    assert_eq!(make_device("Automobile").device_type_display(), "Car");
    assert_eq!(make_device("Tablet").device_type_display(), "Tablet");
}

#[test]
fn device_type_display_unknown() {
    let device = device(None, false, "Test", "NewDeviceType");
    assert_eq!(device.device_type_display(), "NewDeviceType");
}

#[test]
fn device_type_display_cast_variants() {
    assert_eq!(device(None, false, "T", "CastVideo").device_type_display(), "Cast");
    assert_eq!(device(None, false, "T", "CastAudio").device_type_display(), "Cast");
    assert_eq!(device(None, false, "T", "STB").device_type_display(), "Set-top Box");
}

#[test]
fn devices_response_deserializes() {
    let resp = DevicesResponse {
        devices: vec![
            device(Some("dev1"), true, "Device 1", "Computer"),
            device(Some("dev2"), false, "Device 2", "Speaker"),
        ],
    };
    assert_eq!(resp.devices.len(), 2);
}

#[test]
fn playback_context_deserializes() {
    let ctx = PlaybackContext {
        context_type: Some(s("playlist")),
        href: Some(s("https://api.spotify.com/v1/playlists/abc123")),
        external_urls: None,
        uri: Some(s("spotify:playlist:abc123")),
    };
    assert_eq!(ctx.context_type, Some("playlist".to_string()));
}

#[test]
fn playback_actions_deserializes() {
    let actions = PlaybackActions {
        interrupting_playback: None,
        pausing: Some(true),
        resuming: Some(true),
        seeking: Some(true),
        skipping_next: Some(true),
        skipping_prev: Some(false),
        toggling_repeat_context: None,
        toggling_shuffle: None,
        toggling_repeat_track: None,
        transferring_playback: None,
    };
    assert_eq!(actions.pausing, Some(true));
    assert_eq!(actions.skipping_prev, Some(false));
}

#[test]
fn playback_state_deserializes() {
    let mut state = playback(true);
    state.progress_ms = Some(60000);
    state.repeat_state = Some(s("off"));
    state.shuffle_state = Some(false);
    assert!(state.is_playing);
    assert_eq!(state.progress_ms, Some(60000));
    assert_eq!(state.repeat_state, Some("off".to_string()));
}

#[test]
fn playback_state_track_name() {
    let mut state = playback(true);
    state.item = Some(track("track1", "Test Track", 200000));
    assert_eq!(state.track_name(), Some("Test Track"));
}

#[test]
fn playback_state_track_name_none() {
    let state = playback(false);
    assert!(state.track_name().is_none());
}

#[test]
fn playback_state_progress_str() {
    let mut state = playback(true);
    state.progress_ms = Some(125000);
    assert_eq!(state.progress_str(), "2:05");
}

#[test]
fn playback_state_progress_str_zero() {
    let state = playback(false);
    assert_eq!(state.progress_str(), "0:00");
}

#[test]
fn playback_state_duration_str() {
    let mut state = playback(true);
    state.item = Some(track("track1", "Test", 210000));
    assert_eq!(state.duration_str(), "3:30");
}

#[test]
fn playback_state_duration_str_no_item() {
    let state = playback(false);
    assert_eq!(state.duration_str(), "0:00");
}

#[test]
fn playback_state_device_name() {
    let mut state = playback(true);
    state.device = Some(device(Some("dev1"), true, "My Computer", "Computer"));
    assert_eq!(state.device_name(), Some("My Computer"));
}

#[test]
fn playback_state_artist_name_from_item() {
    let mut item = track("track1", "Test", 1000);
    item.artists = Some(vec![artist_s("a1", "Someone")]);
    let mut state = playback(true);
    state.item = Some(item);
    assert_eq!(state.artist_name(), Some("Someone"));
    assert!(playback(true).artist_name().is_none());
}

#[test]
fn queue_response_deserializes() {
    let queue = QueueResponse { currently_playing: None, queue: vec![] };
    assert!(queue.currently_playing.is_none());
    assert!(queue.queue.is_empty());
}

#[test]
fn play_history_deserializes() {
    let history = PlayHistory {
        track: track("track1", "Recent Track", 180000),
        played_at: s("2024-01-15T10:30:00Z"),
        context: None,
    };
    assert_eq!(history.track.name, "Recent Track");
    assert_eq!(history.played_at, "2024-01-15T10:30:00Z");
}

#[test]
fn recently_played_response_deserializes() {
    let resp = RecentlyPlayedResponse { href: None, limit: Some(20), next: None, cursors: None, total: None, items: vec![] };
    assert!(resp.items.is_empty());
    assert_eq!(resp.limit, Some(20));
}

#[test]
fn recently_played_cursors_deserializes() {
    let cursors = RecentlyPlayedCursors { after: Some(s("1234567890")), before: Some(s("0987654321")) };
    assert_eq!(cursors.after, Some("1234567890".to_string()));
    assert_eq!(cursors.before, Some("0987654321".to_string()));
}

// ---- playlists ----

#[test]
fn playlist_simplified_deserializes() {
    let mut playlist = playlist_s("playlist123", "My Playlist");
    playlist.tracks = Some(PlaylistTracksRef { href: None, total: 50 });
    assert_eq!(playlist.id, "playlist123");
    assert_eq!(playlist.name, "My Playlist");
    assert_eq!(playlist.track_count(), 50);
}

#[test]
fn playlist_simplified_track_count_zero_when_none() {
    let playlist = playlist_s("playlist123", "My Playlist");
    assert_eq!(playlist.track_count(), 0);
}

#[test]
fn playlist_simplified_image_url() {
    let mut playlist = playlist_s("playlist123", "My Playlist");
    playlist.images = Some(vec![image("https://cover.jpg", 300)]);
    assert_eq!(playlist.image_url(), Some("https://cover.jpg"));
}

#[test]
fn playlist_full_deserializes() {
    let mut playlist = playlist("playlist123", "My Playlist");
    playlist.owner = Some(user("user123", None));
    playlist.tracks = Some(page("https://api.spotify.com/v1/playlists/playlist123/tracks", vec![], 0, 100));
    playlist.followers = Some(Followers { href: None, total: 500 });
    assert_eq!(playlist.id, "playlist123");
    assert_eq!(playlist.owner_name(), Some("user123"));
    assert_eq!(playlist.track_count(), 0);
}

#[test]
fn playlist_owner_name_prefers_display_name() {
    let mut playlist = playlist("playlist123", "My Playlist");
    playlist.owner = Some(user("user123", Some("John Doe")));
    assert_eq!(playlist.owner_name(), Some("John Doe"));
}

#[test]
fn playlist_track_deserializes() {
    let track = PlaylistTrack { added_at: Some(s("2024-01-15T10:30:00Z")), added_by: None, is_local: Some(false), track: None };
    assert!(track.track.is_none());
    assert_eq!(track.is_local, Some(false));
}

#[test]
fn playlist_tracks_ref_deserializes() {
    let tracks_ref = PlaylistTracksRef { href: Some(s("https://api.spotify.com/v1/playlists/123/tracks")), total: 42 };
    assert_eq!(tracks_ref.total, 42);
}

#[test]
fn featured_playlists_deserializes() {
    let featured = FeaturedPlaylists {
        message: Some(s("Featured today")),
        playlists: page("https://api.spotify.com/v1/browse/featured-playlists", vec![], 0, 20),
    };
    assert_eq!(featured.message, Some("Featured today".to_string()));
}

#[test]
fn category_playlists_deserializes() {
    let category = CategoryPlaylists {
        playlists: page("https://api.spotify.com/v1/browse/categories/pop/playlists", vec![], 0, 20),
    };
    assert!(category.playlists.items.is_empty());
}
