use spotify_cli::domain::auth::{AuthScopes, AuthStatus};
use spotify_cli::domain::media::{
    Album, AlbumTrack, Artist, CacheStatus, Device, PinnedPlaylist, PlayerStatus, Playlist, PlaylistDetail,
    SearchItem, SearchResults, SearchType, Track,
};
use spotify_cli::domain::settings::Settings;
use spotify_cli::output::human::{
    self, display_owner, format_duration, format_optional_details, format_progress, format_time,
};
use spotify_cli::output::json::{
    action_payload, album_info_payload, artist_info_payload, auth_scopes_payload, auth_status_payload,
    device_list_payload, help_payload, now_playing_payload, pin_list_payload, player_status_payload,
    playlist_info_payload, playlist_list_payload, playlist_list_with_pins_payload, search_results_payload,
};
use spotify_cli::output::lists::{cache_status_payload, pin_list_human, settings_human, settings_payload};
use spotify_cli::output::table::{render_table, truncate_cell, TableConfig};
use spotify_cli::output::{Output, Rendered};

fn s(x: &str) -> String {
    x.to_string()
}

fn status(is_playing: bool, repeat: &str, shuffle: bool) -> PlayerStatus {
    PlayerStatus {
        is_playing,
        track: None,
        device: None,
        context: None,
        progress_ms: None,
        repeat_state: Some(s(repeat)),
        shuffle_state: Some(shuffle),
    }
}

fn playlist(name: &str, owner: Option<&str>, collaborative: bool, public: Option<bool>) -> Playlist {
    Playlist { id: s("1"), name: s(name), owner: owner.map(s), collaborative, public }
}

const TRUNC: TableConfig = TableConfig { max_width: None, truncate: true };

#[test]
fn truncate_cell_keeps_short_values() {
    assert_eq!(truncate_cell("short", 10), "short");
}

#[test]
fn truncate_cell_adds_ellipsis() {
    assert_eq!(truncate_cell("0123456789", 8), "01234...");
}

#[test]
fn truncate_cell_tiny_width_is_dots() {
    assert_eq!(truncate_cell("0123456789", 3), "...");
    assert_eq!(truncate_cell("0123", 0), "...");
    assert_eq!(truncate_cell("", 0), "");
}

#[test]
fn format_progress_with_duration() {
    assert_eq!(format_progress(Some(61000), Some(120000)), " [1:01 / 2:00]");
}

#[test]
fn format_progress_without_duration() {
    assert_eq!(format_progress(Some(61000), None), " [1:01]");
    assert_eq!(format_progress(Some(61000), Some(0)), " [1:01]");
    assert_eq!(format_progress(None, Some(5)), "");
}

#[test]
fn format_time_minutes_seconds() {
    assert_eq!(format_time(61000), "1:01");
}

#[test]
fn format_duration_minutes_seconds() {
    assert_eq!(format_duration(125000), "2:05");
}

#[test]
fn format_optional_details_joins() {
    let value = format_optional_details(&[Some("2024".to_string()), None, Some("10".to_string())]);
    assert_eq!(value, "2024 | 10");
}

#[test]
fn display_owner_recognises_the_user() {
    assert_eq!(display_owner("Alice", Some("alice")), "You");
    assert_eq!(display_owner("Alice", Some("bob")), "Alice");
    assert_eq!(display_owner("Alice", None), "Alice");
}

#[test]
fn table_pads_columns_and_trims() {
    let rows = vec![vec![s("NAME"), s("VOLUME")], vec![s("Kitchen speaker"), s("40")], vec![s("TV"), s("")]];
    let lines = render_table(&rows, TRUNC);
    assert_eq!(lines, vec!["NAME             VOLUME", "Kitchen speaker  40", "TV"]);
}

#[test]
fn device_list_renders_table() {
    let devices = vec![Device { id: s("d"), name: s("Desk"), volume_percent: Some(7) }];
    assert_eq!(human::device_list(devices, TRUNC), vec!["NAME  VOLUME", "Desk  7"]);
}

#[test]
fn playlist_list_tags_and_owner() {
    let lines = human::playlist_list(
        vec![playlist("Mix", Some("Me"), true, Some(false)), playlist("Other", None, false, None)],
        Some("me"),
        TRUNC,
    );
    assert_eq!(lines, vec!["NAME   OWNER  TAGS", "Mix    You    collaborative, private", "Other"]);
}

#[test]
fn queue_marks_playing_track() {
    let items = vec![
        Track { id: s("a"), name: s("One"), album: Some(s("Alb")), album_id: None, artists: vec![s("X"), s("Y")], artist_ids: vec![], duration_ms: Some(61000) },
        Track { id: s("b"), name: s("Two"), album: None, album_id: None, artists: vec![], artist_ids: vec![], duration_ms: None },
    ];
    let lines = human::queue(items, Some("b"), TableConfig { max_width: None, truncate: false });
    assert_eq!(lines, vec!["#  TRACK  ARTIST  ALBUM  DURATION", "1  One    X, Y    Alb    1:01", "2  * Two"]);
}

#[test]
fn now_playing_and_player_status_lines() {
    let mut st = status(true, "off", true);
    st.track = Some(Track { id: s("a"), name: s("Song"), album: Some(s("LP")), album_id: None, artists: vec![s("Band")], artist_ids: vec![], duration_ms: Some(120000) });
    st.progress_ms = Some(61000);
    assert_eq!(human::now_playing(&st), vec!["Now Playing: Song (LP) - Band [1:01 / 2:00]"]);
    assert_eq!(
        human::player_status(&st),
        vec!["playing: Song (LP) - Band [1:01 / 2:00]", "repeat: off, shuffle: on, volume: unknown"]
    );
    let idle = PlayerStatus { is_playing: false, track: None, device: None, context: None, progress_ms: None, repeat_state: None, shuffle_state: None };
    assert_eq!(human::now_playing(&idle), vec!["Now Playing: (no active track)"]);
    assert_eq!(human::player_status(&idle), vec!["paused"]);
}

#[test]
fn auth_lines() {
    assert_eq!(human::auth_status(&AuthStatus { logged_in: true, expires_at: None }), vec!["logged_in"]);
    let lines = human::auth_scopes(&AuthScopes { required: vec![s("a"), s("b")], granted: Some(vec![s("a")]), missing: vec![s("b")] });
    assert_eq!(lines[0], "Scopes:");
    assert_eq!(lines[1], format!("{:<32} ok", "a"));
    assert_eq!(lines[2], format!("{:<32} missing", "b"));
}

#[test]
fn album_and_artist_info_lines() {
    let album = Album {
        id: s("1"),
        name: s("Geogaddi"),
        uri: s("u"),
        artists: vec![s("BoC")],
        release_date: Some(s("2002")),
        total_tracks: Some(23),
        tracks: vec![AlbumTrack { name: s("Ready"), duration_ms: 61000, track_number: 1 }],
        duration_ms: None,
    };
    assert_eq!(human::album_info(&album, TRUNC), vec!["Geogaddi - BoC (2002 | 23)", "NO   TRACK  DURATION", "01.  Ready  1:01"]);
    let artist = Artist { id: s("1"), name: s("BoC"), uri: s("u"), genres: vec![s("idm"), s("ambient")], followers: Some(5) };
    assert_eq!(human::artist_info(&artist), vec!["BoC (idm, ambient | followers 5)"]);
}

#[test]
fn playlist_info_line() {
    let p = PlaylistDetail { id: s("1"), name: s("List"), uri: s("u"), owner: Some(s("Bob")), tracks_total: Some(2), collaborative: false, public: Some(true) };
    assert_eq!(human::playlist_info(&p, None), vec!["List (Bob) - 2 tracks [public]"]);
}

#[test]
fn search_results_table_by_kind() {
    let results = SearchResults {
        kind: SearchType::All,
        items: vec![SearchItem { id: s("1"), name: s("Track"), uri: s("uri"), kind: SearchType::Track, artists: vec![s("Artist")], album: None, duration_ms: None, owner: None, score: None }],
    };
    let lines = human::search_results(results, vec![s("0.50")], TRUNC);
    assert_eq!(lines, vec!["#  TYPE   NAME   BY      SCORE", "1  track  Track  Artist  0.50"]);
}

#[test]
fn pin_list_and_settings_lines() {
    let pins = vec![PinnedPlaylist { name: s("Release Radar"), url: s("url") }];
    assert_eq!(pin_list_human(pins, TRUNC), vec!["NAME           URL", "Release Radar  url"]);
    assert!(pin_list_human(vec![], TRUNC).is_empty());
    let lines = settings_human(&Settings { country: Some(s("AU")), user_name: Some(s("me")) });
    assert_eq!(lines, vec!["country=AU", "user_name=me"]);
}

#[test]
fn auth_status_payload_shape() {
    let payload = auth_status_payload(AuthStatus { logged_in: true, expires_at: Some(1) });
    assert!(payload.logged_in);
    assert_eq!(payload.expires_at, Some(1));
}

#[test]
fn auth_scopes_payload_shape() {
    let payload = auth_scopes_payload(AuthScopes { required: vec!["a".into()], granted: Some(vec!["a".into()]), missing: vec![] });
    assert_eq!(payload.required.len(), 1);
}

#[test]
fn player_status_payload_shape() {
    let payload = player_status_payload(status(true, "off", false));
    assert!(payload.is_playing);
}

#[test]
fn now_playing_payload_shape() {
    let payload = now_playing_payload(status(false, "context", true));
    assert_eq!(payload.event, "now_playing");
}

#[test]
fn action_payload_shape() {
    let payload = action_payload("event", "message");
    assert_eq!(payload.event, "event");
    assert_eq!(payload.message, "message");
}

#[test]
fn album_info_payload_shape() {
    let payload = album_info_payload(Album {
        id: "1".into(),
        name: "Album".into(),
        uri: "uri".into(),
        artists: vec!["Artist".into()],
        release_date: None,
        total_tracks: Some(1),
        tracks: vec![AlbumTrack { name: "Track".into(), duration_ms: 1000, track_number: 1 }],
        duration_ms: Some(1000),
    });
    assert_eq!(payload.tracks.len(), 1);
}

#[test]
fn artist_info_payload_shape() {
    let payload = artist_info_payload(Artist { id: "1".into(), name: "Artist".into(), uri: "uri".into(), genres: vec![], followers: Some(10) });
    assert_eq!(payload.followers, Some(10));
}

#[test]
fn playlist_list_payload_shape() {
    let payload = playlist_list_payload(vec![playlist("List", None, false, Some(true))]);
    assert_eq!(payload.len(), 1);
}

#[test]
fn playlist_list_with_pins_payload_shape() {
    let payload = playlist_list_with_pins_payload(
        vec![playlist("List", None, false, Some(true))],
        vec![PinnedPlaylist { name: "Pin".into(), url: "url".into() }],
    );
    assert_eq!(payload.pinned.len(), 1);
}

#[test]
fn playlist_info_payload_shape() {
    let payload = playlist_info_payload(PlaylistDetail {
        id: "1".into(),
        name: "List".into(),
        uri: "uri".into(),
        owner: None,
        tracks_total: Some(2),
        collaborative: false,
        public: Some(true),
    });
    assert_eq!(payload.tracks_total, Some(2));
}

#[test]
fn device_list_payload_shape() {
    let payload = device_list_payload(vec![Device { id: "1".into(), name: "Device".into(), volume_percent: Some(10) }]);
    assert_eq!(payload.len(), 1);
}

#[test]
fn search_results_payload_shape() {
    let payload = search_results_payload(SearchResults {
        kind: SearchType::All,
        items: vec![SearchItem {
            id: "1".into(),
            name: "Track".into(),
            uri: "uri".into(),
            kind: SearchType::Track,
            artists: vec!["Artist".into()],
            album: Some("Album".into()),
            duration_ms: Some(1000),
            owner: None,
            score: None,
        }],
    });
    assert_eq!(payload.kind, "all");
    assert_eq!(payload.items[0].kind, "track");
    assert_eq!(payload.items.len(), 1);
    assert!(payload.items[0].now_playing.is_none());
}

#[test]
fn help_payload_shape() {
    let payload = help_payload();
    assert!(payload.objects.contains(&"auth".to_string()));
}

#[test]
fn cache_status_payload_shape() {
    let payload = cache_status_payload(CacheStatus { root: "/tmp".to_string(), device_count: 1, playlist_count: 2 });
    assert_eq!(payload.device_count, 1);
    assert_eq!(payload.playlist_count, 2);
}

#[test]
fn pin_list_payload_shape() {
    let payload = pin_list_payload(vec![PinnedPlaylist { name: "Release Radar".to_string(), url: "url".to_string() }]);
    assert_eq!(payload.len(), 1);
    assert_eq!(payload[0].name, "Release Radar");
}

#[test]
fn settings_payload_shape() {
    let payload = settings_payload(Settings { country: Some("AU".to_string()), user_name: None });
    assert_eq!(payload.country.as_deref(), Some("AU"));
    assert!(payload.user_name.is_none());
}

#[test]
fn output_facade_picks_mode() {
    let human_out = Output::new(false, None, None, false);
    match human_out.action("ev", "done") {
        Rendered::Lines(lines) => assert_eq!(lines, vec!["done"]),
        _ => panic!("expected lines"),
    }
    let json_out = Output::new(true, None, None, false);
    match json_out.action("ev", "done") {
        Rendered::Action(p) => {
            assert_eq!(p.event, "ev");
            assert_eq!(p.message, "done");
        }
        _ => panic!("expected payload"),
    }
    match json_out.queue(Some("a"), vec![Track { id: s("a"), name: s("N"), album: None, album_id: None, artists: vec![], artist_ids: vec![], duration_ms: None }]) {
        Rendered::Search(p) => {
            assert_eq!(p.kind, "track");
            assert_eq!(p.items[0].uri, "spotify:track:a");
            assert_eq!(p.items[0].now_playing, Some(true));
        }
        _ => panic!("expected payload"),
    }
}
