use spotify_cli::domain::media::{AlbumTrack, SearchType};
use spotify_cli::spotify::error::{api_base_from, format_api_error};
use spotify_cli::spotify::library::{album_from, ApiAlbum, ApiPlaylist, playlists_from};
use spotify_cli::spotify::login::{
    build_authorize_url, code_exchange_form, oauth_state, parse_query, profile_name, read_redirect_request, redirect_listener,
    pkce_challenge, pkce_verifier, refresh_form, token_from_reply,
};
use base64::engine::general_purpose::URL_SAFE_NO_PAD;
use base64::Engine;
use spotify_cli::spotify::playback::{
    map_track, player_status_from, queue_state, repeat_path, shuffle_path, volume_path, ApiAlbum as PlayAlbum,
    ApiArtist, ApiContext, ApiPlayerStatus, ApiQueue, ApiTrack,
};
use spotify_cli::spotify::search::{
    all_kinds, combine_all_results, recently_played_hits, search_hits, search_type_param, search_url, ApiNameRef, ApiOwner,
    ApiSearchPlaylist, ApiSearchResponse, ApiSearchTrack, RecentlyPlayedItem,
};
use spotify_cli::spotify::auth::parse_scopes;

fn s(x: &str) -> String {
    x.to_string()
}

#[test]
fn adds_scope_hint() {
    let message = format_api_error("spotify search failed", 403, r#"{"error":{"message":"Insufficient client scope"}}"#);
    assert!(message.contains("missing scope"));
    assert!(message.starts_with("spotify search failed: 403 Forbidden {"));
}

#[test]
fn adds_unauthorized_hint() {
    let message = format_api_error("spotify request failed", 401, "{}");
    assert!(message.contains("token expired"));
    assert_eq!(
        message,
        "spotify request failed: 401 Unauthorized {}; hint: token expired or invalid, run `spotify auth login`"
    );
}

#[test]
fn forbidden_and_plain_errors() {
    assert!(format_api_error("x", 403, "{}").contains("read-only"));
    assert_eq!(format_api_error("x", 500, "oops"), "x: 500 Internal Server Error oops");
}

#[test]
fn api_base_trims_slashes() {
    assert_eq!(api_base_from(None), "https://api.spotify.com/v1");
    assert_eq!(api_base_from(Some(s("http://localhost:9/v1//"))), "http://localhost:9/v1");
}

#[test]
fn search_url_encodes_query() {
    assert_eq!(
        search_url("https://api", "boards of canada", SearchType::Track, 5, true),
        "https://api/search?q=boards%20of%20canada&type=track&limit=5&market=from_token"
    );
    assert_eq!(search_type_param(SearchType::All), "track,album,artist,playlist");
    assert_eq!(all_kinds().len(), 4);
    assert_eq!(
        search_url("https://api", "a~b c/é", SearchType::Album, 1, false),
        "https://api/search?q=a~b%20c%2F%C3%A9&type=album&limit=1"
    );
}

#[test]
fn search_hits_skip_missing_items() {
    let response = ApiSearchResponse {
        tracks: Some(vec![
            None,
            Some(ApiSearchTrack {
                id: s("t1"),
                name: s("Song"),
                uri: s("spotify:track:t1"),
                artists: vec![ApiNameRef { name: s("A") }],
                album: Some(ApiNameRef { name: s("LP") }),
                duration_ms: Some(1000),
            }),
        ]),
        albums: None,
        artists: None,
        playlists: Some(vec![Some(ApiSearchPlaylist {
            id: s("p"),
            name: s("P"),
            uri: s("u"),
            owner: Some(ApiOwner { display_name: Some(s("me")) }),
        })]),
    };
    let hits = search_hits(SearchType::Track, &response);
    assert_eq!(hits.len(), 1);
    assert_eq!(hits[0].id, "t1");
    assert_eq!(hits[0].artists, vec![s("A")]);
    assert_eq!(hits[0].album, Some(s("LP")));
    assert!(search_hits(SearchType::Album, &response).is_empty());
    let lists = search_hits(SearchType::Playlist, &response);
    assert_eq!(lists[0].owner, Some(s("me")));
}

fn api_track(id: Option<&str>, name: &str) -> ApiTrack {
    ApiTrack {
        id: id.map(s),
        name: s(name),
        duration_ms: Some(1000),
        album: Some(PlayAlbum { id: Some(s("al")), name: s("Alb") }),
        artists: vec![ApiArtist { id: Some(s("a1")), name: s("One") }, ApiArtist { id: None, name: s("Two") }],
    }
}

#[test]
fn player_status_maps_track_and_context() {
    let v = ApiPlayerStatus {
        is_playing: true,
        progress_ms: Some(5),
        item: Some(api_track(Some("t"), "Song")),
        device: None,
        context: Some(ApiContext { kind: Some(s("album")), uri: None }),
        repeat_state: Some(s("off")),
        shuffle_state: None,
    };
    let st = player_status_from(&v);
    let t = st.track.unwrap();
    assert_eq!(t.id, "t");
    assert_eq!(t.album, Some(s("Alb")));
    assert_eq!(t.album_id, Some(s("al")));
    assert_eq!(t.artists, vec![s("One"), s("Two")]);
    assert_eq!(t.artist_ids, vec![s("a1")]);
    assert!(st.context.is_none());
    assert!(map_track(&api_track(None, "x")).is_none());
}

#[test]
fn queue_is_cut_to_limit() {
    let payload = ApiQueue {
        currently_playing: Some(api_track(Some("now"), "Now")),
        queue: vec![api_track(Some("a"), "A"), api_track(None, "skip"), api_track(Some("b"), "B"), api_track(Some("c"), "C")],
    };
    let st = queue_state(&payload, 2);
    assert_eq!(st.now_playing.unwrap().id, "now");
    let ids: Vec<_> = st.queue.iter().map(|t| t.id.clone()).collect();
    assert_eq!(ids, vec![s("a"), s("b")]);
    assert_eq!(queue_state(&payload, 0).queue.len(), 1);
    assert_eq!(queue_state(&payload, 10).queue.len(), 3);
}

#[test]
fn player_control_paths() {
    assert_eq!(shuffle_path(true), "/me/player/shuffle?state=true");
    assert_eq!(repeat_path("track"), "/me/player/repeat?state=track");
    assert_eq!(volume_path(40), "/me/player/volume?volume_percent=40");
}

#[test]
fn album_duration_is_sum_of_tracks() {
    let payload = ApiAlbum {
        id: s("1"),
        name: s("A"),
        uri: s("u"),
        release_date: None,
        total_tracks: Some(2),
        artists: vec![ApiNameRef { name: s("X") }],
    };
    let tracks = vec![
        AlbumTrack { name: s("a"), duration_ms: 1000, track_number: 1 },
        AlbumTrack { name: s("b"), duration_ms: u32::MAX, track_number: 2 },
    ];
    let album = album_from(&payload, tracks);
    assert_eq!(album.duration_ms, Some(1000 + u32::MAX as u64));
    assert_eq!(album.artists, vec![s("X")]);
}

#[test]
fn playlists_take_owner_display_name() {
    let ps = playlists_from(&vec![ApiPlaylist { id: s("1"), name: s("L"), owner: Some(ApiOwner { display_name: None }), collaborative: true, public: None }]);
    assert_eq!(ps[0].owner, None);
    assert!(ps[0].collaborative);
}

#[test]
fn authorize_url_has_all_parts() {
    let url = build_authorize_url("cid", "http://127.0.0.1:8888/callback", "st", "ch");
    assert!(url.starts_with("https://accounts.spotify.com/authorize?response_type=code&client_id=cid&scope=user-read-playback-state%20"));
    assert!(url.contains("&redirect_uri=http%3A%2F%2F127.0.0.1%3A8888%2Fcallback&state=st&code_challenge_method=S256&code_challenge=ch"));
}

#[test]
fn redirect_listener_checks_uri() {
    let l = redirect_listener("http://localhost:9000/cb").unwrap();
    assert_eq!(l.host, "127.0.0.1");
    assert_eq!(l.port, 9000);
    assert_eq!(l.path, "/cb");
    assert_eq!(redirect_listener("https://127.0.0.1/cb").unwrap_err(), "redirect URI must use http");
    assert_eq!(redirect_listener("http://example.com/cb").unwrap_err(), "redirect URI must use a loopback host");
    assert_eq!(redirect_listener("http://127.0.0.1/cb").unwrap().port, 80);
    assert_eq!(redirect_listener("not a uri").unwrap_err(), "relative URL without a base");
}

#[test]
fn redirect_request_yields_code() {
    let req = "GET /callback?code=a%20b&state=xyz HTTP/1.1\r\nHost: 127.0.0.1\r\n\r\n";
    assert_eq!(read_redirect_request(req, "/callback", "xyz").unwrap(), "a b");
    assert_eq!(read_redirect_request(req, "/callback", "other").unwrap_err(), "state mismatch during login");
    assert_eq!(read_redirect_request(req, "/cb", "xyz").unwrap_err(), "unexpected redirect path: /callback");
    assert_eq!(
        read_redirect_request("POST /callback HTTP/1.1\r\n", "/callback", "x").unwrap_err(),
        "unexpected redirect method: POST"
    );
    assert_eq!(read_redirect_request("GET /callback?code=1 HTTP/1.1", "/callback", "x").unwrap_err(), "missing state in redirect");
    assert_eq!(read_redirect_request("GET /callback?state=x HTTP/1.1", "/callback", "x").unwrap_err(), "missing code in redirect");
}

#[test]
fn query_pairs_decode_and_keep_order() {
    let pairs = parse_query("a=1&&b&c=x%2By&a=2");
    assert_eq!(pairs, vec![(s("a"), s("1")), (s("b"), s("")), (s("c"), s("x+y")), (s("a"), s("2"))]);
}

#[test]
fn scopes_split_on_whitespace() {
    assert_eq!(parse_scopes(s("  a b\tc\n")), vec![s("a"), s("b"), s("c")]);
    assert!(parse_scopes(s("   ")).is_empty());
}

#[test]
fn profile_name_falls_back() {
    assert_eq!(profile_name(Some(s("D")), Some(s("i"))), "D");
    assert_eq!(profile_name(None, Some(s("i"))), "i");
    assert_eq!(profile_name(None, None), "You");
}

#[test]
fn oauth_state_is_prefixed_random_base64url() {
    use_base64_decode_check(&oauth_state());
    assert_ne!(oauth_state(), oauth_state());
}

fn use_base64_decode_check(state: &str) {
    let rest = state.strip_prefix("spotify-cli-").expect("prefix");
    let bytes = URL_SAFE_NO_PAD.decode(rest).expect("base64url");
    assert_eq!(bytes.len(), 32);
}

#[test]
fn code_exchange_form_lists_fields_in_order() {
    let f = code_exchange_form("cid", "http://127.0.0.1:8888/callback", "the-code", "verif");
    let expected = vec![
        ("grant_type", "authorization_code"),
        ("code", "the-code"),
        ("redirect_uri", "http://127.0.0.1:8888/callback"),
        ("client_id", "cid"),
        ("code_verifier", "verif"),
    ];
    assert_eq!(f, expected.into_iter().map(|(k, v)| (k.to_string(), v.to_string())).collect::<Vec<_>>());
}

#[test]
fn refresh_form_lists_fields_in_order() {
    let f = refresh_form("cid", "rt");
    assert_eq!(
        f,
        vec![
            ("grant_type".to_string(), "refresh_token".to_string()),
            ("refresh_token".to_string(), "rt".to_string()),
            ("client_id".to_string(), "cid".to_string()),
        ]
    );
}

#[test]
fn token_from_reply_sets_expiry_and_scopes() {
    let t = token_from_reply("at".to_string(), None, 3600, Some("user-read-private  streaming".to_string()), 1000);
    assert_eq!(t.access_token, "at");
    assert_eq!(t.refresh_token, None);
    assert_eq!(t.expires_at, Some(4600));
    assert_eq!(t.scopes, Some(vec!["user-read-private".to_string(), "streaming".to_string()]));
    let u = token_from_reply("at".to_string(), Some("rt".to_string()), 0, None, 5);
    assert_eq!(u.expires_at, Some(5));
    assert_eq!(u.scopes, None);
}

#[test]
fn pkce_verifier_is_32_bytes_base64url_and_challenge_is_its_digest() {
    let v = pkce_verifier();
    assert_eq!(URL_SAFE_NO_PAD.decode(&v).unwrap().len(), 32);
    let c = pkce_challenge(&v);
    assert_eq!(URL_SAFE_NO_PAD.decode(&c).unwrap().len(), 32);
    assert_eq!(pkce_challenge("abc"), "ungWv48Bz-pBQUDeXa4iI7ADYaOWF3qctBD_YfIAFa0");
    assert_eq!(c.len(), 43);
    assert_eq!(v.len(), 43);
    assert_eq!(oauth_state().len(), 55);
}

#[test]
fn recently_played_keeps_tracks_in_order() {
    let track = |id: &str| ApiSearchTrack {
        id: s(id),
        name: s("Song"),
        uri: format!("spotify:track:{}", id),
        artists: vec![ApiNameRef { name: s("A") }, ApiNameRef { name: s("B") }],
        album: None,
        duration_ms: Some(2000),
    };
    let items = vec![
        RecentlyPlayedItem { track: Some(track("a")) },
        RecentlyPlayedItem { track: None },
        RecentlyPlayedItem { track: Some(track("b")) },
    ];
    let hits = recently_played_hits(&items);
    assert_eq!(hits.len(), 2);
    assert_eq!(hits[0].id, "a");
    assert_eq!(hits[1].id, "b");
    assert_eq!(hits[1].uri, "spotify:track:b");
    assert_eq!(hits[0].artists, vec![s("A"), s("B")]);
    assert_eq!(hits[0].album, None);
    assert_eq!(hits[0].duration_ms, Some(2000));
}

#[test]
fn combine_all_concatenates_kinds_in_order() {
    let part = |kind: SearchType, ids: &[&str]| spotify_cli::domain::media::SearchResults {
        kind,
        items: ids
            .iter()
            .map(|id| spotify_cli::domain::media::SearchItem {
                id: s(id),
                name: s("N"),
                uri: s("u"),
                kind,
                artists: vec![],
                album: None,
                duration_ms: None,
                owner: None,
                score: None,
            })
            .collect(),
    };
    let all: Result<_, String> = combine_all_results(vec![
        Ok(part(SearchType::Track, &["t1", "t2"])),
        Ok(part(SearchType::Album, &[])),
        Ok(part(SearchType::Artist, &["a1"])),
    ]);
    let all = all.unwrap();
    assert_eq!(all.kind, SearchType::All);
    let ids: Vec<&str> = all.items.iter().map(|i| i.id.as_str()).collect();
    assert_eq!(ids, vec!["t1", "t2", "a1"]);
    assert_eq!(all.items[2].kind, SearchType::Artist);

    let failed: Result<_, String> = combine_all_results(vec![
        Ok(part(SearchType::Track, &["t1"])),
        Err("album search failed".to_string()),
        Err("artist search failed".to_string()),
    ]);
    assert_eq!(failed.unwrap_err(), "album search failed");
    let none: Result<_, String> = combine_all_results(vec![]);
    assert!(none.unwrap().items.is_empty());
}
