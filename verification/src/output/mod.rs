//! What the commands print: tables and lines for people, payloads for
//! machines.

pub mod table;
pub mod human;
pub mod json;
pub mod lists;

use vstd::prelude::*;
use crate::domain::auth::{AuthScopes, AuthStatus};
use crate::domain::media::{Album, Artist, CacheStatus, Device, PinnedPlaylist, PlayerStatus, Playlist,
    PlaylistDetail, SearchItem, SearchResults, SearchType, Track};
use crate::domain::settings::Settings;
use crate::output::human::str_opt_view;
use crate::output::json::{ActionPayload, AlbumPayload, ArtistPayload, AuthScopesPayload,
    AuthStatusPayload, DevicePayload, HelpPayload, NowPlayingPayload, PinPayload, PlayerStatusPayload,
    PlaylistDetailPayload, PlaylistListPayload, PlaylistPayload, SearchResultsPayload};
use crate::output::lists::{CacheStatusPayload, SettingsPayload};
use crate::output::table::{TableConfig, lines_view, table_lines};
use crate::rpc::dispatch::opt_view;

verus! {

/// Output mode for CLI responses.
#[derive(Debug, Clone, Copy, PartialEq, Eq, Structural)]
pub enum OutputMode {
    Human,
    Json,
}

/// What a command shows: lines of text, or a payload to serialize.
pub enum Rendered {
    Lines(Vec<String>),
    AuthStatus(AuthStatusPayload),
    AuthScopes(AuthScopesPayload),
    PlayerStatus(PlayerStatusPayload),
    NowPlaying(NowPlayingPayload),
    Search(SearchResultsPayload),
    Cache(CacheStatusPayload),
    Action(ActionPayload),
    Album(AlbumPayload),
    Artist(ArtistPayload),
    Playlists(Vec<PlaylistPayload>),
    PlaylistsWithPins(PlaylistListPayload),
    PlaylistInfo(PlaylistDetailPayload),
    Devices(Vec<DevicePayload>),
    Settings(SettingsPayload),
    Pins(Vec<PinPayload>),
    Help(HelpPayload),
}

/// The lines shown, when the output is text.
pub open spec fn shown_lines(r: Rendered) -> Option<Seq<Seq<char>>> {
    match r {
        Rendered::Lines(l) => Some(lines_view(l@)),
        _ => None,
    }
}

/// Unified output facade for CLI commands.
#[derive(Debug)]
pub struct Output {
    mode: OutputMode,
    user_name: Option<String>,
    table: TableConfig,
}

/// The mode, the signed-in user's name and the table settings.
pub struct OutputView {
    pub mode: OutputMode,
    pub user_name: Option<Seq<char>>,
    pub table: TableConfig,
}

impl View for Output {
    type V = OutputView;

    closed spec fn view(&self) -> OutputView {
        OutputView { mode: self.mode, user_name: opt_view(self.user_name), table: self.table }
    }
}

impl Output {
    /// JSON when asked for, else text; cells are cut unless `no_trunc`.
    pub fn new(json: bool, user_name: Option<String>, max_width: Option<usize>, no_trunc: bool) -> (o:
        Self)
        ensures
            o@.mode == (if json {
                OutputMode::Json
            } else {
                OutputMode::Human
            }),
            o@.user_name == opt_view(user_name),
            o@.table.max_width == max_width,
            o@.table.truncate == !no_trunc,
    {
        let mode = if json {
            OutputMode::Json
        } else {
            OutputMode::Human
        };
        Output { mode, user_name, table: TableConfig { max_width, truncate: !no_trunc } }
    }

    pub fn auth_status(&self, status: AuthStatus) -> (r: Rendered)
        ensures
            self@.mode == OutputMode::Human ==> shown_lines(r) == Some(
                human::auth_status_text(status),
            ),
            self@.mode == OutputMode::Json ==> (r matches Rendered::AuthStatus(p) && p.logged_in
                == status.logged_in && p.expires_at == status.expires_at),
    {
        match self.mode {
            OutputMode::Human => Rendered::Lines(human::auth_status(&status)),
            OutputMode::Json => Rendered::AuthStatus(json::auth_status_payload(status)),
        }
    }

    pub fn auth_scopes(&self, scopes: AuthScopes) -> (r: Rendered)
        ensures
            self@.mode == OutputMode::Human ==> shown_lines(r) == Some(
                human::auth_scopes_text(scopes),
            ),
            self@.mode == OutputMode::Json ==> (r matches Rendered::AuthScopes(p) && p.required
                == scopes.required && p.granted == scopes.granted && p.missing == scopes.missing),
    {
        match self.mode {
            OutputMode::Human => Rendered::Lines(human::auth_scopes(&scopes)),
            OutputMode::Json => Rendered::AuthScopes(json::auth_scopes_payload(scopes)),
        }
    }

    pub fn player_status(&self, status: PlayerStatus) -> (r: Rendered)
        ensures
            self@.mode == OutputMode::Human ==> shown_lines(r) == Some(
                human::player_status_text(status),
            ),
            self@.mode == OutputMode::Json ==> (r matches Rendered::PlayerStatus(p)
                && json::is_player_status_payload(p, status)),
    {
        match self.mode {
            OutputMode::Human => Rendered::Lines(human::player_status(&status)),
            OutputMode::Json => Rendered::PlayerStatus(json::player_status_payload(status)),
        }
    }

    pub fn now_playing(&self, status: PlayerStatus) -> (r: Rendered)
        ensures
            self@.mode == OutputMode::Human ==> shown_lines(r) == Some(
                human::now_playing_text(status),
            ),
            self@.mode == OutputMode::Json ==> (r matches Rendered::NowPlaying(p) && p.event@
                == "now_playing"@ && json::is_player_status_payload(p.status, status)),
    {
        match self.mode {
            OutputMode::Human => Rendered::Lines(human::now_playing(&status)),
            OutputMode::Json => Rendered::NowPlaying(json::now_playing_payload(status)),
        }
    }

    /// Search results; `scores` holds each hit's score as printed.
    pub fn search_results(&self, results: SearchResults, scores: Vec<String>) -> (r: Rendered)
        requires
            scores@.len() == results.items@.len(),
        ensures
            self@.mode == OutputMode::Human ==> shown_lines(r) == Some(
                table_lines(
                    human::headed(
                        human::search_header(results.kind),
                        human::search_rows(results.kind, results.items@, crate::text::texts(scores@)),
                    ),
                    self@.table,
                ),
            ),
            self@.mode == OutputMode::Json ==> (r matches Rendered::Search(p) && p.kind@
                == human::kind_label(results.kind) && p.items@.len() == results.items@.len()
                && forall|i: int|
                0 <= i < p.items@.len() ==> json::is_item_payload(
                    #[trigger] p.items@[i],
                    results.items@[i],
                    None,
                )),
    {
        match self.mode {
            OutputMode::Human => Rendered::Lines(human::search_results(results, scores, self.table)),
            OutputMode::Json => Rendered::Search(json::search_results_payload(results)),
        }
    }

    /// The queue, the playing track marked.
    pub fn queue(&self, now_playing_id: Option<&str>, items: Vec<Track>) -> (r: Rendered)
        ensures
            self@.mode == OutputMode::Human ==> shown_lines(r) == Some(
                table_lines(
                    human::headed(
                        human::listing_header(),
                        human::queue_rows(items@, str_opt_view(now_playing_id)),
                    ),
                    self@.table,
                ),
            ),
            self@.mode == OutputMode::Json ==> (r matches Rendered::Search(p) && p.kind@ == "track"@
                && p.items@.len() == items@.len() && forall|i: int|
                0 <= i < p.items@.len() ==> json::is_queue_payload(
                    #[trigger] p.items@[i],
                    items@[i],
                    json::str_opt(now_playing_id),
                )),
    {
        match self.mode {
            OutputMode::Human => Rendered::Lines(human::queue(items, now_playing_id, self.table)),
            OutputMode::Json => {
                let hits = json::queue_items(&items);
                let ghost hv = hits@;
                let p = json::search_results_payload_with_now(
                    SearchResults { kind: SearchType::Track, items: hits },
                    now_playing_id,
                );
                assert forall|i: int| 0 <= i < p.items@.len() implies json::is_queue_payload(
                    #[trigger] p.items@[i],
                    items@[i],
                    json::str_opt(now_playing_id),
                ) by {
                    assert(json::is_queue_item(hv[i], items@[i]));
                    assert(json::is_item_payload(p.items@[i], hv[i], json::str_opt(now_playing_id)));
                }
                assert(p.kind@ == "track"@);
                Rendered::Search(p)
            },
        }
    }

    /// Recently played tracks, the playing one marked.
    pub fn recently_played(&self, now_playing_id: Option<&str>, items: Vec<SearchItem>) -> (r: Rendered)
        ensures
            self@.mode == OutputMode::Human ==> shown_lines(r) == Some(
                table_lines(
                    human::headed(
                        human::listing_header(),
                        human::recent_rows(items@, str_opt_view(now_playing_id)),
                    ),
                    self@.table,
                ),
            ),
            self@.mode == OutputMode::Json ==> (r matches Rendered::Search(p) && p.kind@ == "track"@
                && p.items@.len() == items@.len() && forall|i: int|
                0 <= i < p.items@.len() ==> json::is_item_payload(
                    #[trigger] p.items@[i],
                    items@[i],
                    json::str_opt(now_playing_id),
                )),
    {
        match self.mode {
            OutputMode::Human => Rendered::Lines(
                human::recently_played(items, now_playing_id, self.table),
            ),
            OutputMode::Json => Rendered::Search(
                json::search_results_payload_with_now(
                    SearchResults { kind: SearchType::Track, items },
                    now_playing_id,
                ),
            ),
        }
    }

    pub fn cache_status(&self, status: CacheStatus) -> (r: Rendered)
        ensures
            self@.mode == OutputMode::Human ==> shown_lines(r) == Some(
                seq![lists::cache_status_text(status)],
            ),
            self@.mode == OutputMode::Json ==> (r matches Rendered::Cache(p) && p.root == status.root
                && p.device_count == status.device_count && p.playlist_count == status.playlist_count),
    {
        match self.mode {
            OutputMode::Human => Rendered::Lines(lists::status_human(&status)),
            OutputMode::Json => Rendered::Cache(lists::cache_status_payload(status)),
        }
    }

    pub fn action(&self, event: &str, message: &str) -> (r: Rendered)
        ensures
            self@.mode == OutputMode::Human ==> shown_lines(r) == Some(seq![message@]),
            self@.mode == OutputMode::Json ==> (r matches Rendered::Action(p) && p.event@ == event@
                && p.message@ == message@),
    {
        match self.mode {
            OutputMode::Human => Rendered::Lines(human::action(message)),
            OutputMode::Json => Rendered::Action(json::action_payload(event, message)),
        }
    }

    pub fn album_info(&self, album: Album) -> (r: Rendered)
        ensures
            self@.mode == OutputMode::Human ==> shown_lines(r) == Some(
                human::album_info_text(album, self@.table),
            ),
            self@.mode == OutputMode::Json ==> (r matches Rendered::Album(p) && p.id == album.id
                && p.name == album.name && p.uri == album.uri && p.artists == album.artists
                && p.release_date == album.release_date && p.total_tracks == album.total_tracks
                && p.duration_ms == album.duration_ms && p.tracks@.len() == album.tracks@.len()
                && forall|i: int|
                0 <= i < p.tracks@.len() ==> (#[trigger] p.tracks@[i]).name@ == album.tracks@[i].name@
                    && p.tracks@[i].duration_ms == album.tracks@[i].duration_ms
                    && p.tracks@[i].track_number == album.tracks@[i].track_number),
    {
        match self.mode {
            OutputMode::Human => Rendered::Lines(human::album_info(&album, self.table)),
            OutputMode::Json => Rendered::Album(json::album_info_payload(album)),
        }
    }

    pub fn artist_info(&self, artist: Artist) -> (r: Rendered)
        ensures
            self@.mode == OutputMode::Human ==> shown_lines(r) == Some(
                human::artist_info_text(artist),
            ),
            self@.mode == OutputMode::Json ==> (r matches Rendered::Artist(p) && p.id == artist.id
                && p.name == artist.name && p.uri == artist.uri && p.genres == artist.genres
                && p.followers == artist.followers),
    {
        match self.mode {
            OutputMode::Human => Rendered::Lines(human::artist_info(&artist)),
            OutputMode::Json => Rendered::Artist(json::artist_info_payload(artist)),
        }
    }

    pub fn playlist_list(&self, playlists: Vec<Playlist>) -> (r: Rendered)
        ensures
            self@.mode == OutputMode::Human ==> shown_lines(r) == Some(
                table_lines(
                    human::headed(
                        human::playlist_header(),
                        human::playlist_rows(playlists@, self@.user_name),
                    ),
                    self@.table,
                ),
            ),
            self@.mode == OutputMode::Json ==> (r matches Rendered::Playlists(p) && p@.len()
                == playlists@.len() && forall|i: int|
                0 <= i < p@.len() ==> json::is_playlist_payload(#[trigger] p@[i], playlists@[i])),
    {
        match self.mode {
            OutputMode::Human => {
                let u = match &self.user_name {
                    Some(n) => Some(n.as_str()),
                    None => None,
                };
                Rendered::Lines(human::playlist_list(playlists, u, self.table))
            },
            OutputMode::Json => Rendered::Playlists(json::playlist_list_payload(playlists)),
        }
    }

    pub fn playlist_list_with_pins(&self, playlists: Vec<Playlist>, pins: Vec<PinnedPlaylist>) -> (r:
        Rendered)
        ensures
            self@.mode == OutputMode::Human ==> shown_lines(r) == Some(
                table_lines(
                    human::headed(
                        human::playlist_header(),
                        human::playlist_rows(playlists@, self@.user_name) + human::pin_rows(pins@),
                    ),
                    self@.table,
                ),
            ),
            self@.mode == OutputMode::Json ==> (r matches Rendered::PlaylistsWithPins(p)
                && p.playlists@.len() == playlists@.len() && p.pinned@.len() == pins@.len()
                && (forall|i: int|
                0 <= i < p.playlists@.len() ==> json::is_playlist_payload(
                    #[trigger] p.playlists@[i],
                    playlists@[i],
                )) && forall|i: int|
                0 <= i < p.pinned@.len() ==> (#[trigger] p.pinned@[i]).name@ == pins@[i].name@
                    && p.pinned@[i].url@ == pins@[i].url@),
    {
        match self.mode {
            OutputMode::Human => {
                let u = match &self.user_name {
                    Some(n) => Some(n.as_str()),
                    None => None,
                };
                Rendered::Lines(human::playlist_list_with_pins(playlists, pins, u, self.table))
            },
            OutputMode::Json => Rendered::PlaylistsWithPins(
                json::playlist_list_with_pins_payload(playlists, pins),
            ),
        }
    }

    pub fn playlist_info(&self, playlist: PlaylistDetail) -> (r: Rendered)
        ensures
            self@.mode == OutputMode::Human ==> shown_lines(r) == Some(
                human::playlist_info_text(playlist, self@.user_name),
            ),
            self@.mode == OutputMode::Json ==> (r matches Rendered::PlaylistInfo(p) && p.id
                == playlist.id && p.name == playlist.name && p.uri == playlist.uri && p.owner
                == playlist.owner && p.tracks_total == playlist.tracks_total && p.collaborative
                == playlist.collaborative && p.public == playlist.public),
    {
        match self.mode {
            OutputMode::Human => {
                let u = match &self.user_name {
                    Some(n) => Some(n.as_str()),
                    None => None,
                };
                Rendered::Lines(human::playlist_info(&playlist, u))
            },
            OutputMode::Json => Rendered::PlaylistInfo(json::playlist_info_payload(playlist)),
        }
    }

    pub fn device_list(&self, devices: Vec<Device>) -> (r: Rendered)
        ensures
            self@.mode == OutputMode::Human ==> shown_lines(r) == Some(
                table_lines(
                    human::headed(seq!["NAME"@, "VOLUME"@], human::device_rows(devices@)),
                    self@.table,
                ),
            ),
            self@.mode == OutputMode::Json ==> (r matches Rendered::Devices(p) && p@.len()
                == devices@.len() && forall|i: int|
                0 <= i < p@.len() ==> (#[trigger] p@[i]).id@ == devices@[i].id@ && p@[i].name@
                    == devices@[i].name@ && p@[i].volume_percent == devices@[i].volume_percent),
    {
        match self.mode {
            OutputMode::Human => Rendered::Lines(human::device_list(devices, self.table)),
            OutputMode::Json => Rendered::Devices(json::device_list_payload(devices)),
        }
    }

    pub fn settings(&self, settings: Settings) -> (r: Rendered)
        ensures
            self@.mode == OutputMode::Human ==> shown_lines(r) == Some(
                lists::settings_text(settings),
            ),
            self@.mode == OutputMode::Json ==> (r matches Rendered::Settings(p) && p.country
                == settings.country && p.user_name == settings.user_name),
    {
        match self.mode {
            OutputMode::Human => Rendered::Lines(lists::settings_human(&settings)),
            OutputMode::Json => Rendered::Settings(lists::settings_payload(settings)),
        }
    }

    pub fn pin_list(&self, pins: Vec<PinnedPlaylist>) -> (r: Rendered)
        ensures
            self@.mode == OutputMode::Human ==> shown_lines(r) == Some(
                lists::pin_list_text(pins@, self@.table),
            ),
            self@.mode == OutputMode::Json ==> (r matches Rendered::Pins(p) && p@.len() == pins@.len()
                && forall|i: int|
                0 <= i < p@.len() ==> (#[trigger] p@[i]).name@ == pins@[i].name@ && p@[i].url@
                    == pins@[i].url@),
    {
        match self.mode {
            OutputMode::Human => Rendered::Lines(lists::pin_list_human(pins, self.table)),
            OutputMode::Json => Rendered::Pins(json::pin_list_payload(pins)),
        }
    }

    pub fn help(&self) -> (r: Rendered)
        ensures
            self@.mode == OutputMode::Human ==> shown_lines(r) == Some(human::help_text()),
            self@.mode == OutputMode::Json ==> (r matches Rendered::Help(p) && p.usage@
                == "spotify-cli <object> <verb> [target] [flags]"@ && crate::text::texts(
                p.objects@,
            ) == json::help_objects() && crate::text::texts(p.examples@) == json::help_examples()),
    {
        match self.mode {
            OutputMode::Human => Rendered::Lines(human::help()),
            OutputMode::Json => Rendered::Help(json::help_payload()),
        }
    }
}

} // verus!
