//! Machine-readable output: the payload each command serializes.

use vstd::prelude::*;
use crate::domain::auth::{AuthScopes, AuthStatus};
use crate::domain::media::{Album, Artist, Device, PinnedPlaylist, PlaybackContext, PlayerStatus,
    Playlist, PlaylistDetail, SearchItem, SearchResults, SearchType, Track};
use crate::output::human::kind_label;
use crate::rpc::dispatch::{opt_view, strings_view};
use crate::spotify::auth::{clone_opt_string, clone_strings};
use crate::text::{owned, push_str, texts};

verus! {

pub struct AuthStatusPayload {
    pub logged_in: bool,
    pub expires_at: Option<u64>,
}

pub fn auth_status_payload(status: AuthStatus) -> (p: AuthStatusPayload)
    ensures
        p.logged_in == status.logged_in,
        p.expires_at == status.expires_at,
{
    AuthStatusPayload { logged_in: status.logged_in, expires_at: status.expires_at }
}

pub struct AuthScopesPayload {
    pub required: Vec<String>,
    pub granted: Option<Vec<String>>,
    pub missing: Vec<String>,
}

pub fn auth_scopes_payload(scopes: AuthScopes) -> (p: AuthScopesPayload)
    ensures
        p.required == scopes.required,
        p.granted == scopes.granted,
        p.missing == scopes.missing,
{
    AuthScopesPayload { required: scopes.required, granted: scopes.granted, missing: scopes.missing }
}

pub struct TrackPayload {
    pub id: String,
    pub name: String,
    pub artists: Vec<String>,
    pub album: Option<String>,
    pub album_id: Option<String>,
    pub duration_ms: Option<u32>,
}

pub struct DevicePayload {
    pub id: String,
    pub name: String,
    pub volume_percent: Option<u32>,
}

pub struct PlaybackContextPayload {
    pub kind: String,
    pub uri: String,
}

pub struct PlayerStatusPayload {
    pub is_playing: bool,
    pub track: Option<TrackPayload>,
    pub device: Option<DevicePayload>,
    pub context: Option<PlaybackContextPayload>,
    pub progress_ms: Option<u32>,
    pub repeat_state: Option<String>,
    pub shuffle_state: Option<bool>,
}

/// The payload carries the track's fields unchanged.
pub open spec fn is_track_payload(p: TrackPayload, t: Track) -> bool {
    &&& p.id == t.id
    &&& p.name == t.name
    &&& p.artists == t.artists
    &&& p.album == t.album
    &&& p.album_id == t.album_id
    &&& p.duration_ms == t.duration_ms
}

pub open spec fn is_device_payload(p: DevicePayload, d: Device) -> bool {
    p.id == d.id && p.name == d.name && p.volume_percent == d.volume_percent
}

/// The payload carries the status's fields unchanged.
pub open spec fn is_player_status_payload(p: PlayerStatusPayload, s: PlayerStatus) -> bool {
    &&& p.is_playing == s.is_playing
    &&& match (p.track, s.track) {
        (Some(pt), Some(t)) => is_track_payload(pt, t),
        (None, None) => true,
        _ => false,
    }
    &&& match (p.device, s.device) {
        (Some(pd), Some(d)) => is_device_payload(pd, d),
        (None, None) => true,
        _ => false,
    }
    &&& match (p.context, s.context) {
        (Some(pc), Some(c)) => pc.kind == c.kind && pc.uri == c.uri,
        (None, None) => true,
        _ => false,
    }
    &&& p.progress_ms == s.progress_ms
    &&& p.repeat_state == s.repeat_state
    &&& p.shuffle_state == s.shuffle_state
}

pub fn track_payload(track: Track) -> (p: TrackPayload)
    ensures
        is_track_payload(p, track),
{
    TrackPayload {
        id: track.id,
        name: track.name,
        artists: track.artists,
        album: track.album,
        album_id: track.album_id,
        duration_ms: track.duration_ms,
    }
}

pub fn device_payload(device: Device) -> (p: DevicePayload)
    ensures
        is_device_payload(p, device),
{
    DevicePayload { id: device.id, name: device.name, volume_percent: device.volume_percent }
}

pub fn player_status_payload(status: PlayerStatus) -> (p: PlayerStatusPayload)
    ensures
        is_player_status_payload(p, status),
{
    let track = match status.track {
        Some(t) => Some(track_payload(t)),
        None => None,
    };
    let device = match status.device {
        Some(d) => Some(device_payload(d)),
        None => None,
    };
    let context = match status.context {
        Some(c) => Some(PlaybackContextPayload { kind: c.kind, uri: c.uri }),
        None => None,
    };
    PlayerStatusPayload {
        is_playing: status.is_playing,
        track,
        device,
        context,
        progress_ms: status.progress_ms,
        repeat_state: status.repeat_state,
        shuffle_state: status.shuffle_state,
    }
}

pub struct NowPlayingPayload {
    pub event: String,
    pub status: PlayerStatusPayload,
}

pub fn now_playing_payload(status: PlayerStatus) -> (p: NowPlayingPayload)
    ensures
        p.event@ == "now_playing"@,
        is_player_status_payload(p.status, status),
{
    NowPlayingPayload { event: owned("now_playing"), status: player_status_payload(status) }
}

pub struct ActionPayload {
    pub event: String,
    pub message: String,
}

pub fn action_payload(event: &str, message: &str) -> (p: ActionPayload)
    ensures
        p.event@ == event@,
        p.message@ == message@,
{
    ActionPayload { event: owned(event), message: owned(message) }
}

pub struct AlbumTrackPayload {
    pub name: String,
    pub duration_ms: u32,
    pub track_number: u32,
}

pub struct AlbumPayload {
    pub id: String,
    pub name: String,
    pub uri: String,
    pub artists: Vec<String>,
    pub release_date: Option<String>,
    pub total_tracks: Option<u32>,
    pub duration_ms: Option<u64>,
    pub tracks: Vec<AlbumTrackPayload>,
}

pub fn album_info_payload(album: Album) -> (p: AlbumPayload)
    ensures
        p.id == album.id,
        p.name == album.name,
        p.uri == album.uri,
        p.artists == album.artists,
        p.release_date == album.release_date,
        p.total_tracks == album.total_tracks,
        p.duration_ms == album.duration_ms,
        p.tracks@.len() == album.tracks@.len(),
        forall|i: int|
            0 <= i < p.tracks@.len() ==> {
                let pt = #[trigger] p.tracks@[i];
                let t = album.tracks@[i];
                pt.name@ == t.name@ && pt.duration_ms == t.duration_ms && pt.track_number == t.track_number
            },
{
    let ghost src = album.tracks@;
    let rest = album.tracks;
    let mut i: usize = 0;
    let n = rest.len();
    let mut out: Vec<AlbumTrackPayload> = Vec::new();
    while i < n
        invariant
            n == src.len(),
            i <= n,
            rest@ == src,
            out@.len() == i,
            forall|k: int|
                0 <= k < i ==> {
                    let pt = #[trigger] out@[k];
                    let t = src[k];
                    pt.name@ == t.name@ && pt.duration_ms == t.duration_ms && pt.track_number
                        == t.track_number
                },
        decreases n - i,
    {
        let t = &rest[i];
        out.push(
            AlbumTrackPayload {
                name: owned(t.name.as_str()),
                duration_ms: t.duration_ms,
                track_number: t.track_number,
            },
        );
        i = i + 1;
    }
    AlbumPayload {
        id: album.id,
        name: album.name,
        uri: album.uri,
        artists: album.artists,
        release_date: album.release_date,
        total_tracks: album.total_tracks,
        duration_ms: album.duration_ms,
        tracks: out,
    }
}

pub struct ArtistPayload {
    pub id: String,
    pub name: String,
    pub uri: String,
    pub genres: Vec<String>,
    pub followers: Option<u64>,
}

pub fn artist_info_payload(artist: Artist) -> (p: ArtistPayload)
    ensures
        p.id == artist.id,
        p.name == artist.name,
        p.uri == artist.uri,
        p.genres == artist.genres,
        p.followers == artist.followers,
{
    ArtistPayload {
        id: artist.id,
        name: artist.name,
        uri: artist.uri,
        genres: artist.genres,
        followers: artist.followers,
    }
}

pub struct PlaylistPayload {
    pub id: String,
    pub name: String,
    pub owner: Option<String>,
    pub collaborative: bool,
    pub public: Option<bool>,
}

/// The payload shows the playlist's fields.
pub open spec fn is_playlist_payload(p: PlaylistPayload, pl: Playlist) -> bool {
    &&& p.id@ == pl.id@
    &&& p.name@ == pl.name@
    &&& opt_view(p.owner) == opt_view(pl.owner)
    &&& p.collaborative == pl.collaborative
    &&& p.public == pl.public
}

fn playlist_payload_of(pl: &Playlist) -> (p: PlaylistPayload)
    ensures
        is_playlist_payload(p, *pl),
{
    PlaylistPayload {
        id: owned(pl.id.as_str()),
        name: owned(pl.name.as_str()),
        owner: clone_opt_string(&pl.owner),
        collaborative: pl.collaborative,
        public: pl.public,
    }
}

pub fn playlist_list_payload(playlists: Vec<Playlist>) -> (p: Vec<PlaylistPayload>)
    ensures
        p@.len() == playlists@.len(),
        forall|i: int| 0 <= i < p@.len() ==> is_playlist_payload(#[trigger] p@[i], playlists@[i]),
{
    let mut out: Vec<PlaylistPayload> = Vec::new();
    let mut i: usize = 0;
    while i < playlists.len()
        invariant
            i <= playlists@.len(),
            out@.len() == i,
            forall|k: int| 0 <= k < i ==> is_playlist_payload(#[trigger] out@[k], playlists@[k]),
        decreases playlists.len() - i,
    {
        out.push(playlist_payload_of(&playlists[i]));
        i = i + 1;
    }
    out
}

pub struct PinPayload {
    pub name: String,
    pub url: String,
}

pub fn pin_list_payload(pins: Vec<PinnedPlaylist>) -> (p: Vec<PinPayload>)
    ensures
        p@.len() == pins@.len(),
        forall|i: int|
            0 <= i < p@.len() ==> (#[trigger] p@[i]).name@ == pins@[i].name@ && p@[i].url@
                == pins@[i].url@,
{
    let mut out: Vec<PinPayload> = Vec::new();
    let mut i: usize = 0;
    while i < pins.len()
        invariant
            i <= pins@.len(),
            out@.len() == i,
            forall|k: int|
                0 <= k < i ==> (#[trigger] out@[k]).name@ == pins@[k].name@ && out@[k].url@
                    == pins@[k].url@,
        decreases pins.len() - i,
    {
        out.push(PinPayload { name: owned(pins[i].name.as_str()), url: owned(pins[i].url.as_str()) });
        i = i + 1;
    }
    out
}

pub struct PlaylistListPayload {
    pub playlists: Vec<PlaylistPayload>,
    pub pinned: Vec<PinPayload>,
}

pub fn playlist_list_with_pins_payload(playlists: Vec<Playlist>, pins: Vec<PinnedPlaylist>) -> (p:
    PlaylistListPayload)
    ensures
        p.playlists@.len() == playlists@.len(),
        forall|i: int|
            0 <= i < p.playlists@.len() ==> is_playlist_payload(#[trigger] p.playlists@[i], playlists@[i]),
        p.pinned@.len() == pins@.len(),
        forall|i: int|
            0 <= i < p.pinned@.len() ==> (#[trigger] p.pinned@[i]).name@ == pins@[i].name@
                && p.pinned@[i].url@ == pins@[i].url@,
{
    PlaylistListPayload { playlists: playlist_list_payload(playlists), pinned: pin_list_payload(pins) }
}

pub struct HelpPayload {
    pub usage: String,
    pub objects: Vec<String>,
    pub examples: Vec<String>,
}

pub open spec fn help_objects() -> Seq<Seq<char>> {
    seq![
        "auth"@,
        "device"@,
        "info"@,
        "search"@,
        "nowplaying"@,
        "player"@,
        "playlist"@,
        "pin"@,
        "sync"@,
        "queue"@,
        "recentlyplayed"@,
    ]
}

pub open spec fn help_examples() -> Seq<Seq<char>> {
    seq![
        "spotify-cli auth status"@,
        "spotify-cli search track \"boards of canada\" --play"@,
        "spotify-cli search \"boards of canada\""@,
        "spotify-cli info album \"geogaddi\""@,
        "spotify-cli nowplaying"@,
        "spotify-cli nowplaying like"@,
        "spotify-cli playlist list"@,
        "spotify-cli nowplaying addto \"MyRadar\""@,
        "spotify-cli pin add \"Release Radar\" \"<url>\""@,
    ]
}

pub fn help_payload() -> (p: HelpPayload)
    ensures
        p.usage@ == "spotify-cli <object> <verb> [target] [flags]"@,
        texts(p.objects@) == help_objects(),
        texts(p.examples@) == help_examples(),
{
    let mut objects: Vec<String> = Vec::new();
    objects.push(owned("auth"));
    objects.push(owned("device"));
    objects.push(owned("info"));
    objects.push(owned("search"));
    objects.push(owned("nowplaying"));
    objects.push(owned("player"));
    objects.push(owned("playlist"));
    objects.push(owned("pin"));
    objects.push(owned("sync"));
    objects.push(owned("queue"));
    objects.push(owned("recentlyplayed"));
    let mut examples: Vec<String> = Vec::new();
    examples.push(owned("spotify-cli auth status"));
    examples.push(owned("spotify-cli search track \"boards of canada\" --play"));
    examples.push(owned("spotify-cli search \"boards of canada\""));
    examples.push(owned("spotify-cli info album \"geogaddi\""));
    examples.push(owned("spotify-cli nowplaying"));
    examples.push(owned("spotify-cli nowplaying like"));
    examples.push(owned("spotify-cli playlist list"));
    examples.push(owned("spotify-cli nowplaying addto \"MyRadar\""));
    examples.push(owned("spotify-cli pin add \"Release Radar\" \"<url>\""));
    assert(texts(objects@) =~= help_objects());
    assert(texts(examples@) =~= help_examples());
    HelpPayload { usage: owned("spotify-cli <object> <verb> [target] [flags]"), objects, examples }
}

pub struct PlaylistDetailPayload {
    pub id: String,
    pub name: String,
    pub uri: String,
    pub owner: Option<String>,
    pub tracks_total: Option<u32>,
    pub collaborative: bool,
    pub public: Option<bool>,
}

pub fn playlist_info_payload(playlist: PlaylistDetail) -> (p: PlaylistDetailPayload)
    ensures
        p.id == playlist.id,
        p.name == playlist.name,
        p.uri == playlist.uri,
        p.owner == playlist.owner,
        p.tracks_total == playlist.tracks_total,
        p.collaborative == playlist.collaborative,
        p.public == playlist.public,
{
    PlaylistDetailPayload {
        id: playlist.id,
        name: playlist.name,
        uri: playlist.uri,
        owner: playlist.owner,
        tracks_total: playlist.tracks_total,
        collaborative: playlist.collaborative,
        public: playlist.public,
    }
}

pub fn device_list_payload(devices: Vec<Device>) -> (p: Vec<DevicePayload>)
    ensures
        p@.len() == devices@.len(),
        forall|i: int|
            0 <= i < p@.len() ==> (#[trigger] p@[i]).id@ == devices@[i].id@ && p@[i].name@
                == devices@[i].name@ && p@[i].volume_percent == devices@[i].volume_percent,
{
    let mut out: Vec<DevicePayload> = Vec::new();
    let mut i: usize = 0;
    while i < devices.len()
        invariant
            i <= devices@.len(),
            out@.len() == i,
            forall|k: int|
                0 <= k < i ==> (#[trigger] out@[k]).id@ == devices@[k].id@ && out@[k].name@
                    == devices@[k].name@ && out@[k].volume_percent == devices@[k].volume_percent,
        decreases devices.len() - i,
    {
        let d = &devices[i];
        out.push(
            DevicePayload {
                id: owned(d.id.as_str()),
                name: owned(d.name.as_str()),
                volume_percent: d.volume_percent,
            },
        );
        i = i + 1;
    }
    out
}

/// A search hit as serialized; `score` holds the IEEE-754 bits of the
/// score and `now_playing` is only present (and true) for the playing item.
pub struct SearchItemPayload {
    pub id: String,
    pub name: String,
    pub uri: String,
    pub kind: String,
    pub artists: Vec<String>,
    pub album: Option<String>,
    pub duration_ms: Option<u32>,
    pub owner: Option<String>,
    pub score: Option<u32>,
    pub now_playing: Option<bool>,
}

pub struct SearchResultsPayload {
    pub kind: String,
    pub items: Vec<SearchItemPayload>,
}

/// The payload shows the hit, marked playing when its id is `now`.
pub open spec fn is_item_payload(p: SearchItemPayload, item: SearchItem, now: Option<Seq<char>>) -> bool {
    &&& p.id@ == item.id@
    &&& p.name@ == item.name@
    &&& p.uri@ == item.uri@
    &&& p.kind@ == kind_label(item.kind)
    &&& strings_view(p.artists) == strings_view(item.artists)
    &&& opt_view(p.album) == opt_view(item.album)
    &&& p.duration_ms == item.duration_ms
    &&& opt_view(p.owner) == opt_view(item.owner)
    &&& p.score == item.score
    &&& p.now_playing == if now == Some(item.id@) {
        Some(true)
    } else {
        None
    }
}

pub open spec fn str_opt(o: Option<&str>) -> Option<Seq<char>> {
    match o {
        Some(s) => Some(s@),
        None => None,
    }
}

fn item_payload(item: &SearchItem, now_playing_id: Option<&str>) -> (p: SearchItemPayload)
    ensures
        is_item_payload(p, *item, str_opt(now_playing_id)),
{
    let playing = match now_playing_id {
        Some(id) => owned(id) == item.id,
        None => false,
    };
    SearchItemPayload {
        id: owned(item.id.as_str()),
        name: owned(item.name.as_str()),
        uri: owned(item.uri.as_str()),
        kind: crate::output::human::format_search_kind(item.kind),
        artists: clone_strings(&item.artists),
        album: clone_opt_string(&item.album),
        duration_ms: item.duration_ms,
        owner: clone_opt_string(&item.owner),
        score: item.score,
        now_playing: if playing {
            Some(true)
        } else {
            None
        },
    }
}

/// Search results, each hit marked when it is the one playing now.
pub fn search_results_payload_with_now(results: SearchResults, now_playing_id: Option<&str>) -> (p:
    SearchResultsPayload)
    ensures
        p.kind@ == kind_label(results.kind),
        p.items@.len() == results.items@.len(),
        forall|i: int|
            0 <= i < p.items@.len() ==> is_item_payload(
                #[trigger] p.items@[i],
                results.items@[i],
                str_opt(now_playing_id),
            ),
{
    let mut out: Vec<SearchItemPayload> = Vec::new();
    let mut i: usize = 0;
    while i < results.items.len()
        invariant
            i <= results.items@.len(),
            out@.len() == i,
            forall|k: int|
                0 <= k < i ==> is_item_payload(
                    #[trigger] out@[k],
                    results.items@[k],
                    str_opt(now_playing_id),
                ),
        decreases results.items.len() - i,
    {
        out.push(item_payload(&results.items[i], now_playing_id));
        i = i + 1;
    }
    SearchResultsPayload { kind: crate::output::human::format_search_kind(results.kind), items: out }
}

/// Search results as serialized (nothing marked playing).
pub fn search_results_payload(results: SearchResults) -> (p: SearchResultsPayload)
    ensures
        p.kind@ == kind_label(results.kind),
        p.items@.len() == results.items@.len(),
        forall|i: int|
            0 <= i < p.items@.len() ==> is_item_payload(#[trigger] p.items@[i], results.items@[i], None),
{
    search_results_payload_with_now(results, None)
}

/// A queued track as a search hit: a track with its `spotify:track:` URI.
pub open spec fn is_queue_item(item: SearchItem, t: Track) -> bool {
    &&& item.id@ == t.id@
    &&& item.name@ == t.name@
    &&& item.uri@ == "spotify:track:"@ + t.id@
    &&& item.kind == SearchType::Track
    &&& strings_view(item.artists) == strings_view(t.artists)
    &&& opt_view(item.album) == opt_view(t.album)
    &&& item.duration_ms == t.duration_ms
    &&& item.owner is None
    &&& item.score is None
}

/// A queued track as serialized, marked when it is the one playing now.
pub open spec fn is_queue_payload(p: SearchItemPayload, t: Track, now: Option<Seq<char>>) -> bool {
    &&& p.id@ == t.id@
    &&& p.name@ == t.name@
    &&& p.uri@ == "spotify:track:"@ + t.id@
    &&& p.kind@ == "track"@
    &&& strings_view(p.artists) == strings_view(t.artists)
    &&& opt_view(p.album) == opt_view(t.album)
    &&& p.duration_ms == t.duration_ms
    &&& p.owner is None
    &&& p.score is None
    &&& p.now_playing == if now == Some(t.id@) {
        Some(true)
    } else {
        None
    }
}

/// The queued tracks as search hits.
pub fn queue_items(tracks: &Vec<Track>) -> (items: Vec<SearchItem>)
    ensures
        items@.len() == tracks@.len(),
        forall|i: int| 0 <= i < items@.len() ==> is_queue_item(#[trigger] items@[i], tracks@[i]),
{
    let mut out: Vec<SearchItem> = Vec::new();
    let mut i: usize = 0;
    while i < tracks.len()
        invariant
            i <= tracks@.len(),
            out@.len() == i,
            forall|k: int| 0 <= k < i ==> is_queue_item(#[trigger] out@[k], tracks@[k]),
        decreases tracks.len() - i,
    {
        let t = &tracks[i];
        let mut uri = owned("spotify:track:");
        push_str(&mut uri, t.id.as_str());
        out.push(
            SearchItem {
                id: owned(t.id.as_str()),
                name: owned(t.name.as_str()),
                uri,
                kind: SearchType::Track,
                artists: clone_strings(&t.artists),
                album: clone_opt_string(&t.album),
                duration_ms: t.duration_ms,
                owner: None,
                score: None,
            },
        );
        i = i + 1;
    }
    out
}

} // verus!
