//! Tracks, albums, artists, playlists, devices and search results as the
//! commands report them.

use vstd::prelude::*;

verus! {

#[derive(Debug)]
pub struct Track {
    pub id: String,
    pub name: String,
    pub album: Option<String>,
    pub album_id: Option<String>,
    pub artists: Vec<String>,
    pub artist_ids: Vec<String>,
    pub duration_ms: Option<u32>,
}

#[derive(Debug)]
pub struct AlbumTrack {
    pub name: String,
    pub duration_ms: u32,
    pub track_number: u32,
}

#[derive(Debug)]
pub struct Album {
    pub id: String,
    pub name: String,
    pub uri: String,
    pub artists: Vec<String>,
    pub release_date: Option<String>,
    pub total_tracks: Option<u32>,
    pub tracks: Vec<AlbumTrack>,
    pub duration_ms: Option<u64>,
}

#[derive(Debug)]
pub struct Artist {
    pub id: String,
    pub name: String,
    pub uri: String,
    pub genres: Vec<String>,
    pub followers: Option<u64>,
}

#[derive(Debug)]
pub struct Device {
    pub id: String,
    pub name: String,
    pub volume_percent: Option<u32>,
}

#[derive(Debug)]
pub struct PlaybackContext {
    pub kind: String,
    pub uri: String,
}

#[derive(Debug)]
pub struct PlayerStatus {
    pub is_playing: bool,
    pub track: Option<Track>,
    pub device: Option<Device>,
    pub context: Option<PlaybackContext>,
    pub progress_ms: Option<u32>,
    pub repeat_state: Option<String>,
    pub shuffle_state: Option<bool>,
}

#[derive(Debug)]
pub struct Playlist {
    pub id: String,
    pub name: String,
    pub owner: Option<String>,
    pub collaborative: bool,
    pub public: Option<bool>,
}

#[derive(Debug)]
pub struct PlaylistDetail {
    pub id: String,
    pub name: String,
    pub uri: String,
    pub owner: Option<String>,
    pub tracks_total: Option<u32>,
    pub collaborative: bool,
    pub public: Option<bool>,
}

#[derive(Debug)]
pub struct PinnedPlaylist {
    pub name: String,
    pub url: String,
}

#[derive(Debug)]
pub struct CacheStatus {
    pub root: String,
    pub device_count: usize,
    pub playlist_count: usize,
}

#[derive(Debug, Clone, Copy, PartialEq, Eq, Structural)]
pub enum SearchType {
    All,
    Track,
    Album,
    Artist,
    Playlist,
}

/// A search hit. `score` holds the IEEE-754 bits of the fuzzy score.
#[derive(Debug)]
pub struct SearchItem {
    pub id: String,
    pub name: String,
    pub uri: String,
    pub kind: SearchType,
    pub artists: Vec<String>,
    pub album: Option<String>,
    pub duration_ms: Option<u32>,
    pub owner: Option<String>,
    pub score: Option<u32>,
}

#[derive(Debug)]
pub struct SearchResults {
    pub kind: SearchType,
    pub items: Vec<SearchItem>,
}

} // verus!
