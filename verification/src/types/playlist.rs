//! Playlist records.

use vstd::prelude::*;
use crate::types::common::{ExternalUrls, Followers, Image, Paginated, image_url_of, first_image_url, str_view};
use crate::types::track::Track;
use crate::types::user::UserPublic;

verus! {

/// A playlist as listed.
#[derive(Debug, Clone)]
pub struct PlaylistSimplified {
    pub collaborative: Option<bool>,
    pub description: Option<String>,
    pub external_urls: Option<ExternalUrls>,
    pub href: Option<String>,
    pub id: String,
    pub images: Option<Vec<Image>>,
    pub name: String,
    pub owner: Option<UserPublic>,
    pub public: Option<bool>,
    pub snapshot_id: Option<String>,
    pub tracks: Option<PlaylistTracksRef>,
    pub item_type: String,
    pub uri: String,
}

/// Where a listed playlist's tracks are, and how many there are.
#[derive(Debug, Clone)]
pub struct PlaylistTracksRef {
    pub href: Option<String>,
    pub total: u32,
}

/// A full playlist record.
#[derive(Debug, Clone)]
pub struct Playlist {
    pub collaborative: Option<bool>,
    pub description: Option<String>,
    pub external_urls: Option<ExternalUrls>,
    pub followers: Option<Followers>,
    pub href: Option<String>,
    pub id: String,
    pub images: Option<Vec<Image>>,
    pub name: String,
    pub owner: Option<UserPublic>,
    pub public: Option<bool>,
    pub snapshot_id: Option<String>,
    pub tracks: Option<Paginated<PlaylistTrack>>,
    pub item_type: String,
    pub uri: String,
}

/// A track entry of a playlist.
#[derive(Debug, Clone)]
pub struct PlaylistTrack {
    pub added_at: Option<String>,
    pub added_by: Option<UserPublic>,
    pub is_local: Option<bool>,
    pub track: Option<Track>,
}

impl Playlist {
    /// The first (largest) image's URL.
    pub fn image_url(&self) -> (r: Option<&str>)
        ensures
            str_view(r) == first_image_url(self.images),
    {
        image_url_of(&self.images)
    }

    /// The owner's display name, else the owner's id.
    pub fn owner_name(&self) -> (r: Option<&str>)
        ensures
            str_view(r) == match self.owner {
                Some(o) => match o.display_name {
                    Some(n) => Some(n@),
                    None => Some(o.id@),
                },
                None => None,
            },
    {
        match &self.owner {
            Some(o) => match &o.display_name {
                Some(n) => Some(n.as_str()),
                None => Some(o.id.as_str()),
            },
            None => None,
        }
    }

    /// The playlist's total track count (0 when unknown).
    pub fn track_count(&self) -> (n: u32)
        ensures
            n == match self.tracks {
                Some(t) => t.total,
                None => 0,
            },
    {
        match &self.tracks {
            Some(t) => t.total,
            None => 0,
        }
    }
}

impl PlaylistSimplified {
    /// The first (largest) image's URL.
    pub fn image_url(&self) -> (r: Option<&str>)
        ensures
            str_view(r) == first_image_url(self.images),
    {
        image_url_of(&self.images)
    }

    /// The playlist's total track count (0 when unknown).
    pub fn track_count(&self) -> (n: u32)
        ensures
            n == match self.tracks {
                Some(t) => t.total,
                None => 0,
            },
    {
        match &self.tracks {
            Some(t) => t.total,
            None => 0,
        }
    }
}

#[derive(Debug, Clone)]
pub struct FeaturedPlaylists {
    pub message: Option<String>,
    pub playlists: Paginated<PlaylistSimplified>,
}

#[derive(Debug, Clone)]
pub struct CategoryPlaylists {
    pub playlists: Paginated<PlaylistSimplified>,
}

} // verus!
