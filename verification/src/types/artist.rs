//! Artist records.

use vstd::prelude::*;
use crate::types::common::{Cursors, ExternalUrls, Followers, Image, image_url_of, first_image_url, str_view};
use crate::types::track::Track;

verus! {

/// An artist as nested in tracks and albums.
#[derive(Debug, Clone)]
pub struct ArtistSimplified {
    pub external_urls: Option<ExternalUrls>,
    pub href: Option<String>,
    pub id: String,
    pub name: String,
    pub item_type: String,
    pub uri: String,
}

/// A full artist record.
#[derive(Debug, Clone)]
pub struct Artist {
    pub external_urls: Option<ExternalUrls>,
    pub followers: Option<Followers>,
    pub genres: Option<Vec<String>>,
    pub href: Option<String>,
    pub id: String,
    pub images: Option<Vec<Image>>,
    pub name: String,
    pub popularity: Option<u32>,
    pub item_type: String,
    pub uri: String,
}

impl Artist {
    /// The first (largest) image's URL.
    pub fn image_url(&self) -> (r: Option<&str>)
        ensures
            str_view(r) == first_image_url(self.images),
    {
        image_url_of(&self.images)
    }
}

#[derive(Debug, Clone)]
pub struct ArtistTopTracksResponse {
    pub tracks: Vec<Track>,
}

#[derive(Debug, Clone)]
pub struct RelatedArtistsResponse {
    pub artists: Vec<Artist>,
}

#[derive(Debug, Clone)]
pub struct FollowedArtistsResponse {
    pub artists: FollowedArtistsCursored,
}

/// A cursor-paginated page of followed artists.
#[derive(Debug, Clone)]
pub struct FollowedArtistsCursored {
    pub href: Option<String>,
    pub limit: Option<u32>,
    pub next: Option<String>,
    pub cursors: Option<Cursors>,
    pub total: Option<u32>,
    pub items: Vec<Artist>,
}

/// The name of the first artist of a listing.
pub open spec fn first_artist_name(artists: Option<Vec<ArtistSimplified>>) -> Option<Seq<char>> {
    match artists {
        Some(v) => if v@.len() > 0 {
            Some(v@[0].name@)
        } else {
            None
        },
        None => None,
    }
}

/// The name of the first artist of a listing.
pub fn first_artist_of(artists: &Option<Vec<ArtistSimplified>>) -> (r: Option<&str>)
    ensures
        str_view(r) == first_artist_name(*artists),
{
    match artists {
        Some(v) => if v.len() > 0 {
            Some(v[0].name.as_str())
        } else {
            None
        },
        None => None,
    }
}

} // verus!
