//! Album records.

use vstd::prelude::*;
use vstd::string::*;
use vstd::utf8::*;
use crate::text::{byte_prefix, owned};
use crate::types::artist::{ArtistSimplified, first_artist_name, first_artist_of};
use crate::types::common::{Copyright, ExternalIds, ExternalUrls, Image, Paginated, Restrictions,
    image_url_of, first_image_url, str_view};
use crate::types::track::TrackSimplified;

verus! {

/// Kind of release.
#[derive(Debug, Clone, Copy, PartialEq, Eq, Structural)]
pub enum AlbumType {
    Album,
    Single,
    Compilation,
}

impl AlbumType {
    /// The kind named by the API's lower-case word, if any.
    pub fn from_api_name(s: &str) -> (r: Option<AlbumType>)
        ensures
            r == (if s@ == "album"@ {
                Some(AlbumType::Album)
            } else if s@ == "single"@ {
                Some(AlbumType::Single)
            } else if s@ == "compilation"@ {
                Some(AlbumType::Compilation)
            } else {
                None
            }),
    {
        let t = owned(s);
        if t == owned("album") {
            Some(AlbumType::Album)
        } else if t == owned("single") {
            Some(AlbumType::Single)
        } else if t == owned("compilation") {
            Some(AlbumType::Compilation)
        } else {
            None
        }
    }
}

/// An album as nested in tracks and listings.
#[derive(Debug, Clone)]
pub struct AlbumSimplified {
    pub album_type: Option<String>,
    pub total_tracks: Option<u32>,
    pub available_markets: Option<Vec<String>>,
    pub external_urls: Option<ExternalUrls>,
    pub href: Option<String>,
    pub id: String,
    pub images: Option<Vec<Image>>,
    pub name: String,
    pub release_date: Option<String>,
    pub release_date_precision: Option<String>,
    pub restrictions: Option<Restrictions>,
    pub item_type: String,
    pub uri: String,
    pub artists: Option<Vec<ArtistSimplified>>,
}

/// A full album record.
#[derive(Debug, Clone)]
pub struct Album {
    pub album_type: Option<String>,
    pub total_tracks: Option<u32>,
    pub available_markets: Option<Vec<String>>,
    pub external_urls: Option<ExternalUrls>,
    pub href: Option<String>,
    pub id: String,
    pub images: Option<Vec<Image>>,
    pub name: String,
    pub release_date: Option<String>,
    pub release_date_precision: Option<String>,
    pub restrictions: Option<Restrictions>,
    pub item_type: String,
    pub uri: String,
    pub artists: Option<Vec<ArtistSimplified>>,
    pub tracks: Option<Paginated<TrackSimplified>>,
    pub copyrights: Option<Vec<Copyright>>,
    pub external_ids: Option<ExternalIds>,
    pub genres: Option<Vec<String>>,
    pub label: Option<String>,
    pub popularity: Option<u32>,
}

impl Album {
    /// The first (largest) cover's URL.
    pub fn image_url(&self) -> (r: Option<&str>)
        ensures
            str_view(r) == first_image_url(self.images),
    {
        image_url_of(&self.images)
    }

    /// The primary artist's name.
    pub fn artist_name(&self) -> (r: Option<&str>)
        ensures
            str_view(r) == first_artist_name(self.artists),
    {
        first_artist_of(&self.artists)
    }

    /// The first four bytes of the release date (its year).
    pub fn release_year(&self) -> (r: Option<&str>)
        requires
            self.release_date matches Some(d) ==> is_char_boundary(encode_utf8(d@), 4),
        ensures
            match self.release_date {
                None => r is None,
                Some(d) => r matches Some(y) && encode_utf8(y@) == encode_utf8(d@).take(4),
            },
    {
        match &self.release_date {
            Some(d) => Some(byte_prefix(d.as_str(), 4)),
            None => None,
        }
    }
}

impl AlbumSimplified {
    /// The first (largest) cover's URL.
    pub fn image_url(&self) -> (r: Option<&str>)
        ensures
            str_view(r) == first_image_url(self.images),
    {
        image_url_of(&self.images)
    }

    /// The primary artist's name.
    pub fn artist_name(&self) -> (r: Option<&str>)
        ensures
            str_view(r) == first_artist_name(self.artists),
    {
        first_artist_of(&self.artists)
    }
}

/// An album in the user's library.
#[derive(Debug, Clone)]
pub struct SavedAlbum {
    pub added_at: String,
    pub album: Album,
}

} // verus!
