//! User profiles and top lists.

use vstd::prelude::*;
use crate::text::owned;
use crate::types::artist::Artist;
use crate::types::common::{ExternalUrls, Followers, Image, image_url_of, first_image_url, str_view};
use crate::types::track::Track;

verus! {

/// Another user's public profile.
#[derive(Debug, Clone)]
pub struct UserPublic {
    pub display_name: Option<String>,
    pub external_urls: Option<ExternalUrls>,
    pub followers: Option<Followers>,
    pub href: Option<String>,
    pub id: String,
    pub images: Option<Vec<Image>>,
    pub item_type: String,
    pub uri: String,
}

/// The signed-in user's own profile.
#[derive(Debug, Clone)]
pub struct UserPrivate {
    pub country: Option<String>,
    pub display_name: Option<String>,
    pub email: Option<String>,
    pub explicit_content: Option<ExplicitContent>,
    pub external_urls: Option<ExternalUrls>,
    pub followers: Option<Followers>,
    pub href: Option<String>,
    pub id: String,
    pub images: Option<Vec<Image>>,
    pub product: Option<String>,
    pub item_type: String,
    pub uri: String,
}

#[derive(Debug, Clone)]
pub struct ExplicitContent {
    pub filter_enabled: Option<bool>,
    pub filter_locked: Option<bool>,
}

impl UserPrivate {
    /// Whether the subscription is Premium.
    pub fn is_premium(&self) -> (b: bool)
        ensures
            b == (self.product matches Some(p) && p@ == "premium"@),
    {
        match &self.product {
            Some(p) => *p == owned("premium"),
            None => false,
        }
    }

    /// The first profile image's URL.
    pub fn image_url(&self) -> (r: Option<&str>)
        ensures
            str_view(r) == first_image_url(self.images),
    {
        image_url_of(&self.images)
    }
}

impl UserPublic {
    /// The first profile image's URL.
    pub fn image_url(&self) -> (r: Option<&str>)
        ensures
            str_view(r) == first_image_url(self.images),
    {
        image_url_of(&self.images)
    }
}

#[derive(Debug, Clone)]
pub struct TopTracksResponse {
    pub href: Option<String>,
    pub limit: Option<u32>,
    pub next: Option<String>,
    pub offset: Option<u32>,
    pub previous: Option<String>,
    pub total: Option<u32>,
    pub items: Vec<Track>,
}

#[derive(Debug, Clone)]
pub struct TopArtistsResponse {
    pub href: Option<String>,
    pub limit: Option<u32>,
    pub next: Option<String>,
    pub offset: Option<u32>,
    pub previous: Option<String>,
    pub total: Option<u32>,
    pub items: Vec<Artist>,
}

} // verus!
