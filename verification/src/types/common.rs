//! Records shared by several response types.

use vstd::prelude::*;

verus! {

/// A cover or profile image.
#[derive(Debug, Clone)]
pub struct Image {
    pub url: String,
    pub width: Option<u32>,
    pub height: Option<u32>,
}

#[derive(Debug, Clone)]
pub struct ExternalUrls {
    pub spotify: Option<String>,
}

#[derive(Debug, Clone)]
pub struct ExternalIds {
    pub isrc: Option<String>,
    pub ean: Option<String>,
    pub upc: Option<String>,
}

#[derive(Debug, Clone)]
pub struct Followers {
    pub href: Option<String>,
    pub total: u32,
}

#[derive(Debug, Clone)]
pub struct Copyright {
    pub text: String,
    pub copyright_type: String,
}

#[derive(Debug, Clone)]
pub struct Restrictions {
    pub reason: String,
}

/// One page of an offset-paginated listing.
#[derive(Debug, Clone)]
pub struct Paginated<T> {
    pub href: String,
    pub limit: u32,
    pub next: Option<String>,
    pub offset: u32,
    pub previous: Option<String>,
    pub total: u32,
    pub items: Vec<T>,
}

/// One page of a cursor-paginated listing.
#[derive(Debug, Clone)]
pub struct Cursored<T> {
    pub href: String,
    pub limit: u32,
    pub next: Option<String>,
    pub cursors: Option<Cursors>,
    pub total: Option<u32>,
    pub items: Vec<T>,
}

#[derive(Debug, Clone)]
pub struct Cursors {
    pub after: Option<String>,
    pub before: Option<String>,
}

#[derive(Debug, Clone)]
pub struct ResumePoint {
    pub fully_played: bool,
    pub resume_position_ms: u64,
}

#[derive(Debug, Clone)]
pub struct LinkedFrom {
    pub external_urls: Option<ExternalUrls>,
    pub href: Option<String>,
    pub id: Option<String>,
    pub item_type: Option<String>,
    pub uri: Option<String>,
}

/// The text of an optional string slice.
pub open spec fn str_view(o: Option<&str>) -> Option<Seq<char>> {
    match o {
        Some(s) => Some(s@),
        None => None,
    }
}

/// The URL of the first image, if there is one.
pub open spec fn first_image_url(images: Option<Vec<Image>>) -> Option<Seq<char>> {
    match images {
        Some(v) => if v@.len() > 0 {
            Some(v@[0].url@)
        } else {
            None
        },
        None => None,
    }
}

/// The URL of the first image of a listing.
pub fn image_url_of(images: &Option<Vec<Image>>) -> (r: Option<&str>)
    ensures
        str_view(r) == first_image_url(*images),
{
    match images {
        Some(v) => if v.len() > 0 {
            Some(v[0].url.as_str())
        } else {
            None
        },
        None => None,
    }
}

} // verus!
