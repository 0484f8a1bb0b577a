//! Track records.

use vstd::prelude::*;
use crate::text::{clock, fmt_clock, push_str};
use crate::types::album::AlbumSimplified;
use crate::types::artist::{ArtistSimplified, first_artist_name, first_artist_of};
use crate::types::common::{ExternalIds, ExternalUrls, LinkedFrom, Restrictions, first_image_url, str_view};

verus! {

/// A track as nested in albums.
#[derive(Debug, Clone)]
pub struct TrackSimplified {
    pub artists: Option<Vec<ArtistSimplified>>,
    pub available_markets: Option<Vec<String>>,
    pub disc_number: Option<u32>,
    pub duration_ms: u64,
    pub explicit: Option<bool>,
    pub external_urls: Option<ExternalUrls>,
    pub href: Option<String>,
    pub id: String,
    pub is_playable: Option<bool>,
    pub linked_from: Option<LinkedFrom>,
    pub restrictions: Option<Restrictions>,
    pub name: String,
    pub preview_url: Option<String>,
    pub track_number: Option<u32>,
    pub item_type: String,
    pub uri: String,
    pub is_local: Option<bool>,
}

/// A full track record.
#[derive(Debug, Clone)]
pub struct Track {
    pub album: Option<AlbumSimplified>,
    pub artists: Option<Vec<ArtistSimplified>>,
    pub available_markets: Option<Vec<String>>,
    pub disc_number: Option<u32>,
    pub duration_ms: u64,
    pub explicit: Option<bool>,
    pub external_ids: Option<ExternalIds>,
    pub external_urls: Option<ExternalUrls>,
    pub href: Option<String>,
    pub id: String,
    pub is_playable: Option<bool>,
    pub linked_from: Option<LinkedFrom>,
    pub restrictions: Option<Restrictions>,
    pub name: String,
    pub popularity: Option<u32>,
    pub preview_url: Option<String>,
    pub track_number: Option<u32>,
    pub item_type: String,
    pub uri: String,
    pub is_local: Option<bool>,
}

/// Artist names joined with `", "`.
pub open spec fn joined_names(v: Seq<ArtistSimplified>) -> Seq<char>
    decreases v.len(),
{
    if v.len() == 0 {
        Seq::empty()
    } else if v.len() == 1 {
        v[0].name@
    } else {
        joined_names(v.drop_last()) + ", "@ + v.last().name@
    }
}

/// `m:ss` of a duration in milliseconds (whole seconds, rounded down).
pub open spec fn duration_clock(ms: u64) -> Seq<char> {
    clock((ms / 1000) as nat)
}

fn join_names(v: &Vec<ArtistSimplified>) -> (s: String)
    ensures
        s@ == joined_names(v@),
{
    let mut s = String::new();
    let mut i: usize = 0;
    while i < v.len()
        invariant
            i <= v@.len(),
            s@ == joined_names(v@.take(i as int)),
        decreases v.len() - i,
    {
        assert(v@.take(i + 1).drop_last() =~= v@.take(i as int));
        if i > 0 {
            push_str(&mut s, ", ");
        }
        push_str(&mut s, v[i].name.as_str());
        proof {
            reveal_strlit(", ");
        }
        i = i + 1;
        assert(s@ == joined_names(v@.take(i as int)));
    }
    assert(v@.take(v@.len() as int) =~= v@);
    s
}

impl Track {
    /// The primary artist's name.
    pub fn artist_name(&self) -> (r: Option<&str>)
        ensures
            str_view(r) == first_artist_name(self.artists),
    {
        first_artist_of(&self.artists)
    }

    /// All artist names, comma separated (empty without artists).
    pub fn artist_names(&self) -> (s: String)
        ensures
            s@ == match self.artists {
                Some(v) => joined_names(v@),
                None => Seq::empty(),
            },
    {
        match &self.artists {
            Some(v) => join_names(v),
            None => String::new(),
        }
    }

    /// The album's name.
    pub fn album_name(&self) -> (r: Option<&str>)
        ensures
            str_view(r) == match self.album {
                Some(a) => Some(a.name@),
                None => None,
            },
    {
        match &self.album {
            Some(a) => Some(a.name.as_str()),
            None => None,
        }
    }

    /// `m:ss` of the track's length.
    pub fn duration_str(&self) -> (s: String)
        ensures
            s@ == duration_clock(self.duration_ms),
    {
        fmt_clock(self.duration_ms / 1000)
    }

    /// The album cover's URL.
    pub fn image_url(&self) -> (r: Option<&str>)
        ensures
            str_view(r) == match self.album {
                Some(a) => first_image_url(a.images),
                None => None,
            },
    {
        match &self.album {
            Some(a) => a.image_url(),
            None => None,
        }
    }
}

impl TrackSimplified {
    /// The primary artist's name.
    pub fn artist_name(&self) -> (r: Option<&str>)
        ensures
            str_view(r) == first_artist_name(self.artists),
    {
        first_artist_of(&self.artists)
    }

    /// `m:ss` of the track's length.
    pub fn duration_str(&self) -> (s: String)
        ensures
            s@ == duration_clock(self.duration_ms),
    {
        fmt_clock(self.duration_ms / 1000)
    }
}

/// A track in the user's library.
#[derive(Debug, Clone)]
pub struct SavedTrack {
    pub added_at: String,
    pub track: Track,
}

} // verus!
