//! Search: the request URL, and the hits of an answer.

use vstd::prelude::*;
use vstd::utf8::*;
use crate::domain::media::{SearchItem, SearchResults, SearchType};
use crate::rpc::dispatch::{opt_view, strings_view};
use crate::spotify::auth::clone_opt_string;
use crate::text::{dec, fmt_u64, joined, owned, push_str, texts};
use crate::storage::pins::resource_type::{resource_name, ResourceType};
use crate::urls::{pct_bytes, url_encode};

verus! {

/// The `type` parameter for a kind of search.
pub open spec fn type_param(kind: SearchType) -> Seq<char> {
    match kind {
        SearchType::All => "track,album,artist,playlist"@,
        SearchType::Track => "track"@,
        SearchType::Album => "album"@,
        SearchType::Artist => "artist"@,
        SearchType::Playlist => "playlist"@,
    }
}

/// The resource kind a single-kind search looks for.
pub open spec fn searched_resource(kind: SearchType) -> Option<ResourceType> {
    match kind {
        SearchType::All => None,
        SearchType::Track => Some(ResourceType::Track),
        SearchType::Album => Some(ResourceType::Album),
        SearchType::Artist => Some(ResourceType::Artist),
        SearchType::Playlist => Some(ResourceType::Playlist),
    }
}

/// Each search asks Spotify for the kind it is for: a single-kind search's
/// `type` is the name of that kind of resource, two different kinds never
/// ask for the same type, and a search of every kind asks for each kind of
/// `all_kinds`, in that order, separated by commas.
pub proof fn lemma_type_param_names_kind(k1: SearchType, k2: SearchType)
    ensures
        searched_resource(k1) matches Some(t) ==> type_param(k1) == resource_name(t),
        k1 != k2 ==> type_param(k1) != type_param(k2),
        type_param(SearchType::All) == joined(
            seq![
                type_param(SearchType::Track),
                type_param(SearchType::Album),
                type_param(SearchType::Artist),
                type_param(SearchType::Playlist),
            ],
            ","@,
        ),
{
    reveal_strlit("track,album,artist,playlist");
    reveal_strlit("track");
    reveal_strlit("album");
    reveal_strlit("artist");
    reveal_strlit("playlist");
    reveal_strlit(",");
    let v = seq![
        type_param(SearchType::Track),
        type_param(SearchType::Album),
        type_param(SearchType::Artist),
        type_param(SearchType::Playlist),
    ];
    assert(v.drop_last().drop_last().drop_last() =~= seq!["track"@]);
    assert(v.drop_last().drop_last() =~= seq!["track"@, "album"@]);
    assert(v.drop_last() =~= seq!["track"@, "album"@, "artist"@]);
    assert(joined(v.drop_last().drop_last().drop_last(), ","@) == "track"@);
    let j2 = "track"@ + ","@ + "album"@;
    let j3 = j2 + ","@ + "artist"@;
    let j4 = j3 + ","@ + "playlist"@;
    assert(joined(v.drop_last().drop_last(), ","@) == j2);
    assert(joined(v.drop_last(), ","@) == j3);
    assert(joined(v, ","@) == j4);
    assert(j4 =~= "track,album,artist,playlist"@);
    if k1 != k2 {
        let a = type_param(k1);
        let b = type_param(k2);
        if a.len() == b.len() {
            assert(a[0] != b[0] || a[1] != b[1]);
        }
    }
}

pub fn search_type_param(kind: SearchType) -> (s: &'static str)
    ensures
        s@ == type_param(kind),
{
    match kind {
        SearchType::All => "track,album,artist,playlist",
        SearchType::Track => "track",
        SearchType::Album => "album",
        SearchType::Artist => "artist",
        SearchType::Playlist => "playlist",
    }
}

/// The search request for one kind.
pub open spec fn search_url_text(base: Seq<char>, query: Seq<char>, kind: SearchType, limit: u32, market_from_token: bool) -> Seq<char> {
    base + "/search?q="@ + pct_bytes(encode_utf8(query)) + "&type="@ + type_param(kind) + "&limit="@ + dec(limit as nat)
        + if market_from_token {
        "&market=from_token"@
    } else {
        Seq::<char>::empty()
    }
}

pub fn search_url(base: &str, query: &str, kind: SearchType, limit: u32, market_from_token: bool) -> (u: String)
    ensures
        u@ == search_url_text(base@, query@, kind, limit, market_from_token),
{
    let mut u = owned(base);
    push_str(&mut u, "/search?q=");
    let q = url_encode(query);
    push_str(&mut u, q.as_str());
    push_str(&mut u, "&type=");
    push_str(&mut u, search_type_param(kind));
    push_str(&mut u, "&limit=");
    let n = fmt_u64(limit as u64);
    push_str(&mut u, n.as_str());
    if market_from_token {
        push_str(&mut u, "&market=from_token");
    }
    u
}

/// The kinds a search of everything runs, in order.
pub fn all_kinds() -> (v: Vec<SearchType>)
    ensures
        v@ == seq![SearchType::Track, SearchType::Album, SearchType::Artist, SearchType::Playlist],
{
    let mut v: Vec<SearchType> = Vec::new();
    v.push(SearchType::Track);
    v.push(SearchType::Album);
    v.push(SearchType::Artist);
    v.push(SearchType::Playlist);
    assert(v@ =~= seq![SearchType::Track, SearchType::Album, SearchType::Artist, SearchType::Playlist]);
    v
}

#[derive(Debug)]
pub struct ApiNameRef {
    pub name: String,
}

#[derive(Debug)]
pub struct ApiSearchTrack {
    pub id: String,
    pub name: String,
    pub uri: String,
    pub artists: Vec<ApiNameRef>,
    pub album: Option<ApiNameRef>,
    pub duration_ms: Option<u32>,
}

#[derive(Debug)]
pub struct ApiSearchAlbum {
    pub id: String,
    pub name: String,
    pub uri: String,
    pub artists: Vec<ApiNameRef>,
}

#[derive(Debug)]
pub struct ApiSearchArtist {
    pub id: String,
    pub name: String,
    pub uri: String,
}

#[derive(Debug)]
pub struct ApiOwner {
    pub display_name: Option<String>,
}

#[derive(Debug)]
pub struct ApiSearchPlaylist {
    pub id: String,
    pub name: String,
    pub uri: String,
    pub owner: Option<ApiOwner>,
}

/// A search answer: one list per kind, each item possibly missing.
#[derive(Debug)]
pub struct ApiSearchResponse {
    pub tracks: Option<Vec<Option<ApiSearchTrack>>>,
    pub albums: Option<Vec<Option<ApiSearchAlbum>>>,
    pub artists: Option<Vec<Option<ApiSearchArtist>>>,
    pub playlists: Option<Vec<Option<ApiSearchPlaylist>>>,
}

/// The items that are there, in order.
pub open spec fn present<T>(v: Seq<Option<T>>) -> Seq<T>
    decreases v.len(),
{
    if v.len() == 0 {
        Seq::empty()
    } else {
        let r = present(v.drop_last());
        match v.last() {
            Some(x) => r.push(x),
            None => r,
        }
    }
}

pub open spec fn ref_names(v: Seq<ApiNameRef>) -> Seq<Seq<char>> {
    v.map_values(|r: ApiNameRef| r.name@)
}

/// The hit is the track.
pub open spec fn is_track_hit(h: SearchItem, t: ApiSearchTrack) -> bool {
    &&& h.id@ == t.id@ && h.name@ == t.name@ && h.uri@ == t.uri@
    &&& h.kind == SearchType::Track
    &&& strings_view(h.artists) == ref_names(t.artists@)
    &&& opt_view(h.album) == match t.album {
        Some(a) => Some(a.name@),
        None => None,
    }
    &&& h.duration_ms == t.duration_ms
    &&& h.owner is None && h.score is None
}

pub open spec fn is_album_hit(h: SearchItem, a: ApiSearchAlbum) -> bool {
    &&& h.id@ == a.id@ && h.name@ == a.name@ && h.uri@ == a.uri@
    &&& h.kind == SearchType::Album
    &&& strings_view(h.artists) == ref_names(a.artists@)
    &&& h.album is None && h.duration_ms is None && h.owner is None && h.score is None
}

pub open spec fn is_artist_hit(h: SearchItem, a: ApiSearchArtist) -> bool {
    &&& h.id@ == a.id@ && h.name@ == a.name@ && h.uri@ == a.uri@
    &&& h.kind == SearchType::Artist
    &&& h.artists@.len() == 0
    &&& h.album is None && h.duration_ms is None && h.owner is None && h.score is None
}

pub open spec fn is_playlist_hit(h: SearchItem, p: ApiSearchPlaylist) -> bool {
    &&& h.id@ == p.id@ && h.name@ == p.name@ && h.uri@ == p.uri@
    &&& h.kind == SearchType::Playlist
    &&& h.artists@.len() == 0
    &&& h.album is None && h.duration_ms is None && h.score is None
    &&& opt_view(h.owner) == match p.owner {
        Some(o) => opt_view(o.display_name),
        None => None,
    }
}

fn ref_names_of(v: &Vec<ApiNameRef>) -> (r: Vec<String>)
    ensures
        strings_view(r) == ref_names(v@),
{
    let mut r: Vec<String> = Vec::new();
    let mut i: usize = 0;
    while i < v.len()
        invariant
            i <= v@.len(),
            strings_view(r) == ref_names(v@).take(i as int),
        decreases v.len() - i,
    {
        let ghost before = r@;
        let c = owned(v[i].name.as_str());
        r.push(c);
        assert(r@ == before.push(c));
        assert(strings_view(r) =~= texts(before).push(c@));
        assert(ref_names(v@).take(i + 1) =~= ref_names(v@).take(i as int).push(v@[i as int].name@));
        i = i + 1;
    }
    assert(ref_names(v@).take(v@.len() as int) =~= ref_names(v@));
    r
}

/// The hit of a track.
pub fn track_hit(t: &ApiSearchTrack) -> (h: SearchItem)
    ensures
        is_track_hit(h, *t),
{
    SearchItem {
        id: owned(t.id.as_str()),
        name: owned(t.name.as_str()),
        uri: owned(t.uri.as_str()),
        kind: SearchType::Track,
        artists: ref_names_of(&t.artists),
        album: match &t.album {
            Some(a) => Some(owned(a.name.as_str())),
            None => None,
        },
        duration_ms: t.duration_ms,
        owner: None,
        score: None,
    }
}

fn album_hit(a: &ApiSearchAlbum) -> (h: SearchItem)
    ensures
        is_album_hit(h, *a),
{
    SearchItem {
        id: owned(a.id.as_str()),
        name: owned(a.name.as_str()),
        uri: owned(a.uri.as_str()),
        kind: SearchType::Album,
        artists: ref_names_of(&a.artists),
        album: None,
        duration_ms: None,
        owner: None,
        score: None,
    }
}

fn artist_hit(a: &ApiSearchArtist) -> (h: SearchItem)
    ensures
        is_artist_hit(h, *a),
{
    SearchItem {
        id: owned(a.id.as_str()),
        name: owned(a.name.as_str()),
        uri: owned(a.uri.as_str()),
        kind: SearchType::Artist,
        artists: Vec::new(),
        album: None,
        duration_ms: None,
        owner: None,
        score: None,
    }
}

fn playlist_hit(p: &ApiSearchPlaylist) -> (h: SearchItem)
    ensures
        is_playlist_hit(h, *p),
{
    SearchItem {
        id: owned(p.id.as_str()),
        name: owned(p.name.as_str()),
        uri: owned(p.uri.as_str()),
        kind: SearchType::Playlist,
        artists: Vec::new(),
        album: None,
        duration_ms: None,
        owner: match &p.owner {
            Some(o) => clone_opt_string(&o.display_name),
            None => None,
        },
        score: None,
    }
}

/// The first error among the answers, in order, if any.
pub open spec fn first_err<E>(rs: Seq<Result<SearchResults, E>>) -> Option<E>
    decreases rs.len(),
{
    if rs.len() == 0 {
        None
    } else {
        match rs[0] {
            Err(e) => Some(e),
            Ok(_) => first_err(rs.subrange(1, rs.len() as int)),
        }
    }
}

/// The hits of the answers, one after the other, up to the first error.
pub open spec fn ok_items<E>(rs: Seq<Result<SearchResults, E>>) -> Seq<SearchItem>
    decreases rs.len(),
{
    if rs.len() == 0 {
        Seq::empty()
    } else {
        match rs[0] {
            Err(_) => Seq::empty(),
            Ok(p) => p.items@ + ok_items(rs.subrange(1, rs.len() as int)),
        }
    }
}

/// The answer to a search of every kind, from the answers of each kind's
/// search in the order `all_kinds` gives (a list that may stop at the first
/// failed one): that first error, else all the hits, in order, under the
/// kind `All`.
pub fn combine_all_results<E>(results: Vec<Result<SearchResults, E>>) -> (r: Result<SearchResults, E>)
    ensures
        match first_err(results@) {
            Some(e) => r == Err::<SearchResults, E>(e),
            None => r matches Ok(a) && a.kind == SearchType::All && a.items@ == ok_items(results@),
        },
{
    let ghost orig = results@;
    let mut rest = results;
    let mut out: Vec<SearchItem> = Vec::new();
    while rest.len() > 0
        invariant
            orig == results@,
            first_err(rest@) == first_err(orig),
            first_err(orig) is None ==> out@ + ok_items(rest@) == ok_items(orig),
        decreases rest.len(),
    {
        let ghost before_rest = rest@;
        let ghost before_out = out@;
        let next = rest.remove(0);
        assert(rest@ =~= before_rest.subrange(1, before_rest.len() as int));
        assert(next == before_rest[0]);
        match next {
            Err(e) => {
                assert(first_err(before_rest) == Some(e));
                assert(first_err(orig) == Some(e));
                return Err(e);
            },
            Ok(mut p) => {
                let ghost items = p.items@;
                out.append(&mut p.items);
                assert(out@ == before_out + items);
                assert(ok_items(before_rest) == items + ok_items(rest@));
                assert(out@ + ok_items(rest@) =~= before_out + ok_items(before_rest));
            },
        }
    }
    assert(ok_items(rest@) =~= Seq::<SearchItem>::empty());
    assert(first_err(orig) is None ==> out@ =~= ok_items(orig));
    Ok(SearchResults { kind: SearchType::All, items: out })
}

/// One entry of the recently played list: the track, when there is one.
#[derive(Debug)]
pub struct RecentlyPlayedItem {
    pub track: Option<ApiSearchTrack>,
}

/// The tracks of a recently played list, entry by entry.
pub open spec fn played_tracks(v: Seq<RecentlyPlayedItem>) -> Seq<Option<ApiSearchTrack>> {
    v.map_values(|e: RecentlyPlayedItem| e.track)
}

/// The hits of a recently played list: its tracks, in order, skipping
/// entries without one.
pub fn recently_played_hits(items: &Vec<RecentlyPlayedItem>) -> (hits: Vec<SearchItem>)
    ensures
        hits@.len() == present(played_tracks(items@)).len(),
        forall|i: int|
            0 <= i < hits@.len() ==> is_track_hit(#[trigger] hits@[i], present(played_tracks(items@))[i]),
{
    let ghost v = played_tracks(items@);
    let mut hits: Vec<SearchItem> = Vec::new();
    let mut i: usize = 0;
    while i < items.len()
        invariant
            i <= items@.len(),
            v == played_tracks(items@),
            hits@.len() == present(v.take(i as int)).len(),
            forall|k: int| 0 <= k < hits@.len() ==> is_track_hit(#[trigger] hits@[k], present(v.take(i as int))[k]),
        decreases items.len() - i,
    {
        assert(v.take(i + 1).drop_last() =~= v.take(i as int));
        assert(v.take(i + 1).last() == items@[i as int].track);
        match &items[i].track {
            Some(t) => {
                hits.push(track_hit(t));
            },
            None => {},
        }
        i = i + 1;
    }
    assert(v.take(items@.len() as int) =~= v);
    hits
}

/// The hits of the present tracks, in order.
pub fn track_hits(v: &Vec<Option<ApiSearchTrack>>) -> (hits: Vec<SearchItem>)
    ensures
        hits@.len() == present(v@).len(),
        forall|i: int| 0 <= i < hits@.len() ==> is_track_hit(#[trigger] hits@[i], present(v@)[i]),
{
    let mut hits: Vec<SearchItem> = Vec::new();
    let mut i: usize = 0;
    while i < v.len()
        invariant
            i <= v@.len(),
            hits@.len() == present(v@.take(i as int)).len(),
            forall|k: int| 0 <= k < hits@.len() ==> is_track_hit(#[trigger] hits@[k], present(v@.take(i as int))[k]),
        decreases v.len() - i,
    {
        assert(v@.take(i + 1).drop_last() =~= v@.take(i as int));
        match &v[i] {
            Some(t) => {
                hits.push(track_hit(t));
            },
            None => {},
        }
        i = i + 1;
    }
    assert(v@.take(v@.len() as int) =~= v@);
    hits
}

fn album_hits(v: &Vec<Option<ApiSearchAlbum>>) -> (hits: Vec<SearchItem>)
    ensures
        hits@.len() == present(v@).len(),
        forall|i: int| 0 <= i < hits@.len() ==> is_album_hit(#[trigger] hits@[i], present(v@)[i]),
{
    let mut hits: Vec<SearchItem> = Vec::new();
    let mut i: usize = 0;
    while i < v.len()
        invariant
            i <= v@.len(),
            hits@.len() == present(v@.take(i as int)).len(),
            forall|k: int| 0 <= k < hits@.len() ==> is_album_hit(#[trigger] hits@[k], present(v@.take(i as int))[k]),
        decreases v.len() - i,
    {
        assert(v@.take(i + 1).drop_last() =~= v@.take(i as int));
        match &v[i] {
            Some(a) => {
                hits.push(album_hit(a));
            },
            None => {},
        }
        i = i + 1;
    }
    assert(v@.take(v@.len() as int) =~= v@);
    hits
}

fn artist_hits(v: &Vec<Option<ApiSearchArtist>>) -> (hits: Vec<SearchItem>)
    ensures
        hits@.len() == present(v@).len(),
        forall|i: int| 0 <= i < hits@.len() ==> is_artist_hit(#[trigger] hits@[i], present(v@)[i]),
{
    let mut hits: Vec<SearchItem> = Vec::new();
    let mut i: usize = 0;
    while i < v.len()
        invariant
            i <= v@.len(),
            hits@.len() == present(v@.take(i as int)).len(),
            forall|k: int| 0 <= k < hits@.len() ==> is_artist_hit(#[trigger] hits@[k], present(v@.take(i as int))[k]),
        decreases v.len() - i,
    {
        assert(v@.take(i + 1).drop_last() =~= v@.take(i as int));
        match &v[i] {
            Some(a) => {
                hits.push(artist_hit(a));
            },
            None => {},
        }
        i = i + 1;
    }
    assert(v@.take(v@.len() as int) =~= v@);
    hits
}

fn playlist_hits(v: &Vec<Option<ApiSearchPlaylist>>) -> (hits: Vec<SearchItem>)
    ensures
        hits@.len() == present(v@).len(),
        forall|i: int| 0 <= i < hits@.len() ==> is_playlist_hit(#[trigger] hits@[i], present(v@)[i]),
{
    let mut hits: Vec<SearchItem> = Vec::new();
    let mut i: usize = 0;
    while i < v.len()
        invariant
            i <= v@.len(),
            hits@.len() == present(v@.take(i as int)).len(),
            forall|k: int| 0 <= k < hits@.len() ==> is_playlist_hit(#[trigger] hits@[k], present(v@.take(i as int))[k]),
        decreases v.len() - i,
    {
        assert(v@.take(i + 1).drop_last() =~= v@.take(i as int));
        match &v[i] {
            Some(p) => {
                hits.push(playlist_hit(p));
            },
            None => {},
        }
        i = i + 1;
    }
    assert(v@.take(v@.len() as int) =~= v@);
    hits
}

/// The hits of an answer to a search of one kind: the present items of
/// that kind's list (none when the list is missing, or for `All`).
pub fn search_hits(kind: SearchType, r: &ApiSearchResponse) -> (hits: Vec<SearchItem>)
    ensures
        match kind {
            SearchType::Track => match r.tracks {
                Some(v) => hits@.len() == present(v@).len() && forall|i: int|
                    0 <= i < hits@.len() ==> is_track_hit(#[trigger] hits@[i], present(v@)[i]),
                None => hits@.len() == 0,
            },
            SearchType::Album => match r.albums {
                Some(v) => hits@.len() == present(v@).len() && forall|i: int|
                    0 <= i < hits@.len() ==> is_album_hit(#[trigger] hits@[i], present(v@)[i]),
                None => hits@.len() == 0,
            },
            SearchType::Artist => match r.artists {
                Some(v) => hits@.len() == present(v@).len() && forall|i: int|
                    0 <= i < hits@.len() ==> is_artist_hit(#[trigger] hits@[i], present(v@)[i]),
                None => hits@.len() == 0,
            },
            SearchType::Playlist => match r.playlists {
                Some(v) => hits@.len() == present(v@).len() && forall|i: int|
                    0 <= i < hits@.len() ==> is_playlist_hit(#[trigger] hits@[i], present(v@)[i]),
                None => hits@.len() == 0,
            },
            SearchType::All => hits@.len() == 0,
        },
{
    match kind {
        SearchType::Track => match &r.tracks {
            Some(v) => track_hits(v),
            None => Vec::new(),
        },
        SearchType::Album => match &r.albums {
            Some(v) => album_hits(v),
            None => Vec::new(),
        },
        SearchType::Artist => match &r.artists {
            Some(v) => artist_hits(v),
            None => Vec::new(),
        },
        SearchType::Playlist => match &r.playlists {
            Some(v) => playlist_hits(v),
            None => Vec::new(),
        },
        SearchType::All => Vec::new(),
    }
}

} // verus!
