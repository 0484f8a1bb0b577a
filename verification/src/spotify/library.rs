//! Albums, artists, devices and playlists as the API reports them, and the
//! records the commands show.

use vstd::prelude::*;
use crate::domain::media::{Album, AlbumTrack, Artist, Device, Playlist, PlaylistDetail};
use crate::rpc::dispatch::{opt_view, strings_view};
use crate::spotify::auth::{clone_opt_string, clone_strings};
use crate::spotify::search::{ApiNameRef, ApiOwner, ref_names};
use crate::text::{owned, texts};

verus! {

/// `GET /albums/{id}`.
#[derive(Debug)]
pub struct ApiAlbum {
    pub id: String,
    pub name: String,
    pub uri: String,
    pub release_date: Option<String>,
    pub total_tracks: Option<u32>,
    pub artists: Vec<ApiNameRef>,
}

/// A track of `GET /albums/{id}/tracks`.
#[derive(Debug)]
pub struct ApiAlbumTrack {
    pub name: String,
    pub duration_ms: u32,
    pub track_number: u32,
}

/// Sum of the tracks' lengths.
pub open spec fn total_ms(ts: Seq<AlbumTrack>) -> int
    decreases ts.len(),
{
    if ts.len() == 0 {
        0
    } else {
        total_ms(ts.drop_last()) + ts.last().duration_ms
    }
}

proof fn lemma_total_ms_bound(ts: Seq<AlbumTrack>)
    ensures
        0 <= total_ms(ts) <= ts.len() * 0xffff_ffff,
    decreases ts.len(),
{
    if ts.len() > 0 {
        lemma_total_ms_bound(ts.drop_last());
    }
}

/// The album tracks of one page.
pub fn album_tracks(items: &Vec<ApiAlbumTrack>) -> (ts: Vec<AlbumTrack>)
    ensures
        ts@.len() == items@.len(),
        forall|i: int|
            0 <= i < ts@.len() ==> (#[trigger] ts@[i]).name@ == items@[i].name@ && ts@[i].duration_ms
                == items@[i].duration_ms && ts@[i].track_number == items@[i].track_number,
{
    let mut ts: Vec<AlbumTrack> = Vec::new();
    let mut i: usize = 0;
    while i < items.len()
        invariant
            i <= items@.len(),
            ts@.len() == i,
            forall|k: int|
                0 <= k < i ==> (#[trigger] ts@[k]).name@ == items@[k].name@ && ts@[k].duration_ms
                    == items@[k].duration_ms && ts@[k].track_number == items@[k].track_number,
        decreases items.len() - i,
    {
        let t = &items[i];
        ts.push(AlbumTrack { name: owned(t.name.as_str()), duration_ms: t.duration_ms, track_number: t.track_number });
        i = i + 1;
    }
    ts
}

/// The album shown: its fields, its artists' names, its tracks and their
/// total length.
pub fn album_from(payload: &ApiAlbum, tracks: Vec<AlbumTrack>) -> (a: Album)
    requires
        tracks@.len() <= 0xffff_ffff,
    ensures
        a.id@ == payload.id@,
        a.name@ == payload.name@,
        a.uri@ == payload.uri@,
        strings_view(a.artists) == ref_names(payload.artists@),
        opt_view(a.release_date) == opt_view(payload.release_date),
        a.total_tracks == payload.total_tracks,
        a.tracks == tracks,
        a.duration_ms == Some(total_ms(tracks@) as u64),
{
    let mut sum: u64 = 0;
    let mut i: usize = 0;
    proof {
        lemma_total_ms_bound(tracks@);
    }
    while i < tracks.len()
        invariant
            i <= tracks@.len(),
            tracks@.len() <= 0xffff_ffff,
            sum == total_ms(tracks@.take(i as int)),
        decreases tracks.len() - i,
    {
        proof {
            assert(tracks@.take(i + 1).drop_last() =~= tracks@.take(i as int));
            lemma_total_ms_bound(tracks@.take(i + 1));
            assert(tracks@.take(i + 1).len() * 0xffff_ffff <= 0xffff_ffff * 0xffff_ffff) by (nonlinear_arith)
                requires
                    tracks@.take(i + 1).len() <= 0xffff_ffff,
            ;
        }
        sum = sum + tracks[i].duration_ms as u64;
        i = i + 1;
    }
    assert(tracks@.take(tracks@.len() as int) =~= tracks@);
    let mut names: Vec<String> = Vec::new();
    let mut j: usize = 0;
    while j < payload.artists.len()
        invariant
            j <= payload.artists@.len(),
            strings_view(names) == ref_names(payload.artists@).take(j as int),
        decreases payload.artists.len() - j,
    {
        let ghost before = names@;
        let c = owned(payload.artists[j].name.as_str());
        names.push(c);
        assert(names@ == before.push(c));
        assert(strings_view(names) =~= texts(before).push(c@));
        assert(ref_names(payload.artists@).take(j + 1) =~= ref_names(payload.artists@).take(j as int).push(
            payload.artists@[j as int].name@,
        ));
        j = j + 1;
    }
    assert(ref_names(payload.artists@).take(payload.artists@.len() as int) =~= ref_names(payload.artists@));
    Album {
        id: owned(payload.id.as_str()),
        name: owned(payload.name.as_str()),
        uri: owned(payload.uri.as_str()),
        artists: names,
        release_date: clone_opt_string(&payload.release_date),
        total_tracks: payload.total_tracks,
        tracks,
        duration_ms: Some(sum),
    }
}

/// `GET /artists/{id}`.
#[derive(Debug)]
pub struct ApiArtist {
    pub id: String,
    pub name: String,
    pub uri: String,
    pub genres: Vec<String>,
    pub followers_total: Option<u64>,
}

pub fn artist_from(payload: &ApiArtist) -> (a: Artist)
    ensures
        a.id@ == payload.id@,
        a.name@ == payload.name@,
        a.uri@ == payload.uri@,
        strings_view(a.genres) == strings_view(payload.genres),
        a.followers == payload.followers_total,
{
    Artist {
        id: owned(payload.id.as_str()),
        name: owned(payload.name.as_str()),
        uri: owned(payload.uri.as_str()),
        genres: clone_strings(&payload.genres),
        followers: payload.followers_total,
    }
}

/// A device of `GET /me/player/devices`.
#[derive(Debug)]
pub struct ApiDevice {
    pub id: String,
    pub name: String,
    pub volume_percent: Option<u32>,
}

pub fn devices_from(v: &Vec<ApiDevice>) -> (ds: Vec<Device>)
    ensures
        ds@.len() == v@.len(),
        forall|i: int|
            0 <= i < ds@.len() ==> (#[trigger] ds@[i]).id@ == v@[i].id@ && ds@[i].name@ == v@[i].name@
                && ds@[i].volume_percent == v@[i].volume_percent,
{
    let mut ds: Vec<Device> = Vec::new();
    let mut i: usize = 0;
    while i < v.len()
        invariant
            i <= v@.len(),
            ds@.len() == i,
            forall|k: int|
                0 <= k < i ==> (#[trigger] ds@[k]).id@ == v@[k].id@ && ds@[k].name@ == v@[k].name@
                    && ds@[k].volume_percent == v@[k].volume_percent,
        decreases v.len() - i,
    {
        let d = &v[i];
        ds.push(Device { id: owned(d.id.as_str()), name: owned(d.name.as_str()), volume_percent: d.volume_percent });
        i = i + 1;
    }
    ds
}

/// A playlist of `GET /me/playlists`.
#[derive(Debug)]
pub struct ApiPlaylist {
    pub id: String,
    pub name: String,
    pub owner: Option<ApiOwner>,
    pub collaborative: bool,
    pub public: Option<bool>,
}

/// The owner's display name, if the owner and the name are known.
pub open spec fn owner_name(o: Option<ApiOwner>) -> Option<Seq<char>> {
    match o {
        Some(x) => opt_view(x.display_name),
        None => None,
    }
}

fn owner_of(o: &Option<ApiOwner>) -> (r: Option<String>)
    ensures
        opt_view(r) == owner_name(*o),
{
    match o {
        Some(x) => clone_opt_string(&x.display_name),
        None => None,
    }
}

pub fn playlists_from(v: &Vec<ApiPlaylist>) -> (ps: Vec<Playlist>)
    ensures
        ps@.len() == v@.len(),
        forall|i: int|
            0 <= i < ps@.len() ==> (#[trigger] ps@[i]).id@ == v@[i].id@ && ps@[i].name@ == v@[i].name@
                && opt_view(ps@[i].owner) == owner_name(v@[i].owner) && ps@[i].collaborative
                == v@[i].collaborative && ps@[i].public == v@[i].public,
{
    let mut ps: Vec<Playlist> = Vec::new();
    let mut i: usize = 0;
    while i < v.len()
        invariant
            i <= v@.len(),
            ps@.len() == i,
            forall|k: int|
                0 <= k < i ==> (#[trigger] ps@[k]).id@ == v@[k].id@ && ps@[k].name@ == v@[k].name@
                    && opt_view(ps@[k].owner) == owner_name(v@[k].owner) && ps@[k].collaborative
                    == v@[k].collaborative && ps@[k].public == v@[k].public,
        decreases v.len() - i,
    {
        let p = &v[i];
        ps.push(
            Playlist {
                id: owned(p.id.as_str()),
                name: owned(p.name.as_str()),
                owner: owner_of(&p.owner),
                collaborative: p.collaborative,
                public: p.public,
            },
        );
        i = i + 1;
    }
    ps
}

/// `GET /playlists/{id}` (and the answer to creating one).
#[derive(Debug)]
pub struct ApiPlaylistDetail {
    pub id: String,
    pub name: String,
    pub uri: String,
    pub owner: Option<ApiOwner>,
    pub tracks_total: Option<u32>,
    pub collaborative: bool,
    pub public: Option<bool>,
}

pub fn playlist_detail_from(p: &ApiPlaylistDetail) -> (d: PlaylistDetail)
    ensures
        d.id@ == p.id@,
        d.name@ == p.name@,
        d.uri@ == p.uri@,
        opt_view(d.owner) == owner_name(p.owner),
        d.tracks_total == p.tracks_total,
        d.collaborative == p.collaborative,
        d.public == p.public,
{
    PlaylistDetail {
        id: owned(p.id.as_str()),
        name: owned(p.name.as_str()),
        uri: owned(p.uri.as_str()),
        owner: owner_of(&p.owner),
        tracks_total: p.tracks_total,
        collaborative: p.collaborative,
        public: p.public,
    }
}

} // verus!
