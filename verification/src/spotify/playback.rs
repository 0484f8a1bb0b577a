//! Player state as the API reports it, and what the commands make of it:
//! the player status, the queue (up to a limit), and the request paths of
//! the player controls.

use vstd::prelude::*;
use crate::domain::media::{Device, PlaybackContext, PlayerStatus, Track};
use crate::rpc::dispatch::{opt_view, strings_view};
use crate::text::{dec, fmt_u64, owned, push_str};

verus! {

/// An artist of a playing track.
#[derive(Debug)]
pub struct ApiArtist {
    pub id: Option<String>,
    pub name: String,
}

#[derive(Debug)]
pub struct ApiAlbum {
    pub id: Option<String>,
    pub name: String,
}

/// A track as the player endpoints report it.
#[derive(Debug)]
pub struct ApiTrack {
    pub id: Option<String>,
    pub name: String,
    pub duration_ms: Option<u32>,
    pub album: Option<ApiAlbum>,
    pub artists: Vec<ApiArtist>,
}

#[derive(Debug)]
pub struct ApiDevice {
    pub id: String,
    pub name: String,
    pub volume_percent: Option<u32>,
}

#[derive(Debug)]
pub struct ApiContext {
    pub kind: Option<String>,
    pub uri: Option<String>,
}

/// `GET /me/player`.
#[derive(Debug)]
pub struct ApiPlayerStatus {
    pub is_playing: bool,
    pub progress_ms: Option<u32>,
    pub item: Option<ApiTrack>,
    pub device: Option<ApiDevice>,
    pub context: Option<ApiContext>,
    pub repeat_state: Option<String>,
    pub shuffle_state: Option<bool>,
}

/// `GET /me/player/queue`.
#[derive(Debug)]
pub struct ApiQueue {
    pub currently_playing: Option<ApiTrack>,
    pub queue: Vec<ApiTrack>,
}

/// The playing track and the tracks queued after it.
#[derive(Debug)]
pub struct QueueState {
    pub now_playing: Option<Track>,
    pub queue: Vec<Track>,
}

/// The artists' names.
pub open spec fn artist_names(a: Seq<ApiArtist>) -> Seq<Seq<char>> {
    a.map_values(|x: ApiArtist| x.name@)
}

/// The ids of the artists that have one, in order.
pub open spec fn artist_ids(a: Seq<ApiArtist>) -> Seq<Seq<char>>
    decreases a.len(),
{
    if a.len() == 0 {
        Seq::empty()
    } else {
        let r = artist_ids(a.drop_last());
        match a.last().id {
            Some(i) => r.push(i@),
            None => r,
        }
    }
}

/// `t` is the domain track of `item` (which must have an id).
pub open spec fn is_track_of(t: Track, item: ApiTrack) -> bool {
    &&& (item.id matches Some(id) && t.id@ == id@)
    &&& t.name@ == item.name@
    &&& opt_view(t.album) == match item.album {
        Some(a) => Some(a.name@),
        None => None,
    }
    &&& opt_view(t.album_id) == match item.album {
        Some(a) => opt_view(a.id),
        None => None,
    }
    &&& strings_view(t.artists) == artist_names(item.artists@)
    &&& strings_view(t.artist_ids) == artist_ids(item.artists@)
    &&& t.duration_ms == item.duration_ms
}

fn names_of(a: &Vec<ApiArtist>) -> (v: Vec<String>)
    ensures
        strings_view(v) == artist_names(a@),
{
    let mut v: Vec<String> = Vec::new();
    let mut i: usize = 0;
    while i < a.len()
        invariant
            i <= a@.len(),
            strings_view(v) == artist_names(a@).take(i as int),
        decreases a.len() - i,
    {
        let ghost before = v@;
        let c = owned(a[i].name.as_str());
        v.push(c);
        assert(v@ == before.push(c));
        assert(strings_view(v) =~= crate::text::texts(before).push(c@));
        assert(artist_names(a@).take(i + 1) =~= artist_names(a@).take(i as int).push(a@[i as int].name@));
        i = i + 1;
    }
    assert(artist_names(a@).take(a@.len() as int) =~= artist_names(a@));
    v
}

fn ids_of(a: &Vec<ApiArtist>) -> (v: Vec<String>)
    ensures
        strings_view(v) == artist_ids(a@),
{
    let mut v: Vec<String> = Vec::new();
    let mut i: usize = 0;
    while i < a.len()
        invariant
            i <= a@.len(),
            strings_view(v) == artist_ids(a@.take(i as int)),
        decreases a.len() - i,
    {
        assert(a@.take(i + 1).drop_last() =~= a@.take(i as int));
        match &a[i].id {
            Some(id) => {
                let ghost before = v@;
                let c = owned(id.as_str());
                v.push(c);
                assert(v@ == before.push(c));
                assert(strings_view(v) =~= crate::text::texts(before).push(c@));
            },
            None => {},
        }
        i = i + 1;
    }
    assert(a@.take(a@.len() as int) =~= a@);
    v
}

/// The domain track of an API track; none without an id.
pub fn map_track(item: &ApiTrack) -> (r: Option<Track>)
    ensures
        match r {
            Some(t) => is_track_of(t, *item),
            None => item.id is None,
        },
{
    match &item.id {
        None => None,
        Some(id) => {
            let (album, album_id) = match &item.album {
                Some(a) => (Some(owned(a.name.as_str())), crate::spotify::auth::clone_opt_string(&a.id)),
                None => (None, None),
            };
            Some(
                Track {
                    id: owned(id.as_str()),
                    name: owned(item.name.as_str()),
                    album,
                    album_id,
                    artists: names_of(&item.artists),
                    artist_ids: ids_of(&item.artists),
                    duration_ms: item.duration_ms,
                },
            )
        },
    }
}

/// `s` is the player status reported as `v`: the track when it has an id,
/// the device, the context when it has both a kind and a URI, the rest as
/// reported.
pub open spec fn is_status_of(s: PlayerStatus, v: ApiPlayerStatus) -> bool {
    &&& s.is_playing == v.is_playing
    &&& match (s.track, v.item) {
        (Some(t), Some(i)) => is_track_of(t, i),
        (None, Some(i)) => i.id is None,
        (None, None) => true,
        (Some(_), None) => false,
    }
    &&& match (s.device, v.device) {
        (Some(d), Some(a)) => d.id@ == a.id@ && d.name@ == a.name@ && d.volume_percent == a.volume_percent,
        (None, None) => true,
        _ => false,
    }
    &&& match v.context {
        Some(c) => match (c.kind, c.uri) {
            (Some(k), Some(u)) => (s.context matches Some(sc) && sc.kind@ == k@ && sc.uri@ == u@),
            _ => s.context is None,
        },
        None => s.context is None,
    }
    &&& s.progress_ms == v.progress_ms
    &&& opt_view(s.repeat_state) == opt_view(v.repeat_state)
    &&& s.shuffle_state == v.shuffle_state
}

/// The player status of a `GET /me/player` answer.
pub fn player_status_from(v: &ApiPlayerStatus) -> (s: PlayerStatus)
    ensures
        is_status_of(s, *v),
{
    let track = match &v.item {
        Some(i) => map_track(i),
        None => None,
    };
    let device = match &v.device {
        Some(d) => Some(Device { id: owned(d.id.as_str()), name: owned(d.name.as_str()), volume_percent: d.volume_percent }),
        None => None,
    };
    let context = match &v.context {
        Some(c) => match (&c.kind, &c.uri) {
            (Some(k), Some(u)) => Some(PlaybackContext { kind: owned(k.as_str()), uri: owned(u.as_str()) }),
            _ => None,
        },
        None => None,
    };
    PlayerStatus {
        is_playing: v.is_playing,
        track,
        device,
        context,
        progress_ms: v.progress_ms,
        repeat_state: crate::spotify::auth::clone_opt_string(&v.repeat_state),
        shuffle_state: v.shuffle_state,
    }
}

/// The status when nothing is playing (the endpoint answered 204).
pub fn idle_status() -> (s: PlayerStatus)
    ensures
        !s.is_playing,
        s.track is None,
        s.device is None,
        s.context is None,
        s.progress_ms is None,
        s.repeat_state is None,
        s.shuffle_state is None,
{
    PlayerStatus {
        is_playing: false,
        track: None,
        device: None,
        context: None,
        progress_ms: None,
        repeat_state: None,
        shuffle_state: None,
    }
}

/// The queued items whose tracks are kept: items are taken in order,
/// those with an id count, and taking stops once `limit` have counted (after
/// the first item in any case).
pub open spec fn queue_kept(q: Seq<ApiTrack>, limit: int) -> Seq<ApiTrack>
    decreases q.len(),
{
    if q.len() == 0 {
        Seq::empty()
    } else {
        let counts = q[0].id is Some;
        let head: Seq<ApiTrack> = if counts {
            seq![q[0]]
        } else {
            Seq::empty()
        };
        let left = if counts {
            limit - 1
        } else {
            limit
        };
        if left <= 0 {
            head
        } else {
            head + queue_kept(q.drop_first(), left)
        }
    }
}

/// The tracks are those of the items, in order.
pub open spec fn tracks_of(ts: Seq<Track>, items: Seq<ApiTrack>) -> bool {
    ts.len() == items.len() && forall|i: int| 0 <= i < ts.len() ==> is_track_of(#[trigger] ts[i], items[i])
}

proof fn lemma_queue_kept_step(q: Seq<ApiTrack>, i: int, limit: int)
    requires
        0 <= i < q.len(),
    ensures
        queue_kept(q.skip(i), limit) == ({
            let counts = q[i].id is Some;
            let head: Seq<ApiTrack> = if counts {
                seq![q[i]]
            } else {
                Seq::empty()
            };
            let left = if counts {
                limit - 1
            } else {
                limit
            };
            if left <= 0 {
                head
            } else {
                head + queue_kept(q.skip(i + 1), left)
            }
        }),
{
    assert(q.skip(i)[0] == q[i]);
    assert(q.skip(i).drop_first() =~= q.skip(i + 1));
}

/// The queue of a `GET /me/player/queue` answer, cut to `limit` tracks
/// (the first queued item is always looked at).
pub fn queue_state(payload: &ApiQueue, limit: u32) -> (s: QueueState)
    ensures
        match (s.now_playing, payload.currently_playing) {
            (Some(t), Some(i)) => is_track_of(t, i),
            (None, Some(i)) => i.id is None,
            (None, None) => true,
            (Some(_), None) => false,
        },
        tracks_of(s.queue@, queue_kept(payload.queue@, limit as int)),
{
    let now_playing = match &payload.currently_playing {
        Some(i) => map_track(i),
        None => None,
    };
    let q = &payload.queue;
    let mut out: Vec<Track> = Vec::new();
    let mut i: usize = 0;
    let mut stop = false;
    let ghost mut kept: Seq<ApiTrack> = Seq::empty();
    let ghost full = queue_kept(q@, limit as int);
    let ghost mut left: int = limit as int;
    assert(q@.skip(0) =~= q@);
    assert(kept + full =~= full);
    while i < q.len() && !stop
        invariant
            i <= q@.len(),
            full == queue_kept(q@, limit as int),
            !stop ==> full == kept + queue_kept(q@.skip(i as int), left),
            stop ==> full == kept,
            tracks_of(out@, kept),
            out@.len() as int + left == limit as int,
        decreases q@.len() - i,
    {
        let mapped = map_track(&q[i]);
        let ghost item = q@[i as int];
        proof {
            lemma_queue_kept_step(q@, i as int, left);
        }
        let ghost kept0 = kept;
        match mapped {
            Some(t) => {
                let ghost before = out@;
                out.push(t);
                proof {
                    kept = kept.push(item);
                    left = left - 1;
                    assert forall|k: int| 0 <= k < out@.len() implies is_track_of(#[trigger] out@[k], kept[k]) by {
                        if k < before.len() {
                            assert(out@[k] == before[k]);
                            assert(kept[k] == kept0[k]);
                        }
                    }
                    assert(kept0 + seq![item] =~= kept);
                }
            },
            None => {
                proof {
                    assert(kept0 + Seq::<ApiTrack>::empty() =~= kept);
                }
            },
        }
        proof {
            assert((kept0 + seq![item]) + queue_kept(q@.skip(i + 1), left) =~= kept0 + (seq![item] + queue_kept(q@.skip(i + 1), left)));
            assert((kept0 + Seq::<ApiTrack>::empty()) + queue_kept(q@.skip(i + 1), left) =~= kept0 + (Seq::<ApiTrack>::empty() + queue_kept(q@.skip(i + 1), left)));
        }
        if out.len() as u64 >= limit as u64 {
            stop = true;
        }
        i = i + 1;
    }
    proof {
        if !stop {
            assert(q@.skip(i as int) =~= Seq::<ApiTrack>::empty());
            assert(kept + Seq::<ApiTrack>::empty() =~= kept);
        }
    }
    QueueState { now_playing, queue: out }
}

/// Path of the shuffle control.
pub fn shuffle_path(state: bool) -> (p: String)
    ensures
        p@ == "/me/player/shuffle?state="@ + (if state {
            "true"@
        } else {
            "false"@
        }),
{
    let mut p = owned("/me/player/shuffle?state=");
    push_str(&mut p, if state { "true" } else { "false" });
    p
}

/// Path of the repeat control.
pub fn repeat_path(state: &str) -> (p: String)
    ensures
        p@ == "/me/player/repeat?state="@ + state@,
{
    let mut p = owned("/me/player/repeat?state=");
    push_str(&mut p, state);
    p
}

/// Path of the volume control.
pub fn volume_path(percent: u32) -> (p: String)
    ensures
        p@ == "/me/player/volume?volume_percent="@ + dec(percent as nat),
{
    let mut p = owned("/me/player/volume?volume_percent=");
    let n = fmt_u64(percent as u64);
    push_str(&mut p, n.as_str());
    p
}

} // verus!
