//! Playback change detection for the event stream of the RPC daemon.

use vstd::prelude::*;
use crate::json::{JsonNumber, JsonValue, spec_as_bool, spec_as_str, spec_as_u64, spec_get};
use crate::rpc::dispatch::opt_view;
use crate::rpc::protocol::{RpcNotification, is_str_of};
use crate::text::owned;

verus! {

/// Event types that clients can subscribe to.
#[derive(Debug, Clone, Copy, PartialEq, Eq, Structural)]
pub enum EventType {
    TrackChanged,
    PlaybackStateChanged,
    VolumeChanged,
    ShuffleChanged,
    RepeatChanged,
    DeviceChanged,
}

/// Playback state snapshot for change detection.
#[derive(Debug)]
pub struct PlaybackSnapshot {
    pub track_id: Option<String>,
    pub is_playing: bool,
    pub volume: u8,
    pub shuffle: bool,
    pub repeat: String,
    pub device_id: Option<String>,
}

/// `get(a).and_then(|x| x.get(b))`.
pub open spec fn get2(v: JsonValue, a: Seq<char>, b: Seq<char>) -> Option<JsonValue> {
    match spec_get(v, a) {
        Some(x) => spec_get(x, b),
        None => None,
    }
}

pub open spec fn opt_as_str(v: Option<JsonValue>) -> Option<Seq<char>> {
    match v {
        Some(x) => spec_as_str(x),
        None => None,
    }
}

pub open spec fn opt_as_bool(v: Option<JsonValue>) -> Option<bool> {
    match v {
        Some(x) => spec_as_bool(x),
        None => None,
    }
}

pub open spec fn opt_as_u64(v: Option<JsonValue>) -> Option<u64> {
    match v {
        Some(x) => spec_as_u64(x),
        None => None,
    }
}

/// The snapshot that a playback state object describes, field by field;
/// a missing volume reads as 0 (truncated to a byte), a missing repeat
/// state as "off".
pub open spec fn snapshot_of(s: PlaybackSnapshot, state: JsonValue) -> bool {
    &&& opt_view(s.track_id) == opt_as_str(get2(state, "item"@, "id"@))
    &&& s.is_playing == match opt_as_bool(spec_get(state, "is_playing"@)) {
        Some(b) => b,
        None => false,
    }
    &&& s.volume == (match opt_as_u64(get2(state, "device"@, "volume_percent"@)) {
        Some(n) => n,
        None => 0u64,
    }) as u8
    &&& s.shuffle == match opt_as_bool(spec_get(state, "shuffle_state"@)) {
        Some(b) => b,
        None => false,
    }
    &&& s.repeat@ == match opt_as_str(spec_get(state, "repeat_state"@)) {
        Some(r) => r,
        None => "off"@,
    }
    &&& opt_view(s.device_id) == opt_as_str(get2(state, "device"@, "id"@))
}

/// The events that a change from `old` to `new` raises, in broadcast order.
pub open spec fn changes(old: PlaybackSnapshot, new: PlaybackSnapshot) -> Seq<EventType> {
    (if opt_view(old.track_id) != opt_view(new.track_id) { seq![EventType::TrackChanged] } else { seq![] })
    + (if old.is_playing != new.is_playing { seq![EventType::PlaybackStateChanged] } else { seq![] })
    + (if old.volume != new.volume { seq![EventType::VolumeChanged] } else { seq![] })
    + (if old.shuffle != new.shuffle { seq![EventType::ShuffleChanged] } else { seq![] })
    + (if old.repeat@ != new.repeat@ { seq![EventType::RepeatChanged] } else { seq![] })
    + (if opt_view(old.device_id) != opt_view(new.device_id) { seq![EventType::DeviceChanged] } else { seq![] })
}

/// The notification method of an event.
pub open spec fn event_method(t: EventType) -> Seq<char> {
    match t {
        EventType::TrackChanged => "event.trackChanged"@,
        EventType::PlaybackStateChanged => "event.playbackStateChanged"@,
        EventType::VolumeChanged => "event.volumeChanged"@,
        EventType::ShuffleChanged => "event.shuffleChanged"@,
        EventType::RepeatChanged => "event.repeatChanged"@,
        EventType::DeviceChanged => "event.deviceChanged"@,
    }
}

/// A JSON string, or `null` for an absent one.
pub open spec fn is_opt_str(v: JsonValue, s: Option<Seq<char>>) -> bool {
    match s {
        Some(x) => is_str_of(v, x),
        None => v == JsonValue::Null,
    }
}

/// The single parameter that an event carries, taken from the new state.
pub open spec fn event_param(t: EventType, new: PlaybackSnapshot, key: Seq<char>, v: JsonValue) -> bool {
    match t {
        EventType::TrackChanged => key == "track_id"@ && is_opt_str(v, opt_view(new.track_id)),
        EventType::PlaybackStateChanged => key == "is_playing"@ && v == JsonValue::Bool(new.is_playing),
        EventType::VolumeChanged => key == "volume"@ && v == JsonValue::Number(JsonNumber::PosInt(new.volume as u64)),
        EventType::ShuffleChanged => key == "shuffle"@ && v == JsonValue::Bool(new.shuffle),
        EventType::RepeatChanged => key == "repeat"@ && is_str_of(v, new.repeat@),
        EventType::DeviceChanged => key == "device_id"@ && is_opt_str(v, opt_view(new.device_id)),
    }
}

/// The notification broadcast for event `t`.
pub open spec fn is_event_notification(n: RpcNotification, t: EventType, new: PlaybackSnapshot) -> bool {
    &&& n.jsonrpc@ == "2.0"@
    &&& n.method@ == event_method(t)
    &&& n.params matches Some(JsonValue::Object(entries)) && entries@.len() == 1 && event_param(
        t,
        new,
        entries@[0].0@,
        entries@[0].1,
    )
}

fn opt_string_eq(a: &Option<String>, b: &Option<String>) -> (r: bool)
    ensures
        r == (opt_view(*a) == opt_view(*b)),
{
    match (a, b) {
        (Some(x), Some(y)) => *x == *y,
        (None, None) => true,
        _ => false,
    }
}

fn opt_string_json(a: &Option<String>) -> (v: JsonValue)
    ensures
        is_opt_str(v, opt_view(*a)),
{
    match a {
        Some(x) => JsonValue::Str(owned(x.as_str())),
        None => JsonValue::Null,
    }
}

fn notification(t: EventType, key: &str, v: JsonValue, Ghost(new): Ghost<PlaybackSnapshot>) -> (n: RpcNotification)
    requires
        event_param(t, new, key@, v),
    ensures
        is_event_notification(n, t, new),
{
    let method = match t {
        EventType::TrackChanged => "event.trackChanged",
        EventType::PlaybackStateChanged => "event.playbackStateChanged",
        EventType::VolumeChanged => "event.volumeChanged",
        EventType::ShuffleChanged => "event.shuffleChanged",
        EventType::RepeatChanged => "event.repeatChanged",
        EventType::DeviceChanged => "event.deviceChanged",
    };
    let mut entries: Vec<(String, JsonValue)> = Vec::new();
    entries.push((owned(key), v));
    RpcNotification::new(method, Some(JsonValue::Object(entries)))
}

impl PlaybackSnapshot {
    /// The snapshot before any state was seen.
    pub fn initial() -> (s: Self)
        ensures
            s.track_id is None,
            !s.is_playing,
            s.volume == 0,
            !s.shuffle,
            s.repeat@ == Seq::<char>::empty(),
            s.device_id is None,
    {
        PlaybackSnapshot {
            track_id: None,
            is_playing: false,
            volume: 0,
            shuffle: false,
            repeat: String::new(),
            device_id: None,
        }
    }

    /// Reads a snapshot from a Spotify playback state object.
    pub fn from_json(state: &JsonValue) -> (s: Self)
        ensures
            snapshot_of(s, *state),
    {
        let track_id = match state.get("item") {
            Some(item) => match item.get("id") {
                Some(id) => match id.as_str() {
                    Some(x) => Some(owned(x)),
                    None => None,
                },
                None => None,
            },
            None => None,
        };
        let is_playing = match state.get("is_playing") {
            Some(v) => v.as_bool().unwrap_or(false),
            None => false,
        };
        let volume = (match state.get("device") {
            Some(d) => match d.get("volume_percent") {
                Some(v) => v.as_u64().unwrap_or(0),
                None => 0,
            },
            None => 0,
        }) as u8;
        let shuffle = match state.get("shuffle_state") {
            Some(v) => v.as_bool().unwrap_or(false),
            None => false,
        };
        let repeat = match state.get("repeat_state") {
            Some(v) => match v.as_str() {
                Some(x) => owned(x),
                None => owned("off"),
            },
            None => owned("off"),
        };
        let device_id = match state.get("device") {
            Some(d) => match d.get("id") {
                Some(id) => match id.as_str() {
                    Some(x) => Some(owned(x)),
                    None => None,
                },
                None => None,
            },
            None => None,
        };
        PlaybackSnapshot { track_id, is_playing, volume, shuffle, repeat, device_id }
    }
}

/// The notifications that a change from `old` to `new` broadcasts, in order:
/// one per field that differs, each carrying the new value.
pub fn detect_changes(old: &PlaybackSnapshot, new: &PlaybackSnapshot) -> (r: Vec<RpcNotification>)
    ensures
        r@.len() == changes(*old, *new).len(),
        forall|k: int| 0 <= k < r@.len() ==> is_event_notification(#[trigger] r@[k], changes(*old, *new)[k], *new),
{
    let ghost n = *new;
    let ghost evs: Seq<EventType> = seq![];
    let mut out: Vec<RpcNotification> = Vec::new();
    if !opt_string_eq(&old.track_id, &new.track_id) {
        out.push(notification(EventType::TrackChanged, "track_id", opt_string_json(&new.track_id), Ghost(n)));
        proof { evs = evs.push(EventType::TrackChanged); }
    }
    assert(evs == (if opt_view(old.track_id) != opt_view(new.track_id) { seq![EventType::TrackChanged] } else { seq![] }));
    let ghost e1 = evs;
    if old.is_playing != new.is_playing {
        out.push(notification(EventType::PlaybackStateChanged, "is_playing", JsonValue::Bool(new.is_playing), Ghost(n)));
        proof { evs = evs.push(EventType::PlaybackStateChanged); }
    }
    assert(evs == e1 + (if old.is_playing != new.is_playing { seq![EventType::PlaybackStateChanged] } else { seq![] }));
    let ghost e2 = evs;
    if old.volume != new.volume {
        out.push(notification(EventType::VolumeChanged, "volume", JsonValue::Number(JsonNumber::PosInt(new.volume as u64)), Ghost(n)));
        proof { evs = evs.push(EventType::VolumeChanged); }
    }
    assert(evs == e2 + (if old.volume != new.volume { seq![EventType::VolumeChanged] } else { seq![] }));
    let ghost e3 = evs;
    if old.shuffle != new.shuffle {
        out.push(notification(EventType::ShuffleChanged, "shuffle", JsonValue::Bool(new.shuffle), Ghost(n)));
        proof { evs = evs.push(EventType::ShuffleChanged); }
    }
    assert(evs == e3 + (if old.shuffle != new.shuffle { seq![EventType::ShuffleChanged] } else { seq![] }));
    let ghost e4 = evs;
    if old.repeat != new.repeat {
        out.push(notification(EventType::RepeatChanged, "repeat", JsonValue::Str(owned(new.repeat.as_str())), Ghost(n)));
        proof { evs = evs.push(EventType::RepeatChanged); }
    }
    assert(evs == e4 + (if old.repeat@ != new.repeat@ { seq![EventType::RepeatChanged] } else { seq![] }));
    let ghost e5 = evs;
    if !opt_string_eq(&old.device_id, &new.device_id) {
        out.push(notification(EventType::DeviceChanged, "device_id", opt_string_json(&new.device_id), Ghost(n)));
        proof { evs = evs.push(EventType::DeviceChanged); }
    }
    assert(evs == e5 + (if opt_view(old.device_id) != opt_view(new.device_id) { seq![EventType::DeviceChanged] } else { seq![] }));
    assert(evs == changes(*old, *new));
    out
}

proof fn lemma_contains_concat(a: Seq<EventType>, b: Seq<EventType>, x: EventType)
    ensures
        (a + b).contains(x) <==> (a.contains(x) || b.contains(x)),
{
    if a.contains(x) {
        let i = choose|i: int| 0 <= i < a.len() && a[i] == x;
        assert((a + b)[i] == x);
    }
    if b.contains(x) {
        let i = choose|i: int| 0 <= i < b.len() && b[i] == x;
        assert((a + b)[a.len() + i] == x);
    }
    if (a + b).contains(x) {
        let i = choose|i: int| 0 <= i < (a + b).len() && (a + b)[i] == x;
        if i < a.len() {
            assert(a[i] == x);
        } else {
            assert(b[i - a.len()] == x);
        }
    }
}

/// One optional event: the event when `changed`, else none.
spec fn one_if(changed: bool, t: EventType) -> Seq<EventType> {
    if changed { seq![t] } else { seq![] }
}

proof fn lemma_one_if(changed: bool, t: EventType, x: EventType)
    ensures
        one_if(changed, t).contains(x) <==> (changed && x == t),
{
    if changed {
        assert(one_if(changed, t)[0] == t);
    }
}

/// Each field that changes raises its own event, and only a changed field
/// does: a volume turned up or down raises `VolumeChanged`, and so on for
/// every field. The events do not depend on the direction of the change.
pub proof fn lemma_changes_follow_fields(old: PlaybackSnapshot, new: PlaybackSnapshot, x: EventType)
    ensures
        changes(old, new).contains(x) <==> match x {
            EventType::TrackChanged => opt_view(old.track_id) != opt_view(new.track_id),
            EventType::PlaybackStateChanged => old.is_playing != new.is_playing,
            EventType::VolumeChanged => old.volume != new.volume,
            EventType::ShuffleChanged => old.shuffle != new.shuffle,
            EventType::RepeatChanged => old.repeat@ != new.repeat@,
            EventType::DeviceChanged => opt_view(old.device_id) != opt_view(new.device_id),
        },
        changes(old, new) == changes(new, old),
{
    let s1 = one_if(opt_view(old.track_id) != opt_view(new.track_id), EventType::TrackChanged);
    let s2 = one_if(old.is_playing != new.is_playing, EventType::PlaybackStateChanged);
    let s3 = one_if(old.volume != new.volume, EventType::VolumeChanged);
    let s4 = one_if(old.shuffle != new.shuffle, EventType::ShuffleChanged);
    let s5 = one_if(old.repeat@ != new.repeat@, EventType::RepeatChanged);
    let s6 = one_if(opt_view(old.device_id) != opt_view(new.device_id), EventType::DeviceChanged);
    assert(changes(old, new) == s1 + s2 + s3 + s4 + s5 + s6);
    lemma_one_if(opt_view(old.track_id) != opt_view(new.track_id), EventType::TrackChanged, x);
    lemma_one_if(old.is_playing != new.is_playing, EventType::PlaybackStateChanged, x);
    lemma_one_if(old.volume != new.volume, EventType::VolumeChanged, x);
    lemma_one_if(old.shuffle != new.shuffle, EventType::ShuffleChanged, x);
    lemma_one_if(old.repeat@ != new.repeat@, EventType::RepeatChanged, x);
    lemma_one_if(opt_view(old.device_id) != opt_view(new.device_id), EventType::DeviceChanged, x);
    lemma_contains_concat(s1, s2, x);
    lemma_contains_concat(s1 + s2, s3, x);
    lemma_contains_concat(s1 + s2 + s3, s4, x);
    lemma_contains_concat(s1 + s2 + s3 + s4, s5, x);
    lemma_contains_concat(s1 + s2 + s3 + s4 + s5, s6, x);
    assert(changes(old, new) =~= changes(new, old));
}

/// A snapshot compared with itself raises no event.
pub proof fn lemma_no_change_no_events(s: PlaybackSnapshot)
    ensures
        changes(s, s).len() == 0,
{
}

} // verus!
