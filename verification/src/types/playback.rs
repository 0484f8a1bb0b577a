//! Playback state, devices, queue and listening history.

use vstd::prelude::*;
use crate::text::{owned, clock, fmt_clock};
use crate::types::artist::first_artist_name;
use crate::types::common::{ExternalUrls, str_view};
use crate::types::track::{Track, duration_clock};

verus! {

/// What is playing, where, and how.
#[derive(Debug, Clone)]
pub struct PlaybackState {
    pub device: Option<Device>,
    pub repeat_state: Option<String>,
    pub shuffle_state: Option<bool>,
    pub context: Option<PlaybackContext>,
    pub timestamp: Option<u64>,
    pub progress_ms: Option<u64>,
    pub is_playing: bool,
    pub item: Option<Track>,
    pub currently_playing_type: Option<String>,
    pub actions: Option<PlaybackActions>,
}

/// The album, playlist or artist being played from.
#[derive(Debug, Clone)]
pub struct PlaybackContext {
    pub context_type: Option<String>,
    pub href: Option<String>,
    pub external_urls: Option<ExternalUrls>,
    pub uri: Option<String>,
}

#[derive(Debug, Clone)]
pub struct PlaybackActions {
    pub interrupting_playback: Option<bool>,
    pub pausing: Option<bool>,
    pub resuming: Option<bool>,
    pub seeking: Option<bool>,
    pub skipping_next: Option<bool>,
    pub skipping_prev: Option<bool>,
    pub toggling_repeat_context: Option<bool>,
    pub toggling_shuffle: Option<bool>,
    pub toggling_repeat_track: Option<bool>,
    pub transferring_playback: Option<bool>,
}

/// A Spotify Connect device.
#[derive(Debug, Clone)]
pub struct Device {
    pub id: Option<String>,
    pub is_active: bool,
    pub is_private_session: Option<bool>,
    pub is_restricted: Option<bool>,
    pub name: String,
    pub device_type: String,
    pub volume_percent: Option<u32>,
    pub supports_volume: Option<bool>,
}

#[derive(Debug, Clone)]
pub struct DevicesResponse {
    pub devices: Vec<Device>,
}

#[derive(Debug, Clone)]
pub struct QueueResponse {
    pub currently_playing: Option<Track>,
    pub queue: Vec<Track>,
}

/// One entry of the listening history.
#[derive(Debug, Clone)]
pub struct PlayHistory {
    pub track: Track,
    pub played_at: String,
    pub context: Option<PlaybackContext>,
}

#[derive(Debug, Clone)]
pub struct RecentlyPlayedResponse {
    pub href: Option<String>,
    pub limit: Option<u32>,
    pub next: Option<String>,
    pub cursors: Option<RecentlyPlayedCursors>,
    pub total: Option<u32>,
    pub items: Vec<PlayHistory>,
}

#[derive(Debug, Clone)]
pub struct RecentlyPlayedCursors {
    pub after: Option<String>,
    pub before: Option<String>,
}

impl PlaybackState {
    /// The playing track's name.
    pub fn track_name(&self) -> (r: Option<&str>)
        ensures
            str_view(r) == match self.item {
                Some(t) => Some(t.name@),
                None => None,
            },
    {
        match &self.item {
            Some(t) => Some(t.name.as_str()),
            None => None,
        }
    }

    /// The playing track's primary artist.
    pub fn artist_name(&self) -> (r: Option<&str>)
        ensures
            str_view(r) == match self.item {
                Some(t) => first_artist_name(t.artists),
                None => None,
            },
    {
        match &self.item {
            Some(t) => t.artist_name(),
            None => None,
        }
    }

    /// `m:ss` of the position (`0:00` when unknown).
    pub fn progress_str(&self) -> (s: String)
        ensures
            s@ == duration_clock(match self.progress_ms {
                Some(ms) => ms,
                None => 0,
            }),
    {
        let ms = match self.progress_ms {
            Some(ms) => ms,
            None => 0,
        };
        fmt_clock(ms / 1000)
    }

    /// `m:ss` of the playing track's length (`0:00` without a track).
    pub fn duration_str(&self) -> (s: String)
        ensures
            s@ == match self.item {
                Some(t) => duration_clock(t.duration_ms),
                None => "0:00"@,
            },
    {
        match &self.item {
            Some(t) => t.duration_str(),
            None => owned("0:00"),
        }
    }

    /// The active device's name.
    pub fn device_name(&self) -> (r: Option<&str>)
        ensures
            str_view(r) == match self.device {
                Some(d) => Some(d.name@),
                None => None,
            },
    {
        match &self.device {
            Some(d) => Some(d.name.as_str()),
            None => None,
        }
    }
}

/// The label shown for a device type reported by the API.
pub open spec fn device_label(t: Seq<char>) -> Seq<char> {
    if t == "Computer"@ {
        "Computer"@
    } else if t == "Smartphone"@ {
        "Phone"@
    } else if t == "Speaker"@ {
        "Speaker"@
    } else if t == "TV"@ {
        "TV"@
    } else if t == "AVR"@ {
        "Receiver"@
    } else if t == "STB"@ {
        "Set-top Box"@
    } else if t == "AudioDongle"@ {
        "Audio Dongle"@
    } else if t == "GameConsole"@ {
        "Game Console"@
    } else if t == "CastVideo"@ || t == "CastAudio"@ {
        "Cast"@
    } else if t == "Automobile"@ {
        "Car"@
    } else if t == "Tablet"@ {
        "Tablet"@
    } else {
        t
    }
}

impl Device {
    /// A readable name for the device type; unknown types show as reported.
    pub fn device_type_display(&self) -> (r: &str)
        ensures
            r@ == device_label(self.device_type@),
    {
        let t = &self.device_type;
        if *t == owned("Computer") {
            "Computer"
        } else if *t == owned("Smartphone") {
            "Phone"
        } else if *t == owned("Speaker") {
            "Speaker"
        } else if *t == owned("TV") {
            "TV"
        } else if *t == owned("AVR") {
            "Receiver"
        } else if *t == owned("STB") {
            "Set-top Box"
        } else if *t == owned("AudioDongle") {
            "Audio Dongle"
        } else if *t == owned("GameConsole") {
            "Game Console"
        } else if *t == owned("CastVideo") || *t == owned("CastAudio") {
            "Cast"
        } else if *t == owned("Automobile") {
            "Car"
        } else if *t == owned("Tablet") {
            "Tablet"
        } else {
            t.as_str()
        }
    }
}

} // verus!
