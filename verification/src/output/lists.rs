//! Output of pins, settings and the cache record.

use vstd::prelude::*;
use crate::domain::media::{CacheStatus, PinnedPlaylist};
use crate::domain::settings::Settings;
use crate::output::table::{TableConfig, byte_len, lines_view, padded, pad_cell_pub, shown_cell,
    truncate_cell, DEFAULT_MAX_WIDTH};
use crate::text::{dec, fmt_u64, owned, push_str};

verus! {

/// The width of the pin name column: the most bytes a shown name takes,
/// and at least the width of `NAME`.
pub open spec fn name_width(names: Seq<Seq<char>>) -> nat
    decreases names.len(),
{
    if names.len() == 0 {
        4
    } else {
        let w = name_width(names.drop_last());
        let b = byte_len(names.last()) as nat;
        if w >= b {
            w
        } else {
            b
        }
    }
}

/// The pins' names and URLs as shown.
pub open spec fn shown_names(pins: Seq<PinnedPlaylist>, cfg: TableConfig) -> Seq<Seq<char>> {
    pins.map_values(|p: PinnedPlaylist| shown_cell(p.name@, cfg))
}

pub open spec fn shown_urls(pins: Seq<PinnedPlaylist>, cfg: TableConfig) -> Seq<Seq<char>> {
    pins.map_values(|p: PinnedPlaylist| shown_cell(p.url@, cfg))
}

/// `pin list`: a `NAME  URL` header and one line per pin (nothing at all
/// without pins).
pub open spec fn pin_list_text(pins: Seq<PinnedPlaylist>, cfg: TableConfig) -> Seq<Seq<char>> {
    if pins.len() == 0 {
        Seq::empty()
    } else {
        let names = shown_names(pins, cfg);
        let urls = shown_urls(pins, cfg);
        let w = name_width(names);
        seq![padded("NAME"@, w) + "  URL"@] + Seq::new(
            pins.len(),
            |i: int| padded(names[i], w) + "  "@ + urls[i],
        )
    }
}

fn shown(text: &String, cfg: TableConfig) -> (r: String)
    ensures
        r@ == shown_cell(text@, cfg),
{
    if cfg.truncate {
        let max = match cfg.max_width {
            Some(w) => w,
            None => DEFAULT_MAX_WIDTH,
        };
        truncate_cell(text.as_str(), max)
    } else {
        owned(text.as_str())
    }
}

pub fn pin_list_human(pins: Vec<PinnedPlaylist>, table: TableConfig) -> (lines: Vec<String>)
    ensures
        lines_view(lines@) == pin_list_text(pins@, table),
{
    let mut lines: Vec<String> = Vec::new();
    if pins.len() == 0 {
        assert(lines_view(lines@) =~= pin_list_text(pins@, table));
        return lines;
    }
    let ghost names = shown_names(pins@, table);
    let ghost urls = shown_urls(pins@, table);
    let mut width: usize = 4;
    let mut i: usize = 0;
    assert(names.take(0) =~= Seq::<Seq<char>>::empty());
    while i < pins.len()
        invariant
            i <= pins@.len(),
            names == shown_names(pins@, table),
            width as nat == name_width(names.take(i as int)),
        decreases pins.len() - i,
    {
        let n = shown(&pins[i].name, table);
        let b = n.as_str().len();
        assert(names.take(i + 1).drop_last() =~= names.take(i as int));
        assert(names[i as int] == n@);
        if b > width {
            width = b;
        }
        i = i + 1;
    }
    assert(names.take(pins@.len() as int) =~= names);
    let mut header = String::new();
    let name_hdr = owned("NAME");
    pad_cell_pub(&mut header, &name_hdr, width);
    push_str(&mut header, "  URL");
    lines.push(header);
    let ghost w = width as nat;
    let ghost body = Seq::new(pins@.len(), |k: int| padded(names[k], w) + "  "@ + urls[k]);
    assert(lines_view(lines@) =~= seq![padded("NAME"@, w) + "  URL"@]);
    let mut i: usize = 0;
    while i < pins.len()
        invariant
            i <= pins@.len(),
            names == shown_names(pins@, table),
            urls == shown_urls(pins@, table),
            w == width as nat,
            w == name_width(names),
            body == Seq::new(pins@.len(), |k: int| padded(names[k], w) + "  "@ + urls[k]),
            lines_view(lines@) == seq![padded("NAME"@, w) + "  URL"@] + body.take(i as int),
        decreases pins.len() - i,
    {
        let n = shown(&pins[i].name, table);
        let u = shown(&pins[i].url, table);
        let mut l = String::new();
        pad_cell_pub(&mut l, &n, width);
        push_str(&mut l, "  ");
        push_str(&mut l, u.as_str());
        assert(l@ == body[i as int]);
        let ghost before = lines@;
        lines.push(l);
        assert(lines@ == before.push(l));
        assert(lines_view(lines@) =~= lines_view(before).push(l@));
        assert(body.take(i + 1) =~= body.take(i as int).push(body[i as int]));
        i = i + 1;
    }
    assert(body.take(pins@.len() as int) =~= body);
    lines
}

/// `settings`: `country=..` and `user_name=..` for the known ones.
pub open spec fn settings_text(s: Settings) -> Seq<Seq<char>> {
    let c: Seq<Seq<char>> = match s.country {
        Some(x) => seq!["country="@ + x@],
        None => Seq::empty(),
    };
    match s.user_name {
        Some(u) => c.push("user_name="@ + u@),
        None => c,
    }
}

pub fn settings_human(settings: &Settings) -> (lines: Vec<String>)
    ensures
        lines_view(lines@) == settings_text(*settings),
{
    let mut lines: Vec<String> = Vec::new();
    match &settings.country {
        Some(c) => {
            let mut l = owned("country=");
            push_str(&mut l, c.as_str());
            lines.push(l);
        },
        None => {},
    }
    match &settings.user_name {
        Some(u) => {
            let mut l = owned("user_name=");
            push_str(&mut l, u.as_str());
            lines.push(l);
        },
        None => {},
    }
    assert(lines_view(lines@) =~= settings_text(*settings));
    lines
}

pub struct SettingsPayload {
    pub country: Option<String>,
    pub user_name: Option<String>,
}

pub fn settings_payload(settings: Settings) -> (p: SettingsPayload)
    ensures
        p.country == settings.country,
        p.user_name == settings.user_name,
{
    SettingsPayload { country: settings.country, user_name: settings.user_name }
}

/// `cache status`: one line.
pub open spec fn cache_status_text(s: CacheStatus) -> Seq<char> {
    "cache_root="@ + s.root@ + " devices="@ + dec(s.device_count as nat) + " playlists="@ + dec(
        s.playlist_count as nat,
    )
}

pub fn status_human(status: &CacheStatus) -> (lines: Vec<String>)
    ensures
        lines_view(lines@) == seq![cache_status_text(*status)],
{
    let mut l = owned("cache_root=");
    push_str(&mut l, status.root.as_str());
    push_str(&mut l, " devices=");
    let d = fmt_u64(status.device_count as u64);
    push_str(&mut l, d.as_str());
    push_str(&mut l, " playlists=");
    let p = fmt_u64(status.playlist_count as u64);
    push_str(&mut l, p.as_str());
    let mut lines: Vec<String> = Vec::new();
    lines.push(l);
    assert(lines_view(lines@) =~= seq![cache_status_text(*status)]);
    lines
}

pub struct CacheStatusPayload {
    pub root: String,
    pub device_count: usize,
    pub playlist_count: usize,
}

pub fn cache_status_payload(status: CacheStatus) -> (p: CacheStatusPayload)
    ensures
        p.root == status.root,
        p.device_count == status.device_count,
        p.playlist_count == status.playlist_count,
{
    CacheStatusPayload {
        root: status.root,
        device_count: status.device_count,
        playlist_count: status.playlist_count,
    }
}

} // verus!
