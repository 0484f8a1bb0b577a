//! Human-readable output: the lines each command prints.

use vstd::prelude::*;
use crate::domain::auth::{AuthScopes, AuthStatus};
use crate::domain::media::{Album, Artist, Device, PinnedPlaylist, PlayerStatus, Playlist,
    PlaylistDetail, SearchItem, SearchResults, SearchType, Track};
use crate::output::table::{TableConfig, lines_view, padded, render_table, rows_view, table_lines};
use crate::text::{clock, dec, eq_ignore_ascii_case, ascii_lower, fmt_clock, fmt_u64, join_strings,
    joined, owned, push_char, push_str, texts};

verus! {

/// `m:ss` of a time in milliseconds.
pub open spec fn time_text(ms: nat) -> Seq<char> {
    clock(ms / 1000)
}

/// `m:ss` of a position in milliseconds.
pub fn format_time(ms: u32) -> (s: String)
    ensures
        s@ == time_text(ms as nat),
{
    fmt_clock((ms / 1000) as u64)
}

/// `m:ss` of a length in milliseconds.
pub fn format_duration(ms: u64) -> (s: String)
    ensures
        s@ == time_text(ms as nat),
{
    fmt_clock(ms / 1000)
}

/// ` [pos]` or ` [pos / length]`; nothing without a position, no length
/// when it is unknown or zero.
pub open spec fn progress_text(progress_ms: Option<u32>, duration_ms: Option<u32>) -> Seq<char> {
    match progress_ms {
        None => Seq::empty(),
        Some(p) => {
            let d: u32 = match duration_ms {
                Some(d) => d,
                None => 0,
            };
            if d == 0 {
                " ["@ + time_text(p as nat) + "]"@
            } else {
                " ["@ + time_text(p as nat) + " / "@ + time_text(d as nat) + "]"@
            }
        },
    }
}

pub fn format_progress(progress_ms: Option<u32>, duration_ms: Option<u32>) -> (s: String)
    ensures
        s@ == progress_text(progress_ms, duration_ms),
{
    match progress_ms {
        None => String::new(),
        Some(p) => {
            let d: u32 = match duration_ms {
                Some(d) => d,
                None => 0,
            };
            let mut s = owned(" [");
            let t = format_time(p);
            push_str(&mut s, t.as_str());
            if d != 0 {
                push_str(&mut s, " / ");
                let u = format_time(d);
                push_str(&mut s, u.as_str());
            }
            push_str(&mut s, "]");
            s
        },
    }
}

/// The present parts, in order.
pub open spec fn present(parts: Seq<Option<String>>) -> Seq<Seq<char>>
    decreases parts.len(),
{
    if parts.len() == 0 {
        Seq::empty()
    } else {
        let r = present(parts.drop_last());
        match parts.last() {
            Some(s) => r.push(s@),
            None => r,
        }
    }
}

/// The present parts joined with ` | `.
pub fn format_optional_details(parts: &[Option<String>]) -> (s: String)
    ensures
        s@ == joined(present(parts@), " | "@),
{
    let mut kept: Vec<String> = Vec::new();
    let mut i: usize = 0;
    while i < parts.len()
        invariant
            i <= parts@.len(),
            texts(kept@) == present(parts@.take(i as int)),
        decreases parts.len() - i,
    {
        assert(parts@.take(i + 1).drop_last() =~= parts@.take(i as int));
        match &parts[i] {
            Some(p) => {
                let ghost before = kept@;
                let c = owned(p.as_str());
                kept.push(c);
                assert(kept@ == before.push(c));
                assert(texts(kept@) =~= texts(before).push(c@));
            },
            None => {},
        }
        i = i + 1;
    }
    assert(parts@.take(parts@.len() as int) =~= parts@);
    join_strings(&kept, " | ")
}

/// The owner as shown: `You` when it is the signed-in user (ignoring ASCII
/// case).
pub open spec fn owner_text(owner: Seq<char>, user_name: Option<Seq<char>>) -> Seq<char> {
    match user_name {
        Some(u) => if ascii_lower(u) == ascii_lower(owner) {
            "You"@
        } else {
            owner
        },
        None => owner,
    }
}

pub open spec fn str_opt_view(o: Option<&str>) -> Option<Seq<char>> {
    match o {
        Some(s) => Some(s@),
        None => None,
    }
}

pub fn display_owner(owner: &str, user_name: Option<&str>) -> (s: String)
    ensures
        s@ == owner_text(owner@, str_opt_view(user_name)),
{
    match user_name {
        Some(u) => if eq_ignore_ascii_case(u, owner) {
            owned("You")
        } else {
            owned(owner)
        },
        None => owned(owner),
    }
}

/// `repeat: .., shuffle: .., volume: ..` when any of the three is known.
pub open spec fn context_line(status: PlayerStatus) -> Option<Seq<char>> {
    let volume: Option<u32> = match status.device {
        Some(d) => d.volume_percent,
        None => None,
    };
    if status.repeat_state is None && status.shuffle_state is None && volume is None {
        None
    } else {
        let repeat = match status.repeat_state {
            Some(r) => r@,
            None => "unknown"@,
        };
        let shuffle = match status.shuffle_state {
            Some(true) => "on"@,
            Some(false) => "off"@,
            None => "unknown"@,
        };
        let vol = match volume {
            Some(v) => dec(v as nat) + "%"@,
            None => "unknown"@,
        };
        Some("repeat: "@ + repeat + ", shuffle: "@ + shuffle + ", volume: "@ + vol)
    }
}

/// The context line tells the shuffle states apart: two statuses that
/// differ only in their shuffle state (on, off or unknown) show different
/// lines.
pub proof fn lemma_context_line_tells_shuffle(s: PlayerStatus, t: PlayerStatus)
    requires
        s.repeat_state == t.repeat_state,
        s.device == t.device,
        s.shuffle_state != t.shuffle_state,
    ensures
        context_line(s) != context_line(t),
{
    reveal_strlit("on");
    reveal_strlit("off");
    reveal_strlit("unknown");
    if context_line(s) is Some && context_line(t) is Some {
        let repeat = match s.repeat_state {
            Some(r) => r@,
            None => "unknown"@,
        };
        let volume: Option<u32> = match s.device {
            Some(d) => d.volume_percent,
            None => None,
        };
        let vol = match volume {
            Some(v) => dec(v as nat) + "%"@,
            None => "unknown"@,
        };
        let p = "repeat: "@ + repeat + ", shuffle: "@;
        let word = |st: Option<bool>| match st {
            Some(true) => "on"@,
            Some(false) => "off"@,
            None => "unknown"@,
        };
        let ls = p + word(s.shuffle_state) + ", volume: "@ + vol;
        let lt = p + word(t.shuffle_state) + ", volume: "@ + vol;
        assert(context_line(s) == Some(ls));
        assert(context_line(t) == Some(lt));
        let n: int = p.len() as int;
        assert(ls[n] == word(s.shuffle_state)[0]);
        assert(ls[n + 1] == word(s.shuffle_state)[1]);
        assert(lt[n] == word(t.shuffle_state)[0]);
        assert(lt[n + 1] == word(t.shuffle_state)[1]);
        assert(ls[n] != lt[n] || ls[n + 1] != lt[n + 1]);
    }
}

pub fn playback_context_line(status: &PlayerStatus) -> (r: Option<String>)
    ensures
        match r {
            Some(l) => context_line(*status) == Some(l@),
            None => context_line(*status) is None,
        },
{
    let volume: Option<u32> = match &status.device {
        Some(d) => d.volume_percent,
        None => None,
    };
    if status.repeat_state.is_none() && status.shuffle_state.is_none() && volume.is_none() {
        return None;
    }
    let mut l = owned("repeat: ");
    match &status.repeat_state {
        Some(r) => push_str(&mut l, r.as_str()),
        None => push_str(&mut l, "unknown"),
    }
    push_str(&mut l, ", shuffle: ");
    match status.shuffle_state {
        Some(true) => push_str(&mut l, "on"),
        Some(false) => push_str(&mut l, "off"),
        None => push_str(&mut l, "unknown"),
    }
    push_str(&mut l, ", volume: ");
    match volume {
        Some(v) => {
            let t = fmt_u64(v as u64);
            push_str(&mut l, t.as_str());
            push_str(&mut l, "%");
        },
        None => push_str(&mut l, "unknown"),
    }
    Some(l)
}

/// ` (album)`, ` - artists` and the progress that follow a track's name.
pub open spec fn track_tail(track: Track, progress_ms: Option<u32>) -> Seq<char> {
    let album = match track.album {
        Some(a) => " ("@ + a@ + ")"@,
        None => Seq::<char>::empty(),
    };
    let artists = if track.artists@.len() == 0 {
        Seq::<char>::empty()
    } else {
        " - "@ + joined(texts(track.artists@), ", "@)
    };
    album + artists + progress_text(progress_ms, track.duration_ms)
}

fn track_tail_text(track: &Track, progress_ms: Option<u32>) -> (s: String)
    ensures
        s@ == track_tail(*track, progress_ms),
{
    let mut s = String::new();
    match &track.album {
        Some(a) => {
            push_str(&mut s, " (");
            push_str(&mut s, a.as_str());
            push_str(&mut s, ")");
        },
        None => {},
    }
    if track.artists.len() > 0 {
        push_str(&mut s, " - ");
        let j = join_strings(&track.artists, ", ");
        push_str(&mut s, j.as_str());
    }
    let p = format_progress(progress_ms, track.duration_ms);
    push_str(&mut s, p.as_str());
    proof {
        assert(s@ =~= track_tail(*track, progress_ms));
    }
    s
}

/// Lines of `auth status`.
pub open spec fn auth_status_text(status: AuthStatus) -> Seq<Seq<char>> {
    if status.logged_in {
        seq!["logged_in"@]
    } else {
        seq!["logged_out"@]
    }
}

pub fn auth_status(status: &AuthStatus) -> (lines: Vec<String>)
    ensures
        lines_view(lines@) == auth_status_text(*status),
{
    let mut lines: Vec<String> = Vec::new();
    if status.logged_in {
        lines.push(owned("logged_in"));
    } else {
        lines.push(owned("logged_out"));
    }
    assert(lines_view(lines@) =~= auth_status_text(*status));
    lines
}

/// One line of `auth scopes`: the scope in a 32-character field, then its
/// state.
pub open spec fn scope_line(scope: Seq<char>, granted: Option<Seq<Seq<char>>>) -> Seq<char> {
    let state = match granted {
        Some(g) => if g.contains(scope) {
            "ok"@
        } else {
            "missing"@
        },
        None => "unknown"@,
    };
    padded(scope, 32) + " "@ + state
}

pub open spec fn granted_texts(scopes: AuthScopes) -> Option<Seq<Seq<char>>> {
    match scopes.granted {
        Some(g) => Some(texts(g@)),
        None => None,
    }
}

pub open spec fn auth_scopes_text(scopes: AuthScopes) -> Seq<Seq<char>> {
    seq!["Scopes:"@] + texts(scopes.required@).map_values(
        |s: Seq<char>| scope_line(s, granted_texts(scopes)),
    )
}

fn contains_string(v: &Vec<String>, s: &String) -> (b: bool)
    ensures
        b == texts(v@).contains(s@),
{
    let mut i: usize = 0;
    while i < v.len()
        invariant
            i <= v@.len(),
            forall|k: int| 0 <= k < i ==> texts(v@)[k] != s@,
        decreases v.len() - i,
    {
        if v[i] == *s {
            assert(texts(v@)[i as int] == s@);
            return true;
        }
        i = i + 1;
    }
    false
}

fn pad_to(line: &mut String, text: &str, w: usize)
    ensures
        final(line)@ == old(line)@ + padded(text@, w as nat),
{
    let t = owned(text);
    crate::output::table::pad_cell_pub(line, &t, w);
}

pub fn auth_scopes(scopes: &AuthScopes) -> (lines: Vec<String>)
    ensures
        lines_view(lines@) == auth_scopes_text(*scopes),
{
    let ghost granted = granted_texts(*scopes);
    let mut lines: Vec<String> = Vec::new();
    lines.push(owned("Scopes:"));
    let mut i: usize = 0;
    while i < scopes.required.len()
        invariant
            i <= scopes.required@.len(),
            granted == granted_texts(*scopes),
            lines_view(lines@) == seq!["Scopes:"@] + texts(scopes.required@).map_values(
                |s: Seq<char>| scope_line(s, granted),
            ).take(i as int),
        decreases scopes.required.len() - i,
    {
        let scope = &scopes.required[i];
        let mut l = String::new();
        pad_to(&mut l, scope.as_str(), 32);
        push_str(&mut l, " ");
        match &scopes.granted {
            Some(g) => if contains_string(g, scope) {
                push_str(&mut l, "ok");
            } else {
                push_str(&mut l, "missing");
            },
            None => push_str(&mut l, "unknown"),
        }
        let ghost target = texts(scopes.required@).map_values(|s: Seq<char>| scope_line(s, granted));
        assert(l@ == scope_line(scope@, granted));
        assert(target[i as int] == scope_line(scope@, granted));
        let ghost before = lines@;
        lines.push(l);
        assert(lines@ == before.push(l));
        assert(lines_view(lines@) =~= lines_view(before).push(l@));
        assert(target.take(i + 1) =~= target.take(i as int).push(target[i as int]));
        i = i + 1;
    }
    assert(texts(scopes.required@).map_values(|s: Seq<char>| scope_line(s, granted)).take(
        scopes.required@.len() as int,
    ) =~= texts(scopes.required@).map_values(|s: Seq<char>| scope_line(s, granted)));
    lines
}

/// Lines of `player status`.
pub open spec fn player_status_text(status: PlayerStatus) -> Seq<Seq<char>> {
    let state = if status.is_playing {
        "playing"@
    } else {
        "paused"@
    };
    let first = match status.track {
        Some(t) => state + ": "@ + t.name@ + track_tail(t, status.progress_ms),
        None => state,
    };
    match context_line(status) {
        Some(l) => seq![first, l],
        None => seq![first],
    }
}

pub fn player_status(status: &PlayerStatus) -> (lines: Vec<String>)
    ensures
        lines_view(lines@) == player_status_text(*status),
{
    let mut first = if status.is_playing {
        owned("playing")
    } else {
        owned("paused")
    };
    match &status.track {
        Some(t) => {
            push_str(&mut first, ": ");
            push_str(&mut first, t.name.as_str());
            let tail = track_tail_text(t, status.progress_ms);
            push_str(&mut first, tail.as_str());
        },
        None => {},
    }
    let mut lines: Vec<String> = Vec::new();
    lines.push(first);
    match playback_context_line(status) {
        Some(l) => lines.push(l),
        None => {},
    }
    assert(lines_view(lines@) =~= player_status_text(*status));
    lines
}

/// Lines of `nowplaying`.
pub open spec fn now_playing_text(status: PlayerStatus) -> Seq<Seq<char>> {
    match status.track {
        Some(t) => seq!["Now Playing: "@ + t.name@ + track_tail(t, status.progress_ms)],
        None => seq!["Now Playing: (no active track)"@],
    }
}

pub fn now_playing(status: &PlayerStatus) -> (lines: Vec<String>)
    ensures
        lines_view(lines@) == now_playing_text(*status),
{
    let mut lines: Vec<String> = Vec::new();
    match &status.track {
        Some(t) => {
            let mut l = owned("Now Playing: ");
            push_str(&mut l, t.name.as_str());
            let tail = track_tail_text(t, status.progress_ms);
            push_str(&mut l, tail.as_str());
            lines.push(l);
        },
        None => lines.push(owned("Now Playing: (no active track)")),
    }
    assert(lines_view(lines@) =~= now_playing_text(*status));
    lines
}

/// The one line of an action: its message.
pub fn action(message: &str) -> (lines: Vec<String>)
    ensures
        lines_view(lines@) == seq![message@],
{
    let mut lines: Vec<String> = Vec::new();
    lines.push(owned(message));
    assert(lines_view(lines@) =~= seq![message@]);
    lines
}

/// The usage lines.
pub open spec fn help_text() -> Seq<Seq<char>> {
    seq![
        "spotify-cli <object> <verb> [target] [flags]"@,
        "objects: auth, device, info, search, nowplaying, player, playlist, pin, sync, queue, recentlyplayed"@,
        "flags: --json"@,
        "examples:"@,
        "  spotify-cli auth status"@,
        "  spotify-cli search track \"boards of canada\" --play"@,
        "  spotify-cli search \"boards of canada\""@,
        "  spotify-cli info album \"geogaddi\""@,
        "  spotify-cli nowplaying"@,
        "  spotify-cli nowplaying like"@,
        "  spotify-cli nowplaying addto \"MyRadar\""@,
        "  spotify-cli playlist list"@,
        "  spotify-cli pin add \"Release Radar\" \"<url>\""@,
    ]
}

pub fn help() -> (lines: Vec<String>)
    ensures
        lines_view(lines@) == help_text(),
{
    let mut lines: Vec<String> = Vec::new();
    lines.push(owned("spotify-cli <object> <verb> [target] [flags]"));
    lines.push(owned("objects: auth, device, info, search, nowplaying, player, playlist, pin, sync, queue, recentlyplayed"));
    lines.push(owned("flags: --json"));
    lines.push(owned("examples:"));
    lines.push(owned("  spotify-cli auth status"));
    lines.push(owned("  spotify-cli search track \"boards of canada\" --play"));
    lines.push(owned("  spotify-cli search \"boards of canada\""));
    lines.push(owned("  spotify-cli info album \"geogaddi\""));
    lines.push(owned("  spotify-cli nowplaying"));
    lines.push(owned("  spotify-cli nowplaying like"));
    lines.push(owned("  spotify-cli nowplaying addto \"MyRadar\""));
    lines.push(owned("  spotify-cli playlist list"));
    lines.push(owned("  spotify-cli pin add \"Release Radar\" \"<url>\""));
    assert(lines_view(lines@) =~= help_text());
    lines
}

/// The first line of `info artist`.
pub open spec fn artist_info_text(artist: Artist) -> Seq<Seq<char>> {
    let genres: Seq<Seq<char>> = if artist.genres@.len() == 0 {
        Seq::empty()
    } else {
        seq![joined(texts(artist.genres@), ", "@)]
    };
    let parts = match artist.followers {
        Some(f) => genres.push("followers "@ + dec(f as nat)),
        None => genres,
    };
    if parts.len() == 0 {
        seq![artist.name@]
    } else {
        seq![artist.name@ + " ("@ + joined(parts, " | "@) + ")"@]
    }
}

pub fn artist_info(artist: &Artist) -> (lines: Vec<String>)
    ensures
        lines_view(lines@) == artist_info_text(*artist),
{
    let mut parts: Vec<String> = Vec::new();
    if artist.genres.len() > 0 {
        parts.push(join_strings(&artist.genres, ", "));
    }
    match artist.followers {
        Some(f) => {
            let mut t = owned("followers ");
            let n = fmt_u64(f);
            push_str(&mut t, n.as_str());
            parts.push(t);
        },
        None => {},
    }
    let ghost genres: Seq<Seq<char>> = if artist.genres@.len() == 0 {
        Seq::empty()
    } else {
        seq![joined(texts(artist.genres@), ", "@)]
    };
    let ghost want = match artist.followers {
        Some(f) => genres.push("followers "@ + dec(f as nat)),
        None => genres,
    };
    assert(texts(parts@) =~= want);
    let mut line = owned(artist.name.as_str());
    if parts.len() > 0 {
        push_str(&mut line, " (");
        let j = join_strings(&parts, " | ");
        push_str(&mut line, j.as_str());
        push_str(&mut line, ")");
    }
    let mut lines: Vec<String> = Vec::new();
    lines.push(line);
    assert(lines_view(lines@) =~= artist_info_text(*artist));
    lines
}

/// The tags of a playlist: `collaborative`, then `public` or `private`.
pub open spec fn playlist_tags(collaborative: bool, public: Option<bool>) -> Seq<Seq<char>> {
    let c: Seq<Seq<char>> = if collaborative {
        seq!["collaborative"@]
    } else {
        Seq::empty()
    };
    match public {
        Some(true) => c.push("public"@),
        Some(false) => c.push("private"@),
        None => c,
    }
}

fn tags_text(collaborative: bool, public: Option<bool>) -> (s: String)
    ensures
        s@ == joined(playlist_tags(collaborative, public), ", "@),
{
    let mut tags: Vec<String> = Vec::new();
    if collaborative {
        tags.push(owned("collaborative"));
    }
    match public {
        Some(true) => tags.push(owned("public")),
        Some(false) => tags.push(owned("private")),
        None => {},
    }
    assert(texts(tags@) =~= playlist_tags(collaborative, public));
    join_strings(&tags, ", ")
}

/// The line of `playlist info`.
pub open spec fn playlist_info_text(p: PlaylistDetail, user_name: Option<Seq<char>>) -> Seq<Seq<char>> {
    let owner = match p.owner {
        Some(o) => owner_text(o@, user_name),
        None => "unknown"@,
    };
    let tags = playlist_tags(p.collaborative, p.public);
    let suffix = if tags.len() == 0 {
        Seq::<char>::empty()
    } else {
        " ["@ + joined(tags, ", "@) + "]"@
    };
    match p.tracks_total {
        Some(t) => seq![p.name@ + " ("@ + owner + ") - "@ + dec(t as nat) + " tracks"@ + suffix],
        None => seq![p.name@ + " ("@ + owner + ")"@ + suffix],
    }
}

pub fn playlist_info(playlist: &PlaylistDetail, user_name: Option<&str>) -> (lines: Vec<String>)
    ensures
        lines_view(lines@) == playlist_info_text(*playlist, str_opt_view(user_name)),
{
    let owner = match &playlist.owner {
        Some(o) => display_owner(o.as_str(), user_name),
        None => owned("unknown"),
    };
    let has_tags = playlist.collaborative || playlist.public.is_some();
    let mut suffix = String::new();
    if has_tags {
        push_str(&mut suffix, " [");
        let t = tags_text(playlist.collaborative, playlist.public);
        push_str(&mut suffix, t.as_str());
        push_str(&mut suffix, "]");
    }
    let mut line = owned(playlist.name.as_str());
    push_str(&mut line, " (");
    push_str(&mut line, owner.as_str());
    match playlist.tracks_total {
        Some(t) => {
            push_str(&mut line, ") - ");
            let n = fmt_u64(t as u64);
            push_str(&mut line, n.as_str());
            push_str(&mut line, " tracks");
        },
        None => push_str(&mut line, ")"),
    }
    push_str(&mut line, suffix.as_str());
    let mut lines: Vec<String> = Vec::new();
    lines.push(line);
    assert(lines_view(lines@) =~= playlist_info_text(*playlist, str_opt_view(user_name)));
    lines
}

/// The header row followed by the rows.
pub open spec fn headed(header: Seq<Seq<char>>, rows: Seq<Seq<Seq<char>>>) -> Seq<Seq<Seq<char>>> {
    seq![header] + rows
}

/// Appends copies of `more` to `lines`.
fn append_lines(lines: &mut Vec<String>, more: &Vec<String>)
    ensures
        lines_view(final(lines)@) == lines_view(old(lines)@) + lines_view(more@),
{
    let ghost start = lines@;
    let mut j: usize = 0;
    while j < more.len()
        invariant
            j <= more@.len(),
            lines_view(lines@) == lines_view(start) + lines_view(more@).take(j as int),
        decreases more.len() - j,
    {
        let l = owned(more[j].as_str());
        let ghost before = lines@;
        lines.push(l);
        assert(lines@ == before.push(l));
        assert(lines_view(lines@) =~= lines_view(before).push(l@));
        assert(lines_view(more@).take(j + 1) =~= lines_view(more@).take(j as int).push(more@[j as int]@));
        j = j + 1;
    }
    assert(lines_view(more@).take(more@.len() as int) =~= lines_view(more@));
}

/// Appends a row to the table being built.
fn push_row(rows: &mut Vec<Vec<String>>, row: Vec<String>)
    ensures
        rows_view(final(rows)@) == rows_view(old(rows)@).push(texts(row@)),
{
    let ghost before = rows@;
    rows.push(row);
    assert(rows@ == before.push(row));
    assert(rows_view(rows@) =~= rows_view(before).push(texts(row@)));
}

/// One row of an album's track table: `NN.`, name, length.
pub open spec fn album_track_row(t: crate::domain::media::AlbumTrack) -> Seq<Seq<char>> {
    seq![crate::text::dec2(t.track_number as nat) + "."@, t.name@, time_text(t.duration_ms as nat)]
}

pub open spec fn album_details_date(album: Album) -> Seq<Seq<char>> {
    match album.release_date {
        Some(r) => seq![r@],
        None => Seq::empty(),
    }
}

pub open spec fn album_details_date_count(album: Album) -> Seq<Seq<char>> {
    let d0 = album_details_date(album);
    match album.total_tracks {
        Some(t) => d0.push(dec(t as nat)),
        None => d0,
    }
}

/// The known details of an album: release date, track count, length.
pub open spec fn album_details(album: Album) -> Seq<Seq<char>> {
    let d1 = album_details_date_count(album);
    match album.duration_ms {
        Some(ms) => d1.push(time_text(ms as nat)),
        None => d1,
    }
}

/// The title line of `info album`.
pub open spec fn album_title(album: Album) -> Seq<char> {
    let artists = if album.artists@.len() == 0 {
        Seq::<char>::empty()
    } else {
        " - "@ + joined(texts(album.artists@), ", "@)
    };
    let details = joined(album_details(album), " | "@);
    if details.len() == 0 {
        album.name@ + artists
    } else {
        album.name@ + artists + " ("@ + details + ")"@
    }
}

/// `info album`: the title line, then the track table.
pub open spec fn album_info_text(album: Album, cfg: TableConfig) -> Seq<Seq<char>> {
    let title = album_title(album);
    let rows = Seq::new(album.tracks@.len(), |i: int| album_track_row(album.tracks@[i]));
    seq![title] + table_lines(headed(seq!["NO"@, "TRACK"@, "DURATION"@], rows), cfg)
}

pub fn album_info(album: &Album, table: TableConfig) -> (lines: Vec<String>)
    ensures
        lines_view(lines@) == album_info_text(*album, table),
{
    let mut title = owned(album.name.as_str());
    if album.artists.len() > 0 {
        push_str(&mut title, " - ");
        let j = join_strings(&album.artists, ", ");
        push_str(&mut title, j.as_str());
    }
    let mut parts: Vec<Option<String>> = Vec::new();
    parts.push(
        match &album.release_date {
            Some(r) => Some(owned(r.as_str())),
            None => None,
        },
    );
    parts.push(
        match album.total_tracks {
            Some(t) => Some(fmt_u64(t as u64)),
            None => None,
        },
    );
    parts.push(
        match album.duration_ms {
            Some(ms) => Some(format_duration(ms)),
            None => None,
        },
    );
    let ghost details = album_details(*album);
    proof {
        let p = parts@;
        assert(p.take(1).drop_last() =~= p.take(0));
        assert(p.take(2).drop_last() =~= p.take(1));
        assert(p.take(3).drop_last() =~= p.take(2));
        assert(p.take(3) =~= p);
        assert(p.drop_last() =~= p.take(2));
        assert(present(p.take(0)) =~= Seq::<Seq<char>>::empty());
        assert(present(p.take(1)) =~= album_details_date(*album));
        assert(present(p.take(2)) =~= album_details_date_count(*album));
        assert(present(p) =~= details);
    }
    let d = format_optional_details(parts.as_slice());
    if d.as_str().unicode_len() > 0 {
        push_str(&mut title, " (");
        push_str(&mut title, d.as_str());
        push_str(&mut title, ")");
    }
    let mut rows: Vec<Vec<String>> = Vec::new();
    let mut h: Vec<String> = Vec::new();
    h.push(owned("NO"));
    h.push(owned("TRACK"));
    h.push(owned("DURATION"));
    let ghost hdr = seq!["NO"@, "TRACK"@, "DURATION"@];
    assert(texts(h@) =~= hdr);
    push_row(&mut rows, h);
    assert(rows_view(rows@) =~= seq![hdr]);
    let mut i: usize = 0;
    while i < album.tracks.len()
        invariant
            i <= album.tracks@.len(),
            rows_view(rows@) == headed(hdr, Seq::new(i as nat, |k: int| album_track_row(album.tracks@[k]))),
        decreases album.tracks.len() - i,
    {
        let t = &album.tracks[i];
        let mut row: Vec<String> = Vec::new();
        let mut no = crate::text::fmt_u64_2(t.track_number as u64);
        push_str(&mut no, ".");
        row.push(no);
        row.push(owned(t.name.as_str()));
        row.push(format_duration(t.duration_ms as u64));
        assert(texts(row@) =~= album_track_row(*t));
        push_row(&mut rows, row);
        i = i + 1;
        assert(Seq::new(i as nat, |k: int| album_track_row(album.tracks@[k])) =~= Seq::new(
            (i - 1) as nat,
            |k: int| album_track_row(album.tracks@[k]),
        ).push(album_track_row(album.tracks@[i - 1])));
    }
    assert(title@ =~= album_title(*album));
    assert(rows_view(rows@) =~= headed(hdr, Seq::new(album.tracks@.len(), |k: int| album_track_row(album.tracks@[k]))));
    let table_part = render_table(&rows, table);
    let mut lines: Vec<String> = Vec::new();
    lines.push(title);
    assert(lines_view(lines@) =~= seq![title@]);
    append_lines(&mut lines, &table_part);
    assert(lines_view(lines@) =~= album_info_text(*album, table));
    lines
}


/// A playlist's row: name, owner as shown, tags.
pub open spec fn playlist_row(p: Playlist, user_name: Option<Seq<char>>) -> Seq<Seq<char>> {
    let owner = match p.owner {
        Some(o) => owner_text(o@, user_name),
        None => Seq::<char>::empty(),
    };
    seq![p.name@, owner, joined(playlist_tags(p.collaborative, p.public), ", "@)]
}

pub open spec fn playlist_rows(ps: Seq<Playlist>, user_name: Option<Seq<char>>) -> Seq<Seq<Seq<char>>> {
    Seq::new(ps.len(), |i: int| playlist_row(ps[i], user_name))
}

/// The `NAME OWNER TAGS` header.
pub open spec fn playlist_header() -> Seq<Seq<char>> {
    seq!["NAME"@, "OWNER"@, "TAGS"@]
}

fn push_header3(rows: &mut Vec<Vec<String>>, a: &str, b: &str, c: &str)
    ensures
        rows_view(final(rows)@) == rows_view(old(rows)@).push(seq![a@, b@, c@]),
{
    let mut h: Vec<String> = Vec::new();
    h.push(owned(a));
    h.push(owned(b));
    h.push(owned(c));
    assert(texts(h@) =~= seq![a@, b@, c@]);
    push_row(rows, h);
}

fn push_playlist_rows(rows: &mut Vec<Vec<String>>, playlists: &Vec<Playlist>, user_name: Option<&str>)
    ensures
        rows_view(final(rows)@) == rows_view(old(rows)@) + playlist_rows(playlists@, str_opt_view(user_name)),
{
    let ghost start = rows_view(rows@);
    let ghost u = str_opt_view(user_name);
    let mut i: usize = 0;
    while i < playlists.len()
        invariant
            i <= playlists@.len(),
            u == str_opt_view(user_name),
            rows_view(rows@) == start + playlist_rows(playlists@, u).take(i as int),
        decreases playlists.len() - i,
    {
        let p = &playlists[i];
        let owner = match &p.owner {
            Some(o) => display_owner(o.as_str(), user_name),
            None => String::new(),
        };
        let mut row: Vec<String> = Vec::new();
        row.push(owned(p.name.as_str()));
        row.push(owner);
        row.push(tags_text(p.collaborative, p.public));
        assert(texts(row@) =~= playlist_row(*p, u));
        push_row(rows, row);
        assert(playlist_rows(playlists@, u).take(i + 1) =~= playlist_rows(playlists@, u).take(
            i as int,
        ).push(playlist_row(playlists@[i as int], u)));
        i = i + 1;
    }
    assert(playlist_rows(playlists@, u).take(playlists@.len() as int) =~= playlist_rows(playlists@, u));
}

/// `playlist list`: the playlist table.
pub fn playlist_list(playlists: Vec<Playlist>, user_name: Option<&str>, table: TableConfig) -> (lines: Vec<
    String,
>)
    ensures
        lines_view(lines@) == table_lines(
            headed(playlist_header(), playlist_rows(playlists@, str_opt_view(user_name))),
            table,
        ),
{
    let mut rows: Vec<Vec<String>> = Vec::new();
    push_header3(&mut rows, "NAME", "OWNER", "TAGS");
    push_playlist_rows(&mut rows, &playlists, user_name);
    assert(rows_view(rows@) =~= headed(playlist_header(), playlist_rows(playlists@, str_opt_view(user_name))));
    render_table(&rows, table)
}

/// A pinned playlist's row: name, `pinned`, no tags.
pub open spec fn pin_rows(pins: Seq<PinnedPlaylist>) -> Seq<Seq<Seq<char>>> {
    Seq::new(pins.len(), |i: int| seq![pins[i].name@, "pinned"@, Seq::<char>::empty()])
}

/// `playlist list` with the pinned playlists after the user's.
pub fn playlist_list_with_pins(
    playlists: Vec<Playlist>,
    pins: Vec<PinnedPlaylist>,
    user_name: Option<&str>,
    table: TableConfig,
) -> (lines: Vec<String>)
    ensures
        lines_view(lines@) == table_lines(
            headed(playlist_header(), playlist_rows(playlists@, str_opt_view(user_name)) + pin_rows(pins@)),
            table,
        ),
{
    let mut rows: Vec<Vec<String>> = Vec::new();
    push_header3(&mut rows, "NAME", "OWNER", "TAGS");
    push_playlist_rows(&mut rows, &playlists, user_name);
    let ghost mid = rows_view(rows@);
    let mut i: usize = 0;
    while i < pins.len()
        invariant
            i <= pins@.len(),
            rows_view(rows@) == mid + pin_rows(pins@).take(i as int),
        decreases pins.len() - i,
    {
        let mut row: Vec<String> = Vec::new();
        row.push(owned(pins[i].name.as_str()));
        row.push(owned("pinned"));
        row.push(String::new());
        assert(texts(row@) =~= seq![pins@[i as int].name@, "pinned"@, Seq::<char>::empty()]);
        push_row(&mut rows, row);
        assert(pin_rows(pins@).take(i + 1) =~= pin_rows(pins@).take(i as int).push(
            seq![pins@[i as int].name@, "pinned"@, Seq::<char>::empty()],
        ));
        i = i + 1;
    }
    assert(pin_rows(pins@).take(pins@.len() as int) =~= pin_rows(pins@));
    assert(rows_view(rows@) =~= headed(
        playlist_header(),
        playlist_rows(playlists@, str_opt_view(user_name)) + pin_rows(pins@),
    ));
    render_table(&rows, table)
}

/// A device's row: name and volume (blank when unknown).
pub open spec fn device_rows(ds: Seq<Device>) -> Seq<Seq<Seq<char>>> {
    Seq::new(
        ds.len(),
        |i: int|
            seq![
                ds[i].name@,
                match ds[i].volume_percent {
                    Some(v) => dec(v as nat),
                    None => Seq::<char>::empty(),
                },
            ],
    )
}

/// `device list`: the device table.
pub fn device_list(devices: Vec<Device>, table: TableConfig) -> (lines: Vec<String>)
    ensures
        lines_view(lines@) == table_lines(headed(seq!["NAME"@, "VOLUME"@], device_rows(devices@)), table),
{
    let mut rows: Vec<Vec<String>> = Vec::new();
    let mut h: Vec<String> = Vec::new();
    h.push(owned("NAME"));
    h.push(owned("VOLUME"));
    assert(texts(h@) =~= seq!["NAME"@, "VOLUME"@]);
    push_row(&mut rows, h);
    let ghost start = rows_view(rows@);
    let mut i: usize = 0;
    while i < devices.len()
        invariant
            i <= devices@.len(),
            rows_view(rows@) == start + device_rows(devices@).take(i as int),
        decreases devices.len() - i,
    {
        let d = &devices[i];
        let mut row: Vec<String> = Vec::new();
        row.push(owned(d.name.as_str()));
        row.push(
            match d.volume_percent {
                Some(v) => fmt_u64(v as u64),
                None => String::new(),
            },
        );
        assert(texts(row@) =~= device_rows(devices@)[i as int]);
        push_row(&mut rows, row);
        assert(device_rows(devices@).take(i + 1) =~= device_rows(devices@).take(i as int).push(
            device_rows(devices@)[i as int],
        ));
        i = i + 1;
    }
    assert(device_rows(devices@).take(devices@.len() as int) =~= device_rows(devices@));
    assert(rows_view(rows@) =~= headed(seq!["NAME"@, "VOLUME"@], device_rows(devices@)));
    render_table(&rows, table)
}

/// Appends a copy of `s` as the next cell.
fn push_cell(row: &mut Vec<String>, s: &str)
    ensures
        texts(final(row)@) == texts(old(row)@).push(s@),
{
    let ghost before = row@;
    let c = owned(s);
    row.push(c);
    assert(row@ == before.push(c));
    assert(texts(row@) =~= texts(before).push(s@));
}

/// The name, marked `* ` when it is the one playing now.
pub open spec fn marked_name(name: Seq<char>, id: Seq<char>, now_playing_id: Option<Seq<char>>) -> Seq<char> {
    match now_playing_id {
        Some(n) => if n == id {
            "* "@ + name
        } else {
            name
        },
        None => name,
    }
}

fn mark_name(name: &String, id: &String, now_playing_id: Option<&str>) -> (r: String)
    ensures
        r@ == marked_name(name@, id@, str_opt_view(now_playing_id)),
{
    match now_playing_id {
        Some(n) => if owned(n) == *id {
            let mut r = owned("* ");
            push_str(&mut r, name.as_str());
            r
        } else {
            owned(name.as_str())
        },
        None => owned(name.as_str()),
    }
}

pub open spec fn opt_text(o: Option<String>) -> Seq<char> {
    match o {
        Some(s) => s@,
        None => Seq::empty(),
    }
}

pub open spec fn opt_duration_text(d: Option<u32>) -> Seq<char> {
    match d {
        Some(ms) => time_text(ms as nat),
        None => Seq::empty(),
    }
}

/// A numbered track row: position (from 1), name, artists, album, length.
pub open spec fn listing_row(
    index: int,
    name: Seq<char>,
    artists: Seq<Seq<char>>,
    album: Option<String>,
    duration_ms: Option<u32>,
) -> Seq<Seq<char>> {
    seq![dec((index + 1) as nat), name, joined(artists, ", "@), opt_text(album), opt_duration_text(duration_ms)]
}

fn listing_cells(
    index: usize,
    name: String,
    artists: &Vec<String>,
    album: &Option<String>,
    duration_ms: Option<u32>,
) -> (row: Vec<String>)
    requires
        index < usize::MAX,
    ensures
        texts(row@) == listing_row(index as int, name@, texts(artists@), *album, duration_ms),
{
    let mut row: Vec<String> = Vec::new();
    row.push(fmt_u64((index + 1) as u64));
    row.push(name);
    row.push(join_strings(artists, ", "));
    row.push(
        match album {
            Some(a) => owned(a.as_str()),
            None => String::new(),
        },
    );
    row.push(
        match duration_ms {
            Some(ms) => format_duration(ms as u64),
            None => String::new(),
        },
    );
    assert(texts(row@) =~= listing_row(index as int, name@, texts(artists@), *album, duration_ms));
    row
}

/// The listing header.
pub open spec fn listing_header() -> Seq<Seq<char>> {
    seq!["#"@, "TRACK"@, "ARTIST"@, "ALBUM"@, "DURATION"@]
}

fn push_listing_header(rows: &mut Vec<Vec<String>>)
    ensures
        rows_view(final(rows)@) == rows_view(old(rows)@).push(listing_header()),
{
    let mut h: Vec<String> = Vec::new();
    push_cell(&mut h, "#");
    push_cell(&mut h, "TRACK");
    push_cell(&mut h, "ARTIST");
    push_cell(&mut h, "ALBUM");
    push_cell(&mut h, "DURATION");
    assert(texts(h@) =~= listing_header());
    push_row(rows, h);
}

pub open spec fn queue_rows(items: Seq<Track>, now_playing_id: Option<Seq<char>>) -> Seq<Seq<Seq<char>>> {
    Seq::new(
        items.len(),
        |i: int|
            listing_row(
                i,
                marked_name(items[i].name@, items[i].id@, now_playing_id),
                texts(items[i].artists@),
                items[i].album,
                items[i].duration_ms,
            ),
    )
}

/// `queue`: the queued tracks, the playing one marked.
pub fn queue(items: Vec<Track>, now_playing_id: Option<&str>, table: TableConfig) -> (lines: Vec<String>)
    ensures
        lines_view(lines@) == table_lines(
            headed(listing_header(), queue_rows(items@, str_opt_view(now_playing_id))),
            table,
        ),
{
    let ghost u = str_opt_view(now_playing_id);
    let mut rows: Vec<Vec<String>> = Vec::new();
    push_listing_header(&mut rows);
    let ghost start = rows_view(rows@);
    let mut i: usize = 0;
    while i < items.len()
        invariant
            i <= items@.len(),
            u == str_opt_view(now_playing_id),
            rows_view(rows@) == start + queue_rows(items@, u).take(i as int),
        decreases items.len() - i,
    {
        let t = &items[i];
        let name = mark_name(&t.name, &t.id, now_playing_id);
        let row = listing_cells(i, name, &t.artists, &t.album, t.duration_ms);
        push_row(&mut rows, row);
        assert(queue_rows(items@, u).take(i + 1) =~= queue_rows(items@, u).take(i as int).push(
            queue_rows(items@, u)[i as int],
        ));
        i = i + 1;
    }
    assert(queue_rows(items@, u).take(items@.len() as int) =~= queue_rows(items@, u));
    assert(rows_view(rows@) =~= headed(listing_header(), queue_rows(items@, u)));
    render_table(&rows, table)
}

pub open spec fn recent_rows(items: Seq<SearchItem>, now_playing_id: Option<Seq<char>>) -> Seq<Seq<Seq<char>>> {
    Seq::new(
        items.len(),
        |i: int|
            listing_row(
                i,
                marked_name(items[i].name@, items[i].id@, now_playing_id),
                texts(items[i].artists@),
                items[i].album,
                items[i].duration_ms,
            ),
    )
}

/// `recentlyplayed`: the recent tracks, the playing one marked.
pub fn recently_played(items: Vec<SearchItem>, now_playing_id: Option<&str>, table: TableConfig) -> (lines: Vec<
    String,
>)
    ensures
        lines_view(lines@) == table_lines(
            headed(listing_header(), recent_rows(items@, str_opt_view(now_playing_id))),
            table,
        ),
{
    let ghost u = str_opt_view(now_playing_id);
    let mut rows: Vec<Vec<String>> = Vec::new();
    push_listing_header(&mut rows);
    let ghost start = rows_view(rows@);
    let mut i: usize = 0;
    while i < items.len()
        invariant
            i <= items@.len(),
            u == str_opt_view(now_playing_id),
            rows_view(rows@) == start + recent_rows(items@, u).take(i as int),
        decreases items.len() - i,
    {
        let t = &items[i];
        let name = mark_name(&t.name, &t.id, now_playing_id);
        let row = listing_cells(i, name, &t.artists, &t.album, t.duration_ms);
        push_row(&mut rows, row);
        assert(recent_rows(items@, u).take(i + 1) =~= recent_rows(items@, u).take(i as int).push(
            recent_rows(items@, u)[i as int],
        ));
        i = i + 1;
    }
    assert(recent_rows(items@, u).take(items@.len() as int) =~= recent_rows(items@, u));
    assert(rows_view(rows@) =~= headed(listing_header(), recent_rows(items@, u)));
    render_table(&rows, table)
}

/// The word for a kind of search result.
pub open spec fn kind_label(k: SearchType) -> Seq<char> {
    match k {
        SearchType::Track => "track"@,
        SearchType::Album => "album"@,
        SearchType::Artist => "artist"@,
        SearchType::Playlist => "playlist"@,
        SearchType::All => "all"@,
    }
}

pub fn format_search_kind(kind: SearchType) -> (s: String)
    ensures
        s@ == kind_label(kind),
{
    match kind {
        SearchType::Track => owned("track"),
        SearchType::Album => owned("album"),
        SearchType::Artist => owned("artist"),
        SearchType::Playlist => owned("playlist"),
        SearchType::All => owned("all"),
    }
}

/// The header of a search table.
pub open spec fn search_header(kind: SearchType) -> Seq<Seq<char>> {
    match kind {
        SearchType::All => seq!["#"@, "TYPE"@, "NAME"@, "BY"@, "SCORE"@],
        SearchType::Track => seq!["#"@, "TRACK"@, "ARTIST"@, "ALBUM"@, "DURATION"@, "SCORE"@],
        SearchType::Album => seq!["#"@, "ALBUM"@, "ARTIST"@, "SCORE"@],
        SearchType::Artist => seq!["#"@, "ARTIST"@, "SCORE"@],
        SearchType::Playlist => seq!["#"@, "PLAYLIST"@, "OWNER"@, "SCORE"@],
    }
}

/// A search hit's row for a search of `kind`, numbered from 1, with its
/// score as printed.
pub open spec fn search_row(kind: SearchType, index: int, item: SearchItem, score: Seq<char>) -> Seq<
    Seq<char>,
> {
    let n = dec((index + 1) as nat);
    let artists = joined(texts(item.artists@), ", "@);
    match kind {
        SearchType::All => {
            let by = if item.artists@.len() > 0 {
                artists
            } else {
                opt_text(item.owner)
            };
            seq![n, kind_label(item.kind), item.name@, by, score]
        },
        SearchType::Track => seq![
            n,
            item.name@,
            artists,
            opt_text(item.album),
            opt_duration_text(item.duration_ms),
            score,
        ],
        SearchType::Album => seq![n, item.name@, artists, score],
        SearchType::Artist => seq![n, item.name@, score],
        SearchType::Playlist => seq![n, item.name@, opt_text(item.owner), score],
    }
}

pub open spec fn search_rows(kind: SearchType, items: Seq<SearchItem>, scores: Seq<Seq<char>>) -> Seq<
    Seq<Seq<char>>,
> {
    Seq::new(items.len(), |i: int| search_row(kind, i, items[i], scores[i]))
}

fn search_header_row(kind: SearchType) -> (h: Vec<String>)
    ensures
        texts(h@) == search_header(kind),
{
    let mut h: Vec<String> = Vec::new();
    push_cell(&mut h, "#");
    match kind {
        SearchType::All => {
            push_cell(&mut h, "TYPE");
            push_cell(&mut h, "NAME");
            push_cell(&mut h, "BY");
        },
        SearchType::Track => {
            push_cell(&mut h, "TRACK");
            push_cell(&mut h, "ARTIST");
            push_cell(&mut h, "ALBUM");
            push_cell(&mut h, "DURATION");
        },
        SearchType::Album => {
            push_cell(&mut h, "ALBUM");
            push_cell(&mut h, "ARTIST");
        },
        SearchType::Artist => {
            push_cell(&mut h, "ARTIST");
        },
        SearchType::Playlist => {
            push_cell(&mut h, "PLAYLIST");
            push_cell(&mut h, "OWNER");
        },
    }
    push_cell(&mut h, "SCORE");
    assert(texts(h@) =~= search_header(kind));
    h
}

fn search_cells(kind: SearchType, index: usize, item: &SearchItem, score: &String) -> (row: Vec<String>)
    requires
        index < usize::MAX,
    ensures
        texts(row@) == search_row(kind, index as int, *item, score@),
{
    let mut row: Vec<String> = Vec::new();
    row.push(fmt_u64((index + 1) as u64));
    match kind {
        SearchType::All => {
            row.push(format_search_kind(item.kind));
            row.push(owned(item.name.as_str()));
            if item.artists.len() > 0 {
                row.push(join_strings(&item.artists, ", "));
            } else {
                row.push(
                    match &item.owner {
                        Some(o) => owned(o.as_str()),
                        None => String::new(),
                    },
                );
            }
        },
        SearchType::Track => {
            row.push(owned(item.name.as_str()));
            row.push(join_strings(&item.artists, ", "));
            row.push(
                match &item.album {
                    Some(a) => owned(a.as_str()),
                    None => String::new(),
                },
            );
            row.push(
                match item.duration_ms {
                    Some(ms) => format_duration(ms as u64),
                    None => String::new(),
                },
            );
        },
        SearchType::Album => {
            row.push(owned(item.name.as_str()));
            row.push(join_strings(&item.artists, ", "));
        },
        SearchType::Artist => {
            row.push(owned(item.name.as_str()));
        },
        SearchType::Playlist => {
            row.push(owned(item.name.as_str()));
            row.push(
                match &item.owner {
                    Some(o) => owned(o.as_str()),
                    None => String::new(),
                },
            );
        },
    }
    row.push(owned(score.as_str()));
    assert(texts(row@) =~= search_row(kind, index as int, *item, score@));
    row
}

/// Search results as a table whose columns depend on the kind searched;
/// `scores` holds each hit's score as printed (blank when it has none).
pub fn search_results(results: SearchResults, scores: Vec<String>, table: TableConfig) -> (lines: Vec<
    String,
>)
    requires
        scores@.len() == results.items@.len(),
    ensures
        lines_view(lines@) == table_lines(
            headed(search_header(results.kind), search_rows(results.kind, results.items@, texts(scores@))),
            table,
        ),
{
    let ghost want = search_rows(results.kind, results.items@, texts(scores@));
    let mut rows: Vec<Vec<String>> = Vec::new();
    push_row(&mut rows, search_header_row(results.kind));
    let ghost start = rows_view(rows@);
    let mut i: usize = 0;
    while i < results.items.len()
        invariant
            i <= results.items@.len(),
            scores@.len() == results.items@.len(),
            want == search_rows(results.kind, results.items@, texts(scores@)),
            rows_view(rows@) == start + want.take(i as int),
        decreases results.items.len() - i,
    {
        let row = search_cells(results.kind, i, &results.items[i], &scores[i]);
        push_row(&mut rows, row);
        assert(want.take(i + 1) =~= want.take(i as int).push(want[i as int]));
        i = i + 1;
    }
    assert(want.take(results.items@.len() as int) =~= want);
    assert(rows_view(rows@) =~= headed(search_header(results.kind), want));
    render_table(&rows, table)
}

} // verus!
