//! Routing of JSON-RPC methods to the commands they run.

use vstd::prelude::*;
use crate::io::output::{ErrorKind, Response, Status};
use crate::json::{JsonValue, spec_get, spec_as_bool, spec_as_str, spec_as_u64, strings_of};
use crate::text::{chars_of, join_strings, joined, owned, push_str, texts};
use crate::rpc::protocol::RpcRequest;

verus! {

pub open spec fn opt_deref(p: Option<&JsonValue>) -> Option<JsonValue> {
    match p {
        Some(v) => Some(*v),
        None => None,
    }
}

pub open spec fn opt_view(o: Option<String>) -> Option<Seq<char>> {
    match o {
        Some(s) => Some(s@),
        None => None,
    }
}

pub open spec fn strings_view(v: Vec<String>) -> Seq<Seq<char>> {
    v@.map_values(|s: String| s@)
}

/// `params.and_then(|p| p.get(key))`.
pub open spec fn spec_param(p: Option<JsonValue>, key: Seq<char>) -> Option<JsonValue> {
    match p {
        Some(v) => spec_get(v, key),
        None => None,
    }
}

pub open spec fn spec_param_bool(p: Option<JsonValue>, key: Seq<char>) -> Option<bool> {
    match spec_param(p, key) {
        Some(v) => spec_as_bool(v),
        None => None,
    }
}

pub open spec fn spec_param_str(p: Option<JsonValue>, key: Seq<char>) -> Option<Seq<char>> {
    match spec_param(p, key) {
        Some(v) => spec_as_str(v),
        None => None,
    }
}

pub open spec fn spec_param_u64(p: Option<JsonValue>, key: Seq<char>) -> Option<u64> {
    match spec_param(p, key) {
        Some(v) => spec_as_u64(v),
        None => None,
    }
}

/// The string elements of an array parameter (none when it is absent or no array).
pub open spec fn spec_param_strings(p: Option<JsonValue>, key: Seq<char>) -> Seq<Seq<char>> {
    match spec_param(p, key) {
        Some(JsonValue::Array(items)) => strings_of(items@),
        _ => Seq::empty(),
    }
}

fn param<'a>(params: Option<&'a JsonValue>, key: &str) -> (r: Option<&'a JsonValue>)
    ensures
        opt_deref(r) == spec_param(opt_deref(params), key@),
{
    match params {
        Some(p) => p.get(key),
        None => None,
    }
}

fn param_bool(params: Option<&JsonValue>, key: &str) -> (r: Option<bool>)
    ensures
        r == spec_param_bool(opt_deref(params), key@),
{
    match param(params, key) {
        Some(v) => v.as_bool(),
        None => None,
    }
}

fn param_str(params: Option<&JsonValue>, key: &str) -> (r: Option<String>)
    ensures
        opt_view(r) == spec_param_str(opt_deref(params), key@),
{
    match param(params, key) {
        Some(v) => match v.as_str() {
            Some(s) => Some(owned(s)),
            None => None,
        },
        None => None,
    }
}

fn param_u64(params: Option<&JsonValue>, key: &str) -> (r: Option<u64>)
    ensures
        r == spec_param_u64(opt_deref(params), key@),
{
    match param(params, key) {
        Some(v) => v.as_u64(),
        None => None,
    }
}

fn param_strings(params: Option<&JsonValue>, key: &str) -> (r: Vec<String>)
    ensures
        strings_view(r) == spec_param_strings(opt_deref(params), key@),
{
    match param(params, key) {
        Some(v) => match v.string_elements() {
            Some(items) => items,
            None => Vec::new(),
        },
        None => Vec::new(),
    }
}

fn is_method(m: &String, name: &str) -> (b: bool)
    ensures
        b == (m@ == name@),
{
    *m == owned(name)
}

#[derive(Debug, Clone, Copy, PartialEq, Eq, Structural)]
pub enum ArtistView {
    Details,
    TopTracks,
    Albums,
    Related,
}

pub open spec fn artist_view_of(s: Seq<char>) -> ArtistView {
    if s == "top_tracks"@ {
        ArtistView::TopTracks
    } else if s == "albums"@ {
        ArtistView::Albums
    } else if s == "related"@ {
        ArtistView::Related
    } else {
        ArtistView::Details
    }
}

fn artist_view_from(s: &String) -> (v: ArtistView)
    ensures
        v == artist_view_of(s@),
{
    if *s == owned("top_tracks") {
        ArtistView::TopTracks
    } else if *s == owned("albums") {
        ArtistView::Albums
    } else if *s == owned("related") {
        ArtistView::Related
    } else {
        ArtistView::Details
    }
}

/// Field filters of a search request.
#[derive(Debug)]
pub struct SearchFilters<S> {
    pub artist: Option<S>,
    pub album: Option<S>,
    pub track: Option<S>,
    pub year: Option<S>,
    pub genre: Option<S>,
    pub isrc: Option<S>,
    pub upc: Option<S>,
    pub new: bool,
    pub hipster: bool,
}

impl SearchFilters<String> {
    pub open spec fn view_filters(&self) -> SearchFilters<Seq<char>> {
        SearchFilters {
            artist: opt_view(self.artist),
            album: opt_view(self.album),
            track: opt_view(self.track),
            year: opt_view(self.year),
            genre: opt_view(self.genre),
            isrc: opt_view(self.isrc),
            upc: opt_view(self.upc),
            new: self.new,
            hipster: self.hipster,
        }
    }
}

/// `prefix` followed by the value, when there is one.
pub open spec fn field_part(prefix: Seq<char>, v: Option<Seq<char>>) -> Seq<Seq<char>> {
    match v {
        Some(x) => seq![prefix + x],
        None => Seq::empty(),
    }
}

/// The search terms the filters add, in field order: `artist:…`,
/// `album:…`, `track:…`, `year:…`, `genre:…`, `isrc:…`, `upc:…`, then
/// `tag:new` and `tag:hipster`.
pub open spec fn filter_terms(f: SearchFilters<Seq<char>>) -> Seq<Seq<char>> {
    field_part("artist:"@, f.artist) + field_part("album:"@, f.album) + field_part("track:"@, f.track)
        + field_part("year:"@, f.year) + field_part("genre:"@, f.genre) + field_part("isrc:"@, f.isrc)
        + field_part("upc:"@, f.upc) + (if f.new { seq!["tag:new"@] } else { Seq::empty() }) + (if f.hipster {
        seq!["tag:hipster"@]
    } else {
        Seq::empty()
    })
}

/// The query sent to the search endpoint: the free text, when not empty,
/// and the filter terms, separated by single spaces.
pub open spec fn filtered_query(query: Seq<char>, f: SearchFilters<Seq<char>>) -> Seq<char> {
    joined(
        (if query.len() > 0 { seq![query] } else { Seq::empty() }) + filter_terms(f),
        " "@,
    )
}

impl Default for SearchFilters<String> {
    fn default() -> (f: Self)
        ensures
            f.artist is None && f.album is None && f.track is None && f.year is None,
            f.genre is None && f.isrc is None && f.upc is None,
            !f.new && !f.hipster,
    {
        SearchFilters {
            artist: None,
            album: None,
            track: None,
            year: None,
            genre: None,
            isrc: None,
            upc: None,
            new: false,
            hipster: false,
        }
    }
}

fn push_text(parts: &mut Vec<String>, t: &str)
    ensures
        texts(final(parts)@) == texts(old(parts)@).push(t@),
{
    let ghost before = parts@;
    parts.push(owned(t));
    assert(texts(parts@) =~= texts(before).push(t@));
}

fn push_field(parts: &mut Vec<String>, prefix: &str, v: &Option<String>)
    ensures
        texts(final(parts)@) == texts(old(parts)@) + field_part(prefix@, opt_view(*v)),
{
    let ghost before = texts(parts@);
    match v {
        Some(x) => {
            let mut t = owned(prefix);
            push_str(&mut t, x.as_str());
            parts.push(t);
            assert(texts(parts@) =~= before + field_part(prefix@, opt_view(*v)));
        },
        None => {
            assert(texts(parts@) =~= before + field_part(prefix@, opt_view(*v)));
        },
    }
}

impl SearchFilters<String> {
    /// Whether any filter is set.
    pub fn has_filters(&self) -> (b: bool)
        ensures
            b == (filter_terms(self.view_filters()).len() > 0),
    {
        self.artist.is_some() || self.album.is_some() || self.track.is_some() || self.year.is_some()
            || self.genre.is_some() || self.isrc.is_some() || self.upc.is_some() || self.new
            || self.hipster
    }

    /// Appends the filter terms, in order, to `parts`.
    fn push_terms(&self, parts: &mut Vec<String>)
        ensures
            texts(final(parts)@) == texts(old(parts)@) + filter_terms(self.view_filters()),
    {
        let ghost f = self.view_filters();
        let ghost base = texts(parts@);
        push_field(parts, "artist:", &self.artist);
        let ghost acc = field_part("artist:"@, f.artist);
        push_field(parts, "album:", &self.album);
        assert(texts(parts@) =~= base + (acc + field_part("album:"@, f.album)));
        proof { acc = acc + field_part("album:"@, f.album); }
        push_field(parts, "track:", &self.track);
        assert(texts(parts@) =~= base + (acc + field_part("track:"@, f.track)));
        proof { acc = acc + field_part("track:"@, f.track); }
        push_field(parts, "year:", &self.year);
        assert(texts(parts@) =~= base + (acc + field_part("year:"@, f.year)));
        proof { acc = acc + field_part("year:"@, f.year); }
        push_field(parts, "genre:", &self.genre);
        assert(texts(parts@) =~= base + (acc + field_part("genre:"@, f.genre)));
        proof { acc = acc + field_part("genre:"@, f.genre); }
        push_field(parts, "isrc:", &self.isrc);
        assert(texts(parts@) =~= base + (acc + field_part("isrc:"@, f.isrc)));
        proof { acc = acc + field_part("isrc:"@, f.isrc); }
        push_field(parts, "upc:", &self.upc);
        assert(texts(parts@) =~= base + (acc + field_part("upc:"@, f.upc)));
        proof { acc = acc + field_part("upc:"@, f.upc); }
        let ghost tn: Seq<Seq<char>> = if f.new { seq!["tag:new"@] } else { Seq::empty() };
        if self.new {
            push_text(parts, "tag:new");
        }
        assert(texts(parts@) =~= base + (acc + tn));
        proof { acc = acc + tn; }
        let ghost th: Seq<Seq<char>> = if f.hipster { seq!["tag:hipster"@] } else { Seq::empty() };
        if self.hipster {
            push_text(parts, "tag:hipster");
        }
        assert(texts(parts@) =~= base + (acc + th));
        assert(acc + th =~= filter_terms(f));
    }

    /// The query with the filter terms added.
    pub fn build_query(&self, query: &str) -> (q: String)
        ensures
            q@ == filtered_query(query@, self.view_filters()),
    {
        let mut parts: Vec<String> = Vec::new();
        let qc = chars_of(query);
        if qc.len() > 0 {
            parts.push(owned(query));
        }
        let ghost head: Seq<Seq<char>> = if query@.len() > 0 { seq![query@] } else { Seq::empty() };
        assert(texts(parts@) =~= head);
        self.push_terms(&mut parts);
        join_strings(&parts, " ")
    }
}

pub open spec fn spec_filters(p: Option<JsonValue>) -> SearchFilters<Seq<char>> {
    SearchFilters {
        artist: spec_param_str(p, "artist"@),
        album: spec_param_str(p, "album"@),
        track: spec_param_str(p, "track"@),
        year: spec_param_str(p, "year"@),
        genre: spec_param_str(p, "genre"@),
        isrc: spec_param_str(p, "isrc"@),
        upc: spec_param_str(p, "upc"@),
        new: match spec_param_bool(p, "new"@) { Some(b) => b, None => false },
        hipster: match spec_param_bool(p, "hipster"@) { Some(b) => b, None => false },
    }
}

fn filters_of(params: Option<&JsonValue>) -> (f: SearchFilters<String>)
    ensures
        f.view_filters() == spec_filters(opt_deref(params)),
{
    SearchFilters {
        artist: param_str(params, "artist"),
        album: param_str(params, "album"),
        track: param_str(params, "track"),
        year: param_str(params, "year"),
        genre: param_str(params, "genre"),
        isrc: param_str(params, "isrc"),
        upc: param_str(params, "upc"),
        new: param_bool(params, "new").unwrap_or(false),
        hipster: param_bool(params, "hipster").unwrap_or(false),
    }
}

/// A routed RPC request: the command and its arguments.
#[derive(Debug)]
pub enum Command<S, A> {
    Version,
    AuthLogin { force: bool },
    AuthLogout,
    AuthRefresh,
    AuthStatus,
    PlayerStatus { id_only: Option<S> },
    PlayerPlay { uri: Option<S>, pin: Option<S> },
    PlayerPause,
    PlayerToggle,
    PlayerNext,
    PlayerPrevious,
    PlayerSeek { position: S },
    PlayerVolume { percent: u8 },
    PlayerShuffle { state: S },
    PlayerRepeat { mode: S },
    PlayerDevicesList,
    PlayerDevicesTransfer { device: S },
    PlayerRecent,
    QueueList,
    QueueAdd { uri: Option<S>, now_playing: bool },
    Search { query: S, types: A, limit: u8, pins_only: bool, exact: bool, filters: SearchFilters<S>, play: bool },
    PinAdd { resource_type: S, url_or_id: S, alias: S, tags: Option<S> },
    PinRemove { alias_or_id: S },
    PinList { resource_type: Option<S> },
    PlaylistList { limit: u8, offset: u32 },
    PlaylistGet { id: S },
    PlaylistCreate { name: S, description: Option<S>, public: bool },
    PlaylistAdd { id: S, uris: A, now_playing: bool, position: Option<u32>, dry_run: bool },
    PlaylistRemove { id: S, uris: A, dry_run: bool },
    PlaylistEdit { id: S, name: Option<S>, description: Option<S>, public: Option<bool> },
    PlaylistReorder { id: S, from: u32, to: u32, count: u32 },
    PlaylistFollow { id: S, public: bool },
    PlaylistUnfollow { id: S },
    PlaylistDuplicate { id: S, name: Option<S> },
    PlaylistCover { id: S },
    PlaylistUser { user_id: S },
    LibraryList { limit: u8, offset: u32 },
    LibrarySave { ids: A, now_playing: bool, dry_run: bool },
    LibraryRemove { ids: A, dry_run: bool },
    LibraryCheck { ids: A },
    InfoTrack { id: Option<S>, id_only: bool },
    InfoAlbum { id: Option<S>, id_only: bool },
    InfoArtist { id: Option<S>, id_only: bool, view: ArtistView, market: S, limit: u8, offset: u32 },
    UserProfile,
    UserTop { item_type: S, range: S, limit: u8 },
    UserGet { user_id: S },
    ShowGet { id: S },
    ShowEpisodes { id: S, limit: u8, offset: u32 },
    ShowList { limit: u8, offset: u32 },
    ShowSave { ids: A },
    ShowRemove { ids: A },
    ShowCheck { ids: A },
    EpisodeGet { id: S },
    EpisodeList { limit: u8, offset: u32 },
    EpisodeSave { ids: A },
    EpisodeRemove { ids: A },
    EpisodeCheck { ids: A },
    AudiobookGet { id: S },
    AudiobookChapters { id: S, limit: u8, offset: u32 },
    AudiobookList { limit: u8, offset: u32 },
    AudiobookSave { ids: A },
    AudiobookRemove { ids: A },
    AudiobookCheck { ids: A },
    AlbumList { limit: u8, offset: u32 },
    AlbumTracks { id: S, limit: u8, offset: u32 },
    AlbumSave { ids: A },
    AlbumRemove { ids: A },
    AlbumCheck { ids: A },
    AlbumNewReleases { limit: u8, offset: u32 },
    ChapterGet { id: S },
    CategoryList { limit: u8, offset: u32 },
    CategoryGet { id: S },
    CategoryPlaylists { id: S, limit: u8, offset: u32 },
    FollowArtist { ids: A, dry_run: bool },
    FollowUser { ids: A, dry_run: bool },
    UnfollowArtist { ids: A, dry_run: bool },
    UnfollowUser { ids: A, dry_run: bool },
    FollowList { limit: u8 },
    FollowCheckArtist { ids: A },
    FollowCheckUser { ids: A },
    MarketsList,
}

impl View for Command<String, Vec<String>> {
    type V = Command<Seq<char>, Seq<Seq<char>>>;

    open spec fn view(&self) -> Self::V {
        match self {
            Command::Version => Command::Version,
            Command::AuthLogin { force } => Command::AuthLogin { force: *force },
            Command::AuthLogout => Command::AuthLogout,
            Command::AuthRefresh => Command::AuthRefresh,
            Command::AuthStatus => Command::AuthStatus,
            Command::PlayerStatus { id_only } => Command::PlayerStatus { id_only: opt_view(*id_only) },
            Command::PlayerPlay { uri, pin } => Command::PlayerPlay { uri: opt_view(*uri), pin: opt_view(*pin) },
            Command::PlayerPause => Command::PlayerPause,
            Command::PlayerToggle => Command::PlayerToggle,
            Command::PlayerNext => Command::PlayerNext,
            Command::PlayerPrevious => Command::PlayerPrevious,
            Command::PlayerSeek { position } => Command::PlayerSeek { position: (*position)@ },
            Command::PlayerVolume { percent } => Command::PlayerVolume { percent: *percent },
            Command::PlayerShuffle { state } => Command::PlayerShuffle { state: (*state)@ },
            Command::PlayerRepeat { mode } => Command::PlayerRepeat { mode: (*mode)@ },
            Command::PlayerDevicesList => Command::PlayerDevicesList,
            Command::PlayerDevicesTransfer { device } => Command::PlayerDevicesTransfer { device: (*device)@ },
            Command::PlayerRecent => Command::PlayerRecent,
            Command::QueueList => Command::QueueList,
            Command::QueueAdd { uri, now_playing } => Command::QueueAdd { uri: opt_view(*uri), now_playing: *now_playing },
            Command::Search { query, types, limit, pins_only, exact, filters, play } => Command::Search { query: (*query)@, types: strings_view(*types), limit: *limit, pins_only: *pins_only, exact: *exact, filters: (*filters).view_filters(), play: *play },
            Command::PinAdd { resource_type, url_or_id, alias, tags } => Command::PinAdd { resource_type: (*resource_type)@, url_or_id: (*url_or_id)@, alias: (*alias)@, tags: opt_view(*tags) },
            Command::PinRemove { alias_or_id } => Command::PinRemove { alias_or_id: (*alias_or_id)@ },
            Command::PinList { resource_type } => Command::PinList { resource_type: opt_view(*resource_type) },
            Command::PlaylistList { limit, offset } => Command::PlaylistList { limit: *limit, offset: *offset },
            Command::PlaylistGet { id } => Command::PlaylistGet { id: (*id)@ },
            Command::PlaylistCreate { name, description, public } => Command::PlaylistCreate { name: (*name)@, description: opt_view(*description), public: *public },
            Command::PlaylistAdd { id, uris, now_playing, position, dry_run } => Command::PlaylistAdd { id: (*id)@, uris: strings_view(*uris), now_playing: *now_playing, position: *position, dry_run: *dry_run },
            Command::PlaylistRemove { id, uris, dry_run } => Command::PlaylistRemove { id: (*id)@, uris: strings_view(*uris), dry_run: *dry_run },
            Command::PlaylistEdit { id, name, description, public } => Command::PlaylistEdit { id: (*id)@, name: opt_view(*name), description: opt_view(*description), public: *public },
            Command::PlaylistReorder { id, from, to, count } => Command::PlaylistReorder { id: (*id)@, from: *from, to: *to, count: *count },
            Command::PlaylistFollow { id, public } => Command::PlaylistFollow { id: (*id)@, public: *public },
            Command::PlaylistUnfollow { id } => Command::PlaylistUnfollow { id: (*id)@ },
            Command::PlaylistDuplicate { id, name } => Command::PlaylistDuplicate { id: (*id)@, name: opt_view(*name) },
            Command::PlaylistCover { id } => Command::PlaylistCover { id: (*id)@ },
            Command::PlaylistUser { user_id } => Command::PlaylistUser { user_id: (*user_id)@ },
            Command::LibraryList { limit, offset } => Command::LibraryList { limit: *limit, offset: *offset },
            Command::LibrarySave { ids, now_playing, dry_run } => Command::LibrarySave { ids: strings_view(*ids), now_playing: *now_playing, dry_run: *dry_run },
            Command::LibraryRemove { ids, dry_run } => Command::LibraryRemove { ids: strings_view(*ids), dry_run: *dry_run },
            Command::LibraryCheck { ids } => Command::LibraryCheck { ids: strings_view(*ids) },
            Command::InfoTrack { id, id_only } => Command::InfoTrack { id: opt_view(*id), id_only: *id_only },
            Command::InfoAlbum { id, id_only } => Command::InfoAlbum { id: opt_view(*id), id_only: *id_only },
            Command::InfoArtist { id, id_only, view, market, limit, offset } => Command::InfoArtist { id: opt_view(*id), id_only: *id_only, view: *view, market: (*market)@, limit: *limit, offset: *offset },
            Command::UserProfile => Command::UserProfile,
            Command::UserTop { item_type, range, limit } => Command::UserTop { item_type: (*item_type)@, range: (*range)@, limit: *limit },
            Command::UserGet { user_id } => Command::UserGet { user_id: (*user_id)@ },
            Command::ShowGet { id } => Command::ShowGet { id: (*id)@ },
            Command::ShowEpisodes { id, limit, offset } => Command::ShowEpisodes { id: (*id)@, limit: *limit, offset: *offset },
            Command::ShowList { limit, offset } => Command::ShowList { limit: *limit, offset: *offset },
            Command::ShowSave { ids } => Command::ShowSave { ids: strings_view(*ids) },
            Command::ShowRemove { ids } => Command::ShowRemove { ids: strings_view(*ids) },
            Command::ShowCheck { ids } => Command::ShowCheck { ids: strings_view(*ids) },
            Command::EpisodeGet { id } => Command::EpisodeGet { id: (*id)@ },
            Command::EpisodeList { limit, offset } => Command::EpisodeList { limit: *limit, offset: *offset },
            Command::EpisodeSave { ids } => Command::EpisodeSave { ids: strings_view(*ids) },
            Command::EpisodeRemove { ids } => Command::EpisodeRemove { ids: strings_view(*ids) },
            Command::EpisodeCheck { ids } => Command::EpisodeCheck { ids: strings_view(*ids) },
            Command::AudiobookGet { id } => Command::AudiobookGet { id: (*id)@ },
            Command::AudiobookChapters { id, limit, offset } => Command::AudiobookChapters { id: (*id)@, limit: *limit, offset: *offset },
            Command::AudiobookList { limit, offset } => Command::AudiobookList { limit: *limit, offset: *offset },
            Command::AudiobookSave { ids } => Command::AudiobookSave { ids: strings_view(*ids) },
            Command::AudiobookRemove { ids } => Command::AudiobookRemove { ids: strings_view(*ids) },
            Command::AudiobookCheck { ids } => Command::AudiobookCheck { ids: strings_view(*ids) },
            Command::AlbumList { limit, offset } => Command::AlbumList { limit: *limit, offset: *offset },
            Command::AlbumTracks { id, limit, offset } => Command::AlbumTracks { id: (*id)@, limit: *limit, offset: *offset },
            Command::AlbumSave { ids } => Command::AlbumSave { ids: strings_view(*ids) },
            Command::AlbumRemove { ids } => Command::AlbumRemove { ids: strings_view(*ids) },
            Command::AlbumCheck { ids } => Command::AlbumCheck { ids: strings_view(*ids) },
            Command::AlbumNewReleases { limit, offset } => Command::AlbumNewReleases { limit: *limit, offset: *offset },
            Command::ChapterGet { id } => Command::ChapterGet { id: (*id)@ },
            Command::CategoryList { limit, offset } => Command::CategoryList { limit: *limit, offset: *offset },
            Command::CategoryGet { id } => Command::CategoryGet { id: (*id)@ },
            Command::CategoryPlaylists { id, limit, offset } => Command::CategoryPlaylists { id: (*id)@, limit: *limit, offset: *offset },
            Command::FollowArtist { ids, dry_run } => Command::FollowArtist { ids: strings_view(*ids), dry_run: *dry_run },
            Command::FollowUser { ids, dry_run } => Command::FollowUser { ids: strings_view(*ids), dry_run: *dry_run },
            Command::UnfollowArtist { ids, dry_run } => Command::UnfollowArtist { ids: strings_view(*ids), dry_run: *dry_run },
            Command::UnfollowUser { ids, dry_run } => Command::UnfollowUser { ids: strings_view(*ids), dry_run: *dry_run },
            Command::FollowList { limit } => Command::FollowList { limit: *limit },
            Command::FollowCheckArtist { ids } => Command::FollowCheckArtist { ids: strings_view(*ids) },
            Command::FollowCheckUser { ids } => Command::FollowCheckUser { ids: strings_view(*ids) },
            Command::MarketsList => Command::MarketsList,
        }
    }
}

/// Commands of the methods version to player.volume.
#[verifier::opaque]
pub open spec fn command_spec_0(m: Seq<char>, p: Option<JsonValue>) -> Option<Command<Seq<char>, Seq<Seq<char>>>> {
    if m == "version"@ {
        Some(Command::Version)
    } else if m == "auth.login"@ {
        Some(Command::AuthLogin {
            force: match spec_param_bool(p, "force"@) { Some(b) => b, None => false },
        })
    } else if m == "auth.logout"@ {
        Some(Command::AuthLogout)
    } else if m == "auth.refresh"@ {
        Some(Command::AuthRefresh)
    } else if m == "auth.status"@ {
        Some(Command::AuthStatus)
    } else if m == "player.status"@ {
        Some(Command::PlayerStatus {
            id_only: spec_param_str(p, "id_only"@),
        })
    } else if m == "player.play"@ {
        Some(Command::PlayerPlay {
            uri: spec_param_str(p, "uri"@),
            pin: spec_param_str(p, "pin"@),
        })
    } else if m == "player.pause"@ {
        Some(Command::PlayerPause)
    } else if m == "player.toggle"@ {
        Some(Command::PlayerToggle)
    } else if m == "player.next"@ {
        Some(Command::PlayerNext)
    } else if m == "player.previous"@ {
        Some(Command::PlayerPrevious)
    } else if m == "player.seek"@ {
        Some(Command::PlayerSeek {
            position: match spec_param_str(p, "position"@) { Some(s) => s, None => "0"@ },
        })
    } else if m == "player.volume"@ {
        Some(Command::PlayerVolume {
            percent: (match spec_param_u64(p, "percent"@) { Some(n) => n, None => 50u64 }) as u8,
        })
    } else {
        None
    }
}

/// Commands of the methods player.shuffle to playlist.create.
#[verifier::opaque]
pub open spec fn command_spec_1(m: Seq<char>, p: Option<JsonValue>) -> Option<Command<Seq<char>, Seq<Seq<char>>>> {
    if m == "player.shuffle"@ {
        Some(Command::PlayerShuffle {
            state: match spec_param_str(p, "state"@) { Some(s) => s, None => "on"@ },
        })
    } else if m == "player.repeat"@ {
        Some(Command::PlayerRepeat {
            mode: match spec_param_str(p, "mode"@) { Some(s) => s, None => "off"@ },
        })
    } else if m == "player.devices"@ {
        Some(Command::PlayerDevicesList)
    } else if m == "player.transfer"@ {
        match spec_param_str(p, "device"@) { Some(d) => Some(Command::PlayerDevicesTransfer { device: d }), None => None }
    } else if m == "player.recent"@ {
        Some(Command::PlayerRecent)
    } else if m == "queue.list"@ {
        Some(Command::QueueList)
    } else if m == "queue.add"@ {
        Some(Command::QueueAdd {
            uri: spec_param_str(p, "uri"@),
            now_playing: match spec_param_bool(p, "now_playing"@) { Some(b) => b, None => false },
        })
    } else if m == "search"@ {
        Some(Command::Search {
            query: match spec_param_str(p, "query"@) { Some(s) => s, None => ""@ },
            types: spec_param_strings(p, "types"@),
            limit: (match spec_param_u64(p, "limit"@) { Some(n) => n, None => 20u64 }) as u8,
            pins_only: match spec_param_bool(p, "pins_only"@) { Some(b) => b, None => false },
            exact: match spec_param_bool(p, "exact"@) { Some(b) => b, None => false },
            filters: spec_filters(p),
            play: match spec_param_bool(p, "play"@) { Some(b) => b, None => false },
        })
    } else if m == "pin.add"@ {
        Some(Command::PinAdd {
            resource_type: match spec_param_str(p, "type"@) { Some(s) => s, None => "track"@ },
            url_or_id: match spec_param_str(p, "id"@) { Some(s) => s, None => ""@ },
            alias: match spec_param_str(p, "alias"@) { Some(s) => s, None => ""@ },
            tags: spec_param_str(p, "tags"@),
        })
    } else if m == "pin.remove"@ {
        Some(Command::PinRemove {
            alias_or_id: match spec_param_str(p, "id"@) { Some(s) => s, None => ""@ },
        })
    } else if m == "pin.list"@ {
        Some(Command::PinList {
            resource_type: spec_param_str(p, "type"@),
        })
    } else if m == "playlist.list"@ {
        Some(Command::PlaylistList {
            limit: (match spec_param_u64(p, "limit"@) { Some(n) => n, None => 20u64 }) as u8,
            offset: (match spec_param_u64(p, "offset"@) { Some(n) => n, None => 0u64 }) as u32,
        })
    } else if m == "playlist.get"@ {
        Some(Command::PlaylistGet {
            id: match spec_param_str(p, "id"@) { Some(s) => s, None => ""@ },
        })
    } else if m == "playlist.create"@ {
        Some(Command::PlaylistCreate {
            name: match spec_param_str(p, "name"@) { Some(s) => s, None => "New Playlist"@ },
            description: spec_param_str(p, "description"@),
            public: match spec_param_bool(p, "public"@) { Some(b) => b, None => false },
        })
    } else {
        None
    }
}

/// Commands of the methods playlist.add to library.check.
#[verifier::opaque]
pub open spec fn command_spec_2(m: Seq<char>, p: Option<JsonValue>) -> Option<Command<Seq<char>, Seq<Seq<char>>>> {
    if m == "playlist.add"@ {
        Some(Command::PlaylistAdd {
            id: match spec_param_str(p, "id"@) { Some(s) => s, None => ""@ },
            uris: spec_param_strings(p, "uris"@),
            now_playing: match spec_param_bool(p, "now_playing"@) { Some(b) => b, None => false },
            position: match spec_param_u64(p, "position"@) { Some(n) => Some(n as u32), None => None },
            dry_run: match spec_param_bool(p, "dry_run"@) { Some(b) => b, None => false },
        })
    } else if m == "playlist.remove"@ {
        Some(Command::PlaylistRemove {
            id: match spec_param_str(p, "id"@) { Some(s) => s, None => ""@ },
            uris: spec_param_strings(p, "uris"@),
            dry_run: match spec_param_bool(p, "dry_run"@) { Some(b) => b, None => false },
        })
    } else if m == "playlist.edit"@ {
        Some(Command::PlaylistEdit {
            id: match spec_param_str(p, "id"@) { Some(s) => s, None => ""@ },
            name: spec_param_str(p, "name"@),
            description: spec_param_str(p, "description"@),
            public: spec_param_bool(p, "public"@),
        })
    } else if m == "playlist.reorder"@ {
        Some(Command::PlaylistReorder {
            id: match spec_param_str(p, "id"@) { Some(s) => s, None => ""@ },
            from: (match spec_param_u64(p, "from"@) { Some(n) => n, None => 0u64 }) as u32,
            to: (match spec_param_u64(p, "to"@) { Some(n) => n, None => 0u64 }) as u32,
            count: (match spec_param_u64(p, "count"@) { Some(n) => n, None => 1u64 }) as u32,
        })
    } else if m == "playlist.follow"@ {
        Some(Command::PlaylistFollow {
            id: match spec_param_str(p, "id"@) { Some(s) => s, None => ""@ },
            public: match spec_param_bool(p, "public"@) { Some(b) => b, None => true },
        })
    } else if m == "playlist.unfollow"@ {
        Some(Command::PlaylistUnfollow {
            id: match spec_param_str(p, "id"@) { Some(s) => s, None => ""@ },
        })
    } else if m == "playlist.duplicate"@ {
        Some(Command::PlaylistDuplicate {
            id: match spec_param_str(p, "id"@) { Some(s) => s, None => ""@ },
            name: spec_param_str(p, "name"@),
        })
    } else if m == "playlist.cover"@ {
        Some(Command::PlaylistCover {
            id: match spec_param_str(p, "id"@) { Some(s) => s, None => ""@ },
        })
    } else if m == "playlist.user"@ {
        Some(Command::PlaylistUser {
            user_id: match spec_param_str(p, "user_id"@) { Some(s) => s, None => ""@ },
        })
    } else if m == "library.list"@ {
        Some(Command::LibraryList {
            limit: (match spec_param_u64(p, "limit"@) { Some(n) => n, None => 20u64 }) as u8,
            offset: (match spec_param_u64(p, "offset"@) { Some(n) => n, None => 0u64 }) as u32,
        })
    } else if m == "library.save"@ {
        Some(Command::LibrarySave {
            ids: spec_param_strings(p, "ids"@),
            now_playing: match spec_param_bool(p, "now_playing"@) { Some(b) => b, None => false },
            dry_run: match spec_param_bool(p, "dry_run"@) { Some(b) => b, None => false },
        })
    } else if m == "library.remove"@ {
        Some(Command::LibraryRemove {
            ids: spec_param_strings(p, "ids"@),
            dry_run: match spec_param_bool(p, "dry_run"@) { Some(b) => b, None => false },
        })
    } else if m == "library.check"@ {
        Some(Command::LibraryCheck {
            ids: spec_param_strings(p, "ids"@),
        })
    } else {
        None
    }
}

/// Commands of the methods info.track to episode.list.
#[verifier::opaque]
pub open spec fn command_spec_3(m: Seq<char>, p: Option<JsonValue>) -> Option<Command<Seq<char>, Seq<Seq<char>>>> {
    if m == "info.track"@ {
        Some(Command::InfoTrack {
            id: spec_param_str(p, "id"@),
            id_only: match spec_param_bool(p, "id_only"@) { Some(b) => b, None => false },
        })
    } else if m == "info.album"@ {
        Some(Command::InfoAlbum {
            id: spec_param_str(p, "id"@),
            id_only: match spec_param_bool(p, "id_only"@) { Some(b) => b, None => false },
        })
    } else if m == "info.artist"@ {
        Some(Command::InfoArtist {
            id: spec_param_str(p, "id"@),
            id_only: match spec_param_bool(p, "id_only"@) { Some(b) => b, None => false },
            view: match spec_param_str(p, "view"@) { Some(s) => artist_view_of(s), None => ArtistView::Details },
            market: match spec_param_str(p, "market"@) { Some(s) => s, None => Seq::empty() },
            limit: (match spec_param_u64(p, "limit"@) { Some(n) => n, None => 20u64 }) as u8,
            offset: (match spec_param_u64(p, "offset"@) { Some(n) => n, None => 0u64 }) as u32,
        })
    } else if m == "user.profile"@ {
        Some(Command::UserProfile)
    } else if m == "user.top"@ {
        Some(Command::UserTop {
            item_type: match spec_param_str(p, "type"@) { Some(s) => s, None => "tracks"@ },
            range: match spec_param_str(p, "range"@) { Some(s) => s, None => "medium"@ },
            limit: (match spec_param_u64(p, "limit"@) { Some(n) => n, None => 20u64 }) as u8,
        })
    } else if m == "user.get"@ {
        Some(Command::UserGet {
            user_id: match spec_param_str(p, "id"@) { Some(s) => s, None => ""@ },
        })
    } else if m == "show.get"@ {
        Some(Command::ShowGet {
            id: match spec_param_str(p, "id"@) { Some(s) => s, None => ""@ },
        })
    } else if m == "show.episodes"@ {
        Some(Command::ShowEpisodes {
            id: match spec_param_str(p, "id"@) { Some(s) => s, None => ""@ },
            limit: (match spec_param_u64(p, "limit"@) { Some(n) => n, None => 20u64 }) as u8,
            offset: (match spec_param_u64(p, "offset"@) { Some(n) => n, None => 0u64 }) as u32,
        })
    } else if m == "show.list"@ {
        Some(Command::ShowList {
            limit: (match spec_param_u64(p, "limit"@) { Some(n) => n, None => 20u64 }) as u8,
            offset: (match spec_param_u64(p, "offset"@) { Some(n) => n, None => 0u64 }) as u32,
        })
    } else if m == "show.save"@ {
        Some(Command::ShowSave {
            ids: spec_param_strings(p, "ids"@),
        })
    } else if m == "show.remove"@ {
        Some(Command::ShowRemove {
            ids: spec_param_strings(p, "ids"@),
        })
    } else if m == "show.check"@ {
        Some(Command::ShowCheck {
            ids: spec_param_strings(p, "ids"@),
        })
    } else if m == "episode.get"@ {
        Some(Command::EpisodeGet {
            id: match spec_param_str(p, "id"@) { Some(s) => s, None => ""@ },
        })
    } else if m == "episode.list"@ {
        Some(Command::EpisodeList {
            limit: (match spec_param_u64(p, "limit"@) { Some(n) => n, None => 20u64 }) as u8,
            offset: (match spec_param_u64(p, "offset"@) { Some(n) => n, None => 0u64 }) as u32,
        })
    } else {
        None
    }
}

/// Commands of the methods episode.save to album.remove.
#[verifier::opaque]
pub open spec fn command_spec_4(m: Seq<char>, p: Option<JsonValue>) -> Option<Command<Seq<char>, Seq<Seq<char>>>> {
    if m == "episode.save"@ {
        Some(Command::EpisodeSave {
            ids: spec_param_strings(p, "ids"@),
        })
    } else if m == "episode.remove"@ {
        Some(Command::EpisodeRemove {
            ids: spec_param_strings(p, "ids"@),
        })
    } else if m == "episode.check"@ {
        Some(Command::EpisodeCheck {
            ids: spec_param_strings(p, "ids"@),
        })
    } else if m == "audiobook.get"@ {
        Some(Command::AudiobookGet {
            id: match spec_param_str(p, "id"@) { Some(s) => s, None => ""@ },
        })
    } else if m == "audiobook.chapters"@ {
        Some(Command::AudiobookChapters {
            id: match spec_param_str(p, "id"@) { Some(s) => s, None => ""@ },
            limit: (match spec_param_u64(p, "limit"@) { Some(n) => n, None => 20u64 }) as u8,
            offset: (match spec_param_u64(p, "offset"@) { Some(n) => n, None => 0u64 }) as u32,
        })
    } else if m == "audiobook.list"@ {
        Some(Command::AudiobookList {
            limit: (match spec_param_u64(p, "limit"@) { Some(n) => n, None => 20u64 }) as u8,
            offset: (match spec_param_u64(p, "offset"@) { Some(n) => n, None => 0u64 }) as u32,
        })
    } else if m == "audiobook.save"@ {
        Some(Command::AudiobookSave {
            ids: spec_param_strings(p, "ids"@),
        })
    } else if m == "audiobook.remove"@ {
        Some(Command::AudiobookRemove {
            ids: spec_param_strings(p, "ids"@),
        })
    } else if m == "audiobook.check"@ {
        Some(Command::AudiobookCheck {
            ids: spec_param_strings(p, "ids"@),
        })
    } else if m == "album.list"@ {
        Some(Command::AlbumList {
            limit: (match spec_param_u64(p, "limit"@) { Some(n) => n, None => 20u64 }) as u8,
            offset: (match spec_param_u64(p, "offset"@) { Some(n) => n, None => 0u64 }) as u32,
        })
    } else if m == "album.tracks"@ {
        Some(Command::AlbumTracks {
            id: match spec_param_str(p, "id"@) { Some(s) => s, None => ""@ },
            limit: (match spec_param_u64(p, "limit"@) { Some(n) => n, None => 20u64 }) as u8,
            offset: (match spec_param_u64(p, "offset"@) { Some(n) => n, None => 0u64 }) as u32,
        })
    } else if m == "album.save"@ {
        Some(Command::AlbumSave {
            ids: spec_param_strings(p, "ids"@),
        })
    } else if m == "album.remove"@ {
        Some(Command::AlbumRemove {
            ids: spec_param_strings(p, "ids"@),
        })
    } else {
        None
    }
}

/// Commands of the methods album.check to markets.list.
#[verifier::opaque]
pub open spec fn command_spec_5(m: Seq<char>, p: Option<JsonValue>) -> Option<Command<Seq<char>, Seq<Seq<char>>>> {
    if m == "album.check"@ {
        Some(Command::AlbumCheck {
            ids: spec_param_strings(p, "ids"@),
        })
    } else if m == "album.newReleases"@ {
        Some(Command::AlbumNewReleases {
            limit: (match spec_param_u64(p, "limit"@) { Some(n) => n, None => 20u64 }) as u8,
            offset: (match spec_param_u64(p, "offset"@) { Some(n) => n, None => 0u64 }) as u32,
        })
    } else if m == "chapter.get"@ {
        Some(Command::ChapterGet {
            id: match spec_param_str(p, "id"@) { Some(s) => s, None => ""@ },
        })
    } else if m == "category.list"@ {
        Some(Command::CategoryList {
            limit: (match spec_param_u64(p, "limit"@) { Some(n) => n, None => 20u64 }) as u8,
            offset: (match spec_param_u64(p, "offset"@) { Some(n) => n, None => 0u64 }) as u32,
        })
    } else if m == "category.get"@ {
        Some(Command::CategoryGet {
            id: match spec_param_str(p, "id"@) { Some(s) => s, None => ""@ },
        })
    } else if m == "category.playlists"@ {
        Some(Command::CategoryPlaylists {
            id: match spec_param_str(p, "id"@) { Some(s) => s, None => ""@ },
            limit: (match spec_param_u64(p, "limit"@) { Some(n) => n, None => 20u64 }) as u8,
            offset: (match spec_param_u64(p, "offset"@) { Some(n) => n, None => 0u64 }) as u32,
        })
    } else if m == "follow.artist"@ {
        Some(Command::FollowArtist {
            ids: spec_param_strings(p, "ids"@),
            dry_run: match spec_param_bool(p, "dry_run"@) { Some(b) => b, None => false },
        })
    } else if m == "follow.user"@ {
        Some(Command::FollowUser {
            ids: spec_param_strings(p, "ids"@),
            dry_run: match spec_param_bool(p, "dry_run"@) { Some(b) => b, None => false },
        })
    } else if m == "follow.unfollowArtist"@ {
        Some(Command::UnfollowArtist {
            ids: spec_param_strings(p, "ids"@),
            dry_run: match spec_param_bool(p, "dry_run"@) { Some(b) => b, None => false },
        })
    } else if m == "follow.unfollowUser"@ {
        Some(Command::UnfollowUser {
            ids: spec_param_strings(p, "ids"@),
            dry_run: match spec_param_bool(p, "dry_run"@) { Some(b) => b, None => false },
        })
    } else if m == "follow.list"@ {
        Some(Command::FollowList {
            limit: (match spec_param_u64(p, "limit"@) { Some(n) => n, None => 20u64 }) as u8,
        })
    } else if m == "follow.checkArtist"@ {
        Some(Command::FollowCheckArtist {
            ids: spec_param_strings(p, "ids"@),
        })
    } else if m == "follow.checkUser"@ {
        Some(Command::FollowCheckUser {
            ids: spec_param_strings(p, "ids"@),
        })
    } else if m == "markets.list"@ {
        Some(Command::MarketsList)
    } else {
        None
    }
}

/// The JSON-RPC method whose request runs a command.
pub open spec fn method_of<S, A>(c: Command<S, A>) -> Seq<char> {
    match c {
        Command::Version => "version"@,
        Command::AuthLogin { .. } => "auth.login"@,
        Command::AuthLogout => "auth.logout"@,
        Command::AuthRefresh => "auth.refresh"@,
        Command::AuthStatus => "auth.status"@,
        Command::PlayerStatus { .. } => "player.status"@,
        Command::PlayerPlay { .. } => "player.play"@,
        Command::PlayerPause => "player.pause"@,
        Command::PlayerToggle => "player.toggle"@,
        Command::PlayerNext => "player.next"@,
        Command::PlayerPrevious => "player.previous"@,
        Command::PlayerSeek { .. } => "player.seek"@,
        Command::PlayerVolume { .. } => "player.volume"@,
        Command::PlayerShuffle { .. } => "player.shuffle"@,
        Command::PlayerRepeat { .. } => "player.repeat"@,
        Command::PlayerDevicesList => "player.devices"@,
        Command::PlayerDevicesTransfer { .. } => "player.transfer"@,
        Command::PlayerRecent => "player.recent"@,
        Command::QueueList => "queue.list"@,
        Command::QueueAdd { .. } => "queue.add"@,
        Command::Search { .. } => "search"@,
        Command::PinAdd { .. } => "pin.add"@,
        Command::PinRemove { .. } => "pin.remove"@,
        Command::PinList { .. } => "pin.list"@,
        Command::PlaylistList { .. } => "playlist.list"@,
        Command::PlaylistGet { .. } => "playlist.get"@,
        Command::PlaylistCreate { .. } => "playlist.create"@,
        Command::PlaylistAdd { .. } => "playlist.add"@,
        Command::PlaylistRemove { .. } => "playlist.remove"@,
        Command::PlaylistEdit { .. } => "playlist.edit"@,
        Command::PlaylistReorder { .. } => "playlist.reorder"@,
        Command::PlaylistFollow { .. } => "playlist.follow"@,
        Command::PlaylistUnfollow { .. } => "playlist.unfollow"@,
        Command::PlaylistDuplicate { .. } => "playlist.duplicate"@,
        Command::PlaylistCover { .. } => "playlist.cover"@,
        Command::PlaylistUser { .. } => "playlist.user"@,
        Command::LibraryList { .. } => "library.list"@,
        Command::LibrarySave { .. } => "library.save"@,
        Command::LibraryRemove { .. } => "library.remove"@,
        Command::LibraryCheck { .. } => "library.check"@,
        Command::InfoTrack { .. } => "info.track"@,
        Command::InfoAlbum { .. } => "info.album"@,
        Command::InfoArtist { .. } => "info.artist"@,
        Command::UserProfile => "user.profile"@,
        Command::UserTop { .. } => "user.top"@,
        Command::UserGet { .. } => "user.get"@,
        Command::ShowGet { .. } => "show.get"@,
        Command::ShowEpisodes { .. } => "show.episodes"@,
        Command::ShowList { .. } => "show.list"@,
        Command::ShowSave { .. } => "show.save"@,
        Command::ShowRemove { .. } => "show.remove"@,
        Command::ShowCheck { .. } => "show.check"@,
        Command::EpisodeGet { .. } => "episode.get"@,
        Command::EpisodeList { .. } => "episode.list"@,
        Command::EpisodeSave { .. } => "episode.save"@,
        Command::EpisodeRemove { .. } => "episode.remove"@,
        Command::EpisodeCheck { .. } => "episode.check"@,
        Command::AudiobookGet { .. } => "audiobook.get"@,
        Command::AudiobookChapters { .. } => "audiobook.chapters"@,
        Command::AudiobookList { .. } => "audiobook.list"@,
        Command::AudiobookSave { .. } => "audiobook.save"@,
        Command::AudiobookRemove { .. } => "audiobook.remove"@,
        Command::AudiobookCheck { .. } => "audiobook.check"@,
        Command::AlbumList { .. } => "album.list"@,
        Command::AlbumTracks { .. } => "album.tracks"@,
        Command::AlbumSave { .. } => "album.save"@,
        Command::AlbumRemove { .. } => "album.remove"@,
        Command::AlbumCheck { .. } => "album.check"@,
        Command::AlbumNewReleases { .. } => "album.newReleases"@,
        Command::ChapterGet { .. } => "chapter.get"@,
        Command::CategoryList { .. } => "category.list"@,
        Command::CategoryGet { .. } => "category.get"@,
        Command::CategoryPlaylists { .. } => "category.playlists"@,
        Command::FollowArtist { .. } => "follow.artist"@,
        Command::FollowUser { .. } => "follow.user"@,
        Command::UnfollowArtist { .. } => "follow.unfollowArtist"@,
        Command::UnfollowUser { .. } => "follow.unfollowUser"@,
        Command::FollowList { .. } => "follow.list"@,
        Command::FollowCheckArtist { .. } => "follow.checkArtist"@,
        Command::FollowCheckUser { .. } => "follow.checkUser"@,
        Command::MarketsList => "markets.list"@,
    }
}

/// The command that a method name and its parameters select;
/// `None` for methods with no command, and for `player.transfer` without a device.
pub open spec fn command_spec(m: Seq<char>, p: Option<JsonValue>) -> Option<Command<Seq<char>, Seq<Seq<char>>>> {
    match command_spec_0(m, p) { Some(c) => Some(c), None => match command_spec_1(m, p) { Some(c) => Some(c), None => match command_spec_2(m, p) { Some(c) => Some(c), None => match command_spec_3(m, p) { Some(c) => Some(c), None => match command_spec_4(m, p) { Some(c) => Some(c), None => command_spec_5(m, p) } } } } }
}

proof fn lemma_command_spec_0_names_method(m: Seq<char>, p: Option<JsonValue>)
    ensures
        command_spec_0(m, p) matches Some(c) ==> method_of(c) == m,
{
    reveal(command_spec_0);
}

proof fn lemma_command_spec_1_names_method(m: Seq<char>, p: Option<JsonValue>)
    ensures
        command_spec_1(m, p) matches Some(c) ==> method_of(c) == m,
{
    reveal(command_spec_1);
}

proof fn lemma_command_spec_2_names_method(m: Seq<char>, p: Option<JsonValue>)
    ensures
        command_spec_2(m, p) matches Some(c) ==> method_of(c) == m,
{
    reveal(command_spec_2);
}

proof fn lemma_command_spec_3_names_method(m: Seq<char>, p: Option<JsonValue>)
    ensures
        command_spec_3(m, p) matches Some(c) ==> method_of(c) == m,
{
    reveal(command_spec_3);
}

proof fn lemma_command_spec_4_names_method(m: Seq<char>, p: Option<JsonValue>)
    ensures
        command_spec_4(m, p) matches Some(c) ==> method_of(c) == m,
{
    reveal(command_spec_4);
}

proof fn lemma_command_spec_5_names_method(m: Seq<char>, p: Option<JsonValue>)
    ensures
        command_spec_5(m, p) matches Some(c) ==> method_of(c) == m,
{
    reveal(command_spec_5);
}

/// Routing is one-to-one: a request that runs a command runs the command
/// named by its own method (so `player.next` runs `PlayerNext`, never
/// `PlayerPrevious`), whatever its parameters.
pub proof fn lemma_routing_names_method(m: Seq<char>, p: Option<JsonValue>, r: Routed)
    requires
        routed_as(r, m, p),
    ensures
        command_spec(m, p) matches Some(c) ==> method_of(c) == m,
        r matches Routed::Run(x) ==> method_of(x@) == m,
{
    lemma_command_spec_0_names_method(m, p);
    lemma_command_spec_1_names_method(m, p);
    lemma_command_spec_2_names_method(m, p);
    lemma_command_spec_3_names_method(m, p);
    lemma_command_spec_4_names_method(m, p);
    lemma_command_spec_5_names_method(m, p);
}

/// Two different methods never run the same command.
pub proof fn lemma_distinct_methods_distinct_commands(
    m1: Seq<char>,
    p1: Option<JsonValue>,
    m2: Seq<char>,
    p2: Option<JsonValue>,
)
    requires
        m1 != m2,
        command_spec(m1, p1) is Some,
    ensures
        command_spec(m1, p1) != command_spec(m2, p2),
{
    lemma_command_spec_0_names_method(m1, p1);
    lemma_command_spec_1_names_method(m1, p1);
    lemma_command_spec_2_names_method(m1, p1);
    lemma_command_spec_3_names_method(m1, p1);
    lemma_command_spec_4_names_method(m1, p1);
    lemma_command_spec_5_names_method(m1, p1);
    lemma_command_spec_0_names_method(m2, p2);
    lemma_command_spec_1_names_method(m2, p2);
    lemma_command_spec_2_names_method(m2, p2);
    lemma_command_spec_3_names_method(m2, p2);
    lemma_command_spec_4_names_method(m2, p2);
    lemma_command_spec_5_names_method(m2, p2);
}

fn route_command_0(m: &String, params: Option<&JsonValue>) -> (r: Option<Command<String, Vec<String>>>)
    ensures
        r matches Some(c) ==> command_spec_0(m@, opt_deref(params)) == Some(c@),
        r is None ==> command_spec_0(m@, opt_deref(params)) is None,
{
    reveal(command_spec_0);
    let ghost p = opt_deref(params);
    if is_method(m, "version") {
        Some(Command::Version)
    } else if is_method(m, "auth.login") {
        let force = param_bool(params, "force").unwrap_or(false);
        Some(Command::AuthLogin { force })
    } else if is_method(m, "auth.logout") {
        Some(Command::AuthLogout)
    } else if is_method(m, "auth.refresh") {
        Some(Command::AuthRefresh)
    } else if is_method(m, "auth.status") {
        Some(Command::AuthStatus)
    } else if is_method(m, "player.status") {
        let id_only = param_str(params, "id_only");
        Some(Command::PlayerStatus { id_only })
    } else if is_method(m, "player.play") {
        let uri = param_str(params, "uri");
        let pin = param_str(params, "pin");
        Some(Command::PlayerPlay { uri, pin })
    } else if is_method(m, "player.pause") {
        Some(Command::PlayerPause)
    } else if is_method(m, "player.toggle") {
        Some(Command::PlayerToggle)
    } else if is_method(m, "player.next") {
        Some(Command::PlayerNext)
    } else if is_method(m, "player.previous") {
        Some(Command::PlayerPrevious)
    } else if is_method(m, "player.seek") {
        let position = match param_str(params, "position") { Some(s) => s, None => owned("0") };
        Some(Command::PlayerSeek { position })
    } else if is_method(m, "player.volume") {
        let percent = (match param_u64(params, "percent") { Some(n) => n, None => 50 }) as u8;
        Some(Command::PlayerVolume { percent })
    } else {
        None
    }
}

fn route_command_1(m: &String, params: Option<&JsonValue>) -> (r: Option<Command<String, Vec<String>>>)
    ensures
        r matches Some(c) ==> command_spec_1(m@, opt_deref(params)) == Some(c@),
        r is None ==> command_spec_1(m@, opt_deref(params)) is None,
{
    reveal(command_spec_1);
    let ghost p = opt_deref(params);
    if is_method(m, "player.shuffle") {
        let state = match param_str(params, "state") { Some(s) => s, None => owned("on") };
        Some(Command::PlayerShuffle { state })
    } else if is_method(m, "player.repeat") {
        let mode = match param_str(params, "mode") { Some(s) => s, None => owned("off") };
        Some(Command::PlayerRepeat { mode })
    } else if is_method(m, "player.devices") {
        Some(Command::PlayerDevicesList)
    } else if is_method(m, "player.transfer") {
        match param_str(params, "device") { Some(d) => Some(Command::PlayerDevicesTransfer { device: d }), None => None }
    } else if is_method(m, "player.recent") {
        Some(Command::PlayerRecent)
    } else if is_method(m, "queue.list") {
        Some(Command::QueueList)
    } else if is_method(m, "queue.add") {
        let uri = param_str(params, "uri");
        let now_playing = param_bool(params, "now_playing").unwrap_or(false);
        Some(Command::QueueAdd { uri, now_playing })
    } else if is_method(m, "search") {
        let query = match param_str(params, "query") { Some(s) => s, None => owned("") };
        let types = param_strings(params, "types");
        let limit = (match param_u64(params, "limit") { Some(n) => n, None => 20 }) as u8;
        let pins_only = param_bool(params, "pins_only").unwrap_or(false);
        let exact = param_bool(params, "exact").unwrap_or(false);
        let filters = filters_of(params);
        let play = param_bool(params, "play").unwrap_or(false);
        Some(Command::Search { query, types, limit, pins_only, exact, filters, play })
    } else if is_method(m, "pin.add") {
        let resource_type = match param_str(params, "type") { Some(s) => s, None => owned("track") };
        let url_or_id = match param_str(params, "id") { Some(s) => s, None => owned("") };
        let alias = match param_str(params, "alias") { Some(s) => s, None => owned("") };
        let tags = param_str(params, "tags");
        Some(Command::PinAdd { resource_type, url_or_id, alias, tags })
    } else if is_method(m, "pin.remove") {
        let alias_or_id = match param_str(params, "id") { Some(s) => s, None => owned("") };
        Some(Command::PinRemove { alias_or_id })
    } else if is_method(m, "pin.list") {
        let resource_type = param_str(params, "type");
        Some(Command::PinList { resource_type })
    } else if is_method(m, "playlist.list") {
        let limit = (match param_u64(params, "limit") { Some(n) => n, None => 20 }) as u8;
        let offset = (match param_u64(params, "offset") { Some(n) => n, None => 0 }) as u32;
        Some(Command::PlaylistList { limit, offset })
    } else if is_method(m, "playlist.get") {
        let id = match param_str(params, "id") { Some(s) => s, None => owned("") };
        Some(Command::PlaylistGet { id })
    } else if is_method(m, "playlist.create") {
        let name = match param_str(params, "name") { Some(s) => s, None => owned("New Playlist") };
        let description = param_str(params, "description");
        let public = param_bool(params, "public").unwrap_or(false);
        Some(Command::PlaylistCreate { name, description, public })
    } else {
        None
    }
}

fn route_command_2(m: &String, params: Option<&JsonValue>) -> (r: Option<Command<String, Vec<String>>>)
    ensures
        r matches Some(c) ==> command_spec_2(m@, opt_deref(params)) == Some(c@),
        r is None ==> command_spec_2(m@, opt_deref(params)) is None,
{
    reveal(command_spec_2);
    let ghost p = opt_deref(params);
    if is_method(m, "playlist.add") {
        let id = match param_str(params, "id") { Some(s) => s, None => owned("") };
        let uris = param_strings(params, "uris");
        let now_playing = param_bool(params, "now_playing").unwrap_or(false);
        let position = match param_u64(params, "position") { Some(n) => Some(n as u32), None => None };
        let dry_run = param_bool(params, "dry_run").unwrap_or(false);
        Some(Command::PlaylistAdd { id, uris, now_playing, position, dry_run })
    } else if is_method(m, "playlist.remove") {
        let id = match param_str(params, "id") { Some(s) => s, None => owned("") };
        let uris = param_strings(params, "uris");
        let dry_run = param_bool(params, "dry_run").unwrap_or(false);
        Some(Command::PlaylistRemove { id, uris, dry_run })
    } else if is_method(m, "playlist.edit") {
        let id = match param_str(params, "id") { Some(s) => s, None => owned("") };
        let name = param_str(params, "name");
        let description = param_str(params, "description");
        let public = param_bool(params, "public");
        Some(Command::PlaylistEdit { id, name, description, public })
    } else if is_method(m, "playlist.reorder") {
        let id = match param_str(params, "id") { Some(s) => s, None => owned("") };
        let from = (match param_u64(params, "from") { Some(n) => n, None => 0 }) as u32;
        let to = (match param_u64(params, "to") { Some(n) => n, None => 0 }) as u32;
        let count = (match param_u64(params, "count") { Some(n) => n, None => 1 }) as u32;
        Some(Command::PlaylistReorder { id, from, to, count })
    } else if is_method(m, "playlist.follow") {
        let id = match param_str(params, "id") { Some(s) => s, None => owned("") };
        let public = param_bool(params, "public").unwrap_or(true);
        Some(Command::PlaylistFollow { id, public })
    } else if is_method(m, "playlist.unfollow") {
        let id = match param_str(params, "id") { Some(s) => s, None => owned("") };
        Some(Command::PlaylistUnfollow { id })
    } else if is_method(m, "playlist.duplicate") {
        let id = match param_str(params, "id") { Some(s) => s, None => owned("") };
        let name = param_str(params, "name");
        Some(Command::PlaylistDuplicate { id, name })
    } else if is_method(m, "playlist.cover") {
        let id = match param_str(params, "id") { Some(s) => s, None => owned("") };
        Some(Command::PlaylistCover { id })
    } else if is_method(m, "playlist.user") {
        let user_id = match param_str(params, "user_id") { Some(s) => s, None => owned("") };
        Some(Command::PlaylistUser { user_id })
    } else if is_method(m, "library.list") {
        let limit = (match param_u64(params, "limit") { Some(n) => n, None => 20 }) as u8;
        let offset = (match param_u64(params, "offset") { Some(n) => n, None => 0 }) as u32;
        Some(Command::LibraryList { limit, offset })
    } else if is_method(m, "library.save") {
        let ids = param_strings(params, "ids");
        let now_playing = param_bool(params, "now_playing").unwrap_or(false);
        let dry_run = param_bool(params, "dry_run").unwrap_or(false);
        Some(Command::LibrarySave { ids, now_playing, dry_run })
    } else if is_method(m, "library.remove") {
        let ids = param_strings(params, "ids");
        let dry_run = param_bool(params, "dry_run").unwrap_or(false);
        Some(Command::LibraryRemove { ids, dry_run })
    } else if is_method(m, "library.check") {
        let ids = param_strings(params, "ids");
        Some(Command::LibraryCheck { ids })
    } else {
        None
    }
}

fn route_command_3(m: &String, params: Option<&JsonValue>) -> (r: Option<Command<String, Vec<String>>>)
    ensures
        r matches Some(c) ==> command_spec_3(m@, opt_deref(params)) == Some(c@),
        r is None ==> command_spec_3(m@, opt_deref(params)) is None,
{
    reveal(command_spec_3);
    let ghost p = opt_deref(params);
    if is_method(m, "info.track") {
        let id = param_str(params, "id");
        let id_only = param_bool(params, "id_only").unwrap_or(false);
        Some(Command::InfoTrack { id, id_only })
    } else if is_method(m, "info.album") {
        let id = param_str(params, "id");
        let id_only = param_bool(params, "id_only").unwrap_or(false);
        Some(Command::InfoAlbum { id, id_only })
    } else if is_method(m, "info.artist") {
        let id = param_str(params, "id");
        let id_only = param_bool(params, "id_only").unwrap_or(false);
        let view = match param_str(params, "view") { Some(s) => artist_view_from(&s), None => ArtistView::Details };
        let market = match param_str(params, "market") { Some(s) => s, None => String::new() };
        let limit = (match param_u64(params, "limit") { Some(n) => n, None => 20 }) as u8;
        let offset = (match param_u64(params, "offset") { Some(n) => n, None => 0 }) as u32;
        Some(Command::InfoArtist { id, id_only, view, market, limit, offset })
    } else if is_method(m, "user.profile") {
        Some(Command::UserProfile)
    } else if is_method(m, "user.top") {
        let item_type = match param_str(params, "type") { Some(s) => s, None => owned("tracks") };
        let range = match param_str(params, "range") { Some(s) => s, None => owned("medium") };
        let limit = (match param_u64(params, "limit") { Some(n) => n, None => 20 }) as u8;
        Some(Command::UserTop { item_type, range, limit })
    } else if is_method(m, "user.get") {
        let user_id = match param_str(params, "id") { Some(s) => s, None => owned("") };
        Some(Command::UserGet { user_id })
    } else if is_method(m, "show.get") {
        let id = match param_str(params, "id") { Some(s) => s, None => owned("") };
        Some(Command::ShowGet { id })
    } else if is_method(m, "show.episodes") {
        let id = match param_str(params, "id") { Some(s) => s, None => owned("") };
        let limit = (match param_u64(params, "limit") { Some(n) => n, None => 20 }) as u8;
        let offset = (match param_u64(params, "offset") { Some(n) => n, None => 0 }) as u32;
        Some(Command::ShowEpisodes { id, limit, offset })
    } else if is_method(m, "show.list") {
        let limit = (match param_u64(params, "limit") { Some(n) => n, None => 20 }) as u8;
        let offset = (match param_u64(params, "offset") { Some(n) => n, None => 0 }) as u32;
        Some(Command::ShowList { limit, offset })
    } else if is_method(m, "show.save") {
        let ids = param_strings(params, "ids");
        Some(Command::ShowSave { ids })
    } else if is_method(m, "show.remove") {
        let ids = param_strings(params, "ids");
        Some(Command::ShowRemove { ids })
    } else if is_method(m, "show.check") {
        let ids = param_strings(params, "ids");
        Some(Command::ShowCheck { ids })
    } else if is_method(m, "episode.get") {
        let id = match param_str(params, "id") { Some(s) => s, None => owned("") };
        Some(Command::EpisodeGet { id })
    } else if is_method(m, "episode.list") {
        let limit = (match param_u64(params, "limit") { Some(n) => n, None => 20 }) as u8;
        let offset = (match param_u64(params, "offset") { Some(n) => n, None => 0 }) as u32;
        Some(Command::EpisodeList { limit, offset })
    } else {
        None
    }
}

fn route_command_4(m: &String, params: Option<&JsonValue>) -> (r: Option<Command<String, Vec<String>>>)
    ensures
        r matches Some(c) ==> command_spec_4(m@, opt_deref(params)) == Some(c@),
        r is None ==> command_spec_4(m@, opt_deref(params)) is None,
{
    reveal(command_spec_4);
    let ghost p = opt_deref(params);
    if is_method(m, "episode.save") {
        let ids = param_strings(params, "ids");
        Some(Command::EpisodeSave { ids })
    } else if is_method(m, "episode.remove") {
        let ids = param_strings(params, "ids");
        Some(Command::EpisodeRemove { ids })
    } else if is_method(m, "episode.check") {
        let ids = param_strings(params, "ids");
        Some(Command::EpisodeCheck { ids })
    } else if is_method(m, "audiobook.get") {
        let id = match param_str(params, "id") { Some(s) => s, None => owned("") };
        Some(Command::AudiobookGet { id })
    } else if is_method(m, "audiobook.chapters") {
        let id = match param_str(params, "id") { Some(s) => s, None => owned("") };
        let limit = (match param_u64(params, "limit") { Some(n) => n, None => 20 }) as u8;
        let offset = (match param_u64(params, "offset") { Some(n) => n, None => 0 }) as u32;
        Some(Command::AudiobookChapters { id, limit, offset })
    } else if is_method(m, "audiobook.list") {
        let limit = (match param_u64(params, "limit") { Some(n) => n, None => 20 }) as u8;
        let offset = (match param_u64(params, "offset") { Some(n) => n, None => 0 }) as u32;
        Some(Command::AudiobookList { limit, offset })
    } else if is_method(m, "audiobook.save") {
        let ids = param_strings(params, "ids");
        Some(Command::AudiobookSave { ids })
    } else if is_method(m, "audiobook.remove") {
        let ids = param_strings(params, "ids");
        Some(Command::AudiobookRemove { ids })
    } else if is_method(m, "audiobook.check") {
        let ids = param_strings(params, "ids");
        Some(Command::AudiobookCheck { ids })
    } else if is_method(m, "album.list") {
        let limit = (match param_u64(params, "limit") { Some(n) => n, None => 20 }) as u8;
        let offset = (match param_u64(params, "offset") { Some(n) => n, None => 0 }) as u32;
        Some(Command::AlbumList { limit, offset })
    } else if is_method(m, "album.tracks") {
        let id = match param_str(params, "id") { Some(s) => s, None => owned("") };
        let limit = (match param_u64(params, "limit") { Some(n) => n, None => 20 }) as u8;
        let offset = (match param_u64(params, "offset") { Some(n) => n, None => 0 }) as u32;
        Some(Command::AlbumTracks { id, limit, offset })
    } else if is_method(m, "album.save") {
        let ids = param_strings(params, "ids");
        Some(Command::AlbumSave { ids })
    } else if is_method(m, "album.remove") {
        let ids = param_strings(params, "ids");
        Some(Command::AlbumRemove { ids })
    } else {
        None
    }
}

fn route_command_5(m: &String, params: Option<&JsonValue>) -> (r: Option<Command<String, Vec<String>>>)
    ensures
        r matches Some(c) ==> command_spec_5(m@, opt_deref(params)) == Some(c@),
        r is None ==> command_spec_5(m@, opt_deref(params)) is None,
{
    reveal(command_spec_5);
    let ghost p = opt_deref(params);
    if is_method(m, "album.check") {
        let ids = param_strings(params, "ids");
        Some(Command::AlbumCheck { ids })
    } else if is_method(m, "album.newReleases") {
        let limit = (match param_u64(params, "limit") { Some(n) => n, None => 20 }) as u8;
        let offset = (match param_u64(params, "offset") { Some(n) => n, None => 0 }) as u32;
        Some(Command::AlbumNewReleases { limit, offset })
    } else if is_method(m, "chapter.get") {
        let id = match param_str(params, "id") { Some(s) => s, None => owned("") };
        Some(Command::ChapterGet { id })
    } else if is_method(m, "category.list") {
        let limit = (match param_u64(params, "limit") { Some(n) => n, None => 20 }) as u8;
        let offset = (match param_u64(params, "offset") { Some(n) => n, None => 0 }) as u32;
        Some(Command::CategoryList { limit, offset })
    } else if is_method(m, "category.get") {
        let id = match param_str(params, "id") { Some(s) => s, None => owned("") };
        Some(Command::CategoryGet { id })
    } else if is_method(m, "category.playlists") {
        let id = match param_str(params, "id") { Some(s) => s, None => owned("") };
        let limit = (match param_u64(params, "limit") { Some(n) => n, None => 20 }) as u8;
        let offset = (match param_u64(params, "offset") { Some(n) => n, None => 0 }) as u32;
        Some(Command::CategoryPlaylists { id, limit, offset })
    } else if is_method(m, "follow.artist") {
        let ids = param_strings(params, "ids");
        let dry_run = param_bool(params, "dry_run").unwrap_or(false);
        Some(Command::FollowArtist { ids, dry_run })
    } else if is_method(m, "follow.user") {
        let ids = param_strings(params, "ids");
        let dry_run = param_bool(params, "dry_run").unwrap_or(false);
        Some(Command::FollowUser { ids, dry_run })
    } else if is_method(m, "follow.unfollowArtist") {
        let ids = param_strings(params, "ids");
        let dry_run = param_bool(params, "dry_run").unwrap_or(false);
        Some(Command::UnfollowArtist { ids, dry_run })
    } else if is_method(m, "follow.unfollowUser") {
        let ids = param_strings(params, "ids");
        let dry_run = param_bool(params, "dry_run").unwrap_or(false);
        Some(Command::UnfollowUser { ids, dry_run })
    } else if is_method(m, "follow.list") {
        let limit = (match param_u64(params, "limit") { Some(n) => n, None => 20 }) as u8;
        Some(Command::FollowList { limit })
    } else if is_method(m, "follow.checkArtist") {
        let ids = param_strings(params, "ids");
        Some(Command::FollowCheckArtist { ids })
    } else if is_method(m, "follow.checkUser") {
        let ids = param_strings(params, "ids");
        Some(Command::FollowCheckUser { ids })
    } else if is_method(m, "markets.list") {
        Some(Command::MarketsList)
    } else {
        None
    }
}

/// Routes a method and its parameters to a command.
fn route_command(m: &String, params: Option<&JsonValue>) -> (r: Option<Command<String, Vec<String>>>)
    ensures
        r matches Some(c) ==> command_spec(m@, opt_deref(params)) == Some(c@),
        r is None ==> command_spec(m@, opt_deref(params)) is None,
{
    if let Some(c) = route_command_0(m, params) {
        return Some(c);
    }
    if let Some(c) = route_command_1(m, params) {
        return Some(c);
    }
    if let Some(c) = route_command_2(m, params) {
        return Some(c);
    }
    if let Some(c) = route_command_3(m, params) {
        return Some(c);
    }
    if let Some(c) = route_command_4(m, params) {
        return Some(c);
    }
    route_command_5(m, params)
}


/// What a request is routed to: a command to run, or an immediate reply.
#[derive(Debug)]
pub enum Routed {
    Run(Command<String, Vec<String>>),
    Reply(Response),
}

/// The reply to `ping`.
pub open spec fn is_pong(r: Response) -> bool {
    &&& r.status == Status::Success
    &&& r.code == 200
    &&& r.message@ == "pong"@
    &&& r.payload is None
    &&& r.error is None
}

/// A validation error with the given code and message.
pub open spec fn is_validation_error(r: Response, code: u16, message: Seq<char>) -> bool {
    &&& r.status == Status::Error
    &&& r.code == code
    &&& r.message@ == message
    &&& r.payload is None
    &&& r.error matches Some(e) && e.kind == ErrorKind::Validation && e.details is None
}

/// How a request with method `m` and parameters `p` is answered.
pub open spec fn routed_as(r: Routed, m: Seq<char>, p: Option<JsonValue>) -> bool {
    if m == "ping"@ {
        r matches Routed::Reply(resp) && is_pong(resp)
    } else {
        match command_spec(m, p) {
            Some(c) => r matches Routed::Run(x) && x@ == c,
            None => if m == "player.transfer"@ {
                r matches Routed::Reply(resp) && is_validation_error(
                    resp,
                    400,
                    "Missing 'device' parameter"@,
                )
            } else {
                r matches Routed::Reply(resp) && is_validation_error(
                    resp,
                    404,
                    "Method not found: "@ + m,
                )
            },
        }
    }
}

/// Command dispatcher.
pub struct Dispatcher;

impl Dispatcher {
    pub fn new() -> (d: Self) {
        Dispatcher
    }

    /// Routes a request to its command or answers it at once.
    pub fn route(&self, request: &RpcRequest) -> (r: Routed)
        ensures
            routed_as(r, request.method@, request.params),
    {
        let m = &request.method;
        let params = match &request.params {
            Some(p) => Some(p),
            None => None,
        };
        assert(opt_deref(params) == request.params);
        if is_method(m, "ping") {
            return Routed::Reply(Response::success(200, "pong"));
        }
        match route_command(m, params) {
            Some(c) => Routed::Run(c),
            None => {
                if is_method(m, "player.transfer") {
                    Routed::Reply(Response::err(400, "Missing 'device' parameter", ErrorKind::Validation))
                } else {
                    let mut msg = owned("Method not found: ");
                    push_str(&mut msg, m.as_str());
                    Routed::Reply(Response::err(404, msg.as_str(), ErrorKind::Validation))
                }
            },
        }
    }
}

impl Default for Dispatcher {
    fn default() -> (d: Self) {
        Dispatcher::new()
    }
}

} // verus!
