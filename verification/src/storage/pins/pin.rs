//! A pinned shortcut to a Spotify resource.

use vstd::prelude::*;
use crate::storage::pins::resource_type::{ResourceType, resource_name};
use crate::text::{
    after_last, before_first, chars_of, contains_chars, contains_seq, find_after_last,
    find_first, has_char, last_index_of, lemma_first_index_bounds, lemma_last_index_bounds, occurs_at, owned, push_str,
    slice_chars, string_of,
};

verus! {

#[derive(Debug, Clone)]
pub struct Pin {
    pub resource_type: ResourceType,
    pub id: String,
    pub alias: String,
    pub tags: Vec<String>,
}

/// The host part that marks a Spotify web link.
pub open spec fn web_host() -> Seq<char> {
    "open.spotify.com"@
}

/// The Spotify id named by a web link, a `spotify:` URI or a bare id.
pub open spec fn extract_id_spec(s: Seq<char>) -> Seq<char> {
    if contains_seq(s, web_host()) {
        before_first(after_last(s, '/'), '?')
    } else if s.contains(':') {
        after_last(s, ':')
    } else {
        s
    }
}

/// The URI `spotify:<kind>:<id>`.
pub open spec fn pin_uri_spec(t: ResourceType, id: Seq<char>) -> Seq<char> {
    "spotify:"@ + resource_name(t) + ":"@ + id
}

impl Pin {
    pub fn new(resource_type: ResourceType, id: String, alias: String, tags: Vec<String>) -> (p:
        Self)
        ensures
            p.resource_type == resource_type,
            p.id == id,
            p.alias == alias,
            p.tags == tags,
    {
        Pin { resource_type, id, alias, tags }
    }

    /// Extract the Spotify ID from a URL or return the input if it's already an ID.
    pub fn extract_id(url_or_id: &str) -> (r: String)
        ensures
            r@ == extract_id_spec(url_or_id@),
    {
        let v = chars_of(url_or_id);
        let host = chars_of("open.spotify.com");
        if contains_chars(&v, &host) {
            let start = find_after_last(&v, '/');
            proof { lemma_last_index_bounds(v@, '/'); }
            let seg = slice_chars(&v, start, v.len());
            assert(seg@ == after_last(v@, '/'));
            let end = find_first(&seg, '?');
            proof { lemma_first_index_bounds(seg@, '?'); }
            let id = slice_chars(&seg, 0, end);
            assert(id@ == before_first(seg@, '?'));
            string_of(&id)
        } else if has_char(&v, ':') {
            let start = find_after_last(&v, ':');
            proof { lemma_last_index_bounds(v@, ':'); }
            let id = slice_chars(&v, start, v.len());
            assert(id@ == after_last(v@, ':'));
            string_of(&id)
        } else {
            owned(url_or_id)
        }
    }

    /// The Spotify URI for this pin.
    pub fn uri(&self) -> (r: String)
        ensures
            r@ == pin_uri_spec(self.resource_type, self.id@),
    {
        let mut s = owned("spotify:");
        push_str(&mut s, self.resource_type.as_str());
        push_str(&mut s, ":");
        push_str(&mut s, self.id.as_str());
        s
    }
}

/// The last `:` of `p + id` is the last of `p` when `id` has none.
proof fn lemma_last_colon(p: Seq<char>, id: Seq<char>)
    requires
        !id.contains(':'),
    ensures
        last_index_of(p + id, ':') == last_index_of(p, ':'),
    decreases id.len(),
{
    if id.len() > 0 {
        assert((p + id).drop_last() =~= p + id.drop_last());
        assert((p + id).last() == id.last());
        assert(!id.drop_last().contains(':')) by {
            if id.drop_last().contains(':') {
                let i = choose|i: int| 0 <= i < id.drop_last().len() && id.drop_last()[i] == ':';
                assert(id[i] == ':');
            }
        }
        lemma_last_colon(p, id.drop_last());
    } else {
        assert(p + id =~= p);
    }
}

/// A pin's id is what `extract_id` reads back from its URI, for ids
/// without `:` or `.` (Spotify ids are base-62).
pub proof fn lemma_extract_id_of_uri(t: ResourceType, id: Seq<char>)
    requires
        !id.contains(':'),
        !id.contains('.'),
    ensures
        extract_id_spec(pin_uri_spec(t, id)) == id,
{
    let p = "spotify:"@ + resource_name(t) + ":"@;
    let u = pin_uri_spec(t, id);
    reveal_strlit("spotify:");
    reveal_strlit(":");
    reveal_strlit("open.spotify.com");
    reveal_strlit("playlist");
    reveal_strlit("track");
    reveal_strlit("album");
    reveal_strlit("artist");
    reveal_strlit("show");
    reveal_strlit("episode");
    reveal_strlit("audiobook");
    assert(u =~= p + id);
    assert forall|i: int| 0 <= i < p.len() implies p[i] != '.' by {
    }
    if contains_seq(u, web_host()) {
        let i = choose|i: int| occurs_at(u, web_host(), i);
        assert(u.subrange(i, i + 16)[4] == '.');
        assert(u[i + 4] == '.');
        if i + 4 < p.len() {
            assert(p[i + 4] == '.');
        } else {
            assert(id[i + 4 - p.len()] == '.');
            assert(id.contains('.'));
        }
    }
    assert(u[p.len() - 1] == ':');
    assert(u.contains(':'));
    lemma_last_colon(p, id);
    assert(p.drop_last().len() == p.len() - 1);
    assert(p.last() == ':');
    assert(last_index_of(p, ':') == p.len() - 1);
    assert(u.skip(p.len() as int) =~= id);
}

} // verus!
