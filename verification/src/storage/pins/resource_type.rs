//! Kinds of Spotify resources that can be pinned.

use vstd::prelude::*;
use crate::text::{all_ascii, ascii_lower, lowercase, owned, push_str, to_lower};

verus! {

#[derive(Debug, Clone, Copy, PartialEq, Eq, Structural)]
pub enum ResourceType {
    Playlist,
    Track,
    Album,
    Artist,
    Show,
    Episode,
    Audiobook,
}

/// The lowercase name of a resource kind, as stored and as used in URIs.
pub open spec fn resource_name(t: ResourceType) -> Seq<char> {
    match t {
        ResourceType::Playlist => "playlist"@,
        ResourceType::Track => "track"@,
        ResourceType::Album => "album"@,
        ResourceType::Artist => "artist"@,
        ResourceType::Show => "show"@,
        ResourceType::Episode => "episode"@,
        ResourceType::Audiobook => "audiobook"@,
    }
}

/// The resource kind with the given (already lowercased) name.
pub open spec fn resource_from_name(l: Seq<char>) -> Option<ResourceType> {
    if l == "playlist"@ {
        Some(ResourceType::Playlist)
    } else if l == "track"@ {
        Some(ResourceType::Track)
    } else if l == "album"@ {
        Some(ResourceType::Album)
    } else if l == "artist"@ {
        Some(ResourceType::Artist)
    } else if l == "show"@ {
        Some(ResourceType::Show)
    } else if l == "episode"@ {
        Some(ResourceType::Episode)
    } else if l == "audiobook"@ {
        Some(ResourceType::Audiobook)
    } else {
        None
    }
}

/// The message of a refused resource kind.
pub open spec fn invalid_resource_message(s: Seq<char>) -> Seq<char> {
    "Invalid resource type '"@ + s
        + "'. Valid types: playlist, track, album, artist, show, episode, audiobook"@
}

impl ResourceType {
    pub fn as_str(&self) -> (s: &'static str)
        ensures
            s@ == resource_name(*self),
    {
        match self {
            ResourceType::Playlist => "playlist",
            ResourceType::Track => "track",
            ResourceType::Album => "album",
            ResourceType::Artist => "artist",
            ResourceType::Show => "show",
            ResourceType::Episode => "episode",
            ResourceType::Audiobook => "audiobook",
        }
    }

    /// Case-insensitive parse of a resource kind name.
    pub fn parse(s: &str) -> (r: Result<ResourceType, String>)
        ensures
            match r {
                Ok(t) => resource_from_name(lowercase(s@)) == Some(t),
                Err(m) => resource_from_name(lowercase(s@)) is None
                    && m@ == invalid_resource_message(s@),
            },
            all_ascii(s@) ==> lowercase(s@) == ascii_lower(s@),
    {
        let l = to_lower(s);
        if l == owned("playlist") {
            Ok(ResourceType::Playlist)
        } else if l == owned("track") {
            Ok(ResourceType::Track)
        } else if l == owned("album") {
            Ok(ResourceType::Album)
        } else if l == owned("artist") {
            Ok(ResourceType::Artist)
        } else if l == owned("show") {
            Ok(ResourceType::Show)
        } else if l == owned("episode") {
            Ok(ResourceType::Episode)
        } else if l == owned("audiobook") {
            Ok(ResourceType::Audiobook)
        } else {
            let mut m = owned("Invalid resource type '");
            push_str(&mut m, s);
            push_str(
                &mut m,
                "'. Valid types: playlist, track, album, artist, show, episode, audiobook",
            );
            Err(m)
        }
    }
}

/// Every kind's name is lowercase ASCII and names that kind back: so
/// `parse(t.as_str())` gives `t` for every kind `t`.
pub proof fn lemma_name_roundtrip(t: ResourceType)
    ensures
        all_ascii(resource_name(t)),
        ascii_lower(resource_name(t)) == resource_name(t),
        resource_from_name(ascii_lower(resource_name(t))) == Some(t),
{
    reveal_strlit("playlist");
    reveal_strlit("track");
    reveal_strlit("album");
    reveal_strlit("artist");
    reveal_strlit("show");
    reveal_strlit("episode");
    reveal_strlit("audiobook");
    assert(ascii_lower(resource_name(t)) =~= resource_name(t));
    let p = "playlist"@;
    let tr = "track"@;
    let al = "album"@;
    let ar = "artist"@;
    let sh = "show"@;
    let ep = "episode"@;
    let au = "audiobook"@;
    assert(tr.len() != p.len());
    assert(al.len() != p.len() && al[0] != tr[0]);
    assert(ar.len() != p.len() && ar.len() != tr.len() && ar.len() != al.len());
    assert(sh.len() != p.len() && sh.len() != tr.len() && sh.len() != al.len() && sh.len() != ar.len());
    assert(ep.len() != p.len() && ep.len() != tr.len() && ep.len() != al.len() && ep.len() != ar.len()
        && ep.len() != sh.len());
    assert(au.len() != p.len() && au.len() != tr.len() && au.len() != al.len() && au.len() != ar.len()
        && au.len() != sh.len() && au.len() != ep.len());
}

impl std::str::FromStr for ResourceType {
    type Err = String;

    fn from_str(s: &str) -> (r: Result<Self, Self::Err>)
        ensures
            match r {
                Ok(t) => resource_from_name(lowercase(s@)) == Some(t),
                Err(m) => resource_from_name(lowercase(s@)) is None
                    && m@ == invalid_resource_message(s@),
            },
    {
        ResourceType::parse(s)
    }
}

} // verus!
