//! Identifiers of Spotify resources and the two grammars that are read into them:
//! the canonical URI and the web link.
use vstd::prelude::*;
use vstd::string::StringExecFns;

verus! {

/// A parsed identifier: the kind of the resource and its id.
///
/// An id is the 128-bit number that the 22 base-62 characters of a Spotify id
/// encode. The kinds that this library has no use for (a show, a local file, a
/// kind that it does not know) are all `Other`.
#[derive(Debug, PartialEq, Eq)]
pub enum ResourceUri {
    Track { id: u128 },
    Episode { id: u128 },
    Album { id: u128 },
    Playlist { id: u128, user: Option<String> },
    Artist { id: u128 },
    Other,
}

/// Whether an identifier names something that can be played: a track or an
/// episode.
pub open spec fn is_playable(uri: ResourceUri) -> bool {
    uri is Track || uri is Episode
}

/// Whether tracks are listed under an identifier of this kind: an album or a
/// playlist.
pub open spec fn is_collection(uri: ResourceUri) -> bool {
    uri is Album || uri is Playlist
}

impl ResourceUri {
    /// Whether the identifier names a track or an episode.
    pub fn is_playable(&self) -> (playable: bool)
        ensures
            playable == is_playable(*self),
    {
        match self {
            ResourceUri::Track { .. } | ResourceUri::Episode { .. } => true,
            _ => false,
        }
    }

    /// Whether the identifier names an album or a playlist.
    pub fn is_collection(&self) -> (collection: bool)
        ensures
            collection == is_collection(*self),
    {
        match self {
            ResourceUri::Album { .. } | ResourceUri::Playlist { .. } => true,
            _ => false,
        }
    }
}

impl Clone for ResourceUri {
    fn clone(&self) -> (copy: Self)
        ensures
            copy == *self,
    {
        match self {
            ResourceUri::Track { id } => ResourceUri::Track { id: *id },
            ResourceUri::Episode { id } => ResourceUri::Episode { id: *id },
            ResourceUri::Album { id } => ResourceUri::Album { id: *id },
            ResourceUri::Playlist { id, user } => {
                let user = match user {
                    Some(name) => Some(name.clone()),
                    None => None,
                };
                ResourceUri::Playlist { id: *id, user }
            },
            ResourceUri::Artist { id } => ResourceUri::Artist { id: *id },
            ResourceUri::Other => ResourceUri::Other,
        }
    }
}

/// The pattern of a web link: the host, an optional locale segment, the kind
/// (first group) and the id (second group). Whatever follows the id is not read.
pub const WEB_LINK_PATTERN: &'static str =
    r"https://open\.spotify\.com(?:/intl-[a-z]{2})?/(\w+)/([a-zA-Z0-9]+)";

/// What `librespot`'s `SpotifyUri::from_uri` makes of a text: the identifier,
/// or `None` where it returns an error.
pub uninterp spec fn canonical_uri(text: Seq<char>) -> Option<ResourceUri>;

/// What the `regex` crate finds for a pattern in a text: `None` where the
/// pattern does not compile or matches nowhere, else for the leftmost match the
/// text of each capture group, group 0 (the whole match) first, `None` for a
/// group that took no part.
pub uninterp spec fn regex_captures(pattern: Seq<char>, text: Seq<char>) -> Option<
    Seq<Option<Seq<char>>>,
>;

/// The texts of capture groups as sequences of characters.
pub open spec fn group_texts(groups: Seq<Option<String>>) -> Seq<Option<Seq<char>>> {
    groups.map_values(
        |g: Option<String>|
            match g {
                Some(s) => Some(s@),
                None => None,
            },
    )
}

/// What a search found, as sequences of characters.
pub open spec fn capture_texts(found: Option<Vec<Option<String>>>) -> Option<
    Seq<Option<Seq<char>>>,
> {
    match found {
        Some(groups) => Some(group_texts(groups@)),
        None => None,
    }
}

/// The canonical URI that the capture groups of a web link spell:
/// `spotify:<kind>:<id>`, with the kind from the first group and the id from
/// the second; `None` where one of them is missing.
pub open spec fn link_text(groups: Seq<Option<Seq<char>>>) -> Option<Seq<char>> {
    if groups.len() > 2 && groups[1] is Some && groups[2] is Some {
        Some("spotify:"@ + groups[1]->0 + ":"@ + groups[2]->0)
    } else {
        None
    }
}

/// The identifier that a web link stands for: kind and id are taken from the
/// link and read again as a canonical URI.
pub open spec fn web_link_uri(text: Seq<char>) -> Option<ResourceUri> {
    match regex_captures(WEB_LINK_PATTERN@, text) {
        Some(groups) => match link_text(groups) {
            Some(uri_text) => canonical_uri(uri_text),
            None => None,
        },
        None => None,
    }
}

/// The identifier that a text stands for: as a canonical URI if it is one,
/// else as a web link.
pub open spec fn identifier(text: Seq<char>) -> Option<ResourceUri> {
    match canonical_uri(text) {
        Some(uri) => Some(uri),
        None => web_link_uri(text),
    }
}

/// Reads a canonical URI, `spotify:<kind>:<id>` or, with the owner of a
/// playlist, `spotify:user:<owner>:playlist:<id>`.
///
/// Calls `librespot::core::SpotifyUri::from_uri`. Trusted, not proved: the
/// result is that function's, variant for variant, with the number of its id,
/// an error as `None`, and a show, a local file or an unknown kind as `Other`.
#[verifier::external_body]
pub(crate) fn parse_uri(track_uri: &str) -> (uri: Option<ResourceUri>)
    ensures
        uri == canonical_uri(track_uri@),
{
    match librespot::core::SpotifyUri::from_uri(track_uri) {
        Ok(librespot::core::SpotifyUri::Track { id }) => Some(ResourceUri::Track { id: id.id }),
        Ok(librespot::core::SpotifyUri::Episode { id }) => Some(ResourceUri::Episode { id: id.id }),
        Ok(librespot::core::SpotifyUri::Album { id }) => Some(ResourceUri::Album { id: id.id }),
        Ok(librespot::core::SpotifyUri::Playlist { id, user }) => Some(
            ResourceUri::Playlist { id: id.id, user },
        ),
        Ok(librespot::core::SpotifyUri::Artist { id }) => Some(ResourceUri::Artist { id: id.id }),
        Ok(_) => Some(ResourceUri::Other),
        Err(_) => None,
    }
}

/// Searches a text for a pattern.
///
/// Calls `regex::Regex::new` on the pattern and `regex::Regex::captures` on the
/// text. Trusted, not proved: the result is what the crate finds, the text of
/// each group copied into a `String`, and `None` too where the pattern does not
/// compile.
#[verifier::external_body]
fn captures(pattern: &str, text: &str) -> (found: Option<Vec<Option<String>>>)
    ensures
        capture_texts(found) == regex_captures(pattern@, text@),
{
    let re = regex::Regex::new(pattern).ok()?;
    let caps = re.captures(text)?;
    Some(caps.iter().map(|m| m.map(|m| m.as_str().to_string())).collect())
}

/// Spells the canonical URI of a web link from its capture groups.
pub fn canonical_text(groups: &Vec<Option<String>>) -> (text: Option<String>)
    ensures
        match text {
            Some(t) => Some(t@),
            None => None,
        } == link_text(group_texts(groups@)),
{
    if groups.len() < 3 {
        return None;
    }
    match (&groups[1], &groups[2]) {
        (Some(kind), Some(id)) => {
            let mut text = String::from_str("spotify:");
            text.append(kind.as_str());
            text.append(":");
            text.append(id.as_str());
            Some(text)
        },
        _ => None,
    }
}

/// Reads a web link: takes kind and id out of it and parses
/// `spotify:<kind>:<id>` as a canonical URI.
pub fn parse_url(track_url: &str) -> (uri: Option<ResourceUri>)
    ensures
        uri == web_link_uri(track_url@),
{
    let groups = captures(WEB_LINK_PATTERN, track_url)?;
    let text = canonical_text(&groups)?;
    parse_uri(text.as_str())
}

/// Reads an identifier in either grammar, the canonical URI first.
pub fn parse_uri_or_url(track: &str) -> (uri: Option<ResourceUri>)
    ensures
        uri == identifier(track@),
{
    match parse_uri(track) {
        Some(uri) => Some(uri),
        None => parse_url(track),
    }
}

} // verus!
