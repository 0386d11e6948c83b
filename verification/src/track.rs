//! Track references, the collections that list them, and the resolution of a
//! batch of identifiers into tracks.
use crate::error::{Error, Subject};
pub use crate::resolve::get_tracks;
use crate::uri::{identifier, is_playable, parse_uri_or_url, ResourceUri};
use vstd::prelude::*;

verus! {

/// A reference to one track: the identifier of a track or of an episode, and
/// nothing fetched.
#[derive(Debug, PartialEq, Eq)]
pub struct Track {
    uri: ResourceUri,
}

impl View for Track {
    type V = ResourceUri;

    /// The identifier that the reference wraps.
    closed spec fn view(&self) -> ResourceUri {
        self.uri
    }
}

impl Clone for Track {
    fn clone(&self) -> (copy: Self)
        ensures
            copy@ == self@,
    {
        proof {
            use_type_invariant(self);
        }
        Track { uri: self.uri.clone() }
    }
}

/// The identifiers that track references wrap, in their order.
pub open spec fn uris_of(tracks: Seq<Track>) -> Seq<ResourceUri> {
    tracks.map_values(|track: Track| track@)
}

/// The identifiers of a listing that name a track or an episode, in the
/// listed order.
pub open spec fn playable(listed: Seq<ResourceUri>) -> Seq<ResourceUri> {
    listed.filter(|uri: ResourceUri| is_playable(uri))
}

/// The track references for the identifiers that a collection lists.
fn tracks_of_listing(listed: Vec<ResourceUri>) -> (tracks: Vec<Track>)
    ensures
        uris_of(tracks@) == playable(listed@),
{
    let mut tracks: Vec<Track> = Vec::new();
    let mut i: usize = 0;
    proof {
        reveal(Seq::filter);
    }
    while i < listed.len()
        invariant
            i <= listed.len(),
            uris_of(tracks@) == playable(listed@.take(i as int)),
        decreases listed.len() - i,
    {
        proof {
            reveal(Seq::filter);
            assert(listed@.take(i + 1).drop_last() == listed@.take(i as int));
        }
        let ghost before = tracks@;
        match Track::from_uri(listed[i].clone()) {
            Ok(track) => {
                tracks.push(track);
                assert(uris_of(tracks@) == uris_of(before).push(track@));
            },
            Err(_) => {},
        }
        i += 1;
    }
    assert(listed@.take(i as int) == listed@);
    tracks
}

impl Track {
    #[verifier::type_invariant]
    spec fn inv(self) -> bool {
        is_playable(self.uri)
    }

    /// Reads an identifier in either grammar and wraps it, if it names a track
    /// or an episode.
    pub fn new(track: &str) -> (made: Result<Track, Error>)
        ensures
            match identifier(track@) {
                Some(uri) => Track::wraps(made, uri),
                None => made == Err::<Track, Error>(Error::InvalidIdentifier(Subject::Track)),
            },
    {
        match parse_uri_or_url(track) {
            Some(uri) => Track::from_uri(uri),
            None => Err(Error::InvalidIdentifier(Subject::Track)),
        }
    }

    /// Wraps an identifier, if it names a track or an episode.
    pub fn from_uri(uri: ResourceUri) -> (made: Result<Track, Error>)
        ensures
            Track::wraps(made, uri),
    {
        if uri.is_playable() {
            Ok(Track { uri })
        } else {
            Err(Error::InvalidIdentifier(Subject::Track))
        }
    }

    /// What wrapping an identifier gives: the reference to it where it names a
    /// track or an episode, and for every other kind the failure.
    pub open spec fn wraps(made: Result<Track, Error>, uri: ResourceUri) -> bool {
        if is_playable(uri) {
            made is Ok && made->Ok_0@ == uri
        } else {
            made == Err::<Track, Error>(Error::InvalidIdentifier(Subject::Track))
        }
    }

    /// The identifier that the reference wraps: that of a track or of an episode.
    pub fn uri(&self) -> (uri: &ResourceUri)
        ensures
            *uri == self@,
            is_playable(self@),
    {
        proof {
            use_type_invariant(self);
        }
        &self.uri
    }

    /// A track expands into itself.
    pub fn get_tracks(&self) -> (tracks: Vec<Track>)
        ensures
            uris_of(tracks@) == seq![self@],
    {
        let mut tracks: Vec<Track> = Vec::new();
        tracks.push(self.clone());
        assert(uris_of(tracks@) == seq![self@]);
        tracks
    }
}

/// A reference to an album.
pub struct Album {
    uri: ResourceUri,
}

impl View for Album {
    type V = ResourceUri;

    /// The identifier that the reference wraps.
    closed spec fn view(&self) -> ResourceUri {
        self.uri
    }
}

impl Album {
    /// Reads an identifier in either grammar and wraps it.
    pub fn new(album: &str) -> (made: Result<Album, Error>)
        ensures
            match identifier(album@) {
                Some(uri) => made is Ok && made->Ok_0@ == uri,
                None => made == Err::<Album, Error>(Error::InvalidIdentifier(Subject::Album)),
            },
    {
        match parse_uri_or_url(album) {
            Some(uri) => Ok(Album { uri }),
            None => Err(Error::InvalidIdentifier(Subject::Album)),
        }
    }

    pub fn from_uri(uri: ResourceUri) -> (album: Album)
        ensures
            album@ == uri,
    {
        Album { uri }
    }

    /// The identifier to ask the service for.
    pub fn uri(&self) -> (uri: &ResourceUri)
        ensures
            *uri == self@,
    {
        &self.uri
    }

    /// The tracks of the album, given the identifiers that its record lists:
    /// one reference for each that names a track or an episode, in the record's
    /// order.
    pub fn get_tracks(&self, listed: Vec<ResourceUri>) -> (tracks: Vec<Track>)
        ensures
            uris_of(tracks@) == playable(listed@),
    {
        tracks_of_listing(listed)
    }
}

/// A reference to a playlist.
pub struct Playlist {
    uri: ResourceUri,
}

impl View for Playlist {
    type V = ResourceUri;

    /// The identifier that the reference wraps.
    closed spec fn view(&self) -> ResourceUri {
        self.uri
    }
}

impl Playlist {
    /// Reads an identifier in either grammar and wraps it.
    pub fn new(playlist: &str) -> (made: Result<Playlist, Error>)
        ensures
            match identifier(playlist@) {
                Some(uri) => made is Ok && made->Ok_0@ == uri,
                None => made == Err::<Playlist, Error>(Error::InvalidIdentifier(Subject::Playlist)),
            },
    {
        match parse_uri_or_url(playlist) {
            Some(uri) => Ok(Playlist { uri }),
            None => Err(Error::InvalidIdentifier(Subject::Playlist)),
        }
    }

    pub fn from_uri(uri: ResourceUri) -> (playlist: Playlist)
        ensures
            playlist@ == uri,
    {
        Playlist { uri }
    }

    /// The identifier to ask the service for.
    pub fn uri(&self) -> (uri: &ResourceUri)
        ensures
            *uri == self@,
    {
        &self.uri
    }

    /// The tracks of the playlist, given the identifiers that its record lists:
    /// one reference for each that names a track or an episode, in the record's
    /// order.
    pub fn get_tracks(&self, listed: Vec<ResourceUri>) -> (tracks: Vec<Track>)
        ensures
            uris_of(tracks@) == playable(listed@),
    {
        tracks_of_listing(listed)
    }
}

} // verus!
