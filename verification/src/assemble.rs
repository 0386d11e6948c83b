//! Assembly of the metadata of one track from the records of the service.
//!
//! The records are asked for one at a time: the track, then each of its
//! artists in the order of the track's record, then its album. Each stage
//! names the record it waits for and goes on when that record is handed in;
//! the first record that cannot be fetched ends the assembly.
use crate::error::{Error, Subject};
use crate::metadata::{
    artists_of,
    kept_covers,
    AlbumRecord,
    ArtistRecord,
    CoverRetriever,
    TrackMetadata,
    TrackRecord,
};
use crate::track::Track;
use crate::uri::ResourceUri;
use vstd::prelude::*;

verus! {

/// Assembly that waits for the record of the track.
pub struct TrackStage {
    uri: ResourceUri,
}

/// Assembly that waits for the record of an artist: it has the record of the
/// track and those of the artists before.
pub struct ArtistStage {
    track: TrackRecord,
    artists: Vec<ArtistRecord>,
}

/// Assembly that waits for the record of the album: it has the record of the
/// track and those of all its artists.
pub struct AlbumStage {
    track: TrackRecord,
    artists: Vec<ArtistRecord>,
}

/// The stage that follows a record of the track or of an artist.
pub enum Assembly {
    Artist(ArtistStage),
    Album(AlbumStage),
}

/// What an assembly has gathered, and so which record it waits for: the
/// artist after the last one gathered, or the album when none is left.
pub enum Gathered {
    Artist { track: TrackRecord, artists: Seq<ArtistRecord> },
    Album { track: TrackRecord, artists: Seq<ArtistRecord> },
}

/// The stage that the record of a track and some of its artists lead to.
pub open spec fn stage_after(track: TrackRecord, artists: Seq<ArtistRecord>) -> Gathered {
    if artists.len() < track.artists@.len() {
        Gathered::Artist { track, artists }
    } else {
        Gathered::Album { track, artists }
    }
}

/// What the records of a track, of its artists and of its album say of the
/// track. All cover images of the album are kept, and they are what the cover
/// is fetched from.
pub open spec fn describes(
    metadata: TrackMetadata,
    track: TrackRecord,
    artists: Seq<ArtistRecord>,
    album: AlbumRecord,
) -> bool {
    &&& metadata.artists@ == artists_of(artists)
    &&& metadata.track_name == track.name
    &&& metadata.album.name == album.name
    &&& metadata.album.cover_images() == kept_covers(album.covers@)
    &&& metadata.duration == track.duration
    &&& metadata.image_retriever@ == album.covers@
}

impl View for Assembly {
    type V = Gathered;

    open spec fn view(&self) -> Gathered {
        match *self {
            Assembly::Artist(stage) => Gathered::Artist {
                track: stage.track(),
                artists: stage.artists(),
            },
            Assembly::Album(stage) => Gathered::Album {
                track: stage.track(),
                artists: stage.artists(),
            },
        }
    }
}

impl Track {
    /// Starts the assembly of the metadata of the track.
    pub fn metadata(&self) -> (stage: TrackStage)
        ensures
            stage@ == self@,
    {
        TrackStage { uri: self.uri().clone() }
    }
}

/// The stage that follows when the record of the track and those of some of
/// its artists are there.
fn next_stage(track: TrackRecord, artists: Vec<ArtistRecord>) -> (next: Assembly)
    requires
        artists@.len() <= track.artists@.len(),
    ensures
        next@ == stage_after(track, artists@),
{
    if artists.len() < track.artists.len() {
        Assembly::Artist(ArtistStage { track, artists })
    } else {
        Assembly::Album(AlbumStage { track, artists })
    }
}

impl View for TrackStage {
    type V = ResourceUri;

    /// The identifier of the track.
    closed spec fn view(&self) -> ResourceUri {
        self.uri
    }
}

impl TrackStage {
    /// The identifier of the track whose record is needed.
    pub fn request(&self) -> (uri: &ResourceUri)
        ensures
            *uri == self@,
    {
        &self.uri
    }

    /// Goes on with the record of the track, or ends where it could not be
    /// fetched (`None`).
    pub fn resume(self, record: Option<TrackRecord>) -> (next: Result<Assembly, Error>)
        ensures
            match record {
                Some(track) => next is Ok && next->Ok_0@ == stage_after(track, Seq::empty()),
                None => next == Err::<Assembly, Error>(Error::MetadataFetchFailure(Subject::Track)),
            },
    {
        match record {
            Some(track) => Ok(next_stage(track, Vec::new())),
            None => Err(Error::MetadataFetchFailure(Subject::Track)),
        }
    }
}

impl ArtistStage {
    #[verifier::type_invariant]
    spec fn inv(self) -> bool {
        self.artists@.len() < self.track.artists@.len()
    }

    /// The record of the track.
    pub closed spec fn track(self) -> TrackRecord {
        self.track
    }

    /// The records of the artists so far, in the order of the track's record.
    pub closed spec fn artists(self) -> Seq<ArtistRecord> {
        self.artists@
    }

    /// The identifier of the artist whose record is needed: the next in the
    /// track's record.
    pub fn request(&self) -> (uri: &ResourceUri)
        ensures
            self.artists().len() < self.track().artists@.len(),
            *uri == self.track().artists@[self.artists().len() as int],
    {
        proof {
            use_type_invariant(self);
        }
        &self.track.artists[self.artists.len()]
    }

    /// Goes on with the record of the artist, or ends where it could not be
    /// fetched (`None`): the artists that follow are then not asked for.
    pub fn resume(self, record: Option<ArtistRecord>) -> (next: Result<Assembly, Error>)
        ensures
            match record {
                Some(artist) => next is Ok && next->Ok_0@ == stage_after(
                    self.track(),
                    self.artists().push(artist),
                ),
                None => next == Err::<Assembly, Error>(Error::MetadataFetchFailure(Subject::Artist)),
            },
    {
        proof {
            use_type_invariant(&self);
        }
        match record {
            Some(artist) => {
                let ArtistStage { track, artists } = self;
                let mut artists = artists;
                artists.push(artist);
                Ok(next_stage(track, artists))
            },
            None => Err(Error::MetadataFetchFailure(Subject::Artist)),
        }
    }
}

impl AlbumStage {
    /// The record of the track.
    pub closed spec fn track(self) -> TrackRecord {
        self.track
    }

    /// The records of the artists, in the order of the track's record.
    pub closed spec fn artists(self) -> Seq<ArtistRecord> {
        self.artists@
    }

    /// The identifier of the album whose record is needed: that of the track's record.
    pub fn request(&self) -> (uri: &ResourceUri)
        ensures
            *uri == self.track().album,
    {
        &self.track.album
    }

    /// Ends the assembly with the record of the album, or without metadata
    /// where it could not be fetched (`None`).
    pub fn resume(self, record: Option<AlbumRecord>) -> (done: Result<TrackMetadata, Error>)
        ensures
            match record {
                Some(album) => done is Ok && describes(
                    done->Ok_0,
                    self.track(),
                    self.artists(),
                    album,
                ),
                None => done == Err::<TrackMetadata, Error>(
                    Error::MetadataFetchFailure(Subject::Album),
                ),
            },
    {
        match record {
            Some(album) => {
                let AlbumStage { track, artists } = self;
                let covers = album.covers.clone();
                let image_retriever = CoverRetriever::new(covers);
                Ok(TrackMetadata::from(track, artists, album, image_retriever))
            },
            None => Err(Error::MetadataFetchFailure(Subject::Album)),
        }
    }
}

/// An assembly driven through its artists: each answer is the record of the
/// artist then asked for, or `None` where its fetch failed. It stops at the
/// album, at the first failure, or where the answers run out.
pub open spec fn after_artists(stage: Gathered, answers: Seq<Option<ArtistRecord>>) -> Result<
    Gathered,
    Error,
>
    decreases answers.len(),
{
    match stage {
        Gathered::Album { .. } => Ok(stage),
        Gathered::Artist { track, artists } => if answers.len() == 0 {
            Ok(stage)
        } else {
            match answers[0] {
                Some(artist) => after_artists(
                    stage_after(track, artists.push(artist)),
                    answers.drop_first(),
                ),
                None => Err(Error::MetadataFetchFailure(Subject::Artist)),
            }
        },
    }
}

/// The records of fetches that all succeeded.
pub open spec fn records_of(answers: Seq<Option<ArtistRecord>>) -> Seq<ArtistRecord> {
    answers.map_values(|answer: Option<ArtistRecord>| answer->0)
}

proof fn lemma_artists_gathered(
    track: TrackRecord,
    have: Seq<ArtistRecord>,
    answers: Seq<Option<ArtistRecord>>,
)
    requires
        have.len() + answers.len() == track.artists@.len(),
        forall|i: int| 0 <= i < answers.len() ==> (#[trigger] answers[i]) is Some,
    ensures
        after_artists(stage_after(track, have), answers) == Ok::<Gathered, Error>(
            Gathered::Album { track, artists: have + records_of(answers) },
        ),
    decreases answers.len(),
{
    if answers.len() == 0 {
        assert(have + records_of(answers) == have);
    } else {
        let artist = answers[0]->0;
        lemma_artists_gathered(track, have.push(artist), answers.drop_first());
        assert(have.push(artist) + records_of(answers.drop_first()) == have + records_of(answers));
    }
}

/// Where the record of every artist is fetched, the assembly reaches the
/// album with one record for each artist of the track, in the order in which
/// the track's record names them.
pub proof fn law_artists_gathered_in_order(track: TrackRecord, answers: Seq<Option<ArtistRecord>>)
    requires
        answers.len() == track.artists@.len(),
        forall|i: int| 0 <= i < answers.len() ==> (#[trigger] answers[i]) is Some,
    ensures
        after_artists(stage_after(track, Seq::empty()), answers) == Ok::<Gathered, Error>(
            Gathered::Album { track, artists: records_of(answers) },
        ),
{
    lemma_artists_gathered(track, Seq::empty(), answers);
    assert(Seq::<ArtistRecord>::empty() + records_of(answers) == records_of(answers));
}

proof fn lemma_failed_artist(
    track: TrackRecord,
    have: Seq<ArtistRecord>,
    answers: Seq<Option<ArtistRecord>>,
    failed: int,
)
    requires
        0 <= failed < answers.len(),
        have.len() + failed < track.artists@.len(),
        answers[failed] is None,
    ensures
        after_artists(stage_after(track, have), answers) == Err::<Gathered, Error>(
            Error::MetadataFetchFailure(Subject::Artist),
        ),
    decreases answers.len(),
{
    match answers[0] {
        Some(artist) => {
            lemma_failed_artist(track, have.push(artist), answers.drop_first(), failed - 1);
        },
        None => {},
    }
}

/// One artist whose record cannot be fetched ends the assembly: whatever the
/// other fetches bring, it reaches neither the album nor any metadata.
pub proof fn law_failed_artist_ends_assembly(
    track: TrackRecord,
    answers: Seq<Option<ArtistRecord>>,
    failed: int,
)
    requires
        0 <= failed < answers.len(),
        failed < track.artists@.len(),
        answers[failed] is None,
    ensures
        after_artists(stage_after(track, Seq::empty()), answers) == Err::<Gathered, Error>(
            Error::MetadataFetchFailure(Subject::Artist),
        ),
{
    lemma_failed_artist(track, Seq::empty(), answers, failed);
}

} // verus!
