//! What is known of a track once its records are fetched, and what is made of
//! it: the tags to embed, a name to show, an estimate of the decoded size.
use crate::error::Error;
use crate::uri::ResourceUri;
use vstd::prelude::*;
use vstd::string::StringExecFns;

verus! {

/// The size class of a cover image.
#[derive(Clone, Copy, Debug, PartialEq, Eq, Structural)]
pub enum ImageSize {
    Default,
    Small,
    Large,
    XLarge,
}

/// A cover image as the service describes it: the id of the file that holds
/// it, not its bytes.
#[derive(Clone, Copy, Debug, PartialEq, Eq)]
pub struct Image {
    pub id: [u8; 20],
    pub size: ImageSize,
    pub width: i32,
    pub height: i32,
}

/// The record of a track: its title, its duration in milliseconds, its album
/// and its artists in the order of the record.
pub struct TrackRecord {
    pub name: String,
    pub duration: i32,
    pub album: ResourceUri,
    pub artists: Vec<ResourceUri>,
}

/// The record of an artist.
pub struct ArtistRecord {
    pub name: String,
}

impl Clone for ArtistRecord {
    fn clone(&self) -> (copy: Self)
        ensures
            copy == *self,
    {
        ArtistRecord { name: self.name.clone() }
    }
}

/// The record of an album: its title and its cover images in the order of the record.
pub struct AlbumRecord {
    pub name: String,
    pub covers: Vec<Image>,
}

/// The display name of one artist of a track.
#[derive(Debug, PartialEq, Eq)]
pub struct ArtistMetadata {
    pub name: String,
}

impl Clone for ArtistMetadata {
    fn clone(&self) -> (copy: Self)
        ensures
            copy == *self,
    {
        ArtistMetadata { name: self.name.clone() }
    }
}

impl From<ArtistRecord> for ArtistMetadata {
    fn from(artist: ArtistRecord) -> (metadata: ArtistMetadata) {
        ArtistMetadata { name: artist.name }
    }
}

impl vstd::std_specs::convert::FromSpecImpl<ArtistRecord> for ArtistMetadata {
    open spec fn obeys_from_spec() -> bool {
        true
    }

    open spec fn from_spec(artist: ArtistRecord) -> ArtistMetadata {
        ArtistMetadata { name: artist.name }
    }
}

/// The title of an album and its cover images in the order of its record;
/// `None` where the record has no cover image.
#[derive(Debug, PartialEq, Eq)]
pub struct AlbumMetadata {
    pub name: String,
    pub covers: Option<Vec<Image>>,
}

/// The cover images that are kept of a record: all of them in their order,
/// `None` where there is none.
pub open spec fn kept_covers(covers: Seq<Image>) -> Option<Seq<Image>> {
    if covers.len() > 0 {
        Some(covers)
    } else {
        None
    }
}

/// The first of the cover images.
pub open spec fn first_cover(covers: Seq<Image>) -> Option<Image> {
    if covers.len() > 0 {
        Some(covers[0])
    } else {
        None
    }
}

impl AlbumMetadata {
    /// The cover images as a sequence.
    pub open spec fn cover_images(self) -> Option<Seq<Image>> {
        match self.covers {
            Some(covers) => Some(covers@),
            None => None,
        }
    }
}

impl Clone for AlbumMetadata {
    fn clone(&self) -> (copy: Self)
        ensures
            copy.name == self.name,
            copy.cover_images() == self.cover_images(),
    {
        let covers = match &self.covers {
            Some(covers) => Some(covers.clone()),
            None => None,
        };
        AlbumMetadata { name: self.name.clone(), covers }
    }
}

impl From<AlbumRecord> for AlbumMetadata {
    fn from(album: AlbumRecord) -> (metadata: AlbumMetadata) {
        let covers = if album.covers.len() > 0 {
            Some(album.covers)
        } else {
            None
        };
        AlbumMetadata { name: album.name, covers }
    }
}

impl vstd::std_specs::convert::FromSpecImpl<AlbumRecord> for AlbumMetadata {
    open spec fn obeys_from_spec() -> bool {
        true
    }

    open spec fn from_spec(album: AlbumRecord) -> AlbumMetadata {
        AlbumMetadata {
            name: album.name,
            covers: if album.covers@.len() > 0 {
                Some(album.covers)
            } else {
                None
            },
        }
    }
}

/// The cover of an album, not fetched yet: it holds the cover images of the
/// album and says which file to fetch. Nothing is kept of a fetch, so each use
/// is a fetch of its own.
#[derive(Debug)]
pub struct CoverRetriever {
    covers: Vec<Image>,
}

impl Clone for CoverRetriever {
    fn clone(&self) -> (copy: Self)
        ensures
            copy@ == self@,
    {
        CoverRetriever { covers: self.covers.clone() }
    }
}

impl View for CoverRetriever {
    type V = Seq<Image>;

    /// The cover images that the retriever holds.
    closed spec fn view(&self) -> Seq<Image> {
        self.covers@
    }
}

impl CoverRetriever {
    pub fn new(covers: Vec<Image>) -> (retriever: CoverRetriever)
        ensures
            retriever@ == covers@,
    {
        CoverRetriever { covers }
    }

    /// The id of the file to fetch: that of the first cover image, `None`
    /// where the album has none.
    pub fn request(&self) -> (file: Option<[u8; 20]>)
        ensures
            file == match first_cover(self@) {
                Some(cover) => Some(cover.id),
                None => None,
            },
    {
        if self.covers.len() > 0 {
            Some(self.covers[0].id)
        } else {
            None
        }
    }

    /// The cover, given what the fetch of `request` brought (`None` where it
    /// failed): without a cover image there is no cover, and a failed fetch
    /// is no cover either.
    pub fn cover(&self, fetched: Option<Vec<u8>>) -> (cover: Option<Vec<u8>>)
        ensures
            cover == self.cover_of(fetched),
    {
        if self.covers.len() > 0 {
            fetched
        } else {
            None
        }
    }

    /// The result of `cover`.
    pub open spec fn cover_of(&self, fetched: Option<Vec<u8>>) -> Option<Vec<u8>> {
        if self@.len() > 0 {
            fetched
        } else {
            None
        }
    }
}

/// The tags to embed in the file of a track.
#[derive(Debug, PartialEq, Eq)]
pub struct Tags {
    pub title: String,
    pub artists: Vec<String>,
    pub album_title: String,
    pub album_cover: Option<Vec<u8>>,
}

/// What is known of a track: its artists in the order of its record, its
/// title, its album, its duration in milliseconds, and its cover to fetch.
#[derive(Debug)]
pub struct TrackMetadata {
    pub artists: Vec<ArtistMetadata>,
    pub track_name: String,
    pub album: AlbumMetadata,
    pub duration: i32,
    pub image_retriever: CoverRetriever,
}

impl Clone for TrackMetadata {
    fn clone(&self) -> (copy: Self)
        ensures
            copy.artists@ == self.artists@,
            copy.track_name == self.track_name,
            copy.album.name == self.album.name,
            copy.album.cover_images() == self.album.cover_images(),
            copy.duration == self.duration,
            copy.image_retriever@ == self.image_retriever@,
    {
        let mut artists: Vec<ArtistMetadata> = Vec::new();
        let mut i: usize = 0;
        while i < self.artists.len()
            invariant
                i <= self.artists.len(),
                artists@ == self.artists@.take(i as int),
            decreases self.artists.len() - i,
        {
            artists.push(self.artists[i].clone());
            i += 1;
        }
        assert(self.artists@.take(i as int) == self.artists@);
        TrackMetadata {
            artists,
            track_name: self.track_name.clone(),
            album: self.album.clone(),
            duration: self.duration,
            image_retriever: self.image_retriever.clone(),
        }
    }
}

/// The metadata of the artists of these records, in their order.
pub open spec fn artists_of(records: Seq<ArtistRecord>) -> Seq<ArtistMetadata> {
    records.map_values(|artist: ArtistRecord| ArtistMetadata { name: artist.name })
}

/// Names joined by a comma and a space.
pub open spec fn joined(names: Seq<Seq<char>>) -> Seq<char>
    decreases names.len(),
{
    if names.len() == 0 {
        Seq::empty()
    } else if names.len() == 1 {
        names[0]
    } else {
        joined(names.drop_last()) + ", "@ + names.last()
    }
}

/// The name to show for a track: its artists, then its title. Of more than
/// three artists only the first three are named.
pub open spec fn display_text(artists: Seq<Seq<char>>, title: Seq<char>) -> Seq<char> {
    if artists.len() > 3 {
        joined(artists.take(3)) + ", ... - "@ + title
    } else {
        joined(artists) + " - "@ + title
    }
}

impl TrackMetadata {
    /// The names of the artists, in order.
    pub open spec fn artist_names(&self) -> Seq<Seq<char>> {
        self.artists@.map_values(|artist: ArtistMetadata| artist.name@)
    }

    /// Puts the records of a track, of its artists and of its album together.
    pub fn from(
        track: TrackRecord,
        artists: Vec<ArtistRecord>,
        album: AlbumRecord,
        image_retriever: CoverRetriever,
    ) -> (metadata: TrackMetadata)
        ensures
            metadata.artists@ == artists_of(artists@),
            metadata.track_name == track.name,
            metadata.album.name == album.name,
            metadata.album.cover_images() == kept_covers(album.covers@),
            metadata.duration == track.duration,
            metadata.image_retriever == image_retriever,
    {
        let mut named: Vec<ArtistMetadata> = Vec::new();
        let mut i: usize = 0;
        while i < artists.len()
            invariant
                i <= artists.len(),
                named@ == artists_of(artists@.take(i as int)),
            decreases artists.len() - i,
        {
            named.push(ArtistMetadata::from(artists[i].clone()));
            i += 1;
            assert(artists@.take(i as int) == artists@.take(i - 1).push(artists@[i - 1]));
        }
        assert(artists@.take(i as int) == artists@);
        TrackMetadata {
            artists: named,
            track_name: track.name,
            album: AlbumMetadata::from(album),
            duration: track.duration,
            image_retriever,
        }
    }

    /// An estimate of the size of the decoded audio in bytes: whole seconds
    /// of 44100 samples, two channels, four bytes a sample.
    pub fn approx_size(&self) -> (size: usize)
        requires
            self.duration >= 0,
            (self.duration / 1000) * 44100 * 2 * 4 <= usize::MAX,
        ensures
            size == (self.duration / 1000) * 44100 * 2 * 4,
    {
        let duration: i32 = self.duration / 1000;
        let sample_rate: usize = 44100;
        let channels: usize = 2;
        let bits_per_sample: usize = 32;
        let bytes_per_sample: usize = bits_per_sample / 8;
        (duration as usize) * sample_rate * channels * bytes_per_sample
    }

    /// The tags of the track, given what the fetch of its cover brought
    /// (`None` where it failed or where there was nothing to fetch): title,
    /// artist names and album title as they are, and the cover where the album
    /// has a cover image and its fetch brought one.
    pub fn tags(&self, fetched: Option<Vec<u8>>) -> (tags: Result<Tags, Error>)
        ensures
            tags matches Ok(t) && t.title == self.track_name && t.artists@
                == self.artists@.map_values(|artist: ArtistMetadata| artist.name) && t.album_title
                == self.album.name && t.album_cover == self.image_retriever.cover_of(fetched),
            self.image_retriever@.len() == 0 ==> (tags matches Ok(t) && t.album_cover is None),
    {
        let mut names: Vec<String> = Vec::new();
        let mut i: usize = 0;
        while i < self.artists.len()
            invariant
                i <= self.artists.len(),
                names@ == self.artists@.take(i as int).map_values(
                    |artist: ArtistMetadata| artist.name,
                ),
            decreases self.artists.len() - i,
        {
            names.push(self.artists[i].name.clone());
            i += 1;
            assert(self.artists@.take(i as int) == self.artists@.take(i - 1).push(
                self.artists@[i - 1],
            ));
        }
        assert(self.artists@.take(i as int) == self.artists@);
        Ok(
            Tags {
                title: self.track_name.clone(),
                artists: names,
                album_title: self.album.name.clone(),
                album_cover: self.image_retriever.cover(fetched),
            },
        )
    }

    /// The name to show for the track and to store it under: the text that
    /// `display_text` gives for its artists and its title, passed through
    /// `sanitize`, which takes out or replaces what a file name cannot hold.
    pub fn display_string<F: Fn(String) -> String>(&self, sanitize: F) -> (text: String)
        requires
            forall|raw: String| call_requires(sanitize, (raw,)),
        ensures
            exists|raw: String|
                raw@ == display_text(self.artist_names(), self.track_name@) && call_ensures(
                    sanitize,
                    (raw,),
                    text,
                ),
    {
        let shown: usize = if self.artists.len() > 3 {
            3
        } else {
            self.artists.len()
        };
        let ghost names = self.artist_names();
        let mut text = String::new();
        let mut i: usize = 0;
        while i < shown
            invariant
                i <= shown <= self.artists.len(),
                names == self.artist_names(),
                text@ == joined(names.take(i as int)),
            decreases shown - i,
        {
            if i > 0 {
                text.append(", ");
            }
            text.append(self.artists[i].name.as_str());
            i += 1;
            assert(names.take(i as int).drop_last() == names.take(i - 1));
            assert(names.take(i as int).last() == self.artists@[i - 1].name@);
        }
        if self.artists.len() > 3 {
            text.append(", ... - ");
        } else {
            assert(names.take(i as int) == names);
            text.append(" - ");
        }
        text.append(self.track_name.as_str());
        sanitize(text)
    }
}

} // verus!
