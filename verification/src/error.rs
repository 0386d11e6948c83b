//! The failures that the library reports.
use vstd::prelude::*;
use vstd::string::StringExecFns;

verus! {

/// What an identifier was expected to name, or what a fetch was for.
#[derive(Clone, Copy, Debug, PartialEq, Eq, Structural)]
pub enum Subject {
    Track,
    Artist,
    Album,
    Playlist,
}

/// A failure of resolution or of metadata assembly.
#[derive(Clone, Copy, Debug, PartialEq, Eq, Structural)]
pub enum Error {
    /// Neither grammar reads the text as an identifier.
    InvalidIdentifier(Subject),
    /// The service did not return the record that was asked for.
    MetadataFetchFailure(Subject),
}

impl Error {
    /// The text of `message`.
    pub open spec fn message_text(self) -> Seq<char> {
        match self {
            Error::InvalidIdentifier(Subject::Track) => "Invalid track"@,
            Error::InvalidIdentifier(Subject::Artist) => "Invalid artist"@,
            Error::InvalidIdentifier(Subject::Album) => "Invalid album"@,
            Error::InvalidIdentifier(Subject::Playlist) => "Invalid playlist"@,
            Error::MetadataFetchFailure(Subject::Track) => "Failed to get metadata"@,
            Error::MetadataFetchFailure(Subject::Artist) => "Failed to get artist"@,
            Error::MetadataFetchFailure(Subject::Album) => "Failed to get album"@,
            Error::MetadataFetchFailure(Subject::Playlist) => "Failed to get playlist"@,
        }
    }

    /// A sentence for the user.
    pub fn message(&self) -> (text: String)
        ensures
            text@ == self.message_text(),
    {
        match self {
            Error::InvalidIdentifier(Subject::Track) => String::from_str("Invalid track"),
            Error::InvalidIdentifier(Subject::Artist) => String::from_str("Invalid artist"),
            Error::InvalidIdentifier(Subject::Album) => String::from_str("Invalid album"),
            Error::InvalidIdentifier(Subject::Playlist) => String::from_str("Invalid playlist"),
            Error::MetadataFetchFailure(Subject::Track) => String::from_str("Failed to get metadata"),
            Error::MetadataFetchFailure(Subject::Artist) => String::from_str("Failed to get artist"),
            Error::MetadataFetchFailure(Subject::Album) => String::from_str("Failed to get album"),
            Error::MetadataFetchFailure(Subject::Playlist) => String::from_str(
                "Failed to get playlist",
            ),
        }
    }
}

} // verus!
