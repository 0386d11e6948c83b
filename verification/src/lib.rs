//! Resolution of Spotify identifiers into track references, and assembly of
//! the metadata that names and tags each track.
//!
//! Nothing in this library touches the network. Where the service has to be
//! asked for a record, a function hands back the request to make and a state
//! to resume with the answer, so that the decisions are verified and only the
//! transport is left to the caller.
//!
//! - `uri`: identifiers, read from a canonical URI or from a web link;
//! - `track`: references to tracks, albums and playlists;
//! - `resolve`: a batch of identifiers into track references, in order;
//! - `assemble`: the records of a track, its artists and its album into metadata;
//! - `metadata`: tags, display name and size estimate of a track;
//! - `error`: the failures of all of these.
pub mod assemble;
pub mod error;
pub mod metadata;
pub mod resolve;
pub mod track;
pub mod uri;
