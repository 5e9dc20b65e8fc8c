//! Song records of the library.

use std::path::PathBuf;
use vstd::prelude::*;

verus! {

/// A path on the local file system, carried through unchanged.
#[verifier::external_type_specification]
#[verifier::external_body]
pub struct ExPathBuf(PathBuf);

/// A song in the library.
pub struct Song {
    pub name: String,
    pub author: String,
    /// For game soundtracks, the name of the game or of its soundtrack.
    pub album: Option<String>,
    pub youtube_link: Option<String>,
    pub length: String,
    pub song_type: SongType,
}

/// Where a song's audio comes from.
pub enum SongType {
    LOCAL(LocalSong),
    ONLINE(OnlineSong),
}

/// A song stored in a file on this machine.
pub struct LocalSong {
    pub file_path: PathBuf,
}

/// A song played from a link.
pub struct OnlineSong {
    pub link: String,
}

} // verus!
