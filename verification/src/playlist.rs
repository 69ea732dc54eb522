//! Playlists exchanged with the application, and the checks applied when
//! one is imported.
use vstd::prelude::*;
use crate::error::EngineError;

verus! {

/// One entry of an exchanged playlist.
#[derive(Debug, Clone)]
pub struct PlaylistTrack {
    pub title: String,
    pub artist: String,
    pub url: String,
}

/// An exchanged playlist.
#[derive(Debug, Clone)]
pub struct Playlist {
    pub version: String,
    pub name: String,
    pub tracks: Vec<PlaylistTrack>,
}

/// Checks a parsed playlist as an import does: the format version must be
/// `1.0` and the playlist must hold at least one track.
pub fn check_imported_playlist(playlist: Playlist) -> (r: Result<Playlist, EngineError>)
    ensures
        match r {
            Ok(p) => p == playlist && playlist.version@ == "1.0"@ && playlist.tracks@.len() > 0,
            Err(e) => e matches EngineError::InvalidConfig(m) && if playlist.version@ != "1.0"@ {
                m@ == "Unsupported playlist version: "@ + playlist.version@
            } else {
                playlist.tracks@.len() == 0 && m@ == "Playlist track count cannot be zero"@
            },
        },
{
    let expected = String::from_str("1.0");
    if playlist.version != expected {
        let m = String::from_str("Unsupported playlist version: ").concat(playlist.version.as_str());
        return Err(EngineError::InvalidConfig(m));
    }
    if playlist.tracks.len() == 0 {
        return Err(EngineError::InvalidConfig(String::from_str("Playlist track count cannot be zero")));
    }
    Ok(playlist)
}

} // verus!
