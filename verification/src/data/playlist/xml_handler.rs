//! Playlist checks of the XML import.
use vstd::prelude::*;
use crate::domain::playlist::{Playlist, Track};
use crate::data::playlist::json_handler::{
    PlaylistError, first_incomplete, is_first_incomplete, track_complete,
};

verus! {

/// Checks that an imported playlist has a name and that every track has
/// its title, artist and source URL.
pub fn validate_playlist(playlist: &Playlist) -> (r: Result<(), PlaylistError>)
    ensures
        match r {
            Ok(()) => playlist.name@.len() > 0 && forall|j: int|
                0 <= j < playlist.tracks@.len() ==> (#[trigger] playlist.tracks@[j]).title@.len() > 0
                    && playlist.tracks@[j].artist@.len() > 0 && playlist.tracks@[j].source_url@.len() > 0,
            Err(e) => if playlist.name@.len() == 0 {
                e == PlaylistError::InvalidFormat(e->InvalidFormat_0) && e->InvalidFormat_0@
                    == "Playlist name must not be empty"@
            } else {
                exists|k: int|
                    is_first_incomplete(playlist.tracks@, k) && (playlist.tracks@[k].title@.len() == 0
                        || playlist.tracks@[k].artist@.len() == 0 || playlist.tracks@[k].source_url@.len()
                        == 0) && e == PlaylistError::InvalidFormat(
                        e->InvalidFormat_0,
                    ) && e->InvalidFormat_0@ == "Track '"@ + playlist.tracks@[k].id@
                        + "' is missing required fields (title, artist, or source_url)"@
            },
        },
{
    if playlist.name.unicode_len() == 0 {
        return Err(PlaylistError::InvalidFormat(String::from_str("Playlist name must not be empty")));
    }
    match first_incomplete(&playlist.tracks) {
        Some(k) => {
            let m = String::from_str("Track '").concat(playlist.tracks[k].id.as_str()).concat(
                "' is missing required fields (title, artist, or source_url)",
            );
            Err(PlaylistError::InvalidFormat(m))
        },
        None => Ok(()),
    }
}

} // verus!
