//! Playlist checks of the JSON import.
use vstd::prelude::*;
use crate::domain::playlist::{Playlist, Track};

verus! {

/// Errors of playlist import and export.
#[derive(Debug, Clone, PartialEq, Eq)]
pub enum PlaylistError {
    InvalidFormat(String),
    Serialization(String),
    Deserialization(String),
}

/// The human-readable message of a [`PlaylistError`].
pub open spec fn playlist_error_message(e: PlaylistError) -> Seq<char> {
    match e {
        PlaylistError::InvalidFormat(s) => "Invalid playlist format: "@ + s@,
        PlaylistError::Serialization(s) => "Serialization error: "@ + s@,
        PlaylistError::Deserialization(s) => "Deserialization error: "@ + s@,
    }
}

impl PlaylistError {
    /// The human-readable message of this error.
    pub fn message(&self) -> (m: String)
        ensures
            m@ == playlist_error_message(*self),
    {
        match self {
            PlaylistError::InvalidFormat(s) => String::from_str("Invalid playlist format: ").concat(s.as_str()),
            PlaylistError::Serialization(s) => String::from_str("Serialization error: ").concat(s.as_str()),
            PlaylistError::Deserialization(s) => String::from_str("Deserialization error: ").concat(
                s.as_str(),
            ),
        }
    }
}

/// A track has its title, artist and source URL.
pub open spec fn track_complete(t: Track) -> bool {
    t.title@.len() > 0 && t.artist@.len() > 0 && t.source_url@.len() > 0
}

/// A track is complete exactly when its title, its artist and its source
/// URL are all non-empty; a track without a source URL never is.
pub proof fn law_track_complete_fields(t: Track)
    ensures
        track_complete(t) <==> (t.title@.len() > 0 && t.artist@.len() > 0 && t.source_url@.len() > 0),
        t.source_url@.len() == 0 ==> !track_complete(t),
{
}

/// `k` is the first track that is not complete.
pub open spec fn is_first_incomplete(tracks: Seq<Track>, k: int) -> bool {
    &&& 0 <= k < tracks.len()
    &&& !track_complete(tracks[k])
    &&& forall|j: int| 0 <= j < k ==> track_complete(#[trigger] tracks[j])
}

/// Whether a track has its title, artist and source URL.
pub(crate) fn is_track_complete(t: &Track) -> (b: bool)
    ensures
        b == track_complete(*t),
{
    t.title.unicode_len() > 0 && t.artist.unicode_len() > 0 && t.source_url.unicode_len() > 0
}

/// Position of the first track that is not complete.
pub(crate) fn first_incomplete(tracks: &Vec<Track>) -> (r: Option<usize>)
    ensures
        match r {
            Some(k) => is_first_incomplete(tracks@, k as int),
            None => forall|j: int| 0 <= j < tracks@.len() ==> track_complete(#[trigger] tracks@[j]),
        },
{
    let mut i: usize = 0;
    while i < tracks.len()
        invariant
            i <= tracks@.len(),
            forall|j: int| 0 <= j < i ==> track_complete(#[trigger] tracks@[j]),
        decreases tracks.len() - i,
    {
        if !is_track_complete(&tracks[i]) {
            return Some(i);
        }
        i = i + 1;
    }
    None
}

/// Checks that every track of an imported playlist has its title, artist
/// and source URL; the first one that does not is reported by its id.
pub fn validate_playlist(playlist: &Playlist) -> (r: Result<(), PlaylistError>)
    ensures
        match r {
            Ok(()) => forall|j: int|
                0 <= j < playlist.tracks@.len() ==> (#[trigger] playlist.tracks@[j]).title@.len() > 0
                    && playlist.tracks@[j].artist@.len() > 0 && playlist.tracks@[j].source_url@.len() > 0,
            Err(e) => exists|k: int|
                is_first_incomplete(playlist.tracks@, k) && (playlist.tracks@[k].title@.len() == 0
                    || playlist.tracks@[k].artist@.len() == 0 || playlist.tracks@[k].source_url@.len()
                    == 0) && e == PlaylistError::InvalidFormat(
                    e->InvalidFormat_0,
                ) && e->InvalidFormat_0@ == "Track "@ + playlist.tracks@[k].id@
                    + " is missing required fields"@,
        },
{
    match first_incomplete(&playlist.tracks) {
        Some(k) => {
            let m = String::from_str("Track ").concat(playlist.tracks[k].id.as_str()).concat(
                " is missing required fields",
            );
            Err(PlaylistError::InvalidFormat(m))
        },
        None => Ok(()),
    }
}

} // verus!
