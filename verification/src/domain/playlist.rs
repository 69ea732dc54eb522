//! Playlists of tracks from one source.
use vstd::prelude::*;
use crate::extractor::traits::AudioSource;

verus! {

/// A playlist as the application stores and exchanges it.
#[derive(Debug, Clone, PartialEq)]
pub struct Playlist {
    pub id: String,
    pub name: String,
    pub description: Option<String>,
    pub tracks: Vec<Track>,
    pub source: AudioSource,
}

/// One entry of a playlist.
#[derive(Debug, Clone, PartialEq)]
pub struct Track {
    pub id: String,
    pub title: String,
    pub artist: String,
    pub album: Option<String>,
    pub source_url: String,
    pub duration: u64,
}

} // verus!
