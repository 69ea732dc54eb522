//! Audio sources, qualities and stream descriptions.
use vstd::prelude::*;

verus! {

/// A platform audio can come from.
#[derive(Debug, Clone, Copy, PartialEq, Eq, Structural)]
pub enum AudioSource {
    YouTubeMusic,
    SoundCloud,
    Spotify,
}

/// A requested audio quality.
#[derive(Debug, Clone, Copy, PartialEq, Eq, Structural)]
pub enum AudioQuality {
    Low,
    Medium,
    High,
    Lossless,
}

/// Metadata of one track on a platform.
#[derive(Debug, Clone)]
pub struct TrackMetadata {
    pub title: String,
    pub artist: String,
    pub album: Option<String>,
    pub album_art_url: Option<String>,
    pub track_id: String,
    pub source: AudioSource,
}

/// A playable stream of a track.
#[derive(Debug, Clone)]
pub struct StreamInfo {
    pub stream_url: String,
    pub format: String,
    pub bitrate: u32,
    pub duration_secs: u64,
    pub metadata: TrackMetadata,
}

} // verus!
