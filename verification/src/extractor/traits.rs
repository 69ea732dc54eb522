//! Data exchanged with the platform extractors.
use vstd::prelude::*;
use crate::text::opt_chars;

verus! {

/// One downloadable format of a media item.
#[derive(Debug, Clone)]
pub struct MediaFormat {
    pub format_id: String,
    pub url: String,
    pub ext: String,
    pub width: Option<u32>,
    pub height: Option<u32>,
    pub vcodec: Option<String>,
    pub acodec: Option<String>,
    pub filesize: Option<u64>,
}

/// A media item with its formats.
#[derive(Debug, Clone)]
pub struct MediaInfo {
    pub id: String,
    pub title: String,
    pub description: Option<String>,
    pub uploader: Option<String>,
    pub duration: Option<u32>,
    pub formats: Vec<MediaFormat>,
}

/// A platform audio can come from.
#[derive(Debug, Clone, Copy, PartialEq, Eq, Structural)]
pub enum AudioSource {
    YouTubeMusic,
    SoundCloud,
    Spotify,
}

/// A requested audio quality.
#[derive(Debug, Clone, Copy, PartialEq, Eq, Structural)]
pub enum AudioQuality {
    Low,
    Medium,
    High,
    Lossless,
}

/// Metadata of one track on a platform.
#[derive(Debug, Clone)]
pub struct TrackMetadata {
    pub title: String,
    pub artist: String,
    pub album: Option<String>,
    pub album_art_url: Option<String>,
    pub track_id: String,
    pub source: AudioSource,
}

/// A playable stream of a track.
#[derive(Debug, Clone)]
pub struct StreamInfo {
    pub stream_url: String,
    pub format: String,
    pub bitrate: u32,
    pub duration_secs: u64,
    pub metadata: TrackMetadata,
}

/// The plain content of a [`TrackMetadata`].
pub struct TrackMetadataView {
    pub title: Seq<char>,
    pub artist: Seq<char>,
    pub album: Option<Seq<char>>,
    pub album_art_url: Option<Seq<char>>,
    pub track_id: Seq<char>,
    pub source: AudioSource,
}

impl View for TrackMetadata {
    type V = TrackMetadataView;

    open spec fn view(&self) -> TrackMetadataView {
        TrackMetadataView {
            title: self.title@,
            artist: self.artist@,
            album: opt_chars(self.album),
            album_art_url: opt_chars(self.album_art_url),
            track_id: self.track_id@,
            source: self.source,
        }
    }
}

/// The views of a sequence of track records.
pub open spec fn track_views(v: Seq<TrackMetadata>) -> Seq<TrackMetadataView> {
    v.map_values(|t: TrackMetadata| t@)
}

/// The plain content of a [`StreamInfo`].
pub struct StreamInfoView {
    pub stream_url: Seq<char>,
    pub format: Seq<char>,
    pub bitrate: u32,
    pub duration_secs: u64,
    pub metadata: TrackMetadataView,
}

impl View for StreamInfo {
    type V = StreamInfoView;

    open spec fn view(&self) -> StreamInfoView {
        StreamInfoView {
            stream_url: self.stream_url@,
            format: self.format@,
            bitrate: self.bitrate,
            duration_secs: self.duration_secs,
            metadata: self.metadata@,
        }
    }
}

} // verus!
