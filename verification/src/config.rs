//! Engine and download settings, and the records the engine hands out.
use vstd::prelude::*;
use crate::text::opt_chars;

verus! {

/// Settings of the engine.
#[derive(Debug, Clone)]
pub struct EngineConfig {
    pub max_concurrent_downloads: u32,
    pub user_agent: String,
    pub timeout_seconds: u64,
}

impl Default for EngineConfig {
    /// Four concurrent downloads, user agent `mm-dlp/1.0.0`, 30 s timeout.
    fn default() -> (c: Self)
        ensures
            c.max_concurrent_downloads == 4,
            c.user_agent@ == "mm-dlp/1.0.0"@,
            c.timeout_seconds == 30,
    {
        EngineConfig {
            max_concurrent_downloads: 4,
            user_agent: String::from_str("mm-dlp/1.0.0"),
            timeout_seconds: 30,
        }
    }
}

/// Where and how one download is written.
#[derive(Debug, Clone)]
pub struct DownloadConfig {
    pub output_dir: String,
    pub filename_template: String,
    pub extract_audio: bool,
    pub audio_format: String,
    pub quality: String,
}

/// Metadata of one media item as the engine reports it.
#[derive(Debug, Clone)]
pub struct MediaMetadata {
    pub id: String,
    pub title: String,
    pub artist: String,
    pub album: Option<String>,
    pub duration_seconds: u64,
    pub thumbnail_url: Option<String>,
    pub webpage_url: String,
}

/// The plain content of a [`MediaMetadata`].
pub struct MediaMetadataView {
    pub id: Seq<char>,
    pub title: Seq<char>,
    pub artist: Seq<char>,
    pub album: Option<Seq<char>>,
    pub duration_seconds: u64,
    pub thumbnail_url: Option<Seq<char>>,
    pub webpage_url: Seq<char>,
}

impl View for MediaMetadata {
    type V = MediaMetadataView;

    open spec fn view(&self) -> MediaMetadataView {
        MediaMetadataView {
            id: self.id@,
            title: self.title@,
            artist: self.artist@,
            album: opt_chars(self.album),
            duration_seconds: self.duration_seconds,
            thumbnail_url: opt_chars(self.thumbnail_url),
            webpage_url: self.webpage_url@,
        }
    }
}

/// The views of a sequence of metadata records.
pub open spec fn metadata_views(v: Seq<MediaMetadata>) -> Seq<MediaMetadataView> {
    v.map_values(|m: MediaMetadata| m@)
}

/// One audio stream a platform offers for a track. Its bit rate is kept in
/// bits per second as the platform reports it; kilobits per second are
/// `bitrate_bps / 1000`.
#[derive(Debug, Clone)]
pub struct StreamCandidate {
    pub format_id: String,
    pub url: String,
    pub ext: String,
    pub resolution: Option<String>,
    pub filesize_bytes: Option<u64>,
    pub bitrate_bps: Option<u64>,
}

/// The plain content of a [`StreamCandidate`].
pub struct StreamCandidateView {
    pub format_id: Seq<char>,
    pub url: Seq<char>,
    pub ext: Seq<char>,
    pub resolution: Option<Seq<char>>,
    pub filesize_bytes: Option<u64>,
    pub bitrate_bps: Option<u64>,
}

impl View for StreamCandidate {
    type V = StreamCandidateView;

    open spec fn view(&self) -> StreamCandidateView {
        StreamCandidateView {
            format_id: self.format_id@,
            url: self.url@,
            ext: self.ext@,
            resolution: opt_chars(self.resolution),
            filesize_bytes: self.filesize_bytes,
            bitrate_bps: self.bitrate_bps,
        }
    }
}

/// The outcome of a finished download.
#[derive(Debug, Clone)]
pub struct DownloadResult {
    pub file_path: String,
    pub total_bytes: u64,
    pub elapsed_millis: u64,
}

} // verus!
