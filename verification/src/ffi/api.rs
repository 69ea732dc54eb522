//! Format selection exposed to the application.
use vstd::prelude::*;
use vstd::std_specs::convert::FromSpecImpl;
use crate::media::converter::AudioFormat as DomainAudioFormat;
use crate::extractor::traits::TrackMetadata as DomainTrackMetadata;
use crate::ffi::types::{TrackMetadata, source_to_ffi};

verus! {

/// A target audio format chosen by the application.
#[derive(Debug, Clone, Copy, PartialEq, Eq, Structural)]
pub enum AudioFormat {
    Flac,
    Wav,
    Mp3,
}

/// The conversion target a chosen format stands for.
pub open spec fn format_to_domain(f: AudioFormat) -> DomainAudioFormat {
    match f {
        AudioFormat::Flac => DomainAudioFormat::Flac,
        AudioFormat::Wav => DomainAudioFormat::Wav,
        AudioFormat::Mp3 => DomainAudioFormat::Mp3,
    }
}

impl From<AudioFormat> for DomainAudioFormat {
    fn from(format: AudioFormat) -> (r: Self) {
        match format {
            AudioFormat::Flac => Self::Flac,
            AudioFormat::Wav => Self::Wav,
            AudioFormat::Mp3 => Self::Mp3,
        }
    }
}

impl FromSpecImpl<AudioFormat> for DomainAudioFormat {
    open spec fn obeys_from_spec() -> bool {
        true
    }

    open spec fn from_spec(format: AudioFormat) -> DomainAudioFormat {
        format_to_domain(format)
    }
}

/// The exchanged form of a track's metadata: the same fields, with the
/// source in its exchanged form.
pub open spec fn metadata_to_ffi(m: DomainTrackMetadata) -> TrackMetadata {
    TrackMetadata {
        title: m.title,
        artist: m.artist,
        album: m.album,
        album_art_url: m.album_art_url,
        track_id: m.track_id,
        source: source_to_ffi(m.source),
    }
}

impl From<DomainTrackMetadata> for TrackMetadata {
    fn from(metadata: DomainTrackMetadata) -> (r: Self) {
        Self {
            title: metadata.title,
            artist: metadata.artist,
            album: metadata.album,
            album_art_url: metadata.album_art_url,
            track_id: metadata.track_id,
            source: metadata.source.into(),
        }
    }
}

impl FromSpecImpl<DomainTrackMetadata> for TrackMetadata {
    open spec fn obeys_from_spec() -> bool {
        true
    }

    open spec fn from_spec(metadata: DomainTrackMetadata) -> TrackMetadata {
        metadata_to_ffi(metadata)
    }
}

} // verus!
