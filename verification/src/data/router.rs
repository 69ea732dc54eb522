//! Which extractor serves the stream of a track from a given source.
use vstd::prelude::*;
use crate::extractor::traits::AudioSource;

verus! {

/// The extractor that resolves a stream.
#[derive(Debug, Clone, Copy, PartialEq, Eq, Structural)]
pub enum StreamRoute {
    YouTubeMusic,
    SoundCloud,
}

/// The extractor for streams from `source`; Spotify offers metadata only.
pub fn stream_route(source: AudioSource) -> (r: Result<StreamRoute, String>)
    ensures
        match source {
            AudioSource::YouTubeMusic => r == Ok::<StreamRoute, String>(StreamRoute::YouTubeMusic),
            AudioSource::SoundCloud => r == Ok::<StreamRoute, String>(StreamRoute::SoundCloud),
            AudioSource::Spotify => r matches Err(m) && m@
                == "Spotify streaming is not supported, metadata only."@,
        },
{
    match source {
        AudioSource::YouTubeMusic => Ok(StreamRoute::YouTubeMusic),
        AudioSource::SoundCloud => Ok(StreamRoute::SoundCloud),
        AudioSource::Spotify => Err(
            String::from_str("Spotify streaming is not supported, metadata only."),
        ),
    }
}

} // verus!
