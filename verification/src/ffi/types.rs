//! Records and enums handed across the application boundary, and their
//! conversions from and to the domain types.
use vstd::prelude::*;
use vstd::std_specs::convert::FromSpecImpl;
use crate::extractor::traits::{AudioSource as DomainAudioSource, AudioQuality as DomainAudioQuality};
use crate::domain::playlist::{Playlist as DomainPlaylist, Track as DomainTrack};

verus! {

/// A platform audio can come from.
#[derive(Debug, Clone, Copy, PartialEq, Eq, Structural)]
pub enum AudioSource {
    YouTubeMusic,
    SoundCloud,
    Spotify,
}

impl From<DomainAudioSource> for AudioSource {
    fn from(source: DomainAudioSource) -> (r: Self) {
        match source {
            DomainAudioSource::YouTubeMusic => Self::YouTubeMusic,
            DomainAudioSource::SoundCloud => Self::SoundCloud,
            DomainAudioSource::Spotify => Self::Spotify,
        }
    }
}

impl FromSpecImpl<DomainAudioSource> for AudioSource {
    open spec fn obeys_from_spec() -> bool {
        true
    }

    open spec fn from_spec(source: DomainAudioSource) -> AudioSource {
        source_to_ffi(source)
    }
}

impl From<AudioSource> for DomainAudioSource {
    fn from(source: AudioSource) -> (r: Self) {
        match source {
            AudioSource::YouTubeMusic => Self::YouTubeMusic,
            AudioSource::SoundCloud => Self::SoundCloud,
            AudioSource::Spotify => Self::Spotify,
        }
    }
}

impl FromSpecImpl<AudioSource> for DomainAudioSource {
    open spec fn obeys_from_spec() -> bool {
        true
    }

    open spec fn from_spec(source: AudioSource) -> DomainAudioSource {
        source_to_domain(source)
    }
}

/// A requested audio quality.
#[derive(Debug, Clone, Copy, PartialEq, Eq, Structural)]
pub enum AudioQuality {
    Low,
    Medium,
    High,
    Lossless,
}

impl From<DomainAudioQuality> for AudioQuality {
    fn from(quality: DomainAudioQuality) -> (r: Self) {
        match quality {
            DomainAudioQuality::Low => Self::Low,
            DomainAudioQuality::Medium => Self::Medium,
            DomainAudioQuality::High => Self::High,
            DomainAudioQuality::Lossless => Self::Lossless,
        }
    }
}

impl FromSpecImpl<DomainAudioQuality> for AudioQuality {
    open spec fn obeys_from_spec() -> bool {
        true
    }

    open spec fn from_spec(quality: DomainAudioQuality) -> AudioQuality {
        match quality {
            DomainAudioQuality::Low => AudioQuality::Low,
            DomainAudioQuality::Medium => AudioQuality::Medium,
            DomainAudioQuality::High => AudioQuality::High,
            DomainAudioQuality::Lossless => AudioQuality::Lossless,
        }
    }
}

impl From<AudioQuality> for DomainAudioQuality {
    fn from(quality: AudioQuality) -> (r: Self) {
        match quality {
            AudioQuality::Low => Self::Low,
            AudioQuality::Medium => Self::Medium,
            AudioQuality::High => Self::High,
            AudioQuality::Lossless => Self::Lossless,
        }
    }
}

impl FromSpecImpl<AudioQuality> for DomainAudioQuality {
    open spec fn obeys_from_spec() -> bool {
        true
    }

    open spec fn from_spec(quality: AudioQuality) -> DomainAudioQuality {
        match quality {
            AudioQuality::Low => DomainAudioQuality::Low,
            AudioQuality::Medium => DomainAudioQuality::Medium,
            AudioQuality::High => DomainAudioQuality::High,
            AudioQuality::Lossless => DomainAudioQuality::Lossless,
        }
    }
}

/// Metadata of one track on a platform.
#[derive(Debug, Clone)]
pub struct TrackMetadata {
    pub title: String,
    pub artist: String,
    pub album: Option<String>,
    pub album_art_url: Option<String>,
    pub track_id: String,
    pub source: AudioSource,
}

/// A playable stream of a track.
#[derive(Debug, Clone)]
pub struct StreamInfo {
    pub stream_url: String,
    pub format: String,
    pub bitrate: u32,
    pub duration_secs: u64,
    pub metadata: TrackMetadata,
}

/// One entry of a playlist.
#[derive(Debug, Clone, PartialEq)]
pub struct Track {
    pub id: String,
    pub title: String,
    pub artist: String,
    pub album: Option<String>,
    pub source_url: String,
    pub duration: u64,
}

/// A playlist.
#[derive(Debug, Clone, PartialEq)]
pub struct Playlist {
    pub id: String,
    pub name: String,
    pub description: Option<String>,
    pub tracks: Vec<Track>,
    pub source: AudioSource,
}

impl From<DomainTrack> for Track {
    fn from(track: DomainTrack) -> (r: Self) {
        Self {
            id: track.id,
            title: track.title,
            artist: track.artist,
            album: track.album,
            source_url: track.source_url,
            duration: track.duration,
        }
    }
}

impl FromSpecImpl<DomainTrack> for Track {
    open spec fn obeys_from_spec() -> bool {
        true
    }

    open spec fn from_spec(track: DomainTrack) -> Track {
        track_to_ffi(track)
    }
}

impl From<Track> for DomainTrack {
    fn from(track: Track) -> (r: Self) {
        Self {
            id: track.id,
            title: track.title,
            artist: track.artist,
            album: track.album,
            source_url: track.source_url,
            duration: track.duration,
        }
    }
}

impl FromSpecImpl<Track> for DomainTrack {
    open spec fn obeys_from_spec() -> bool {
        true
    }

    open spec fn from_spec(track: Track) -> DomainTrack {
        track_to_domain(track)
    }
}

/// The exchanged form of a domain audio source.
pub open spec fn source_to_ffi(s: DomainAudioSource) -> AudioSource {
    match s {
        DomainAudioSource::YouTubeMusic => AudioSource::YouTubeMusic,
        DomainAudioSource::SoundCloud => AudioSource::SoundCloud,
        DomainAudioSource::Spotify => AudioSource::Spotify,
    }
}

/// The domain form of an exchanged audio source.
pub open spec fn source_to_domain(s: AudioSource) -> DomainAudioSource {
    match s {
        AudioSource::YouTubeMusic => DomainAudioSource::YouTubeMusic,
        AudioSource::SoundCloud => DomainAudioSource::SoundCloud,
        AudioSource::Spotify => DomainAudioSource::Spotify,
    }
}

/// The exchanged form of a domain track: the same fields.
pub open spec fn track_to_ffi(t: DomainTrack) -> Track {
    Track {
        id: t.id,
        title: t.title,
        artist: t.artist,
        album: t.album,
        source_url: t.source_url,
        duration: t.duration,
    }
}

/// The domain form of an exchanged track: the same fields.
pub open spec fn track_to_domain(t: Track) -> DomainTrack {
    DomainTrack {
        id: t.id,
        title: t.title,
        artist: t.artist,
        album: t.album,
        source_url: t.source_url,
        duration: t.duration,
    }
}

/// The two playlists carry the same fields and corresponding tracks.
pub open spec fn playlists_correspond(d: DomainPlaylist, f: Playlist) -> bool {
    &&& f.id == d.id
    &&& f.name == d.name
    &&& f.description == d.description
    &&& f.source == source_to_ffi(d.source)
    &&& f.tracks@.len() == d.tracks@.len()
    &&& forall|k: int|
        0 <= k < f.tracks@.len() ==> #[trigger] f.tracks@[k] == track_to_ffi(d.tracks@[k])
}

/// The tracks of a domain playlist, converted.
fn tracks_to_ffi(tracks: Vec<DomainTrack>) -> (r: Vec<Track>)
    ensures
        r@.len() == tracks@.len(),
        forall|k: int|
            0 <= k < r@.len() ==> #[trigger] r@[k] == track_to_ffi(tracks@[k]),
{
    let mut out: Vec<Track> = Vec::new();
    let mut rest = tracks;
    let ghost all = rest@;
    let total = rest.len();
    let mut taken: usize = 0;
    while rest.len() > 0
        invariant
            out@.len() == taken,
            taken + rest@.len() == all.len(),
            all.len() == total,
            rest@ == all.skip(taken as int),
            forall|k: int|
                0 <= k < out@.len() ==> #[trigger] out@[k] == track_to_ffi(all[k]),
        decreases rest@.len(),
    {
        let t = rest.remove(0);
        assert(all.skip(taken as int).remove(0) =~= all.skip(taken + 1));
        out.push(Track::from(t));
        taken = taken + 1;
    }
    out
}

/// The tracks of an exchanged playlist, converted.
fn tracks_to_domain(tracks: Vec<Track>) -> (r: Vec<DomainTrack>)
    ensures
        r@.len() == tracks@.len(),
        forall|k: int|
            0 <= k < r@.len() ==> #[trigger] r@[k] == track_to_domain(tracks@[k]),
{
    let mut out: Vec<DomainTrack> = Vec::new();
    let mut rest = tracks;
    let ghost all = rest@;
    let total = rest.len();
    let mut taken: usize = 0;
    while rest.len() > 0
        invariant
            out@.len() == taken,
            taken + rest@.len() == all.len(),
            all.len() == total,
            rest@ == all.skip(taken as int),
            forall|k: int|
                0 <= k < out@.len() ==> #[trigger] out@[k] == track_to_domain(all[k]),
        decreases rest@.len(),
    {
        let t = rest.remove(0);
        assert(all.skip(taken as int).remove(0) =~= all.skip(taken + 1));
        out.push(DomainTrack::from(t));
        taken = taken + 1;
    }
    out
}

impl From<DomainPlaylist> for Playlist {
    fn from(playlist: DomainPlaylist) -> (r: Self)
        ensures
            playlists_correspond(playlist, r),
    {
        Self {
            id: playlist.id,
            name: playlist.name,
            description: playlist.description,
            tracks: tracks_to_ffi(playlist.tracks),
            source: AudioSource::from(playlist.source),
        }
    }
}

impl From<Playlist> for DomainPlaylist {
    fn from(playlist: Playlist) -> (r: Self)
        ensures
            playlists_correspond(r, playlist),
    {
        let tracks = tracks_to_domain(playlist.tracks);
        let r = Self {
            id: playlist.id,
            name: playlist.name,
            description: playlist.description,
            tracks,
            source: DomainAudioSource::from(playlist.source),
        };
        assert forall|k: int| 0 <= k < playlist.tracks@.len() implies #[trigger] playlist.tracks@[k]
            == track_to_ffi(r.tracks@[k]) by {
            assert(r.tracks@[k] == track_to_domain(playlist.tracks@[k]));
        }
        assert(playlist.source == source_to_ffi(r.source));
        r
    }
}

impl FromSpecImpl<Playlist> for DomainPlaylist {
    open spec fn obeys_from_spec() -> bool {
        false
    }

    open spec fn from_spec(playlist: Playlist) -> DomainPlaylist {
        choose|d: DomainPlaylist| playlists_correspond(d, playlist)
    }
}

impl FromSpecImpl<DomainPlaylist> for Playlist {
    open spec fn obeys_from_spec() -> bool {
        false
    }

    open spec fn from_spec(playlist: DomainPlaylist) -> Playlist {
        choose|p: Playlist| playlists_correspond(playlist, p)
    }
}

} // verus!


verus! {

/// An audio source converted to the exchanged form and back is unchanged.
pub proof fn law_source_round_trip(s: DomainAudioSource)
    ensures
        source_to_domain(source_to_ffi(s)) == s,
        source_to_ffi(source_to_domain(source_to_ffi(s))) == source_to_ffi(s),
{
}

/// A track converted to the exchanged form and back is unchanged.
pub proof fn law_track_round_trip(t: DomainTrack)
    ensures
        track_to_domain(track_to_ffi(t)) == t,
{
}

/// A playlist converted to the exchanged form and back has the same id,
/// name, description, source and tracks.
pub proof fn law_playlist_round_trip(d: DomainPlaylist, f: Playlist, back: DomainPlaylist)
    requires
        playlists_correspond(d, f),
        playlists_correspond(back, f),
    ensures
        back.id == d.id,
        back.name == d.name,
        back.description == d.description,
        back.source == d.source,
        back.tracks@ == d.tracks@,
{
    assert forall|k: int| 0 <= k < d.tracks@.len() implies back.tracks@[k] == d.tracks@[k] by {
        assert(f.tracks@[k] == track_to_ffi(d.tracks@[k]));
        assert(f.tracks@[k] == track_to_ffi(back.tracks@[k]));
    }
    assert(back.tracks@ =~= d.tracks@);
}

} // verus!

verus! {

/// An audio quality converted to the exchanged form and back is unchanged.
pub proof fn law_quality_round_trip(q: DomainAudioQuality)
    ensures
        <DomainAudioQuality as vstd::std_specs::convert::FromSpec<AudioQuality>>::from_spec(
            <AudioQuality as vstd::std_specs::convert::FromSpec<DomainAudioQuality>>::from_spec(q),
        ) == q,
{
}

} // verus!
