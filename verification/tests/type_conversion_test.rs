use mm_dlp_core::domain::playlist::{Playlist as DomainPlaylist, Track as DomainTrack};
use mm_dlp_core::extractor::traits::{
    AudioQuality as DomainAudioQuality, AudioSource as DomainAudioSource,
    TrackMetadata as DomainTrackMetadata,
};
use mm_dlp_core::ffi::api::AudioFormat;
use mm_dlp_core::ffi::types::{AudioQuality, AudioSource, Playlist, TrackMetadata};
use mm_dlp_core::media::converter::AudioFormat as DomainAudioFormat;

#[test]
fn test_type_conversions() {
    // AudioSource
    let domain_source = DomainAudioSource::YouTubeMusic;
    let ffi_source: AudioSource = domain_source.into();
    assert_eq!(ffi_source, AudioSource::YouTubeMusic);
    let converted_back: DomainAudioSource = ffi_source.into();
    assert_eq!(converted_back, domain_source);

    // AudioQuality
    let domain_quality = DomainAudioQuality::High;
    let ffi_quality: AudioQuality = domain_quality.into();
    assert_eq!(ffi_quality, AudioQuality::High);
    let converted_back_quality: DomainAudioQuality = ffi_quality.into();
    assert_eq!(converted_back_quality, domain_quality);

    // Playlist
    let domain_playlist = DomainPlaylist {
        id: "pl-1".to_string(),
        name: "Test".to_string(),
        description: None,
        tracks: vec![DomainTrack {
            id: "track-1".to_string(),
            title: "Title".to_string(),
            artist: "Artist".to_string(),
            album: None,
            source_url: "url".to_string(),
            duration: 180,
        }],
        source: DomainAudioSource::SoundCloud,
    };
    let ffi_playlist: Playlist = domain_playlist.clone().into();
    let converted_back_playlist: DomainPlaylist = ffi_playlist.into();
    assert_eq!(domain_playlist, converted_back_playlist);
}

#[test]
fn every_source_and_quality_round_trips() {
    for s in [DomainAudioSource::YouTubeMusic, DomainAudioSource::SoundCloud, DomainAudioSource::Spotify] {
        let f: AudioSource = s.into();
        let back: DomainAudioSource = f.into();
        assert_eq!(back, s);
    }
    for q in [DomainAudioQuality::Low, DomainAudioQuality::Medium, DomainAudioQuality::High, DomainAudioQuality::Lossless] {
        let f: AudioQuality = q.into();
        let back: DomainAudioQuality = f.into();
        assert_eq!(back, q);
    }
}

#[test]
fn playlist_conversion_keeps_descriptions_and_track_order() {
    let p = DomainPlaylist {
        id: "p".to_string(),
        name: "N".to_string(),
        description: Some("d".to_string()),
        tracks: vec![
            DomainTrack { id: "1".into(), title: "a".into(), artist: "x".into(), album: Some("al".into()), source_url: "u1".into(), duration: 1 },
            DomainTrack { id: "2".into(), title: "b".into(), artist: "y".into(), album: None, source_url: "u2".into(), duration: 2 },
        ],
        source: DomainAudioSource::Spotify,
    };
    let f: Playlist = p.clone().into();
    assert_eq!(f.description.as_deref(), Some("d"));
    assert_eq!(f.tracks.len(), 2);
    assert_eq!(f.tracks[0].id, "1");
    assert_eq!(f.tracks[1].title, "b");
    assert_eq!(f.source, AudioSource::Spotify);
    let back: DomainPlaylist = f.into();
    assert_eq!(back, p);
}

#[test]
fn track_metadata_converts_field_by_field() {
    let m = DomainTrackMetadata {
        title: "T".into(),
        artist: "A".into(),
        album: None,
        album_art_url: Some("art".into()),
        track_id: "id".into(),
        source: DomainAudioSource::SoundCloud,
    };
    let f: TrackMetadata = m.into();
    assert_eq!(f.title, "T");
    assert_eq!(f.artist, "A");
    assert_eq!(f.album, None);
    assert_eq!(f.album_art_url.as_deref(), Some("art"));
    assert_eq!(f.track_id, "id");
    assert_eq!(f.source, AudioSource::SoundCloud);
}

#[test]
fn chosen_formats_map_to_conversion_targets() {
    let f: DomainAudioFormat = AudioFormat::Flac.into();
    assert_eq!(f, DomainAudioFormat::Flac);
    let w: DomainAudioFormat = AudioFormat::Wav.into();
    assert_eq!(w, DomainAudioFormat::Wav);
    let m: DomainAudioFormat = AudioFormat::Mp3.into();
    assert_eq!(m, DomainAudioFormat::Mp3);
}
