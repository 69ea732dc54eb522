use mm_dlp_core::data::playlist::json_handler::{validate_playlist as validate_json, PlaylistError};
use mm_dlp_core::data::playlist::xml_handler::validate_playlist as validate_xml;
use mm_dlp_core::domain::playlist::{Playlist, Track};
use mm_dlp_core::error::EngineError;
use mm_dlp_core::extractor::traits::AudioSource;
use mm_dlp_core::playlist::{check_imported_playlist, Playlist as ExchangePlaylist, PlaylistTrack};

fn track(id: &str, title: &str) -> Track {
    Track { id: id.into(), title: title.into(), artist: "A".into(), album: None, source_url: "u".into(), duration: 1 }
}

fn playlist(name: &str, tracks: Vec<Track>) -> Playlist {
    Playlist { id: "p".into(), name: name.into(), description: None, tracks, source: AudioSource::YouTubeMusic }
}

#[test]
fn complete_playlists_pass() {
    let p = playlist("Mix", vec![track("1", "a"), track("2", "b")]);
    assert_eq!(validate_json(&p), Ok(()));
    assert_eq!(validate_xml(&p), Ok(()));
}

#[test]
fn first_incomplete_track_is_reported() {
    let p = playlist("Mix", vec![track("1", "a"), track("2", ""), track("3", "")]);
    assert_eq!(validate_json(&p), Err(PlaylistError::InvalidFormat("Track 2 is missing required fields".into())));
    assert_eq!(
        validate_xml(&p),
        Err(PlaylistError::InvalidFormat("Track '2' is missing required fields (title, artist, or source_url)".into()))
    );
}

#[test]
fn xml_requires_a_name() {
    let p = playlist("", vec![]);
    assert_eq!(validate_xml(&p), Err(PlaylistError::InvalidFormat("Playlist name must not be empty".into())));
    assert_eq!(validate_json(&p), Ok(()));
    assert_eq!(PlaylistError::InvalidFormat("x".into()).message(), "Invalid playlist format: x");
}

#[test]
fn imported_playlists_are_checked() {
    let t = PlaylistTrack { title: "t".into(), artist: "a".into(), url: "u".into() };
    let ok = ExchangePlaylist { version: "1.0".into(), name: "n".into(), tracks: vec![t.clone()] };
    assert!(check_imported_playlist(ok).is_ok());
    let wrong = ExchangePlaylist { version: "2.0".into(), name: "n".into(), tracks: vec![t] };
    match check_imported_playlist(wrong) {
        Err(EngineError::InvalidConfig(m)) => assert_eq!(m, "Unsupported playlist version: 2.0"),
        _ => panic!(),
    }
    let empty = ExchangePlaylist { version: "1.0".into(), name: "n".into(), tracks: vec![] };
    match check_imported_playlist(empty) {
        Err(EngineError::InvalidConfig(m)) => assert_eq!(m, "Playlist track count cannot be zero"),
        _ => panic!(),
    }
}
