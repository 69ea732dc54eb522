use mm_dlp_core::extractor::traits::{AudioSource, StreamInfo, TrackMetadata};
use mm_dlp_core::ffi::file_handoff::{
    check_stream_url, detect_source_from_url, download_complete, download_target, extract_track_id,
    output_extension, output_file_name, sanitize_filename,
};
use mm_dlp_core::media::converter::AudioFormat;

#[test]
fn sources_from_urls() {
    assert_eq!(detect_source_from_url("https://music.youtube.com/watch?v=x"), Ok(AudioSource::YouTubeMusic));
    assert_eq!(detect_source_from_url("https://youtu.be/x"), Ok(AudioSource::YouTubeMusic));
    assert_eq!(detect_source_from_url("https://soundcloud.com/a/b"), Ok(AudioSource::SoundCloud));
    assert_eq!(detect_source_from_url("https://open.spotify.com/track/1"), Ok(AudioSource::Spotify));
    assert_eq!(detect_source_from_url("https://example.com"), Err("Cannot determine platform from URL: https://example.com".to_string()));
}

#[test]
fn track_ids_per_source() {
    let yt = AudioSource::YouTubeMusic;
    assert_eq!(extract_track_id("https://www.youtube.com/watch?v=dQw4w9WgXcQ&t=1", &yt), Ok("dQw4w9WgXcQ".to_string()));
    assert_eq!(extract_track_id("https://youtu.be/dQw4w9WgXcQ?si=1", &yt), Ok("dQw4w9WgXcQ".to_string()));
    assert_eq!(extract_track_id("https://www.youtube.com/watch?v=short", &yt),
        Err("Could not extract YouTube video ID from 'https://www.youtube.com/watch?v=short'".to_string()));
    assert_eq!(extract_track_id("https://soundcloud.com/a/b", &AudioSource::SoundCloud), Ok("https://soundcloud.com/a/b".to_string()));
    assert_eq!(extract_track_id("x", &AudioSource::Spotify), Err("Spotify streaming is not supported".to_string()));
}

#[test]
fn file_names() {
    assert_eq!(sanitize_filename("a/b\\c:d*e?f\"g<h>i|j"), "abcdefghij");
    assert_eq!(sanitize_filename("plain name.mp3"), "plain name.mp3");
    assert_eq!(output_extension(Some(AudioFormat::Flac), "audio/webm"), "flac");
    assert_eq!(output_extension(None, "audio/webm; codecs=opus"), "webm");
    assert_eq!(output_extension(None, "mp3"), "mp3");
    assert_eq!(output_extension(None, "audio"), "mp3");
    assert_eq!(output_file_name("AC/DC", "Back: In Black", "mp3"), "ACDC - Back In Black.mp3");
}

#[test]
fn download_target_in_temp_dir() {
    let info = StreamInfo {
        stream_url: "https://cdn/x".to_string(),
        format: "audio/mp4".to_string(),
        bitrate: 128,
        duration_secs: 10,
        metadata: TrackMetadata {
            title: "Song?".to_string(),
            artist: "Band".to_string(),
            album: None,
            album_art_url: None,
            track_id: "t".to_string(),
            source: AudioSource::SoundCloud,
        },
    };
    assert_eq!(download_target("/tmp/dl", None, &info), "/tmp/dl/Band - Song.mp4");
    assert_eq!(download_target("/tmp/dl/", Some(AudioFormat::Wav), &info), "/tmp/dl/Band - Song.wav");
}

#[test]
fn stream_urls_are_checked() {
    assert_eq!(check_stream_url("https://cdn.example.com/a.mp3"), Ok(()));
    let e = check_stream_url("not a url").unwrap_err();
    assert!(e.starts_with("Invalid stream URL 'not a url': "));
    assert!(e.len() > "Invalid stream URL 'not a url': ".len());
}

#[test]
fn completion_reports() {
    assert!(download_complete("u", 10, 10, "u"));
    assert!(download_complete("u", 11, 10, "u"));
    assert!(!download_complete("u", 9, 10, "u"));
    assert!(!download_complete("u", 0, 0, "u"));
    assert!(!download_complete("v", 10, 10, "u"));
}

#[test]
fn sanitizing_twice_changes_nothing() {
    let once = sanitize_filename("a:b/c?.mp3");
    assert_eq!(once, "abc.mp3");
    assert_eq!(sanitize_filename(&once), once);
}
