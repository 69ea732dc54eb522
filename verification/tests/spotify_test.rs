use mm_dlp_core::error::EngineError;
use mm_dlp_core::extractor::spotify::{apply_ld_json, iso_duration_seconds, ld_json_text, track_id_of, SpotifyExtractor};
use mm_dlp_core::json::parse_json;

#[test]
fn iso_durations() {
    assert_eq!(iso_duration_seconds("PT3M15S"), Some(195));
    assert_eq!(iso_duration_seconds("PT0M5S"), Some(5));
    assert_eq!(iso_duration_seconds("PTPT2M"), Some(120));
    assert_eq!(iso_duration_seconds("PT4MxS"), Some(240));
    assert_eq!(iso_duration_seconds("PT45S"), None);
    assert_eq!(iso_duration_seconds("PT1H2M3S"), Some(3));
}

#[test]
fn iso_duration_wraps_around() {
    assert_eq!(iso_duration_seconds("PT307445734561825861M0S"), Some(307445734561825861u64.wrapping_mul(60)));
}

#[test]
fn track_ids_from_links() {
    assert_eq!(track_id_of("https://open.spotify.com/track/ABC?si=1"), "ABC");
    assert_eq!(track_id_of("https://open.spotify.com/track/ABC/track/DEF"), "ABC");
    assert_eq!(track_id_of("https://open.spotify.com/album/ABC"), "spotify_track");
}

#[test]
fn ld_json_block_is_cut_out() {
    let html = r#"<html><script type="application/ld+json">{"a":1}</script><script>x</script>"#;
    assert_eq!(ld_json_text(html).as_deref(), Some(r#"{"a":1}"#));
    assert_eq!(ld_json_text("<html></html>"), None);
    assert_eq!(ld_json_text(r#"<script type="application/ld+json">{"a":1}"#), None);
}

#[test]
fn ld_json_details() {
    let v = parse_json(r#"{"name":"Song","byArtist":[{"name":"A"},{"x":1},{"name":"B"}],
        "inAlbum":{"name":"Al"},"duration":"PT3M15S"}"#).unwrap();
    let d = apply_ld_json("Fallback".to_string(), &v);
    assert_eq!(d.title, "Song");
    assert_eq!(d.artist, "A, B");
    assert_eq!(d.album.as_deref(), Some("Al"));
    assert_eq!(d.duration_seconds, 195);
}

#[test]
fn ld_json_single_artist_and_fallbacks() {
    let v = parse_json(r#"{"byArtist":{"name":"Solo"}}"#).unwrap();
    let d = apply_ld_json("Fallback".to_string(), &v);
    assert_eq!(d.title, "Fallback");
    assert_eq!(d.artist, "Solo");
    assert_eq!(d.album, None);
    assert_eq!(d.duration_seconds, 0);
    let v = parse_json(r#"{"byArtist":[{"x":1}]}"#).unwrap();
    assert_eq!(apply_ld_json("T".to_string(), &v).artist, "Unknown Artist");
}

#[test]
fn metadata_from_pages() {
    let sp = SpotifyExtractor::new();
    let oembed = parse_json(r#"{"title":"OE Title","thumbnail_url":"thumb"}"#).unwrap();
    let html = r#"<script type="application/ld+json">{"byArtist":{"name":"Art"},"duration":"PT1M1S"}</script>"#;
    let url = "https://open.spotify.com/track/T1?si=z";
    let m = sp.metadata_from_pages(url, Some(&oembed), html);
    assert_eq!(m.id, "T1");
    assert_eq!(m.title, "OE Title");
    assert_eq!(m.artist, "Art");
    assert_eq!(m.duration_seconds, 61);
    assert_eq!(m.thumbnail_url.as_deref(), Some("thumb"));
    assert_eq!(m.webpage_url, url);
    let m = sp.metadata_from_pages(url, None, "<script type=\"application/ld+json\">not json</script>");
    assert_eq!(m.title, "Unknown Title");
    assert_eq!(m.artist, "Unknown Artist");
    assert_eq!(m.thumbnail_url, None);
}

#[test]
fn oembed_address_is_percent_encoded() {
    let sp = SpotifyExtractor::default();
    assert_eq!(
        sp.oembed_url("https://open.spotify.com/track/x y"),
        "https://open.spotify.com/oembed?url=https%3A%2F%2Fopen.spotify.com%2Ftrack%2Fx%20y"
    );
    assert_eq!(sp.oembed_url("é~"), "https://open.spotify.com/oembed?url=%C3%A9~");
}

#[test]
fn search_and_streams_are_refused() {
    let sp = SpotifyExtractor::new();
    match sp.search("q") {
        Err(EngineError::StreamNotFound(m)) => assert_eq!(m, "Spotify search is not supported directly; Spotify is metadata-only."),
        _ => panic!("expected refusal"),
    }
    match sp.get_stream_url("id") {
        Err(EngineError::StreamNotFound(m)) => assert_eq!(m, "Spotify tracks are DRM protected. Stream must be resolved from YouTube/SoundCloud."),
        _ => panic!("expected refusal"),
    }
}
