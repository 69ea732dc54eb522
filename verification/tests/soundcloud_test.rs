use mm_dlp_core::data::extractors::soundcloud::SoundCloudExtractor as RouterSoundCloud;
use mm_dlp_core::error::EngineError;
use mm_dlp_core::extractor::soundcloud::SoundCloudExtractor;
use mm_dlp_core::extractor::traits::AudioSource;
use mm_dlp_core::json::{parse_json, JsonValue};

fn doc(text: &str) -> JsonValue {
    parse_json(text).expect("valid JSON")
}

#[test]
fn scripts_are_tried_last_first() {
    let sc = SoundCloudExtractor::new();
    let html = r#"<script src="https://a.sndcdn.com/1.js"></script><img src="x.png"><script src="https://a.sndcdn.com/2.js"></script>"#;
    assert_eq!(sc.scripts_to_try(html), vec!["https://a.sndcdn.com/2.js", "https://a.sndcdn.com/1.js"]);
    assert!(sc.scripts_to_try("<html></html>").is_empty());
}

#[test]
fn client_id_found_in_script() {
    let sc = SoundCloudExtractor::new();
    let js = r#"var a={client_id : "abcdefghijklmnopqrstuvwxyz012345",b:1}"#;
    assert_eq!(sc.client_id_in_script(js).as_deref(), Some("abcdefghijklmnopqrstuvwxyz012345"));
    assert_eq!(sc.client_id_in_script(r#"client_id:"short""#), None);
}

#[test]
fn client_id_is_remembered() {
    let mut sc = SoundCloudExtractor::default();
    assert_eq!(sc.cached_client_id(), None);
    sc.remember_client_id("cid".to_string());
    assert_eq!(sc.cached_client_id().as_deref(), Some("cid"));
    match sc.client_id_missing() {
        EngineError::Network(m) => assert_eq!(m, "Could not extract SoundCloud client_id"),
        _ => panic!("network error expected"),
    }
}

#[test]
fn api_addresses() {
    let sc = SoundCloudExtractor::new();
    assert_eq!(
        sc.resolve_url("https://soundcloud.com/a/b", "CID"),
        "https://api-v2.soundcloud.com/resolve?url=https%3A%2F%2Fsoundcloud.com%2Fa%2Fb&client_id=CID"
    );
    assert_eq!(
        sc.search_url("lo fi", "CID"),
        "https://api-v2.soundcloud.com/search/tracks?q=lo%20fi&client_id=CID&limit=5"
    );
    assert_eq!(sc.track_url("42", "CID"), "https://api-v2.soundcloud.com/tracks/42?client_id=CID");
}

#[test]
fn metadata_from_resolve_answer() {
    let sc = SoundCloudExtractor::new();
    let p = doc(r#"{"id":987,"title":"T","user":{"username":"U"},"duration":215999,"artwork_url":"art"}"#);
    let m = sc.metadata_from_resolve("https://soundcloud.com/u/t", &p);
    assert_eq!(m.id, "987");
    assert_eq!(m.title, "T");
    assert_eq!(m.artist, "U");
    assert_eq!(m.duration_seconds, 215);
    assert_eq!(m.thumbnail_url.as_deref(), Some("art"));
    assert_eq!(m.webpage_url, "https://soundcloud.com/u/t");
    let m = sc.metadata_from_resolve("w", &doc("{}"));
    assert_eq!((m.id.as_str(), m.title.as_str(), m.artist.as_str()), ("0", "Unknown Title", "Unknown Artist"));
}

#[test]
fn search_results_use_permalinks() {
    let sc = SoundCloudExtractor::new();
    let p = doc(r#"{"collection":[{"id":1,"title":"A","permalink_url":"p1"},{"id":2}]}"#);
    let r = sc.search_results(&p);
    assert_eq!(r.len(), 2);
    assert_eq!(r[0].webpage_url, "p1");
    assert_eq!(r[1].webpage_url, "");
    assert_eq!(r[1].id, "2");
    assert!(sc.search_results(&doc("[]")).is_empty());
}

#[test]
fn progressive_transcodings_in_order() {
    let sc = SoundCloudExtractor::new();
    let p = doc(r#"{"media":{"transcodings":[
        {"url":"h1","format":{"protocol":"hls"}},
        {"url":"p1","format":{"protocol":"progressive"}},
        {"format":{"protocol":"progressive"}}]}}"#);
    assert_eq!(sc.progressive_urls(&p, "C").unwrap(), vec!["p1?client_id=C", "?client_id=C"]);
    match sc.progressive_urls(&doc("{}"), "C") {
        Err(EngineError::StreamNotFound(m)) => assert_eq!(m, "No transcodings found"),
        _ => panic!("expected refusal"),
    }
}

#[test]
fn progressive_stream_candidate() {
    let sc = SoundCloudExtractor::new();
    let c = sc.stream_from_progressive(&doc(r#"{"url":"https://cf/x.mp3"}"#)).unwrap();
    assert_eq!(c.format_id, "soundcloud_mp3");
    assert_eq!(c.url, "https://cf/x.mp3");
    assert_eq!(c.ext, "mp3");
    assert_eq!(c.bitrate_bps, Some(128000));
    assert!(sc.stream_from_progressive(&doc("{}")).is_none());
    match sc.no_progressive_stream() {
        EngineError::StreamNotFound(m) => assert_eq!(m, "No progressive MP3 stream candidate found"),
        _ => panic!(),
    }
}

#[test]
fn router_soundcloud_client_id() {
    let html = r#"<script crossorigin src="https://a-v2.sndcdn.com/assets/0-abc.js"></script>"#;
    assert_eq!(RouterSoundCloud::script_urls(html).unwrap(), vec!["https://a-v2.sndcdn.com/assets/0-abc.js"]);
    assert_eq!(RouterSoundCloud::client_id_in(r#"x,client_id:"AbC123",y"#).unwrap().as_deref(), Some("AbC123"));
    assert_eq!(RouterSoundCloud::client_id_in("nothing").unwrap(), None);
    assert_eq!(RouterSoundCloud::client_id_missing(), "Failed to fetch SoundCloud client_id");
}

#[test]
fn router_soundcloud_search_and_stream() {
    let sc = RouterSoundCloud::with_client_id("K".to_string());
    assert_eq!(sc.search_url("a b"), "https://api-v2.soundcloud.com/search/tracks?q=a b&client_id=K");
    assert_eq!(sc.track_url("5"), "https://api-v2.soundcloud.com/tracks/5?client_id=K");
    assert_eq!(sc.client_id(), "K");
    let tracks = RouterSoundCloud::search_tracks(&doc(r#"{"collection":[{"id":5,"title":"T","user":{"username":"U"},"artwork_url":"a"}]}"#));
    assert_eq!(tracks.len(), 1);
    assert_eq!(tracks[0].track_id, "5");
    assert_eq!(tracks[0].title, "T");
    assert_eq!(tracks[0].artist, "U");
    assert_eq!(tracks[0].album_art_url.as_deref(), Some("a"));
    assert_eq!(tracks[0].source, AudioSource::SoundCloud);

    let track = doc(r#"{"title":"T","duration":61000,"media":{"transcodings":[
        {"url":"h","format":{"protocol":"hls"}},{"url":"p","format":{"protocol":"progressive"}},{"url":"q","format":{"protocol":"progressive"}}]}}"#);
    assert_eq!(RouterSoundCloud::progressive_media_url(&track).unwrap(), "p");
    assert_eq!(RouterSoundCloud::progressive_media_url(&doc("{}")).unwrap_err(), "No progressive stream found");
    let info = RouterSoundCloud::stream_info("5", &track, &doc(r#"{"url":"s"}"#)).unwrap();
    assert_eq!(info.stream_url, "s");
    assert_eq!(info.format, "mp3");
    assert_eq!(info.bitrate, 128);
    assert_eq!(info.duration_secs, 61);
    assert_eq!(info.metadata.track_id, "5");
    assert_eq!(RouterSoundCloud::stream_info("5", &track, &doc("{}")).unwrap_err(), "No stream URL in response");
}
