use mm_dlp_core::error::EngineError;
use mm_dlp_core::extractor::youtube::{best_audio_index, YouTubeExtractor};
use mm_dlp_core::json::{parse_json, JsonValue};

fn doc(text: &str) -> JsonValue {
    parse_json(text).expect("valid JSON")
}

#[test]
fn video_ids_from_links() {
    assert_eq!(YouTubeExtractor::extract_video_id("https://www.youtube.com/watch?v=abc&t=1").as_deref(), Some("abc"));
    assert_eq!(YouTubeExtractor::extract_video_id("https://youtu.be/xyz?si=2").as_deref(), Some("xyz"));
    assert_eq!(YouTubeExtractor::extract_video_id("https://example.com/"), None);
    assert_eq!(YouTubeExtractor::extract_video_id("v=").as_deref(), Some(""));
}

#[test]
fn invalid_link_is_refused() {
    let yt = YouTubeExtractor::new();
    match yt.metadata_video_id("https://example.com/x") {
        Err(EngineError::UnsupportedUrl(m)) => assert_eq!(m, "Invalid YouTube URL: https://example.com/x"),
        other => panic!("unexpected {:?}", other),
    }
    assert_eq!(yt.metadata_video_id("https://youtu.be/q1").unwrap(), "q1");
}

#[test]
fn metadata_from_player_answer() {
    let yt = YouTubeExtractor::new();
    let payload = doc(r#"{"videoDetails":{"title":"Song","author":"Band","lengthSeconds":"212",
        "thumbnail":{"thumbnails":[{"url":"small"},{"url":"large"}]}}}"#);
    let url = "https://youtu.be/id1";
    let m = yt.metadata_from_player(url, "id1".to_string(), &payload);
    assert_eq!(m.id, "id1");
    assert_eq!(m.title, "Song");
    assert_eq!(m.artist, "Band");
    assert_eq!(m.album, None);
    assert_eq!(m.duration_seconds, 212);
    assert_eq!(m.thumbnail_url.as_deref(), Some("large"));
    assert_eq!(m.webpage_url, "https://www.youtube.com/watch?v=https://youtu.be/id1");
}

#[test]
fn metadata_defaults_when_details_are_missing() {
    let yt = YouTubeExtractor::new();
    let m = yt.metadata_from_player("u", "i".to_string(), &doc(r#"{"videoDetails":{"lengthSeconds":"x1"}}"#));
    assert_eq!(m.title, "Unknown Title");
    assert_eq!(m.artist, "Unknown Artist");
    assert_eq!(m.duration_seconds, 0);
    assert_eq!(m.thumbnail_url, None);
}

#[test]
fn search_lists_videos_in_order() {
    let yt = YouTubeExtractor::new();
    let payload = doc(r#"{"contents":{"twoColumnSearchResultsRenderer":{"primaryContents":{"sectionListRenderer":{"contents":[
        {"itemSectionRenderer":{"contents":[
            {"videoRenderer":{"videoId":"A","title":{"runs":[{"text":"First"}]},"ownerText":{"runs":[{"text":"Me"}]}}},
            {"channelRenderer":{}},
            {"videoRenderer":{"videoId":"B"}}
        ]}},
        {"continuationItemRenderer":{}},
        {"itemSectionRenderer":{"contents":[{"videoRenderer":{"videoId":"C","title":{"runs":[{"text":"Third"}]}}}]}}
    ]}}}}}"#);
    let r = yt.search_results(&payload);
    assert_eq!(r.len(), 3);
    assert_eq!(r[0].id, "A");
    assert_eq!(r[0].title, "First");
    assert_eq!(r[0].artist, "Me");
    assert_eq!(r[0].webpage_url, "https://www.youtube.com/watch?v=A");
    assert_eq!(r[1].id, "B");
    assert_eq!(r[1].title, "Unknown Title");
    assert_eq!(r[1].artist, "Unknown Artist");
    assert_eq!(r[2].id, "C");
    assert_eq!(r[2].duration_seconds, 0);
    assert!(yt.search_results(&doc("{}")).is_empty());
}

#[test]
fn best_audio_is_last_of_highest_bitrate() {
    let formats = doc(r#"[
        {"mimeType":"video/mp4","bitrate":999999},
        {"mimeType":"audio/mp4","bitrate":128000,"url":"a"},
        {"mimeType":"audio/webm; codecs=opus","bitrate":160000,"url":"b"},
        {"mimeType":"audio/webm","bitrate":160000,"url":"c"},
        {"mimeType":"audio/mp4","bitrate":50000,"url":"d"}
    ]"#);
    match formats {
        JsonValue::Array(v) => assert_eq!(best_audio_index(&v), Some(3)),
        _ => panic!("array expected"),
    }
}

#[test]
fn stream_from_player_picks_best_audio() {
    let yt = YouTubeExtractor::new();
    let payload = doc(r#"{"streamingData":{"adaptiveFormats":[
        {"itag":137,"mimeType":"video/mp4","bitrate":5000000,"url":"v"},
        {"itag":140,"mimeType":"audio/mp4; codecs=\"mp4a.40.2\"","bitrate":130000,"url":"m4a-url","contentLength":"3456"},
        {"itag":251,"mimeType":"audio/webm; codecs=\"opus\"","bitrate":150000,"url":"webm-url","contentLength":"x"}
    ]}}"#);
    let c = yt.stream_from_player(&payload).unwrap();
    assert_eq!(c.format_id, "251");
    assert_eq!(c.url, "webm-url");
    assert_eq!(c.ext, "webm");
    assert_eq!(c.resolution, None);
    assert_eq!(c.filesize_bytes, None);
    assert_eq!(c.bitrate_bps, Some(150000));
}

#[test]
fn stream_from_player_m4a_and_size() {
    let yt = YouTubeExtractor::new();
    let payload = doc(r#"{"streamingData":{"adaptiveFormats":[
        {"mimeType":"audio/mp4","bitrate":1,"url":"u","contentLength":"+77"}]}}"#);
    let c = yt.stream_from_player(&payload).unwrap();
    assert_eq!(c.format_id, "0");
    assert_eq!(c.ext, "m4a");
    assert_eq!(c.filesize_bytes, Some(77));
}

#[test]
fn stream_errors() {
    let yt = YouTubeExtractor::new();
    let msg = |p: &str| match yt.stream_from_player(&doc(p)) {
        Err(EngineError::StreamNotFound(m)) => m,
        other => panic!("unexpected {:?}", other.map(|c| c.url)),
    };
    assert_eq!(msg("{}"), "No adaptive formats found");
    assert_eq!(msg(r#"{"streamingData":{"adaptiveFormats":[{"mimeType":"video/mp4"}]}}"#), "No audio formats available");
    assert_eq!(msg(r#"{"streamingData":{"adaptiveFormats":[{"mimeType":"audio/mp4","signatureCipher":"s=1"}]}}"#),
        "Audio stream URL missing in YouTube payload");
}
