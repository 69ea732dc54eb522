use mm_dlp_core::data::extractors::youtube::{CipherFailure, YouTubeMusicExtractor};
use mm_dlp_core::data::router::{stream_route, StreamRoute};
use mm_dlp_core::extractor::traits::AudioSource;
use mm_dlp_core::json::{parse_json, JsonValue};

fn doc(text: &str) -> JsonValue {
    parse_json(text).expect("valid JSON")
}

#[test]
fn search_page_data_and_tracks() {
    let ytm = YouTubeMusicExtractor::new();
    assert_eq!(ytm.search_url("a b"), "https://music.youtube.com/search?q=a b");
    let page = r#"<script>window["ytInitialData"] = {"contents":{"tabbedSearchResultsRenderer":{"tabs":[{"tabRenderer":{"content":{"sectionListRenderer":{"contents":[
        {"musicShelfRenderer":{"contents":[
            {"musicResponsiveListItemRenderer":{"playlistItemData":{"videoId":"V1"},"flexColumns":[
                {"musicResponsiveListItemFlexColumnRenderer":{"text":{"runs":[{"text":"Song"}]}}},
                {"musicResponsiveListItemFlexColumnRenderer":{"text":{"runs":[{"text":"Artist"}]}}}]}},
            {"other":{}}]}},
        {"itemSectionRenderer":{}}
    ]}}}}]}}};</script>"#.replace('\n', "");
    let data = ytm.search_data(&page).unwrap();
    assert!(ytm.search_data_is_complete(&data));
    let tracks = ytm.search_tracks(&data).unwrap();
    assert_eq!(tracks.len(), 1);
    assert_eq!(tracks[0].track_id, "V1");
    assert_eq!(tracks[0].title, "Song");
    assert_eq!(tracks[0].artist, "Artist");
    assert_eq!(tracks[0].source, AudioSource::YouTubeMusic);
}

#[test]
fn embedded_data_stays_on_one_line() {
    let ytm = YouTubeMusicExtractor::new();
    assert_eq!(ytm.player_response("var ytInitialPlayerResponse = {\"a\":\n1};").unwrap_err(), "Failed to find player response");
}

#[test]
fn search_page_errors() {
    let ytm = YouTubeMusicExtractor::new();
    assert_eq!(ytm.search_data("<html></html>").unwrap_err(), "Failed to find search results in YouTube Music response");
    assert!(!ytm.search_data_is_complete(&doc("{}")));
    let shelf_without_list = doc(r#"{"contents":{"tabbedSearchResultsRenderer":{"tabs":[{"tabRenderer":{"content":{"sectionListRenderer":{"contents":[{"musicShelfRenderer":{}}]}}}}]}}}"#);
    assert!(!ytm.search_data_is_complete(&shelf_without_list));
    assert_eq!(ytm.search_tracks(&shelf_without_list).unwrap_err(), "Search results not found in YouTube Music response");
    assert_eq!(ytm.search_tracks(&doc("{}")).unwrap_err(), "Search results not found in YouTube Music response");
}

#[test]
fn player_answer_and_best_audio() {
    let ytm = YouTubeMusicExtractor::new();
    assert_eq!(ytm.watch_url("V1"), "https://www.youtube.com/watch?v=V1");
    let page = r#"var ytInitialPlayerResponse = {"streamingData":{"adaptiveFormats":[
        {"mimeType":"audio/mp4","bitrate":10,"url":"x"},{"mimeType":"audio/webm","bitrate":10,"url":"y"}]},
        "videoDetails":{"title":"T","author":"A","lengthSeconds":"61","thumbnail":{"thumbnails":[{"url":"t1"},{"url":"t2"}]}}};"#.replace('\n', "");
    let player = ytm.player_response(&page).unwrap();
    let f = ytm.audio_format(&player).unwrap();
    assert_eq!(ytm.direct_url(f), "y");
    assert!(ytm.player_has_thumbnail(&player));
    let info = ytm.stream_info("V1", &player, f, "y".to_string()).unwrap();
    assert_eq!(info.stream_url, "y");
    assert_eq!(info.format, "audio/webm");
    assert_eq!(info.bitrate, 10);
    assert_eq!(info.duration_secs, 61);
    assert_eq!(info.metadata.title, "T");
    assert_eq!(info.metadata.artist, "A");
    assert_eq!(info.metadata.album_art_url.as_deref(), Some("t2"));
    assert_eq!(info.metadata.track_id, "V1");
}

#[test]
fn player_errors() {
    let ytm = YouTubeMusicExtractor::new();
    assert_eq!(ytm.player_response("nothing").unwrap_err(), "Failed to find player response");
    assert_eq!(ytm.audio_format(&doc("{}")).unwrap_err(), "No adaptive formats found");
    assert_eq!(ytm.audio_format(&doc(r#"{"streamingData":{"adaptiveFormats":[{"mimeType":"video/mp4"}]}}"#)).unwrap_err(), "No audio formats found");
    assert_eq!(ytm.signature_cipher(&doc("{}")).unwrap_err(), "Signature cipher not found");
    let player = doc(r#"{"videoDetails":{"lengthSeconds":"12x","thumbnail":{"thumbnails":[{"url":"t"}]}}}"#);
    let f = doc(r#"{"mimeType":"audio/mp4; codecs=x","bitrate":4294967297}"#);
    assert_eq!(ytm.stream_info("i", &player, &f, String::new()).unwrap_err(), "invalid digit found in string");
    let player = doc(r#"{"videoDetails":{"lengthSeconds":"","thumbnail":{"thumbnails":[{"url":"t"}]}}}"#);
    assert_eq!(ytm.stream_info("i", &player, &f, String::new()).unwrap_err(), "cannot parse integer from empty string");
    let player = doc(r#"{"videoDetails":{"thumbnail":{"thumbnails":[{"url":"t"}]}}}"#);
    let info = ytm.stream_info("i", &player, &f, String::new()).unwrap();
    assert_eq!(info.duration_secs, 0);
    assert_eq!(info.bitrate, 1);
    assert_eq!(info.format, "audio/mp4");
    let bare = doc(r#"{"videoDetails":{"lengthSeconds":"12x","thumbnail":{"thumbnails":[]}}}"#);
    assert!(!ytm.player_has_thumbnail(&bare));
    assert_eq!(ytm.stream_info("i", &bare, &f, String::new()).unwrap_err(), "No thumbnail found in player response");
    let no_url = doc(r#"{"videoDetails":{"thumbnail":{"thumbnails":[{"width":1}]}}}"#);
    assert_eq!(ytm.stream_info("i", &no_url, &f, String::new()).unwrap_err(), "No thumbnail found in player response");
}

#[test]
fn signature_cipher_parts() {
    let ytm = YouTubeMusicExtractor::new();
    let f = doc(r#"{"signatureCipher":"s=AB%3DC&sp=sig&url=https%3A%2F%2Fr.googlevideo.com%2Fv%3Fa%3D1&x=y"}"#);
    let cipher = ytm.signature_cipher(&f).unwrap();
    let parts = ytm.cipher_parts(&cipher).unwrap();
    assert_eq!(parts.s, "AB=C");
    assert_eq!(parts.sp, "sig");
    assert_eq!(parts.url, "https://r.googlevideo.com/v?a=1");
    assert_eq!(ytm.deciphered_url(&parts, "XYZ"), "https://r.googlevideo.com/v?a=1&sig=XYZ");
    assert_eq!(ytm.cipher_parts("s=1&broken").err(), Some(CipherFailure::MissingValue));
    assert_eq!(ytm.cipher_parts("").err(), Some(CipherFailure::MissingValue));
    assert!(matches!(ytm.cipher_parts("url=%FF&broken"), Err(CipherFailure::Decode(_))));
    assert_eq!(CipherFailure::MissingValue.message(), "Signature cipher parameter without a value");
    assert_eq!(CipherFailure::Decode("bad".to_string()).message(), "bad");
    assert_eq!(ytm.cipher_parts("sp=a&sp=b&other=1").unwrap().sp, "b");
}

#[test]
fn js_player_address() {
    let ytm = YouTubeMusicExtractor::new();
    assert_eq!(ytm.js_player_url(r#"{"jsUrl":"/s/player/abc/base.js","x":1}"#).unwrap(), "https://www.youtube.com/s/player/abc/base.js");
    assert_eq!(ytm.js_player_url("none").unwrap_err(), "Failed to find JS player URL");
}

#[test]
fn stream_routes() {
    assert_eq!(stream_route(AudioSource::YouTubeMusic), Ok(StreamRoute::YouTubeMusic));
    assert_eq!(stream_route(AudioSource::SoundCloud), Ok(StreamRoute::SoundCloud));
    assert_eq!(stream_route(AudioSource::Spotify), Err("Spotify streaming is not supported, metadata only.".to_string()));
}
