use mm_dlp_core::platforms::{clean_id, Platform, PlatformRegistry};

fn extract(url: &str) -> (String, String, String) {
    let m = PlatformRegistry::new().extract(url).expect("recognized");
    (m.platform, m.media_type, m.media_id)
}

#[test]
fn readme_youtube_example() {
    let (p, t, id) = extract("https://www.youtube.com/watch?v=dQw4w9WgXcQ&feature=youtu.be");
    assert_eq!(p, "YouTube");
    assert_eq!(t, "Video");
    assert_eq!(id, "dQw4w9WgXcQ");
}

#[test]
fn readme_spotify_example() {
    let (p, t, id) = extract("https://open.spotify.com/track/4cOdK2wGLETKBW3PvgPWqT?si=123456");
    assert_eq!(p, "Spotify");
    assert_eq!(t, "Track");
    assert_eq!(id, "4cOdK2wGLETKBW3PvgPWqT");
}

#[test]
fn every_platform_is_recognized() {
    assert_eq!(extract("https://youtu.be/abc123?t=5"), ("YouTube".into(), "Video".into(), "abc123".into()));
    assert_eq!(extract("https://www.youtube.com/shorts/xyz/"), ("YouTube".into(), "Short".into(), "xyz".into()));
    assert_eq!(extract("https://x.com/user/status/123#frag"), ("Twitter".into(), "Post".into(), "123".into()));
    assert_eq!(extract("https://www.instagram.com/reel/RRR/?igsh=1"), ("Instagram".into(), "Reel".into(), "RRR".into()));
    assert_eq!(extract("https://www.instagram.com/tv/TTT"), ("Instagram".into(), "IGTV".into(), "TTT".into()));
    assert_eq!(extract("https://www.tiktok.com/@u/video/777?lang=en"), ("TikTok".into(), "Video".into(), "777".into()));
    assert_eq!(extract("https://www.reddit.com/r/rust/comments/abc/title/"), ("Reddit".into(), "Post".into(), "abc".into()));
    assert_eq!(extract("https://www.twitch.tv/videos/555"), ("Twitch".into(), "Video".into(), "555".into()));
    assert_eq!(extract("https://clips.twitch.tv/FunnyClip"), ("Twitch".into(), "Clip".into(), "FunnyClip".into()));
    assert_eq!(extract("https://www.twitch.tv/channel"), ("Twitch".into(), "Stream".into(), "channel".into()));
    assert_eq!(extract("https://open.spotify.com/episode/E1"), ("Spotify".into(), "Episode".into(), "E1".into()));
    assert_eq!(extract("https://vimeo.com/123456?share=copy"), ("Vimeo".into(), "Video".into(), "123456".into()));
    assert_eq!(extract("https://soundcloud.com/artist/song?in=x"), ("SoundCloud".into(), "Track".into(), "artist/song".into()));
}

#[test]
fn unknown_urls_are_refused_with_a_message() {
    let e = PlatformRegistry::new().extract("https://example.com/video/1").unwrap_err();
    assert_eq!(e, "No supported platform found for URL: https://example.com/video/1");
}

#[test]
fn empty_ids_are_not_matches() {
    assert!(PlatformRegistry::new().extract("https://vimeo.com/").is_err());
    assert!(PlatformRegistry::new().extract("https://vimeo.com/channels").is_err());
    assert!(PlatformRegistry::new().extract("https://soundcloud.com/artist").is_err());
}

#[test]
fn clean_id_strips_url_artifacts() {
    assert_eq!(clean_id("abc?x=1"), "abc");
    assert_eq!(clean_id("abc&x=1"), "abc");
    assert_eq!(clean_id("abc#t=1"), "abc");
    assert_eq!(clean_id("abc/"), "abc");
    assert_eq!(clean_id("abc"), "abc");
    assert_eq!(clean_id(""), "");
    let once = clean_id("id/rest?q#f");
    assert_eq!(clean_id(&once), once);
}

#[test]
fn single_platform_extractors() {
    assert!(Platform::YouTube.extract("https://vimeo.com/1").is_none());
    let m = Platform::Vimeo.extract("https://vimeo.com/42").unwrap();
    assert_eq!(m.media_id, "42");
}

#[test]
fn extracted_ids_carry_no_query_or_fragment() {
    let registry = PlatformRegistry::new();
    for url in [
        "https://www.youtube.com/watch?v=abc#t=3",
        "https://soundcloud.com/a/c&x=1?x#y",
        "https://www.twitch.tv/videos/9?t=1",
        "https://open.spotify.com/playlist/P#frag",
    ] {
        let m = registry.extract(url).unwrap();
        let id = m.media_id;
        assert!(!id.is_empty());
        assert!(!id.contains('?') && !id.contains('&') && !id.contains('#'), "{}", id);
        assert!(!id.ends_with('/'), "{}", id);
        if id.contains('/') {
            assert_eq!(m.platform, "SoundCloud");
            assert_eq!(id.matches('/').count(), 1);
        }
    }
}

#[test]
fn soundcloud_ids_drop_tracking_tags() {
    let registry = PlatformRegistry::new();
    let m = registry.extract("https://soundcloud.com/a/b&x=1").unwrap();
    assert_eq!(m.media_id, "a/b");
    let m = registry.extract("https://soundcloud.com/artist/track/?utm=1&si=2#c").unwrap();
    assert_eq!(m.media_id, "artist/track");
    assert!(registry.extract("https://soundcloud.com/a&b/c").is_err());
}
