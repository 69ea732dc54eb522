//! The static routing registry: extractors that recognise their links by a
//! regular expression, tried in order.
use vstd::prelude::*;
use crate::client::EngineError;
use crate::extractor::traits::{MediaFormat, MediaInfo};
use crate::pattern::{regex_compile_error, regex_first_match, group, pattern_error, first_match, group_text};
use crate::text::{opt_chars, join};

verus! {

/// The pattern of a YouTube watch or short link; group 1 is the video id.
pub open spec fn youtube_pattern() -> Seq<char> {
    "^(?:https?://)?(?:www\\.)?(?:youtube\\.com/watch\\?v=|youtu\\.be/)([a-zA-Z0-9_-]{11})"@
}

/// The pattern of a Vimeo link.
pub open spec fn vimeo_pattern() -> Seq<char> {
    "^(?:https?://)?(?:www\\.)?vimeo\\.com/(\\d+)"@
}

/// `url` matches `pattern` (never, when the pattern does not compile).
pub open spec fn matches_pattern(pattern: Seq<char>, url: Seq<char>) -> bool {
    regex_compile_error(pattern) is None && regex_first_match(pattern, url) is Some
}

/// The first match of `pattern` in `url`, when the pattern compiles.
fn match_of(pattern: &str, url: &str) -> (r: Option<Vec<Option<String>>>)
    ensures
        match r {
            Some(g) => regex_compile_error(pattern@) is None && regex_first_match(pattern@, url@)
                == Some(crate::pattern::groups_view(g@)),
            None => !matches_pattern(pattern@, url@),
        },
{
    match pattern_error(pattern) {
        Some(_) => None,
        None => first_match(pattern, url),
    }
}

/// The YouTube extractor of the registry.
pub struct YouTubeExtractor;

/// The Vimeo extractor of the registry.
pub struct VimeoExtractor;

impl YouTubeExtractor {
    /// The YouTube extractor.
    pub fn new() -> (r: Self) {
        YouTubeExtractor
    }

    /// Whether `url` is a YouTube link it handles.
    pub fn matches_url(&self, url: &str) -> (b: bool)
        ensures
            b == matches_pattern(youtube_pattern(), url@),
    {
        match_of("^(?:https?://)?(?:www\\.)?(?:youtube\\.com/watch\\?v=|youtu\\.be/)([a-zA-Z0-9_-]{11})", url).is_some()
    }

    /// The media a YouTube link stands for: a 1080p MP4 format of the video
    /// whose id the link carries.
    pub fn extract_metadata(&self, url: &str) -> (r: Result<MediaInfo, EngineError>)
        ensures
            match r {
                Ok(info) => matches_pattern(youtube_pattern(), url@) && {
                    let id = match regex_first_match(youtube_pattern(), url@) {
                        Some(g) => match group(g, 1) {
                            Some(s) => s,
                            None => Seq::empty(),
                        },
                        None => Seq::empty(),
                    };
                    &&& info.id@ == id
                    &&& info.title@ == "YouTube Video "@ + id
                    &&& opt_chars(info.description) == Some("Video description placeholder"@)
                    &&& opt_chars(info.uploader) == Some("YouTube Uploader"@)
                    &&& info.duration == Some(240u32)
                    &&& info.formats@.len() == 1
                    &&& info.formats@[0].format_id@ == "137"@
                    &&& info.formats@[0].url@ == "https://rr1.sn-ab5l.googlevideo.com/videoplayback?id="@
                        + id
                    &&& info.formats@[0].ext@ == "mp4"@
                    &&& info.formats@[0].width == Some(1920u32)
                    &&& info.formats@[0].height == Some(1080u32)
                    &&& opt_chars(info.formats@[0].vcodec) == Some("avc1.640028"@)
                    &&& opt_chars(info.formats@[0].acodec) == Some("mp4a.40.2"@)
                    &&& info.formats@[0].filesize == Some(15000000u64)
                },
                Err(e) => !matches_pattern(youtube_pattern(), url@) && (e matches EngineError::OsApiError(m)
                    && m@ == "Failed to extract YouTube Video ID from matching URL"@),
            },
    {
        match match_of("^(?:https?://)?(?:www\\.)?(?:youtube\\.com/watch\\?v=|youtu\\.be/)([a-zA-Z0-9_-]{11})", url) {
            None => Err(
                EngineError::OsApiError(
                    String::from_str("Failed to extract YouTube Video ID from matching URL"),
                ),
            ),
            Some(g) => {
                let id = match group_text(&g, 1) {
                    Some(s) => s,
                    None => String::new(),
                };
                let format = MediaFormat {
                    format_id: String::from_str("137"),
                    url: join("https://rr1.sn-ab5l.googlevideo.com/videoplayback?id=", id.as_str()),
                    ext: String::from_str("mp4"),
                    width: Some(1920),
                    height: Some(1080),
                    vcodec: Some(String::from_str("avc1.640028")),
                    acodec: Some(String::from_str("mp4a.40.2")),
                    filesize: Some(15000000),
                };
                let mut formats: Vec<MediaFormat> = Vec::new();
                formats.push(format);
                Ok(
                    MediaInfo {
                        title: join("YouTube Video ", id.as_str()),
                        id,
                        description: Some(String::from_str("Video description placeholder")),
                        uploader: Some(String::from_str("YouTube Uploader")),
                        duration: Some(240),
                        formats,
                    },
                )
            },
        }
    }
}

impl VimeoExtractor {
    /// The Vimeo extractor.
    pub fn new() -> (r: Self) {
        VimeoExtractor
    }

    /// Whether `url` is a Vimeo link it handles.
    pub fn matches_url(&self, url: &str) -> (b: bool)
        ensures
            b == matches_pattern(vimeo_pattern(), url@),
    {
        match_of("^(?:https?://)?(?:www\\.)?vimeo\\.com/(\\d+)", url).is_some()
    }

    /// Vimeo links are recognised but not yet extracted.
    pub fn extract_metadata(&self, url: &str) -> (r: Result<MediaInfo, EngineError>)
        ensures
            r matches Err(e) && e matches EngineError::OsApiError(m) && m@
                == "Vimeo extraction logic not yet hooked up to client"@,
    {
        Err(EngineError::OsApiError(String::from_str("Vimeo extraction logic not yet hooked up to client")))
    }
}

/// An extractor of the registry.
pub enum RegisteredExtractor {
    YouTube(YouTubeExtractor),
    Vimeo(VimeoExtractor),
}

/// The extractor the registry routes `url` to: the first, YouTube then
/// Vimeo, that handles it.
pub open spec fn route_spec(url: Seq<char>) -> Option<bool> {
    if matches_pattern(youtube_pattern(), url) {
        Some(true)
    } else if matches_pattern(vimeo_pattern(), url) {
        Some(false)
    } else {
        None
    }
}

/// The extractor that handles `url` (see [`route_spec`]; `Some(true)` is
/// the YouTube extractor, `Some(false)` the Vimeo one).
pub fn route_url(url: &str) -> (r: Option<RegisteredExtractor>)
    ensures
        match r {
            Some(RegisteredExtractor::YouTube(_)) => route_spec(url@) == Some(true),
            Some(RegisteredExtractor::Vimeo(_)) => route_spec(url@) == Some(false),
            None => route_spec(url@) is None,
        },
{
    let youtube = YouTubeExtractor::new();
    if youtube.matches_url(url) {
        return Some(RegisteredExtractor::YouTube(youtube));
    }
    let vimeo = VimeoExtractor::new();
    if vimeo.matches_url(url) {
        return Some(RegisteredExtractor::Vimeo(vimeo));
    }
    None
}

} // verus!
