//! YouTube: video ids from watch links, and what the InnerTube `player` and
//! `search` endpoints answer.
//!
//! The requests themselves are made by the caller; the functions here decide
//! what to ask for and what the answers mean.
use vstd::prelude::*;
use crate::config::{MediaMetadata, MediaMetadataView, StreamCandidate, StreamCandidateView, metadata_views};
use crate::error::{EngineError, EngineErrorView, result_view};
use crate::json::{
    JsonValue, field, element, text, text_or, unsigned, unsigned_or_zero, items, is_object,
    deref, get, at, as_str, str_or, as_u64, u64_or_zero, as_array, is_obj, parse_u64,
    parse_u64_spec, decimal, u64_to_string,
};
use crate::text::{
    after_first, before_char, starts_with_spec, contains_spec, opt_chars, chars_of, after, before,
    string_of, begins_with, has, join,
};

verus! {

/// The address of a watch page, before the video id.
pub open spec fn watch_prefix() -> Seq<char> {
    "https://www.youtube.com/watch?v="@
}

/// The video id of a YouTube link: what follows the first `v=` up to the
/// next `&`, else what follows the first `youtu.be/` up to the next `?`.
pub open spec fn video_id_spec(url: Seq<char>) -> Option<Seq<char>> {
    match after_first(url, "v="@) {
        Some(rest) => Some(before_char(rest, '&')),
        None => match after_first(url, "youtu.be/"@) {
            Some(rest) => Some(before_char(rest, '?')),
            None => None,
        },
    }
}

/// `payload["videoDetails"]`.
pub open spec fn video_details(payload: JsonValue) -> Option<JsonValue> {
    field(Some(payload), "videoDetails"@)
}

/// The length of a video in seconds: `lengthSeconds` parsed as a number, or 0.
pub open spec fn length_seconds(details: Option<JsonValue>) -> u64 {
    match text(field(details, "lengthSeconds"@)) {
        Some(s) => match parse_u64_spec(s) {
            Some(n) => n,
            None => 0,
        },
        None => 0,
    }
}

/// The `url` of the last entry of `thumbnail.thumbnails`.
pub open spec fn last_thumbnail(details: Option<JsonValue>) -> Option<Seq<char>> {
    match items(field(field(details, "thumbnail"@), "thumbnails"@)) {
        Some(thumbs) => if thumbs.len() > 0 {
            text(field(Some(thumbs.last()), "url"@))
        } else {
            None
        },
        None => None,
    }
}

/// The metadata a `player` answer gives for the link `url` with video id `id`.
/// The page address is the watch prefix followed by the whole link.
pub open spec fn player_metadata_spec(url: Seq<char>, id: Seq<char>, payload: JsonValue) -> MediaMetadataView {
    let details = video_details(payload);
    MediaMetadataView {
        id,
        title: text_or(field(details, "title"@), "Unknown Title"@),
        artist: text_or(field(details, "author"@), "Unknown Artist"@),
        album: None,
        duration_seconds: length_seconds(details),
        thumbnail_url: last_thumbnail(details),
        webpage_url: watch_prefix() + url,
    }
}

/// The text of the first run of `v[key]["runs"]`.
pub open spec fn first_run(v: Option<JsonValue>, key: Seq<char>) -> Option<JsonValue> {
    field(element(field(field(v, key), "runs"@), 0), "text"@)
}

/// The result a search `contents` item stands for, when it is a video.
pub open spec fn video_hit(item: JsonValue) -> Option<MediaMetadataView> {
    let render = field(Some(item), "videoRenderer"@);
    if is_object(render) {
        let id = text_or(field(render, "videoId"@), ""@);
        Some(
            MediaMetadataView {
                id,
                title: text_or(first_run(render, "title"@), "Unknown Title"@),
                artist: text_or(first_run(render, "ownerText"@), "Unknown Artist"@),
                album: None,
                duration_seconds: 0,
                thumbnail_url: None,
                webpage_url: watch_prefix() + id,
            },
        )
    } else {
        None
    }
}

/// The videos among `items`, in order.
pub open spec fn item_hits(items: Seq<JsonValue>) -> Seq<MediaMetadataView>
    decreases items.len(),
{
    if items.len() == 0 {
        Seq::empty()
    } else {
        item_hits(items.drop_last()) + match video_hit(items.last()) {
            Some(h) => seq![h],
            None => Seq::empty(),
        }
    }
}

/// The videos of one section of the results.
pub open spec fn section_hits(section: JsonValue) -> Seq<MediaMetadataView> {
    match items(field(field(Some(section), "itemSectionRenderer"@), "contents"@)) {
        Some(list) => item_hits(list),
        None => Seq::empty(),
    }
}

/// The videos of all `sections`, section after section.
pub open spec fn sections_hits(sections: Seq<JsonValue>) -> Seq<MediaMetadataView>
    decreases sections.len(),
{
    if sections.len() == 0 {
        Seq::empty()
    } else {
        sections_hits(sections.drop_last()) + section_hits(sections.last())
    }
}

/// The videos among a run of items are those of its first part, then those
/// of the rest: no item's video is dropped or moved.
pub proof fn law_item_hits_append(a: Seq<JsonValue>, b: Seq<JsonValue>)
    ensures
        item_hits(a + b) == item_hits(a) + item_hits(b),
    decreases b.len(),
{
    if b.len() == 0 {
        assert(a + b =~= a);
        assert(item_hits(a) + item_hits(b) =~= item_hits(a));
    } else {
        law_item_hits_append(a, b.drop_last());
        assert((a + b).drop_last() =~= a + b.drop_last());
        assert((a + b).last() == b.last());
    }
}

/// One item gives its video when it is one, and nothing else.
pub proof fn law_item_hits_single(item: JsonValue)
    ensures
        item_hits(seq![item]) == match video_hit(item) {
            Some(h) => seq![h],
            None => Seq::<MediaMetadataView>::empty(),
        },
{
    let one = seq![item];
    assert(one.drop_last() =~= Seq::<JsonValue>::empty());
    assert(one.last() == item);
    assert(item_hits(Seq::<JsonValue>::empty()) == Seq::<MediaMetadataView>::empty());
    match video_hit(item) {
        Some(h) => {
            assert(Seq::<MediaMetadataView>::empty() + seq![h] =~= seq![h]);
        },
        None => {
            assert(Seq::<MediaMetadataView>::empty() + Seq::<MediaMetadataView>::empty()
                =~= Seq::<MediaMetadataView>::empty());
        },
    }
}

/// The videos of a run of sections are those of its first part, then those
/// of the rest: every section contributes, in order.
pub proof fn law_sections_hits_append(a: Seq<JsonValue>, b: Seq<JsonValue>)
    ensures
        sections_hits(a + b) == sections_hits(a) + sections_hits(b),
    decreases b.len(),
{
    if b.len() == 0 {
        assert(a + b =~= a);
        assert(sections_hits(a) + sections_hits(b) =~= sections_hits(a));
    } else {
        law_sections_hits_append(a, b.drop_last());
        assert((a + b).drop_last() =~= a + b.drop_last());
        assert((a + b).last() == b.last());
    }
}

/// One section gives the videos of its item list, and nothing when it has
/// none.
pub proof fn law_sections_hits_single(section: JsonValue)
    ensures
        sections_hits(seq![section]) == match items(
            field(field(Some(section), "itemSectionRenderer"@), "contents"@),
        ) {
            Some(list) => item_hits(list),
            None => Seq::<MediaMetadataView>::empty(),
        },
{
    let one = seq![section];
    assert(one.drop_last() =~= Seq::<JsonValue>::empty());
    assert(one.last() == section);
    assert(sections_hits(Seq::<JsonValue>::empty()) == Seq::<MediaMetadataView>::empty());
    assert(Seq::<MediaMetadataView>::empty() + section_hits(section) =~= section_hits(section));
}

/// The sections of a `search` answer.
pub open spec fn result_sections(payload: JsonValue) -> Option<Seq<JsonValue>> {
    items(
        field(
            field(
                field(
                    field(field(Some(payload), "contents"@), "twoColumnSearchResultsRenderer"@),
                    "primaryContents"@,
                ),
                "sectionListRenderer"@,
            ),
            "contents"@,
        ),
    )
}

/// The videos a `search` answer lists.
pub open spec fn search_hits(payload: JsonValue) -> Seq<MediaMetadataView> {
    match result_sections(payload) {
        Some(sections) => sections_hits(sections),
        None => Seq::empty(),
    }
}

/// The videos a search lists are those of all its result sections, section
/// after section; an answer without result sections lists none.
pub proof fn law_search_hits_all_sections(payload: JsonValue)
    ensures
        result_sections(payload) matches Some(sections) ==> search_hits(payload) == sections_hits(sections),
        result_sections(payload) is None ==> search_hits(payload) == Seq::<MediaMetadataView>::empty(),
{
}

/// The MIME type of a format, or the empty text.
pub open spec fn mime_type(f: JsonValue) -> Seq<char> {
    text_or(field(Some(f), "mimeType"@), ""@)
}

/// An audio-only format.
pub open spec fn is_audio(f: JsonValue) -> bool {
    starts_with_spec(mime_type(f), "audio/"@)
}

/// The bit rate a format is ranked by (0 when it has none).
pub open spec fn bitrate_key(f: JsonValue) -> u64 {
    unsigned_or_zero(field(Some(f), "bitrate"@))
}

/// Among the first `n` formats, `formats[i]` is the audio format that ranking
/// the audio formats by bit rate, keeping the original order among equal
/// rates, puts last: no audio format has a higher rate, and none after it
/// has the same.
pub open spec fn best_among(formats: Seq<JsonValue>, n: int, i: int) -> bool {
    &&& 0 <= i < n <= formats.len()
    &&& is_audio(formats[i])
    &&& forall|j: int|
        0 <= j < n && #[trigger] is_audio(formats[j]) ==> bitrate_key(formats[j]) <= bitrate_key(
            formats[i],
        ) && (j > i ==> bitrate_key(formats[j]) < bitrate_key(formats[i]))
}

/// `formats[i]` is the best audio format of all `formats` (see [`best_among`]).
pub open spec fn is_best_audio(formats: Seq<JsonValue>, i: int) -> bool {
    best_among(formats, formats.len() as int, i)
}

/// The position of the best audio format, if there is an audio format.
pub open spec fn best_audio(formats: Seq<JsonValue>) -> Option<int> {
    if exists|i: int| is_best_audio(formats, i) {
        Some(choose|i: int| is_best_audio(formats, i))
    } else {
        None
    }
}

/// There is an audio format among `formats`.
pub open spec fn has_audio(formats: Seq<JsonValue>) -> bool {
    exists|i: int| 0 <= i < formats.len() && is_audio(#[trigger] formats[i])
}

/// The stream a chosen format offers, when it carries its address.
pub open spec fn format_stream(f: JsonValue) -> Option<StreamCandidateView> {
    match text(field(Some(f), "url"@)) {
        Some(url) => Some(
            StreamCandidateView {
                format_id: decimal(unsigned_or_zero(field(Some(f), "itag"@)) as nat),
                url,
                ext: if contains_spec(mime_type(f), "webm"@) {
                    "webm"@
                } else {
                    "m4a"@
                },
                resolution: None,
                filesize_bytes: match text(field(Some(f), "contentLength"@)) {
                    Some(s) => parse_u64_spec(s),
                    None => None,
                },
                bitrate_bps: unsigned(field(Some(f), "bitrate"@)),
            },
        ),
        None => None,
    }
}

/// `payload["streamingData"]["adaptiveFormats"]`.
pub open spec fn adaptive_formats(payload: JsonValue) -> Option<Seq<JsonValue>> {
    items(field(field(Some(payload), "streamingData"@), "adaptiveFormats"@))
}

/// What a `player` answer offers to stream: the best audio format, or why
/// there is none.
pub open spec fn player_stream_spec(payload: JsonValue) -> Result<StreamCandidateView, EngineErrorView> {
    match adaptive_formats(payload) {
        None => Err(EngineErrorView::StreamNotFound("No adaptive formats found"@)),
        Some(formats) => match best_audio(formats) {
            None => Err(
                EngineErrorView::StreamNotFound("No audio formats available"@),
            ),
            Some(i) => match format_stream(formats[i]) {
                Some(c) => Ok(c),
                None => Err(
                    EngineErrorView::StreamNotFound("Audio stream URL missing in YouTube payload"@),
                ),
            },
        },
    }
}

/// At most one format is the best audio format.
proof fn lemma_best_unique(formats: Seq<JsonValue>, n: int, i: int, k: int)
    requires
        best_among(formats, n, i),
        best_among(formats, n, k),
    ensures
        i == k,
{
    assert(is_audio(formats[i]) && is_audio(formats[k]));
}

/// When some of the first `n` formats is audio, one of them is the best.
proof fn lemma_best_exists(formats: Seq<JsonValue>, n: int, w: int)
    requires
        0 <= w < n <= formats.len(),
        is_audio(formats[w]),
    ensures
        exists|b: int| best_among(formats, n, b),
    decreases n,
{
    let last = n - 1;
    if w == last && !(exists|j: int| 0 <= j < last && is_audio(#[trigger] formats[j])) {
        assert(best_among(formats, n, last));
    } else {
        let v = if w < last {
            w
        } else {
            choose|j: int| 0 <= j < last && is_audio(#[trigger] formats[j])
        };
        lemma_best_exists(formats, last, v);
        let b = choose|b: int| best_among(formats, last, b);
        if is_audio(formats[last]) && bitrate_key(formats[last]) >= bitrate_key(formats[b]) {
            assert(best_among(formats, n, last));
        } else {
            assert(best_among(formats, n, b));
        }
    }
}

/// The best audio format is found exactly when there is an audio format,
/// and it is an audio format whose bit rate no other audio format exceeds.
pub proof fn law_best_audio(formats: Seq<JsonValue>)
    ensures
        has_audio(formats) <==> best_audio(formats) is Some,
        best_audio(formats) matches Some(i) ==> 0 <= i < formats.len() && is_audio(formats[i])
            && forall|j: int|
            0 <= j < formats.len() && #[trigger] is_audio(formats[j]) ==> bitrate_key(formats[j])
                <= bitrate_key(formats[i]),
{
    if has_audio(formats) {
        let w = choose|j: int| 0 <= j < formats.len() && is_audio(#[trigger] formats[j]);
        lemma_best_exists(formats, formats.len() as int, w);
        let b = choose|b: int| best_among(formats, formats.len() as int, b);
        assert(is_best_audio(formats, b));
    }
    if best_audio(formats) is Some {
        let i = best_audio(formats)->0;
        assert(is_best_audio(formats, i));
        assert(is_audio(formats[i]));
    }
}

/// An extractor for YouTube videos.
pub struct YouTubeExtractor;

/// Whether a format is audio-only.
fn is_audio_format(f: &JsonValue) -> (b: bool)
    ensures
        b == is_audio(*f),
{
    let mime = str_or(get(Some(f), "mimeType"), "");
    let m = chars_of(mime.as_str());
    begins_with(m.as_slice(), "audio/")
}

/// The bit rate a format is ranked by.
fn bitrate_of(f: &JsonValue) -> (n: u64)
    ensures
        n == bitrate_key(*f),
{
    u64_or_zero(get(Some(f), "bitrate"))
}

/// `text` parsed as an unsigned number.
fn parse_text(text: &str) -> (r: Option<u64>)
    ensures
        r == parse_u64_spec(text@),
{
    let c = chars_of(text);
    parse_u64(c.as_slice())
}

/// The length of a video in seconds (see [`length_seconds`]).
fn length_of(details: Option<&JsonValue>) -> (n: u64)
    ensures
        n == length_seconds(deref(details)),
{
    match as_str(get(details, "lengthSeconds")) {
        Some(s) => match parse_text(s) {
            Some(n) => n,
            None => 0,
        },
        None => 0,
    }
}

/// The address of the last thumbnail (see [`last_thumbnail`]).
fn last_thumbnail_of(details: Option<&JsonValue>) -> (r: Option<String>)
    ensures
        opt_chars(r) == last_thumbnail(deref(details)),
{
    match as_array(get(get(details, "thumbnail"), "thumbnails")) {
        Some(thumbs) => {
            if thumbs.len() > 0 {
                let last = &thumbs[thumbs.len() - 1];
                match as_str(get(Some(last), "url")) {
                    Some(u) => Some(String::from_str(u)),
                    None => None,
                }
            } else {
                None
            }
        },
        None => None,
    }
}

/// The text of the first run of `v[key]["runs"]` (see [`first_run`]).
fn first_run_of<'a>(v: Option<&'a JsonValue>, key: &str) -> (r: Option<&'a JsonValue>)
    ensures
        deref(r) == first_run(deref(v), key@),
{
    get(at(get(get(v, key), "runs"), 0), "text")
}

/// The watch page of video `id`.
fn watch_page(id: &str) -> (r: String)
    ensures
        r@ == watch_prefix() + id@,
{
    join("https://www.youtube.com/watch?v=", id)
}

/// The result a search item stands for (see [`video_hit`]).
fn video_hit_of(item: &JsonValue) -> (r: Option<MediaMetadata>)
    ensures
        match r {
            Some(m) => video_hit(*item) == Some(m@),
            None => video_hit(*item) is None,
        },
{
    let render = get(Some(item), "videoRenderer");
    if is_obj(render) {
        let id = str_or(get(render, "videoId"), "");
        let title = str_or(first_run_of(render, "title"), "Unknown Title");
        let artist = str_or(first_run_of(render, "ownerText"), "Unknown Artist");
        let webpage_url = watch_page(id.as_str());
        Some(
            MediaMetadata {
                id,
                title,
                artist,
                album: None,
                duration_seconds: 0,
                thumbnail_url: None,
                webpage_url,
            },
        )
    } else {
        None
    }
}

/// Appends the videos of one results section.
fn push_section_hits(section: &JsonValue, results: &mut Vec<MediaMetadata>)
    ensures
        metadata_views(final(results)@) == metadata_views(old(results)@) + section_hits(*section),
{
    let ghost start = results@;
    match as_array(get(get(Some(section), "itemSectionRenderer"), "contents")) {
        Some(list) => {
            let mut j: usize = 0;
            while j < list.len()
                invariant
                    j <= list@.len(),
                    metadata_views(results@) == metadata_views(start) + item_hits(list@.take(j as int)),
                decreases list.len() - j,
            {
                let ghost prev = results@;
                assert(list@.take(j + 1).drop_last() =~= list@.take(j as int));
                assert(list@.take(j + 1).last() == list@[j as int]);
                match video_hit_of(&list[j]) {
                    Some(m) => {
                        results.push(m);
                        assert(metadata_views(results@) =~= metadata_views(prev).push(m@));
                    },
                    None => {},
                }
                j = j + 1;
            }
            assert(list@.take(list.len() as int) =~= list@);
        },
        None => {
            assert(metadata_views(start) + Seq::<MediaMetadataView>::empty() =~= metadata_views(start));
        },
    }
}

impl YouTubeExtractor {
    /// A YouTube extractor.
    pub fn new() -> (r: Self) {
        YouTubeExtractor
    }

    /// The video id of a YouTube link (see [`video_id_spec`]).
    pub fn extract_video_id(url: &str) -> (r: Option<String>)
        ensures
            opt_chars(r) == video_id_spec(url@),
    {
        let u = chars_of(url);
        match after(u.as_slice(), "v=") {
            Some(rest) => {
                let id = before(rest.as_slice(), '&');
                Some(string_of(id.as_slice()))
            },
            None => match after(u.as_slice(), "youtu.be/") {
                Some(rest) => {
                    let id = before(rest.as_slice(), '?');
                    Some(string_of(id.as_slice()))
                },
                None => None,
            },
        }
    }

    /// The video id whose `player` answer gives the metadata of `url`; a link
    /// without one is refused as an invalid YouTube URL.
    pub fn metadata_video_id(&self, url: &str) -> (r: Result<String, EngineError>)
        ensures
            match video_id_spec(url@) {
                Some(id) => r matches Ok(s) && s@ == id,
                None => r matches Err(e) && e@ == EngineErrorView::UnsupportedUrl(
                    "Invalid YouTube URL: "@ + url@,
                ),
            },
    {
        match Self::extract_video_id(url) {
            Some(id) => Ok(id),
            None => Err(EngineError::UnsupportedUrl(join("Invalid YouTube URL: ", url))),
        }
    }

    /// The metadata a `player` answer gives for `url` (see
    /// [`player_metadata_spec`]).
    pub fn metadata_from_player(&self, url: &str, video_id: String, payload: &JsonValue) -> (r:
        MediaMetadata)
        ensures
            r@ == player_metadata_spec(url@, video_id@, *payload),
    {
        let details = get(Some(payload), "videoDetails");
        let title = str_or(get(details, "title"), "Unknown Title");
        let artist = str_or(get(details, "author"), "Unknown Artist");
        let duration_seconds = length_of(details);
        let thumbnail_url = last_thumbnail_of(details);
        let webpage_url = watch_page(url);
        MediaMetadata {
            id: video_id,
            title,
            artist,
            album: None,
            duration_seconds,
            thumbnail_url,
            webpage_url,
        }
    }

    /// The videos a `search` answer lists (see [`search_hits`]).
    pub fn search_results(&self, payload: &JsonValue) -> (r: Vec<MediaMetadata>)
        ensures
            metadata_views(r@) == search_hits(*payload),
    {
        let mut results: Vec<MediaMetadata> = Vec::new();
        let sections = as_array(
            get(
                get(
                    get(get(get(Some(payload), "contents"), "twoColumnSearchResultsRenderer"), "primaryContents"),
                    "sectionListRenderer",
                ),
                "contents",
            ),
        );
        match sections {
            Some(secs) => {
                let mut i: usize = 0;
                assert(metadata_views(results@) =~= Seq::<MediaMetadataView>::empty());
                while i < secs.len()
                    invariant
                        i <= secs@.len(),
                        metadata_views(results@) == sections_hits(secs@.take(i as int)),
                    decreases secs.len() - i,
                {
                    assert(secs@.take(i + 1).drop_last() =~= secs@.take(i as int));
                    assert(secs@.take(i + 1).last() == secs@[i as int]);
                    push_section_hits(&secs[i], &mut results);
                    i = i + 1;
                }
                assert(secs@.take(secs.len() as int) =~= secs@);
            },
            None => {
                assert(metadata_views(results@) =~= Seq::<MediaMetadataView>::empty());
            },
        }
        results
    }

    /// The best audio stream a `player` answer offers (see
    /// [`player_stream_spec`]).
    pub fn stream_from_player(&self, payload: &JsonValue) -> (r: Result<StreamCandidate, EngineError>)
        ensures
            result_view(r) == player_stream_spec(*payload),
    {
        let formats = match as_array(get(get(Some(payload), "streamingData"), "adaptiveFormats")) {
            Some(f) => f,
            None => {
                return Err(EngineError::StreamNotFound(String::from_str("No adaptive formats found")));
            },
        };
        match best_audio_index(formats) {
            None => Err(EngineError::StreamNotFound(String::from_str("No audio formats available"))),
            Some(i) => match format_stream_of(&formats[i]) {
                Some(c) => Ok(c),
                None => Err(
                    EngineError::StreamNotFound(
                        String::from_str("Audio stream URL missing in YouTube payload"),
                    ),
                ),
            },
        }
    }
}

impl Default for YouTubeExtractor {
    fn default() -> (r: Self)
        ensures
            r == YouTubeExtractor,
    {
        YouTubeExtractor::new()
    }
}

/// The position of the best audio format (see [`best_audio`]).
pub fn best_audio_index(formats: &Vec<JsonValue>) -> (r: Option<usize>)
    ensures
        match r {
            Some(i) => best_audio(formats@) == Some(i as int),
            None => best_audio(formats@) is None,
        },
{
    let mut best: Option<usize> = None;
    let mut best_key: u64 = 0;
    let mut i: usize = 0;
    while i < formats.len()
        invariant
            i <= formats@.len(),
            match best {
                Some(b) => best_among(formats@, i as int, b as int) && best_key == bitrate_key(
                    formats@[b as int],
                ),
                None => forall|j: int| 0 <= j < i ==> !is_audio(#[trigger] formats@[j]),
            },
        decreases formats.len() - i,
    {
        if is_audio_format(&formats[i]) {
            let key = bitrate_of(&formats[i]);
            match best {
                None => {
                    best = Some(i);
                    best_key = key;
                    assert(best_among(formats@, i + 1, i as int));
                },
                Some(b) => {
                    if key >= best_key {
                        best = Some(i);
                        best_key = key;
                        assert(best_among(formats@, i + 1, i as int));
                    } else {
                        assert(best_among(formats@, i + 1, b as int));
                    }
                },
            }
        } else {
            match best {
                Some(b) => {
                    assert(best_among(formats@, i + 1, b as int));
                },
                None => {},
            }
        }
        i = i + 1;
    }
    proof {
        match best {
            Some(b) => {
                assert(is_best_audio(formats@, b as int));
                let c = choose|c: int| is_best_audio(formats@, c);
                lemma_best_unique(formats@, formats@.len() as int, b as int, c);
            },
            None => {
                assert(!exists|c: int| is_best_audio(formats@, c));
            },
        }
    }
    best
}

/// The stream a format offers (see [`format_stream`]).
fn format_stream_of(f: &JsonValue) -> (r: Option<StreamCandidate>)
    ensures
        match r {
            Some(c) => format_stream(*f) == Some(c@),
            None => format_stream(*f) is None,
        },
{
    match as_str(get(Some(f), "url")) {
        Some(u) => {
            let format_id = u64_to_string(u64_or_zero(get(Some(f), "itag")));
            let mime = str_or(get(Some(f), "mimeType"), "");
            let m = chars_of(mime.as_str());
            let ext = if has(m.as_slice(), "webm") {
                String::from_str("webm")
            } else {
                String::from_str("m4a")
            };
            let filesize_bytes = match as_str(get(Some(f), "contentLength")) {
                Some(s) => parse_text(s),
                None => None,
            };
            Some(
                StreamCandidate {
                    format_id,
                    url: String::from_str(u),
                    ext,
                    resolution: None,
                    filesize_bytes,
                    bitrate_bps: as_u64(get(Some(f), "bitrate")),
                },
            )
        },
        None => None,
    }
}

} // verus!
