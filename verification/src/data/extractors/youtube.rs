//! YouTube Music for the stream router: search results from the page's
//! `ytInitialData`, and audio streams from `ytInitialPlayerResponse`,
//! including the `signatureCipher` of protected streams.
use vstd::prelude::*;
use crate::extractor::youtube::{adaptive_formats, best_audio, best_audio_index, mime_type, bitrate_key};
use crate::extractor::traits::{
    AudioSource, TrackMetadata, TrackMetadataView, StreamInfo, StreamInfoView, track_views,
};
use crate::encoding::{url_decode_result, url_decode};
use crate::json::{
    JsonValue, field, element, text, text_or, items, deref, get, at, as_str,
    str_or, as_array, u64_or_zero, json_parsed, parse_json_result, parse_u64_result,
    parse_u64_checked,
};
use crate::pattern::{regex_compile_error, regex_first_match, group, pattern_error, first_match, group_text};
use crate::text::{
    before_char, contains_spec, find_spec, split_spec, pieces_view, chars_of, before,
    find_char, slice_of, string_of, split_char, join,
};

verus! {

/// The pattern of the search data in a results page.
pub open spec fn search_data_pattern() -> Seq<char> {
    "window\\[\"ytInitialData\"\\] = (\\{.*?\\});"@
}

/// The pattern of the player answer in a watch page.
pub open spec fn player_pattern() -> Seq<char> {
    "var ytInitialPlayerResponse = (\\{.*?\\});"@
}

/// The pattern of the player script's address in a watch page.
pub open spec fn js_url_pattern() -> Seq<char> {
    "\"jsUrl\":\"(/s/player/[^\"]+)\""@
}

/// The JSON document that group 1 of the first match of `pattern` holds:
/// the error of the pattern, `missing` when nothing matches (or the group
/// took no part, which these patterns cannot produce), or the parse error.
pub open spec fn embedded_json(pattern: Seq<char>, page: Seq<char>, missing: Seq<char>) -> Result<
    JsonValue,
    Seq<char>,
> {
    match regex_compile_error(pattern) {
        Some(m) => Err(m),
        None => match regex_first_match(pattern, page) {
            Some(g) => match group(g, 1) {
                Some(doc) => json_parsed(doc),
                None => Err(missing),
            },
            None => Err(missing),
        },
    }
}

/// The sections of a search data document.
pub open spec fn search_sections(data: JsonValue) -> Option<Seq<JsonValue>> {
    items(
        field(
            field(
                field(
                    field(
                        element(
                            field(
                                field(field(Some(data), "contents"@), "tabbedSearchResultsRenderer"@),
                                "tabs"@,
                            ),
                            0,
                        ),
                        "tabRenderer"@,
                    ),
                    "content"@,
                ),
                "sectionListRenderer"@,
            ),
            "contents"@,
        ),
    )
}

/// The items of a music shelf.
pub open spec fn shelf_items(shelf: JsonValue) -> Option<Seq<JsonValue>> {
    items(field(Some(shelf), "contents"@))
}

/// A search data document with the shape the results are read from: its
/// sections form a list, and so do the items of each music shelf.
pub open spec fn search_data_complete(data: JsonValue) -> bool {
    match search_sections(data) {
        Some(sections) => forall|k: int|
            0 <= k < sections.len() ==> match #[trigger] field(Some(sections[k]), "musicShelfRenderer"@) {
                Some(shelf) => shelf_items(shelf) is Some,
                None => true,
            },
        None => false,
    }
}

/// The message of search data without the shape the results are read from.
pub open spec fn search_shape_message() -> Seq<char> {
    "Search results not found in YouTube Music response"@
}

/// The text of the first run of flex column `col` of a list item.
pub open spec fn flex_text(item: Option<JsonValue>, col: int) -> Seq<char> {
    text_or(
        field(
            element(
                field(
                    field(
                        field(element(field(item, "flexColumns"@), col), "musicResponsiveListItemFlexColumnRenderer"@),
                        "text"@,
                    ),
                    "runs"@,
                ),
                0,
            ),
            "text"@,
        ),
        ""@,
    )
}

/// The track a shelf entry stands for, when it is a list item.
pub open spec fn shelf_track(entry: JsonValue) -> Option<TrackMetadataView> {
    match field(Some(entry), "musicResponsiveListItemRenderer"@) {
        Some(item) => Some(
            TrackMetadataView {
                title: flex_text(Some(item), 0),
                artist: flex_text(Some(item), 1),
                album: None,
                album_art_url: None,
                track_id: text_or(field(field(Some(item), "playlistItemData"@), "videoId"@), ""@),
                source: AudioSource::YouTubeMusic,
            },
        ),
        None => None,
    }
}

/// The tracks among shelf `entries`, in order.
pub open spec fn shelf_tracks(entries: Seq<JsonValue>) -> Seq<TrackMetadataView>
    decreases entries.len(),
{
    if entries.len() == 0 {
        Seq::empty()
    } else {
        shelf_tracks(entries.drop_last()) + match shelf_track(entries.last()) {
            Some(t) => seq![t],
            None => Seq::empty(),
        }
    }
}

/// The tracks of one section: those of its music shelf, if it is one.
pub open spec fn section_tracks(section: JsonValue) -> Seq<TrackMetadataView> {
    match field(Some(section), "musicShelfRenderer"@) {
        Some(shelf) => match shelf_items(shelf) {
            Some(entries) => shelf_tracks(entries),
            None => Seq::empty(),
        },
        None => Seq::empty(),
    }
}

/// The tracks of all `sections`, section after section.
pub open spec fn sections_tracks(sections: Seq<JsonValue>) -> Seq<TrackMetadataView>
    decreases sections.len(),
{
    if sections.len() == 0 {
        Seq::empty()
    } else {
        sections_tracks(sections.drop_last()) + section_tracks(sections.last())
    }
}

/// The tracks of a run of shelf entries are those of its first part, then
/// those of the rest: no entry's track is dropped or moved.
pub proof fn law_shelf_tracks_append(a: Seq<JsonValue>, b: Seq<JsonValue>)
    ensures
        shelf_tracks(a + b) == shelf_tracks(a) + shelf_tracks(b),
    decreases b.len(),
{
    if b.len() == 0 {
        assert(a + b =~= a);
        assert(shelf_tracks(a) + shelf_tracks(b) =~= shelf_tracks(a));
    } else {
        law_shelf_tracks_append(a, b.drop_last());
        assert((a + b).drop_last() =~= a + b.drop_last());
        assert((a + b).last() == b.last());
    }
}

/// One shelf entry gives its track when it is a list item, and nothing else.
pub proof fn law_shelf_tracks_single(e: JsonValue)
    ensures
        shelf_tracks(seq![e]) == match shelf_track(e) {
            Some(t) => seq![t],
            None => Seq::<TrackMetadataView>::empty(),
        },
{
    let one = seq![e];
    assert(one.drop_last() =~= Seq::<JsonValue>::empty());
    assert(one.last() == e);
    assert(shelf_tracks(Seq::<JsonValue>::empty()) == Seq::<TrackMetadataView>::empty());
    match shelf_track(e) {
        Some(t) => {
            assert(Seq::<TrackMetadataView>::empty() + seq![t] =~= seq![t]);
        },
        None => {
            assert(Seq::<TrackMetadataView>::empty() + Seq::<TrackMetadataView>::empty()
                =~= Seq::<TrackMetadataView>::empty());
        },
    }
}

/// The tracks of a run of sections are those of its first part, then those
/// of the rest: every music shelf contributes, in order.
pub proof fn law_sections_tracks_append(a: Seq<JsonValue>, b: Seq<JsonValue>)
    ensures
        sections_tracks(a + b) == sections_tracks(a) + sections_tracks(b),
    decreases b.len(),
{
    if b.len() == 0 {
        assert(a + b =~= a);
        assert(sections_tracks(a) + sections_tracks(b) =~= sections_tracks(a));
    } else {
        law_sections_tracks_append(a, b.drop_last());
        assert((a + b).drop_last() =~= a + b.drop_last());
        assert((a + b).last() == b.last());
    }
}

/// One section gives the tracks of its music shelf's entries when it is a
/// music shelf with a list of entries, and nothing else.
pub proof fn law_sections_tracks_single(s: JsonValue)
    ensures
        sections_tracks(seq![s]) == match field(Some(s), "musicShelfRenderer"@) {
            Some(shelf) => match items(field(Some(shelf), "contents"@)) {
                Some(entries) => shelf_tracks(entries),
                None => Seq::<TrackMetadataView>::empty(),
            },
            None => Seq::<TrackMetadataView>::empty(),
        },
{
    let one = seq![s];
    assert(one.drop_last() =~= Seq::<JsonValue>::empty());
    assert(one.last() == s);
    assert(sections_tracks(Seq::<JsonValue>::empty()) == Seq::<TrackMetadataView>::empty());
    assert(Seq::<TrackMetadataView>::empty() + section_tracks(s) =~= section_tracks(s));
}

/// The tracks a search data document lists.
pub open spec fn search_tracks_spec(data: JsonValue) -> Seq<TrackMetadataView> {
    match search_sections(data) {
        Some(sections) => sections_tracks(sections),
        None => Seq::empty(),
    }
}

/// The tracks a search lists are those of all its sections, section after
/// section (see [`law_sections_tracks_append`] and
/// [`law_sections_tracks_single`]); data without a list of sections lists
/// none.
pub proof fn law_search_tracks_all_sections(data: JsonValue)
    ensures
        search_sections(data) matches Some(sections) ==> search_tracks_spec(data) == sections_tracks(sections),
        search_sections(data) is None ==> search_tracks_spec(data) == Seq::<TrackMetadataView>::empty(),
{
}

/// The best audio format of a player answer (the last of those with the
/// highest bit rate), or why there is none.
pub open spec fn audio_format_spec(player: JsonValue) -> Result<JsonValue, Seq<char>> {
    match adaptive_formats(player) {
        None => Err("No adaptive formats found"@),
        Some(formats) => match best_audio(formats) {
            Some(i) => Ok(formats[i]),
            None => Err("No audio formats found"@),
        },
    }
}

/// The pieces of a `key=value` parameter: the key before the first `=` and
/// the value after it.
pub open spec fn param_key(p: Seq<char>) -> Seq<char> {
    before_char(p, '=')
}

/// The value of a `key=value` parameter.
pub open spec fn param_value(p: Seq<char>) -> Seq<char> {
    match find_spec(p, seq!['=']) {
        Some(i) => p.skip(i + 1),
        None => Seq::empty(),
    }
}

/// The address, signature parameter name and scrambled signature a cipher
/// carries.
pub struct CipherParts {
    pub url: String,
    pub sp: String,
    pub s: String,
}

/// The plain content of [`CipherParts`].
pub struct CipherPartsView {
    pub url: Seq<char>,
    pub sp: Seq<char>,
    pub s: Seq<char>,
}

impl View for CipherParts {
    type V = CipherPartsView;

    open spec fn view(&self) -> CipherPartsView {
        CipherPartsView { url: self.url@, sp: self.sp@, s: self.s@ }
    }
}

/// Why a cipher could not be read: a parameter whose value did not decode
/// (with the decoder's message), or a parameter without a `=`.
#[derive(Debug, Clone, PartialEq, Eq)]
pub enum CipherFailure {
    Decode(String),
    MissingValue,
}

/// The plain content of a [`CipherFailure`].
pub enum CipherFailureView {
    Decode(Seq<char>),
    MissingValue,
}

impl View for CipherFailure {
    type V = CipherFailureView;

    open spec fn view(&self) -> CipherFailureView {
        match self {
            CipherFailure::Decode(m) => CipherFailureView::Decode(m@),
            CipherFailure::MissingValue => CipherFailureView::MissingValue,
        }
    }
}

/// The message of a cipher failure: the decoder's, or that a parameter has
/// no value.
pub open spec fn cipher_failure_message(f: CipherFailureView) -> Seq<char> {
    match f {
        CipherFailureView::Decode(m) => m,
        CipherFailureView::MissingValue => "Signature cipher parameter without a value"@,
    }
}

impl CipherFailure {
    /// The message reported for the failure (see [`cipher_failure_message`]).
    pub fn message(&self) -> (m: String)
        ensures
            m@ == cipher_failure_message(self@),
    {
        match self {
            CipherFailure::Decode(m) => m.clone(),
            CipherFailure::MissingValue => String::from_str("Signature cipher parameter without a value"),
        }
    }
}

/// The parts after reading one `key=value` parameter: `url` and `s` are
/// percent-decoded, `sp` is kept as it is, and other keys are ignored; a
/// parameter without a `=` has no value to read.
pub open spec fn apply_param(p: CipherPartsView, param: Seq<char>) -> Result<CipherPartsView, CipherFailureView> {
    let key = param_key(param);
    let value = param_value(param);
    if !contains_spec(param, "="@) {
        Err(CipherFailureView::MissingValue)
    } else if key == "url"@ {
        match url_decode_result(value) {
            Ok(d) => Ok(CipherPartsView { url: d, ..p }),
            Err(e) => Err(CipherFailureView::Decode(e)),
        }
    } else if key == "sp"@ {
        Ok(CipherPartsView { sp: value, ..p })
    } else if key == "s"@ {
        match url_decode_result(value) {
            Ok(d) => Ok(CipherPartsView { s: d, ..p }),
            Err(e) => Err(CipherFailureView::Decode(e)),
        }
    } else {
        Ok(p)
    }
}

/// The parts after reading `params` in order: a later parameter overrides
/// an earlier one, and the first parameter that cannot be read ends the
/// reading.
pub open spec fn cipher_fold(params: Seq<Seq<char>>) -> Result<CipherPartsView, CipherFailureView>
    decreases params.len(),
{
    if params.len() == 0 {
        Ok(CipherPartsView { url: Seq::empty(), sp: Seq::empty(), s: Seq::empty() })
    } else {
        match cipher_fold(params.drop_last()) {
            Err(e) => Err(e),
            Ok(p) => apply_param(p, params.last()),
        }
    }
}

/// Once the reading of a prefix has failed, the whole reading fails the same way.
proof fn lemma_fold_error_stays(params: Seq<Seq<char>>, k: int)
    requires
        0 <= k <= params.len(),
        cipher_fold(params.take(k)) is Err,
    ensures
        cipher_fold(params) == cipher_fold(params.take(k)),
    decreases params.len(),
{
    if params.len() == k {
        assert(params.take(k) =~= params);
    } else {
        assert(params.drop_last().take(k) =~= params.take(k));
        lemma_fold_error_stays(params.drop_last(), k);
    }
}

/// The address of the player script a watch page names, or why it names none.
pub open spec fn js_player_url_spec(page: Seq<char>) -> Result<Seq<char>, Seq<char>> {
    match regex_compile_error(js_url_pattern()) {
        Some(m) => Err(m),
        None => match regex_first_match(js_url_pattern(), page) {
            Some(g) => match group(g, 1) {
                Some(path) => Ok("https://www.youtube.com"@ + path),
                None => Err("Failed to find JS player URL"@),
            },
            None => Err("Failed to find JS player URL"@),
        },
    }
}

/// The thumbnails of a player answer.
pub open spec fn thumbnails(player: JsonValue) -> Option<Seq<JsonValue>> {
    items(field(field(field(Some(player), "videoDetails"@), "thumbnail"@), "thumbnails"@))
}

/// A player answer whose last thumbnail has an address.
pub open spec fn has_thumbnail(player: JsonValue) -> bool {
    match thumbnails(player) {
        Some(t) => t.len() > 0 && text(field(Some(t.last()), "url"@)) is Some,
        None => false,
    }
}

/// The message of a player answer whose last thumbnail has no address.
pub open spec fn missing_thumbnail_message() -> Seq<char> {
    "No thumbnail found in player response"@
}

/// The stream of `track_id` at `stream_url` in `format` of a player answer;
/// an error where its last thumbnail has no address, or where its length is
/// not a number.
pub open spec fn ytm_stream_spec(
    track_id: Seq<char>,
    player: JsonValue,
    format: JsonValue,
    stream_url: Seq<char>,
) -> Result<StreamInfoView, Seq<char>> {
    let details = field(Some(player), "videoDetails"@);
    if !has_thumbnail(player) {
        Err(missing_thumbnail_message())
    } else {
        match parse_u64_result(text_or(field(details, "lengthSeconds"@), "0"@)) {
            Err(e) => Err(e),
            Ok(duration) => Ok(
                StreamInfoView {
                    stream_url,
                    format: before_char(mime_type(format), ';'),
                    bitrate: bitrate_key(format) as u32,
                    duration_secs: duration,
                    metadata: TrackMetadataView {
                        title: text_or(field(details, "title"@), ""@),
                        artist: text_or(field(details, "author"@), ""@),
                        album: None,
                        album_art_url: match thumbnails(player) {
                            Some(t) => text(field(Some(t.last()), "url"@)),
                            None => None,
                        },
                        track_id,
                        source: AudioSource::YouTubeMusic,
                    },
                },
            ),
        }
    }
}

/// The JSON document in group 1 of the first match of `pattern` in `page`
/// (see [`embedded_json`]).
fn embedded_json_of(pattern: &str, page: &str, missing: &str) -> (r: Result<JsonValue, String>)
    ensures
        match r {
            Ok(v) => embedded_json(pattern@, page@, missing@) == Ok::<JsonValue, Seq<char>>(v),
            Err(m) => embedded_json(pattern@, page@, missing@) == Err::<JsonValue, Seq<char>>(m@),
        },
{
    match pattern_error(pattern) {
        Some(m) => Err(m),
        None => match first_match(pattern, page) {
            Some(g) => match group_text(&g, 1) {
                Some(doc) => parse_json_result(doc.as_str()),
                None => Err(String::from_str(missing)),
            },
            None => Err(String::from_str(missing)),
        },
    }
}

/// The text of the first run of flex column `col` (see [`flex_text`]).
fn flex_text_of(item: Option<&JsonValue>, col: usize) -> (r: String)
    ensures
        r@ == flex_text(deref(item), col as int),
{
    str_or(
        get(
            at(
                get(
                    get(get(at(get(item, "flexColumns"), col), "musicResponsiveListItemFlexColumnRenderer"), "text"),
                    "runs",
                ),
                0,
            ),
            "text",
        ),
        "",
    )
}

/// Appends the tracks of one music shelf's entries.
fn push_shelf_tracks(entries: &Vec<JsonValue>, out: &mut Vec<TrackMetadata>)
    ensures
        track_views(final(out)@) == track_views(old(out)@) + shelf_tracks(entries@),
{
    let ghost start = out@;
    let mut j: usize = 0;
    assert(track_views(start) + shelf_tracks(entries@.take(0)) =~= track_views(start));
    while j < entries.len()
        invariant
            j <= entries@.len(),
            track_views(out@) == track_views(start) + shelf_tracks(entries@.take(j as int)),
        decreases entries.len() - j,
    {
        assert(entries@.take(j + 1).drop_last() =~= entries@.take(j as int));
        assert(entries@.take(j + 1).last() == entries@[j as int]);
        let ghost prev = out@;
        match get(Some(&entries[j]), "musicResponsiveListItemRenderer") {
            Some(item) => {
                let t = TrackMetadata {
                    title: flex_text_of(Some(item), 0),
                    artist: flex_text_of(Some(item), 1),
                    album: None,
                    album_art_url: None,
                    track_id: str_or(get(get(Some(item), "playlistItemData"), "videoId"), ""),
                    source: AudioSource::YouTubeMusic,
                };
                let ghost tv = t@;
                out.push(t);
                assert(track_views(out@) =~= track_views(prev).push(tv));
            },
            None => {},
        }
        j = j + 1;
    }
    assert(entries@.take(entries.len() as int) =~= entries@);
}

/// The parts after reading one parameter (see [`apply_param`]).
fn apply_param_of(parts: CipherParts, p: &[char]) -> (r: Result<CipherParts, CipherFailure>)
    ensures
        match r {
            Ok(q) => apply_param(parts@, p@) == Ok::<CipherPartsView, CipherFailureView>(q@),
            Err(f) => apply_param(parts@, p@) == Err::<CipherPartsView, CipherFailureView>(f@),
        },
{
    let value = match find_char(p, '=') {
        Some(i) => {
            let n = p.len();
            let v = slice_of(p, i + 1, n);
            assert(v@ =~= p@.skip(i + 1));
            v
        },
        None => {
            proof {
                assert(seq!['='] =~= "="@) by {
                    reveal_strlit("=");
                }
            }
            return Err(CipherFailure::MissingValue);
        },
    };
    proof {
        assert(seq!['='] =~= "="@) by {
            reveal_strlit("=");
        }
    }
    let key = before(p, '=');
    let key_s = string_of(key.as_slice());
    let value_s = string_of(value.as_slice());
    let mut parts = parts;
    if crate::text::str_eq(key_s.as_str(), "url") {
        match url_decode(value_s.as_str()) {
            Ok(d) => {
                parts.url = d;
                Ok(parts)
            },
            Err(e) => Err(CipherFailure::Decode(e)),
        }
    } else if crate::text::str_eq(key_s.as_str(), "sp") {
        parts.sp = value_s;
        Ok(parts)
    } else if crate::text::str_eq(key_s.as_str(), "s") {
        match url_decode(value_s.as_str()) {
            Ok(d) => {
                parts.s = d;
                Ok(parts)
            },
            Err(e) => Err(CipherFailure::Decode(e)),
        }
    } else {
        Ok(parts)
    }
}

/// An extractor for YouTube Music tracks.
pub struct YouTubeMusicExtractor;

impl YouTubeMusicExtractor {
    /// A YouTube Music extractor.
    pub fn new() -> (r: Self) {
        YouTubeMusicExtractor
    }

    /// The results page asked for `query`, which is put in as it is.
    pub fn search_url(&self, query: &str) -> (r: String)
        ensures
            r@ == "https://music.youtube.com/search?q="@ + query@,
    {
        join("https://music.youtube.com/search?q=", query)
    }

    /// The search data of a results page (see [`embedded_json`]).
    pub fn search_data(&self, page: &str) -> (r: Result<JsonValue, String>)
        ensures
            match r {
                Ok(v) => embedded_json(
                    search_data_pattern(),
                    page@,
                    "Failed to find search results in YouTube Music response"@,
                ) == Ok::<JsonValue, Seq<char>>(v),
                Err(m) => embedded_json(
                    search_data_pattern(),
                    page@,
                    "Failed to find search results in YouTube Music response"@,
                ) == Err::<JsonValue, Seq<char>>(m@),
            },
    {
        embedded_json_of(
            "window\\[\"ytInitialData\"\\] = (\\{.*?\\});",
            page,
            "Failed to find search results in YouTube Music response",
        )
    }

    /// Whether the search data has the shape the results are read from
    /// (see [`search_data_complete`]).
    pub fn search_data_is_complete(&self, data: &JsonValue) -> (b: bool)
        ensures
            b == search_data_complete(*data),
    {
        match as_array(search_sections_of(data)) {
            Some(sections) => {
                let mut k: usize = 0;
                while k < sections.len()
                    invariant
                        k <= sections@.len(),
                        search_sections(*data) == Some(sections@),
                        forall|m: int|
                            0 <= m < k ==> match #[trigger] field(Some(sections@[m]), "musicShelfRenderer"@) {
                                Some(shelf) => shelf_items(shelf) is Some,
                                None => true,
                            },
                    decreases sections.len() - k,
                {
                    match get(Some(&sections[k]), "musicShelfRenderer") {
                        Some(shelf) => {
                            if as_array(get(Some(shelf), "contents")).is_none() {
                                assert(!search_data_complete(*data)) by {
                                    assert(field(Some(sections@[k as int]), "musicShelfRenderer"@) == Some(*shelf));
                                }
                                return false;
                            }
                        },
                        None => {},
                    }
                    k = k + 1;
                }
                true
            },
            None => false,
        }
    }

    /// The tracks the search data lists (see [`search_tracks_spec`]), or an
    /// error where the data does not have the shape they are read from (see
    /// [`search_data_complete`]).
    pub fn search_tracks(&self, data: &JsonValue) -> (r: Result<Vec<TrackMetadata>, String>)
        ensures
            match r {
                Ok(tracks) => search_data_complete(*data) && track_views(tracks@) == search_tracks_spec(*data),
                Err(m) => !search_data_complete(*data) && m@ == search_shape_message(),
            },
    {
        if !self.search_data_is_complete(data) {
            return Err(String::from_str("Search results not found in YouTube Music response"));
        }
        let mut out: Vec<TrackMetadata> = Vec::new();
        match as_array(search_sections_of(data)) {
            Some(sections) => {
                let mut k: usize = 0;
                assert(track_views(out@) =~= Seq::<TrackMetadataView>::empty());
                while k < sections.len()
                    invariant
                        k <= sections@.len(),
                        search_sections(*data) == Some(sections@),
                        search_data_complete(*data),
                        track_views(out@) == sections_tracks(sections@.take(k as int)),
                    decreases sections.len() - k,
                {
                    assert(sections@.take(k + 1).drop_last() =~= sections@.take(k as int));
                    assert(sections@.take(k + 1).last() == sections@[k as int]);
                    let ghost prev = out@;
                    match get(Some(&sections[k]), "musicShelfRenderer") {
                        Some(shelf) => {
                            match as_array(get(Some(shelf), "contents")) {
                                Some(entries) => push_shelf_tracks(entries, &mut out),
                                None => {},
                            }
                        },
                        None => {
                            assert(track_views(out@) =~= track_views(prev) + Seq::<TrackMetadataView>::empty());
                        },
                    }
                    k = k + 1;
                }
                assert(sections@.take(sections.len() as int) =~= sections@);
            },
            None => {},
        }
        Ok(out)
    }

    /// The watch page of track `track_id`.
    pub fn watch_url(&self, track_id: &str) -> (r: String)
        ensures
            r@ == "https://www.youtube.com/watch?v="@ + track_id@,
    {
        join("https://www.youtube.com/watch?v=", track_id)
    }

    /// The player answer a watch page embeds (see [`embedded_json`]).
    pub fn player_response(&self, page: &str) -> (r: Result<JsonValue, String>)
        ensures
            match r {
                Ok(v) => embedded_json(player_pattern(), page@, "Failed to find player response"@)
                    == Ok::<JsonValue, Seq<char>>(v),
                Err(m) => embedded_json(player_pattern(), page@, "Failed to find player response"@)
                    == Err::<JsonValue, Seq<char>>(m@),
            },
    {
        embedded_json_of(
            "var ytInitialPlayerResponse = (\\{.*?\\});",
            page,
            "Failed to find player response",
        )
    }

    /// The best audio format of a player answer (see [`audio_format_spec`]).
    pub fn audio_format<'a>(&self, player: &'a JsonValue) -> (r: Result<&'a JsonValue, String>)
        ensures
            match r {
                Ok(f) => audio_format_spec(*player) == Ok::<JsonValue, Seq<char>>(*f),
                Err(m) => audio_format_spec(*player) == Err::<JsonValue, Seq<char>>(m@),
            },
    {
        match as_array(get(get(Some(player), "streamingData"), "adaptiveFormats")) {
            None => Err(String::from_str("No adaptive formats found")),
            Some(formats) => match best_audio_index(formats) {
                Some(i) => Ok(&formats[i]),
                None => Err(String::from_str("No audio formats found")),
            },
        }
    }

    /// The direct address of a format, empty when it has none.
    pub fn direct_url(&self, format: &JsonValue) -> (r: String)
        ensures
            r@ == text_or(field(Some(*format), "url"@), ""@),
    {
        str_or(get(Some(format), "url"), "")
    }

    /// The `signatureCipher` of a format, or why it has none.
    pub fn signature_cipher(&self, format: &JsonValue) -> (r: Result<String, String>)
        ensures
            match r {
                Ok(c) => text(field(Some(*format), "signatureCipher"@)) == Some(c@),
                Err(m) => text(field(Some(*format), "signatureCipher"@)) is None && m@
                    == "Signature cipher not found"@,
            },
    {
        match as_str(get(Some(format), "signatureCipher")) {
            Some(c) => Ok(String::from_str(c)),
            None => Err(String::from_str("Signature cipher not found")),
        }
    }

    /// The parts a cipher carries (see [`cipher_fold`]).
    pub fn cipher_parts(&self, cipher: &str) -> (r: Result<CipherParts, CipherFailure>)
        ensures
            match r {
                Ok(p) => cipher_fold(split_spec(cipher@, '&')) == Ok::<CipherPartsView, CipherFailureView>(p@),
                Err(f) => cipher_fold(split_spec(cipher@, '&')) == Err::<CipherPartsView, CipherFailureView>(f@),
            },
    {
        let c = chars_of(cipher);
        let params = split_char(c.as_slice(), '&');
        let ghost all = split_spec(cipher@, '&');
        let mut parts = CipherParts { url: String::new(), sp: String::new(), s: String::new() };
        let mut k: usize = 0;
        assert(all.take(0) =~= Seq::<Seq<char>>::empty());
        while k < params.len()
            invariant
                k <= params@.len(),
                all == split_spec(cipher@, '&'),
                pieces_view(params@) == all,
                cipher_fold(all.take(k as int)) == Ok::<CipherPartsView, CipherFailureView>(parts@),
            decreases params.len() - k,
        {
            assert(all.take(k + 1).drop_last() =~= all.take(k as int));
            assert(all.take(k + 1).last() == params@[k as int]@);
            match apply_param_of(parts, params[k].as_slice()) {
                Ok(next) => {
                    parts = next;
                },
                Err(e) => {
                    proof {
                        lemma_fold_error_stays(all, k + 1);
                    }
                    return Err(e);
                },
            }
            k = k + 1;
        }
        assert(all.take(params.len() as int) =~= all);
        Ok(parts)
    }

    /// The address of the player script a watch page names (see
    /// [`js_player_url_spec`]).
    pub fn js_player_url(&self, page: &str) -> (r: Result<String, String>)
        ensures
            match r {
                Ok(u) => js_player_url_spec(page@) == Ok::<Seq<char>, Seq<char>>(u@),
                Err(m) => js_player_url_spec(page@) == Err::<Seq<char>, Seq<char>>(m@),
            },
    {
        let pattern = "\"jsUrl\":\"(/s/player/[^\"]+)\"";
        match pattern_error(pattern) {
            Some(m) => Err(m),
            None => match first_match(pattern, page) {
                Some(g) => match group_text(&g, 1) {
                    Some(path) => Ok(join("https://www.youtube.com", path.as_str())),
                    None => Err(String::from_str("Failed to find JS player URL")),
                },
                None => Err(String::from_str("Failed to find JS player URL")),
            },
        }
    }

    /// The stream address with its deciphered signature.
    pub fn deciphered_url(&self, parts: &CipherParts, signature: &str) -> (r: String)
        ensures
            r@ == parts.url@ + "&"@ + parts.sp@ + "="@ + signature@,
    {
        parts.url.clone().concat("&").concat(parts.sp.as_str()).concat("=").concat(signature)
    }

    /// Whether the last thumbnail of a player answer has an address (see
    /// [`has_thumbnail`]).
    pub fn player_has_thumbnail(&self, player: &JsonValue) -> (b: bool)
        ensures
            b == has_thumbnail(*player),
    {
        match as_array(get(get(get(Some(player), "videoDetails"), "thumbnail"), "thumbnails")) {
            Some(t) => t.len() > 0 && as_str(get(Some(&t[t.len() - 1]), "url")).is_some(),
            None => false,
        }
    }

    /// The stream of `track_id` at `stream_url` in `format` (see
    /// [`ytm_stream_spec`]).
    pub fn stream_info(&self, track_id: &str, player: &JsonValue, format: &JsonValue, stream_url: String) -> (r: Result<
        StreamInfo,
        String,
    >)
        ensures
            match r {
                Ok(s) => ytm_stream_spec(track_id@, *player, *format, stream_url@) == Ok::<
                    StreamInfoView,
                    Seq<char>,
                >(s@),
                Err(m) => ytm_stream_spec(track_id@, *player, *format, stream_url@) == Err::<
                    StreamInfoView,
                    Seq<char>,
                >(m@),
            },
    {
        if !self.player_has_thumbnail(player) {
            return Err(String::from_str("No thumbnail found in player response"));
        }
        let details = get(Some(player), "videoDetails");
        let art = match as_array(get(get(details, "thumbnail"), "thumbnails")) {
            Some(t) => {
                if t.len() > 0 {
                    match as_str(get(Some(&t[t.len() - 1]), "url")) {
                        Some(u) => Some(String::from_str(u)),
                        None => None,
                    }
                } else {
                    None
                }
            },
            None => None,
        };
        let metadata = TrackMetadata {
            title: str_or(get(details, "title"), ""),
            artist: str_or(get(details, "author"), ""),
            album: None,
            album_art_url: art,
            track_id: String::from_str(track_id),
            source: AudioSource::YouTubeMusic,
        };
        let mime = str_or(get(Some(format), "mimeType"), "");
        let mime_chars = chars_of(mime.as_str());
        let kind = before(mime_chars.as_slice(), ';');
        let bitrate = u64_or_zero(get(Some(format), "bitrate")) as u32;
        let length = str_or(get(details, "lengthSeconds"), "0");
        let length_chars = chars_of(length.as_str());
        match parse_u64_checked(length_chars.as_slice()) {
            Err(e) => Err(e),
            Ok(duration_secs) => Ok(
                StreamInfo {
                    stream_url,
                    format: string_of(kind.as_slice()),
                    bitrate,
                    duration_secs,
                    metadata,
                },
            ),
        }
    }
}

/// The sections of a search data document (see [`search_sections`]).
fn search_sections_of(data: &JsonValue) -> (r: Option<&JsonValue>)
    ensures
        match search_sections(*data) {
            Some(s) => deref(r) matches Some(JsonValue::Array(a)) && a@ == s,
            None => !(deref(r) matches Some(JsonValue::Array(_))),
        },
{
    get(
        get(
            get(
                get(at(get(get(get(Some(data), "contents"), "tabbedSearchResultsRenderer"), "tabs"), 0), "tabRenderer"),
                "content",
            ),
            "sectionListRenderer",
        ),
        "contents",
    )
}

} // verus!
