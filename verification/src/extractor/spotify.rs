//! Spotify: metadata only, from the oEmbed endpoint and the JSON-LD block
//! of the track page. Spotify streams are DRM protected, so search and
//! streaming are refused.
use vstd::prelude::*;
use crate::config::{MediaMetadata, MediaMetadataView};
use crate::encoding::{url_encoded, url_encode};
use crate::error::{EngineError, EngineErrorView};
use crate::json::{
    JsonValue, field, text, text_or, items, deref, get, as_str, str_or, as_array, parse_json,
    json_document, parse_u64, parse_u64_spec,
};
use crate::text::{
    after_first, find_spec, before_char, second_piece, trim_start_str_spec, trim_end_char_spec,
    opt_chars, chars_of, after, find, find_char, slice_of, string_of, before, second_piece_of,
    trim_start_str, trim_end_char, join, has,
};

verus! {

/// The tag that opens the JSON-LD block of a page.
pub open spec fn ld_json_open() -> Seq<char> {
    "<script type=\"application/ld+json\">"@
}

/// The text of the JSON-LD block of a page: what follows the first opening
/// tag, up to the first `</script>` after it.
pub open spec fn ld_json_block(html: Seq<char>) -> Option<Seq<char>> {
    match after_first(html, ld_json_open()) {
        Some(rest) => match find_spec(rest, "</script>"@) {
            Some(end) => Some(rest.take(end)),
            None => None,
        },
        None => None,
    }
}

/// `s` parsed as a number, or 0.
pub open spec fn number_or_zero(s: Seq<char>) -> u64 {
    match parse_u64_spec(s) {
        Some(n) => n,
        None => 0,
    }
}

/// The seconds of an ISO 8601 duration such as `PT3M15S`: leading `PT`s and
/// trailing `S`s are dropped and the rest is cut at its first `M` into
/// minutes and seconds (each 0 when it is not a number); `None` without an
/// `M`. The sum is taken modulo 2^64.
pub open spec fn iso_duration(d: Seq<char>) -> Option<u64> {
    let t = trim_end_char_spec(trim_start_str_spec(d, "PT"@), 'S');
    match find_spec(t, seq!['M']) {
        Some(i) => Some(
            vstd::wrapping::u64_specs::wrapping_add(
                vstd::wrapping::u64_specs::wrapping_mul(number_or_zero(t.take(i)), 60),
                number_or_zero(t.skip(i + 1)),
            ),
        ),
        None => None,
    }
}

/// The names of the artists listed in `by_artist`, skipping those without one.
pub open spec fn artist_names(by_artist: Seq<JsonValue>) -> Seq<Seq<char>>
    decreases by_artist.len(),
{
    if by_artist.len() == 0 {
        Seq::empty()
    } else {
        artist_names(by_artist.drop_last()) + match text(
            field(Some(by_artist.last()), "name"@),
        ) {
            Some(n) => seq![n],
            None => Seq::empty(),
        }
    }
}

/// The artist names of a run of `byArtist` entries are those of its first
/// part, then those of the rest.
pub proof fn law_artist_names_append(a: Seq<JsonValue>, b: Seq<JsonValue>)
    ensures
        artist_names(a + b) == artist_names(a) + artist_names(b),
    decreases b.len(),
{
    if b.len() == 0 {
        assert(a + b =~= a);
        assert(artist_names(a) + artist_names(b) =~= artist_names(a));
    } else {
        law_artist_names_append(a, b.drop_last());
        assert((a + b).drop_last() =~= a + b.drop_last());
        assert((a + b).last() == b.last());
    }
}

/// One `byArtist` entry gives its name when it has one.
pub proof fn law_artist_names_single(e: JsonValue)
    ensures
        artist_names(seq![e]) == match text(field(Some(e), "name"@)) {
            Some(n) => seq![n],
            None => Seq::<Seq<char>>::empty(),
        },
{
    let one = seq![e];
    assert(one.drop_last() =~= Seq::<JsonValue>::empty());
    assert(one.last() == e);
    assert(artist_names(Seq::<JsonValue>::empty()) == Seq::<Seq<char>>::empty());
    match text(field(Some(e), "name"@)) {
        Some(n) => {
            assert(Seq::<Seq<char>>::empty() + seq![n] =~= seq![n]);
        },
        None => {
            assert(Seq::<Seq<char>>::empty() + Seq::<Seq<char>>::empty() =~= Seq::<Seq<char>>::empty());
        },
    }
}

/// `names` joined with `, ` between them.
pub open spec fn joined(names: Seq<Seq<char>>) -> Seq<char>
    decreases names.len(),
{
    if names.len() == 0 {
        Seq::empty()
    } else if names.len() == 1 {
        names[0]
    } else {
        joined(names.drop_last()) + ", "@ + names.last()
    }
}

/// What the track page says of a track, before and after its JSON-LD block
/// is read.
pub struct PageDetails {
    pub title: String,
    pub artist: String,
    pub album: Option<String>,
    pub duration_seconds: u64,
}

/// The plain content of [`PageDetails`].
pub struct PageDetailsView {
    pub title: Seq<char>,
    pub artist: Seq<char>,
    pub album: Option<Seq<char>>,
    pub duration_seconds: u64,
}

impl View for PageDetails {
    type V = PageDetailsView;

    open spec fn view(&self) -> PageDetailsView {
        PageDetailsView {
            title: self.title@,
            artist: self.artist@,
            album: opt_chars(self.album),
            duration_seconds: self.duration_seconds,
        }
    }
}

/// The artist a JSON-LD block names: the listed names joined, when
/// `byArtist` is a list (the unknown artist when none has a name), else the
/// name of the one `byArtist`.
pub open spec fn ld_artist(v: JsonValue) -> Seq<char> {
    match items(field(Some(v), "byArtist"@)) {
        Some(list) => if artist_names(list).len() > 0 {
            joined(artist_names(list))
        } else {
            "Unknown Artist"@
        },
        None => text_or(field(field(Some(v), "byArtist"@), "name"@), "Unknown Artist"@),
    }
}

/// The details a JSON-LD block gives, over a title found before.
pub open spec fn ld_details(title: Seq<char>, v: JsonValue) -> PageDetailsView {
    PageDetailsView {
        title: text_or(field(Some(v), "name"@), title),
        artist: ld_artist(v),
        album: text(field(field(Some(v), "inAlbum"@), "name"@)),
        duration_seconds: match text(field(Some(v), "duration"@)) {
            Some(d) => match iso_duration(d) {
                Some(n) => n,
                None => 0,
            },
            None => 0,
        },
    }
}

/// The details of a page whose oEmbed title was `title`: those of its
/// JSON-LD block when it has one that parses, else the title alone with an
/// unknown artist.
pub open spec fn page_details(title: Seq<char>, html: Seq<char>) -> PageDetailsView {
    let plain = PageDetailsView { title, artist: "Unknown Artist"@, album: None, duration_seconds: 0 };
    match ld_json_block(html) {
        Some(block) => match json_document(block) {
            Some(v) => ld_details(title, v),
            None => plain,
        },
        None => plain,
    }
}

/// The track id of a track link: the piece after `/track/` up to `?`, or
/// `spotify_track` when the link has no `/track/`.
pub open spec fn track_id_spec(url: Seq<char>) -> Seq<char> {
    match after_first(url, "/track/"@) {
        Some(_) => before_char(second_piece(url, "/track/"@), '?'),
        None => "spotify_track"@,
    }
}

/// The oEmbed title, or the unknown title.
pub open spec fn oembed_title(oembed: Option<JsonValue>) -> Seq<char> {
    text_or(field(oembed, "title"@), "Unknown Title"@)
}

/// The metadata of track `url` from its oEmbed answer (`None` when that
/// request did not succeed) and its page.
pub open spec fn spotify_metadata_spec(url: Seq<char>, oembed: Option<JsonValue>, html: Seq<char>) -> MediaMetadataView {
    let d = page_details(oembed_title(oembed), html);
    MediaMetadataView {
        id: track_id_spec(url),
        title: d.title,
        artist: d.artist,
        album: d.album,
        duration_seconds: d.duration_seconds,
        thumbnail_url: text(field(oembed, "thumbnail_url"@)),
        webpage_url: url,
    }
}

/// Track metadata carries what the page says: its title, artist, album and
/// duration are those of the page details over the oEmbed title; its
/// thumbnail is the oEmbed answer's, its page the link itself.
pub proof fn law_spotify_metadata_from_page(url: Seq<char>, oembed: Option<JsonValue>, html: Seq<char>)
    ensures
        spotify_metadata_spec(url, oembed, html).title == page_details(oembed_title(oembed), html).title,
        spotify_metadata_spec(url, oembed, html).artist == page_details(oembed_title(oembed), html).artist,
        spotify_metadata_spec(url, oembed, html).album == page_details(oembed_title(oembed), html).album,
        spotify_metadata_spec(url, oembed, html).duration_seconds == page_details(
            oembed_title(oembed),
            html,
        ).duration_seconds,
        spotify_metadata_spec(url, oembed, html).thumbnail_url == text(field(oembed, "thumbnail_url"@)),
        spotify_metadata_spec(url, oembed, html).webpage_url == url,
        spotify_metadata_spec(url, oembed, html).id == track_id_spec(url),
{
}

/// The page details: with a JSON-LD block that parses, the album is the
/// `name` of its `inAlbum`, the title its `name` (else the title found
/// before), the artist the one it names; without one, there is no album,
/// the artist is unknown, the duration is zero and the title is kept.
pub proof fn law_spotify_page_details(title: Seq<char>, html: Seq<char>)
    ensures
        ld_json_block(html) is Some && json_document(ld_json_block(html)->0) is Some ==> {
            let v = json_document(ld_json_block(html)->0)->0;
            &&& page_details(title, html).album == text(field(field(Some(v), "inAlbum"@), "name"@))
            &&& page_details(title, html).title == text_or(field(Some(v), "name"@), title)
            &&& page_details(title, html).artist == ld_artist(v)
        },
        !(ld_json_block(html) is Some && json_document(ld_json_block(html)->0) is Some) ==> {
            &&& page_details(title, html).album is None
            &&& page_details(title, html).title == title
            &&& page_details(title, html).artist == "Unknown Artist"@
            &&& page_details(title, html).duration_seconds == 0
        },
{
}

/// The JSON-LD block of a page (see [`ld_json_block`]).
pub fn ld_json_text(html: &str) -> (r: Option<String>)
    ensures
        opt_chars(r) == ld_json_block(html@),
{
    let h = chars_of(html);
    match after(h.as_slice(), "<script type=\"application/ld+json\">") {
        Some(rest) => {
            let close = chars_of("</script>");
            match find(rest.as_slice(), close.as_slice()) {
                Some(end) => {
                    let block = slice_of(rest.as_slice(), 0, end);
                    assert(block@ =~= rest@.take(end as int));
                    Some(string_of(block.as_slice()))
                },
                None => None,
            }
        },
        None => None,
    }
}

/// `s` parsed as a number, or 0.
fn number_or_zero_of(s: &[char]) -> (n: u64)
    ensures
        n == number_or_zero(s@),
{
    match parse_u64(s) {
        Some(n) => n,
        None => 0,
    }
}

/// The seconds of an ISO 8601 duration (see [`iso_duration`]).
pub fn iso_duration_seconds(d: &str) -> (r: Option<u64>)
    ensures
        r == iso_duration(d@),
{
    let c = chars_of(d);
    let a = trim_start_str(c.as_slice(), "PT");
    let t = trim_end_char(a.as_slice(), 'S');
    match find_char(t.as_slice(), 'M') {
        Some(i) => {
            let n = t.len();
            let m = slice_of(t.as_slice(), 0, i);
            let s = slice_of(t.as_slice(), i + 1, n);
            assert(m@ =~= t@.take(i as int));
            assert(s@ =~= t@.skip(i + 1));
            let mins = number_or_zero_of(m.as_slice());
            let secs = number_or_zero_of(s.as_slice());
            Some(mins.wrapping_mul(60).wrapping_add(secs))
        },
        None => None,
    }
}

/// The names of the listed artists (see [`artist_names`]).
fn artist_names_of(list: &Vec<JsonValue>) -> (r: Vec<String>)
    ensures
        r@.map_values(|s: String| s@) == artist_names(list@),
{
    let mut names: Vec<String> = Vec::new();
    let mut i: usize = 0;
    while i < list.len()
        invariant
            i <= list@.len(),
            names@.map_values(|s: String| s@) == artist_names(list@.take(i as int)),
        decreases list.len() - i,
    {
        assert(list@.take(i + 1).drop_last() =~= list@.take(i as int));
        assert(list@.take(i + 1).last() == list@[i as int]);
        let ghost prev = names@;
        match as_str(get(Some(&list[i]), "name")) {
            Some(n) => {
                names.push(String::from_str(n));
                assert(names@.map_values(|s: String| s@) =~= prev.map_values(|s: String| s@).push(
                    n@,
                ));
            },
            None => {
                assert(artist_names(list@.take(i + 1)) =~= artist_names(list@.take(i as int)));
            },
        }
        i = i + 1;
    }
    assert(list@.take(list.len() as int) =~= list@);
    names
}

/// `names` joined with `, ` (see [`joined`]).
fn join_names(names: &Vec<String>) -> (r: String)
    ensures
        r@ == joined(names@.map_values(|s: String| s@)),
{
    let ghost all = names@.map_values(|s: String| s@);
    if names.len() == 0 {
        return String::new();
    }
    let mut out = names[0].clone();
    let mut i: usize = 1;
    assert(all.take(1) =~= seq![all[0]]);
    while i < names.len()
        invariant
            1 <= i <= names@.len(),
            all == names@.map_values(|s: String| s@),
            out@ == joined(all.take(i as int)),
        decreases names.len() - i,
    {
        assert(all.take(i + 1).drop_last() =~= all.take(i as int));
        assert(all.take(i + 1).last() == names@[i as int]@);
        out = out.concat(", ");
        out = out.concat(names[i].as_str());
        i = i + 1;
    }
    assert(all.take(names.len() as int) =~= all);
    out
}

/// The artist a JSON-LD block names (see [`ld_artist`]).
fn ld_artist_of(v: &JsonValue) -> (r: String)
    ensures
        r@ == ld_artist(*v),
{
    let by_artist = get(Some(v), "byArtist");
    match as_array(by_artist) {
        Some(list) => {
            let names = artist_names_of(list);
            if names.len() > 0 {
                join_names(&names)
            } else {
                String::from_str("Unknown Artist")
            }
        },
        None => str_or(get(by_artist, "name"), "Unknown Artist"),
    }
}

/// The details a JSON-LD block gives over the title found before (see
/// [`ld_details`]).
pub fn apply_ld_json(title: String, v: &JsonValue) -> (r: PageDetails)
    ensures
        r@ == ld_details(title@, *v),
{
    let title = match as_str(get(Some(v), "name")) {
        Some(t) => String::from_str(t),
        None => title,
    };
    let artist = ld_artist_of(v);
    let album = match as_str(get(get(Some(v), "inAlbum"), "name")) {
        Some(a) => Some(String::from_str(a)),
        None => None,
    };
    let duration_seconds = match as_str(get(Some(v), "duration")) {
        Some(d) => match iso_duration_seconds(d) {
            Some(n) => n,
            None => 0,
        },
        None => 0,
    };
    PageDetails { title, artist, album, duration_seconds }
}

/// The track id of a track link (see [`track_id_spec`]).
pub fn track_id_of(url: &str) -> (r: String)
    ensures
        r@ == track_id_spec(url@),
{
    let u = chars_of(url);
    match after(u.as_slice(), "/track/") {
        Some(_) => {
            let piece = second_piece_of(u.as_slice(), "/track/");
            let id = before(piece.as_slice(), '?');
            string_of(id.as_slice())
        },
        None => String::from_str("spotify_track"),
    }
}

/// An extractor for Spotify metadata.
pub struct SpotifyExtractor;

impl SpotifyExtractor {
    /// A Spotify extractor.
    pub fn new() -> (r: Self) {
        SpotifyExtractor
    }

    /// The oEmbed address asked about track `url`.
    pub fn oembed_url(&self, url: &str) -> (r: String)
        ensures
            r@ == "https://open.spotify.com/oembed?url="@ + url_encoded(url@),
    {
        let e = url_encode(url);
        join("https://open.spotify.com/oembed?url=", e.as_str())
    }

    /// The details of a page whose oEmbed title was `title` (see
    /// [`page_details`]); the JSON-LD block is parsed by `serde_json`.
    pub fn page_details_of(&self, title: String, html: &str) -> (r: PageDetails)
        ensures
            r@ == page_details(title@, html@),
    {
        let plain_title = title.clone();
        let parsed = match ld_json_text(html) {
            Some(block) => parse_json(block.as_str()),
            None => None,
        };
        match parsed {
            Some(v) => apply_ld_json(title, &v),
            None => PageDetails {
                title,
                artist: String::from_str("Unknown Artist"),
                album: None,
                duration_seconds: 0,
            },
        }
    }

    /// The metadata of track `url` from its oEmbed answer (`None` when that
    /// request did not succeed or did not parse) and its page text (see
    /// [`spotify_metadata_spec`]).
    pub fn metadata_from_pages(&self, url: &str, oembed: Option<&JsonValue>, html: &str) -> (r:
        MediaMetadata)
        ensures
            r@ == spotify_metadata_spec(url@, deref(oembed), html@),
    {
        let title = str_or(get(oembed, "title"), "Unknown Title");
        let thumbnail_url = match as_str(get(oembed, "thumbnail_url")) {
            Some(t) => Some(String::from_str(t)),
            None => None,
        };
        let d = self.page_details_of(title, html);
        MediaMetadata {
            id: track_id_of(url),
            title: d.title,
            artist: d.artist,
            album: d.album,
            duration_seconds: d.duration_seconds,
            thumbnail_url,
            webpage_url: String::from_str(url),
        }
    }

    /// Spotify offers no search; it is refused.
    pub fn search(&self, query: &str) -> (r: Result<Vec<MediaMetadata>, EngineError>)
        ensures
            r matches Err(e) && e@ == EngineErrorView::StreamNotFound(
                "Spotify search is not supported directly; Spotify is metadata-only."@,
            ),
    {
        Err(
            EngineError::StreamNotFound(
                String::from_str("Spotify search is not supported directly; Spotify is metadata-only."),
            ),
        )
    }

    /// Spotify streams are DRM protected; asking for one is refused.
    pub fn get_stream_url(&self, track_id: &str) -> (r: Result<crate::config::StreamCandidate, EngineError>)
        ensures
            r matches Err(e) && e@ == EngineErrorView::StreamNotFound(
                "Spotify tracks are DRM protected. Stream must be resolved from YouTube/SoundCloud."@,
            ),
    {
        Err(
            EngineError::StreamNotFound(
                String::from_str(
                    "Spotify tracks are DRM protected. Stream must be resolved from YouTube/SoundCloud.",
                ),
            ),
        )
    }
}

impl Default for SpotifyExtractor {
    fn default() -> (r: Self)
        ensures
            r == SpotifyExtractor,
    {
        SpotifyExtractor::new()
    }
}

} // verus!
