//! SoundCloud: the public `client_id` found in the site's scripts, the
//! `api-v2` addresses asked with it, and what their answers mean.
use vstd::prelude::*;
use crate::config::{MediaMetadata, MediaMetadataView, StreamCandidate, StreamCandidateView, metadata_views};
use crate::encoding::{url_encoded, url_encode};
use crate::error::{EngineError, EngineErrorView};
use crate::json::{
    JsonValue, field, text, text_or, unsigned_or_zero, items, get, as_str, str_or,
    u64_or_zero, as_array, decimal, u64_to_string,
};
use crate::pattern::{
    regex_compile_error, regex_all_matches, regex_first_match, group, groups_view, pattern_error,
    first_match, all_matches, group_text,
};
use crate::text::{opt_chars, join};

verus! {

/// The pattern of a script address in the home page.
pub open spec fn script_pattern() -> Seq<char> {
    "src=\"([^\"]+\\.js)\""@
}

/// The pattern of the `client_id` in a script.
pub open spec fn client_id_pattern() -> Seq<char> {
    "client_id\\s*:\\s*\"([a-zA-Z0-9]{32})\""@
}

/// The first groups of `matches` that took part, in order.
pub open spec fn first_groups(matches: Seq<Seq<Option<Seq<char>>>>) -> Seq<Seq<char>>
    decreases matches.len(),
{
    if matches.len() == 0 {
        Seq::empty()
    } else {
        first_groups(matches.drop_last()) + match group(matches.last(), 1) {
            Some(g) => seq![g],
            None => Seq::empty(),
        }
    }
}

/// The first groups of a run of matches are those of its first part, then
/// those of the rest.
pub proof fn law_first_groups_append(a: Seq<Seq<Option<Seq<char>>>>, b: Seq<Seq<Option<Seq<char>>>>)
    ensures
        first_groups(a + b) == first_groups(a) + first_groups(b),
    decreases b.len(),
{
    if b.len() == 0 {
        assert(a + b =~= a);
        assert(first_groups(a) + first_groups(b) =~= first_groups(a));
    } else {
        law_first_groups_append(a, b.drop_last());
        assert((a + b).drop_last() =~= a + b.drop_last());
        assert((a + b).last() == b.last());
    }
}

/// One match gives its first group when that group took part.
pub proof fn law_first_groups_single(m: Seq<Option<Seq<char>>>)
    ensures
        first_groups(seq![m]) == match group(m, 1) {
            Some(g) => seq![g],
            None => Seq::<Seq<char>>::empty(),
        },
{
    let one = seq![m];
    assert(one.drop_last() =~= Seq::<Seq<Option<Seq<char>>>>::empty());
    assert(one.last() == m);
    assert(first_groups(Seq::<Seq<Option<Seq<char>>>>::empty()) == Seq::<Seq<char>>::empty());
    match group(m, 1) {
        Some(g) => {
            assert(Seq::<Seq<char>>::empty() + seq![g] =~= seq![g]);
        },
        None => {
            assert(Seq::<Seq<char>>::empty() + Seq::<Seq<char>>::empty() =~= Seq::<Seq<char>>::empty());
        },
    }
}

/// The script addresses of the home page, in the order they are tried for a
/// `client_id`: the last one on the page first. None when the pattern does
/// not compile.
pub open spec fn scripts_to_try_spec(home_html: Seq<char>) -> Seq<Seq<char>> {
    if regex_compile_error(script_pattern()) is None {
        first_groups(regex_all_matches(script_pattern(), home_html)).reverse()
    } else {
        Seq::empty()
    }
}

/// The `client_id` a script holds, if it holds one.
pub open spec fn client_id_spec(script: Seq<char>) -> Option<Seq<char>> {
    if regex_compile_error(client_id_pattern()) is None {
        match regex_first_match(client_id_pattern(), script) {
            Some(g) => group(g, 1),
            None => None,
        }
    } else {
        None
    }
}

/// The track a `resolve` or search answer describes, seen at `page`.
pub open spec fn track_metadata(item: JsonValue, page: Seq<char>) -> MediaMetadataView {
    MediaMetadataView {
        id: decimal(unsigned_or_zero(field(Some(item), "id"@)) as nat),
        title: text_or(field(Some(item), "title"@), "Unknown Title"@),
        artist: text_or(field(field(Some(item), "user"@), "username"@), "Unknown Artist"@),
        album: None,
        duration_seconds: (unsigned_or_zero(field(Some(item), "duration"@)) / 1000) as u64,
        thumbnail_url: text(field(Some(item), "artwork_url"@)),
        webpage_url: page,
    }
}

/// The tracks of a search answer's `collection`, each seen at its permalink.
pub open spec fn collection_tracks(list: Seq<JsonValue>) -> Seq<MediaMetadataView> {
    list.map_values(
        |item: JsonValue| track_metadata(item, text_or(field(Some(item), "permalink_url"@), ""@)),
    )
}

/// The tracks a search answer lists.
pub open spec fn search_tracks(payload: JsonValue) -> Seq<MediaMetadataView> {
    match items(field(Some(payload), "collection"@)) {
        Some(list) => collection_tracks(list),
        None => Seq::empty(),
    }
}

/// A search answer gives one track per item of its `collection`, in order:
/// track `k` takes its id, title, uploader, duration (in whole seconds) and
/// artwork from item `k`, and is seen at the item's permalink; an answer
/// without a collection gives none.
pub proof fn law_search_one_track_per_item(payload: JsonValue)
    ensures
        items(field(Some(payload), "collection"@)) matches Some(list) ==> {
            &&& search_tracks(payload).len() == list.len()
            &&& forall|k: int|
                0 <= k < list.len() ==> {
                    let t = #[trigger] search_tracks(payload)[k];
                    &&& t.id == decimal(unsigned_or_zero(field(Some(list[k]), "id"@)) as nat)
                    &&& t.title == text_or(field(Some(list[k]), "title"@), "Unknown Title"@)
                    &&& t.artist == text_or(field(field(Some(list[k]), "user"@), "username"@), "Unknown Artist"@)
                    &&& t.album is None
                    &&& t.duration_seconds == (unsigned_or_zero(field(Some(list[k]), "duration"@)) / 1000) as u64
                    &&& t.thumbnail_url == text(field(Some(list[k]), "artwork_url"@))
                    &&& t.webpage_url == text_or(field(Some(list[k]), "permalink_url"@), ""@)
                }
        },
        items(field(Some(payload), "collection"@)) is None ==> search_tracks(payload).len() == 0,
{
}

/// A progressive (plain MP3) transcoding.
pub open spec fn is_progressive(tc: JsonValue) -> bool {
    text_or(field(field(Some(tc), "format"@), "protocol"@), ""@) == "progressive"@
}

/// The addresses that resolve the progressive transcodings of `list`, in order.
pub open spec fn progressive_urls_of(list: Seq<JsonValue>, client_id: Seq<char>) -> Seq<Seq<char>>
    decreases list.len(),
{
    if list.len() == 0 {
        Seq::empty()
    } else {
        progressive_urls_of(list.drop_last(), client_id) + if is_progressive(list.last()) {
            seq![
                text_or(field(Some(list.last()), "url"@), ""@) + "?client_id="@ + client_id,
            ]
        } else {
            Seq::empty()
        }
    }
}

/// The progressive addresses of a run of transcodings are those of its
/// first part, then those of the rest.
pub proof fn law_progressive_urls_append(a: Seq<JsonValue>, b: Seq<JsonValue>, client_id: Seq<char>)
    ensures
        progressive_urls_of(a + b, client_id) == progressive_urls_of(a, client_id) + progressive_urls_of(
            b,
            client_id,
        ),
    decreases b.len(),
{
    if b.len() == 0 {
        assert(a + b =~= a);
        assert(progressive_urls_of(a, client_id) + progressive_urls_of(b, client_id) =~= progressive_urls_of(
            a,
            client_id,
        ));
    } else {
        law_progressive_urls_append(a, b.drop_last(), client_id);
        assert((a + b).drop_last() =~= a + b.drop_last());
        assert((a + b).last() == b.last());
    }
}

/// One transcoding gives an address when it is progressive: its `url` with
/// the `client_id` attached.
pub proof fn law_progressive_urls_single(tc: JsonValue, client_id: Seq<char>)
    ensures
        progressive_urls_of(seq![tc], client_id) == if is_progressive(tc) {
            seq![text_or(field(Some(tc), "url"@), ""@) + "?client_id="@ + client_id]
        } else {
            Seq::<Seq<char>>::empty()
        },
{
    let one = seq![tc];
    assert(one.drop_last() =~= Seq::<JsonValue>::empty());
    assert(one.last() == tc);
    assert(progressive_urls_of(Seq::<JsonValue>::empty(), client_id) == Seq::<Seq<char>>::empty());
    let x = text_or(field(Some(tc), "url"@), ""@) + "?client_id="@ + client_id;
    assert(Seq::<Seq<char>>::empty() + seq![x] =~= seq![x]);
    assert(Seq::<Seq<char>>::empty() + Seq::<Seq<char>>::empty() =~= Seq::<Seq<char>>::empty());
}

/// The progressive addresses a track answer leads to, or why there are none.
pub open spec fn progressive_urls_spec(payload: JsonValue, client_id: Seq<char>) -> Result<
    Seq<Seq<char>>,
    EngineErrorView,
> {
    match items(field(field(Some(payload), "media"@), "transcodings"@)) {
        Some(list) => Ok(progressive_urls_of(list, client_id)),
        None => Err(EngineErrorView::StreamNotFound("No transcodings found"@)),
    }
}

/// The MP3 stream a progressive address answers with, when it gives one.
pub open spec fn progressive_stream(answer: JsonValue) -> Option<StreamCandidateView> {
    match text(field(Some(answer), "url"@)) {
        Some(url) => Some(
            StreamCandidateView {
                format_id: "soundcloud_mp3"@,
                url,
                ext: "mp3"@,
                resolution: None,
                filesize_bytes: None,
                bitrate_bps: Some(128000),
            },
        ),
        None => None,
    }
}

/// The first groups of a list of matches (see [`first_groups`]).
pub(crate) fn first_groups_of(matches: &Vec<Vec<Option<String>>>) -> (r: Vec<String>)
    ensures
        r@.map_values(|s: String| s@) == first_groups(
            matches@.map_values(|g: Vec<Option<String>>| groups_view(g@)),
        ),
{
    let ghost all = matches@.map_values(|g: Vec<Option<String>>| groups_view(g@));
    let mut out: Vec<String> = Vec::new();
    let mut i: usize = 0;
    while i < matches.len()
        invariant
            i <= matches@.len(),
            all == matches@.map_values(|g: Vec<Option<String>>| groups_view(g@)),
            out@.map_values(|s: String| s@) == first_groups(all.take(i as int)),
        decreases matches.len() - i,
    {
        assert(all.take(i + 1).drop_last() =~= all.take(i as int));
        assert(all.take(i + 1).last() == groups_view(matches@[i as int]@));
        let ghost prev = out@;
        match group_text(&matches[i], 1) {
            Some(g) => {
                out.push(g);
                assert(out@.map_values(|s: String| s@) =~= prev.map_values(|s: String| s@).push(
                    out@.last()@,
                ));
            },
            None => {},
        }
        i = i + 1;
    }
    assert(all.take(matches.len() as int) =~= all);
    out
}

/// `v` in reverse order.
fn reversed(v: Vec<String>) -> (r: Vec<String>)
    ensures
        r@.map_values(|s: String| s@) == v@.map_values(|s: String| s@).reverse(),
{
    let ghost all = v@.map_values(|s: String| s@);
    let mut out: Vec<String> = Vec::new();
    let mut i: usize = v.len();
    while i > 0
        invariant
            i <= v@.len(),
            all == v@.map_values(|s: String| s@),
            out@.map_values(|s: String| s@) == all.reverse().take(v@.len() - i),
        decreases i,
    {
        i = i - 1;
        let ghost prev = out@;
        let c = v[i].clone();
        assert(c@ == all[i as int]);
        out.push(c);
        assert(out@.map_values(|s: String| s@) =~= prev.map_values(|s: String| s@).push(all[i as int]));
        assert(all.reverse().take(v@.len() - i) =~= all.reverse().take(v@.len() - i - 1).push(all[i as int]));
    }
    assert(all.reverse().take(v@.len() as int) =~= all.reverse());
    out
}

/// An extractor for SoundCloud tracks, which keeps the `client_id` once found.
pub struct SoundCloudExtractor {
    client_id_cache: Option<String>,
}

impl SoundCloudExtractor {
    /// A SoundCloud extractor that knows no `client_id` yet.
    pub fn new() -> (r: Self)
        ensures
            r.cached_client_id_spec() is None,
    {
        SoundCloudExtractor { client_id_cache: None }
    }

    /// The `client_id` found before, if any.
    pub closed spec fn cached_client_id_spec(&self) -> Option<Seq<char>> {
        opt_chars(self.client_id_cache)
    }

    /// The `client_id` found before, if any.
    pub fn cached_client_id(&self) -> (r: Option<String>)
        ensures
            opt_chars(r) == self.cached_client_id_spec(),
    {
        match &self.client_id_cache {
            Some(id) => Some(id.clone()),
            None => None,
        }
    }

    /// Keeps `id` as the `client_id` for later requests.
    pub fn remember_client_id(&mut self, id: String)
        ensures
            final(self).cached_client_id_spec() == Some(id@),
    {
        self.client_id_cache = Some(id);
    }

    /// The script addresses of the home page in the order they are tried
    /// for a `client_id` (see [`scripts_to_try_spec`]).
    pub fn scripts_to_try(&self, home_html: &str) -> (r: Vec<String>)
        ensures
            r@.map_values(|s: String| s@) == scripts_to_try_spec(home_html@),
    {
        let pattern = "src=\"([^\"]+\\.js)\"";
        match pattern_error(pattern) {
            Some(_) => Vec::new(),
            None => {
                let matches = all_matches(pattern, home_html);
                let ghost m = regex_all_matches(script_pattern(), home_html@);
                assert(matches@.map_values(|g: Vec<Option<String>>| groups_view(g@)) =~= m);
                let found = first_groups_of(&matches);
                reversed(found)
            },
        }
    }

    /// The `client_id` a script holds (see [`client_id_spec`]).
    pub fn client_id_in_script(&self, script: &str) -> (r: Option<String>)
        ensures
            opt_chars(r) == client_id_spec(script@),
    {
        let pattern = "client_id\\s*:\\s*\"([a-zA-Z0-9]{32})\"";
        match pattern_error(pattern) {
            Some(_) => None,
            None => match first_match(pattern, script) {
                Some(g) => group_text(&g, 1),
                None => None,
            },
        }
    }

    /// The refusal when no script holds a `client_id`.
    pub fn client_id_missing(&self) -> (e: EngineError)
        ensures
            e@ == EngineErrorView::Network("Could not extract SoundCloud client_id"@),
    {
        EngineError::Network(String::from_str("Could not extract SoundCloud client_id"))
    }

    /// The `resolve` address asked about track page `url`.
    pub fn resolve_url(&self, url: &str, client_id: &str) -> (r: String)
        ensures
            r@ == "https://api-v2.soundcloud.com/resolve?url="@ + url_encoded(url@) + "&client_id="@ + client_id@,
    {
        let e = url_encode(url);
        join("https://api-v2.soundcloud.com/resolve?url=", e.as_str()).concat("&client_id=").concat(
            client_id,
        )
    }

    /// The metadata a `resolve` answer gives for track page `url`.
    pub fn metadata_from_resolve(&self, url: &str, payload: &JsonValue) -> (r: MediaMetadata)
        ensures
            r@ == track_metadata(*payload, url@),
    {
        track_of(payload, String::from_str(url))
    }

    /// The search address asked for `query` (five results).
    pub fn search_url(&self, query: &str, client_id: &str) -> (r: String)
        ensures
            r@ == "https://api-v2.soundcloud.com/search/tracks?q="@ + url_encoded(query@) + "&client_id="@ + client_id@
                + "&limit=5"@,
    {
        let e = url_encode(query);
        join("https://api-v2.soundcloud.com/search/tracks?q=", e.as_str()).concat(
            "&client_id=",
        ).concat(client_id).concat("&limit=5")
    }

    /// The tracks a search answer lists (see [`search_tracks`]).
    pub fn search_results(&self, payload: &JsonValue) -> (r: Vec<MediaMetadata>)
        ensures
            metadata_views(r@) == search_tracks(*payload),
    {
        let mut results: Vec<MediaMetadata> = Vec::new();
        match as_array(get(Some(payload), "collection")) {
            Some(list) => {
                let mut i: usize = 0;
                while i < list.len()
                    invariant
                        i <= list@.len(),
                        metadata_views(results@) == collection_tracks(list@.take(i as int)),
                    decreases list.len() - i,
                {
                    let item = &list[i];
                    let page = str_or(get(Some(item), "permalink_url"), "");
                    let m = track_of(item, page);
                    let ghost prev = results@;
                    let ghost mv = m@;
                    results.push(m);
                    assert(metadata_views(results@) =~= metadata_views(prev).push(mv));
                    assert(list@.take(i + 1) =~= list@.take(i as int).push(list@[i as int]));
                    assert(collection_tracks(list@.take(i + 1)) =~= collection_tracks(list@.take(i as int)).push(mv));
                    i = i + 1;
                }
                assert(list@.take(list.len() as int) =~= list@);
            },
            None => {
                assert(metadata_views(results@) =~= Seq::<MediaMetadataView>::empty());
            },
        }
        results
    }

    /// The track address asked about `track_id`.
    pub fn track_url(&self, track_id: &str, client_id: &str) -> (r: String)
        ensures
            r@ == "https://api-v2.soundcloud.com/tracks/"@ + track_id@ + "?client_id="@ + client_id@,
    {
        join("https://api-v2.soundcloud.com/tracks/", track_id).concat("?client_id=").concat(
            client_id,
        )
    }

    /// The addresses that resolve the progressive transcodings of a track
    /// answer, in the order they are tried (see [`progressive_urls_spec`]).
    pub fn progressive_urls(&self, payload: &JsonValue, client_id: &str) -> (r: Result<
        Vec<String>,
        EngineError,
    >)
        ensures
            match r {
                Ok(v) => progressive_urls_spec(*payload, client_id@) == Ok::<
                    Seq<Seq<char>>,
                    EngineErrorView,
                >(v@.map_values(|s: String| s@)),
                Err(e) => progressive_urls_spec(*payload, client_id@) == Err::<
                    Seq<Seq<char>>,
                    EngineErrorView,
                >(e@),
            },
    {
        match as_array(get(get(Some(payload), "media"), "transcodings")) {
            Some(list) => {
                let mut out: Vec<String> = Vec::new();
                let mut i: usize = 0;
                while i < list.len()
                    invariant
                        i <= list@.len(),
                        out@.map_values(|s: String| s@) == progressive_urls_of(
                            list@.take(i as int),
                            client_id@,
                        ),
                    decreases list.len() - i,
                {
                    assert(list@.take(i + 1).drop_last() =~= list@.take(i as int));
                    assert(list@.take(i + 1).last() == list@[i as int]);
                    let tc = &list[i];
                    let protocol = str_or(get(get(Some(tc), "format"), "protocol"), "");
                    let ghost prev = out@;
                    if crate::text::str_eq(protocol.as_str(), "progressive") {
                        let base = str_or(get(Some(tc), "url"), "");
                        let u = base.concat("?client_id=").concat(client_id);
                        out.push(u);
                        assert(out@.map_values(|s: String| s@) =~= prev.map_values(|s: String| s@).push(
                            out@.last()@,
                        ));
                    }
                    i = i + 1;
                }
                assert(list@.take(list.len() as int) =~= list@);
                Ok(out)
            },
            None => Err(EngineError::StreamNotFound(String::from_str("No transcodings found"))),
        }
    }

    /// The MP3 stream a progressive address answered with (see
    /// [`progressive_stream`]).
    pub fn stream_from_progressive(&self, answer: &JsonValue) -> (r: Option<StreamCandidate>)
        ensures
            match r {
                Some(c) => progressive_stream(*answer) == Some(c@),
                None => progressive_stream(*answer) is None,
            },
    {
        match as_str(get(Some(answer), "url")) {
            Some(u) => Some(
                StreamCandidate {
                    format_id: String::from_str("soundcloud_mp3"),
                    url: String::from_str(u),
                    ext: String::from_str("mp3"),
                    resolution: None,
                    filesize_bytes: None,
                    bitrate_bps: Some(128000),
                },
            ),
            None => None,
        }
    }

    /// The refusal when no progressive address answers with a stream.
    pub fn no_progressive_stream(&self) -> (e: EngineError)
        ensures
            e@ == EngineErrorView::StreamNotFound("No progressive MP3 stream candidate found"@),
    {
        EngineError::StreamNotFound(String::from_str("No progressive MP3 stream candidate found"))
    }
}

/// The track an answer describes, seen at `page` (see [`track_metadata`]).
fn track_of(item: &JsonValue, page: String) -> (r: MediaMetadata)
    ensures
        r@ == track_metadata(*item, page@),
{
    let id = u64_to_string(u64_or_zero(get(Some(item), "id")));
    let title = str_or(get(Some(item), "title"), "Unknown Title");
    let artist = str_or(get(get(Some(item), "user"), "username"), "Unknown Artist");
    let duration_seconds = u64_or_zero(get(Some(item), "duration")) / 1000;
    let thumbnail_url = match as_str(get(Some(item), "artwork_url")) {
        Some(t) => Some(String::from_str(t)),
        None => None,
    };
    MediaMetadata {
        id,
        title,
        artist,
        album: None,
        duration_seconds,
        thumbnail_url,
        webpage_url: page,
    }
}

impl Default for SoundCloudExtractor {
    fn default() -> (r: Self)
        ensures
            r.cached_client_id_spec() is None,
    {
        SoundCloudExtractor::new()
    }
}

} // verus!
