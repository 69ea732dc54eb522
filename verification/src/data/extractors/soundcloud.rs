//! SoundCloud for the stream router: the `client_id` in the site's asset
//! scripts, the `api-v2` searches and progressive MP3 streams.
use vstd::prelude::*;
use crate::extractor::soundcloud::{first_groups, first_groups_of};
use crate::extractor::traits::{
    AudioSource, TrackMetadata, TrackMetadataView, StreamInfo, StreamInfoView, track_views,
};
use crate::json::{
    JsonValue, field, text, text_or, unsigned_or_zero, items, decimal, get, as_str, str_or,
    u64_or_zero, as_array, u64_to_string,
};
use crate::pattern::{
    regex_compile_error, regex_all_matches, regex_first_match, group, groups_view, pattern_error,
    first_match, all_matches, group_text,
};
use crate::text::{opt_chars, join};

verus! {

/// The pattern of an asset script in the home page.
pub open spec fn asset_script_pattern() -> Seq<char> {
    "<script crossorigin src=\"(https://a-v2.sndcdn.com/assets/.*?.js)\"></script>"@
}

/// The pattern of the `client_id` in an asset script.
pub open spec fn asset_client_id_pattern() -> Seq<char> {
    ",client_id:\"([a-zA-Z0-9]+)\""@
}

/// The asset scripts of the home page, in page order, or the error of the
/// pattern. A match whose group took no part (which this pattern cannot
/// produce) is skipped.
pub open spec fn asset_scripts(home_html: Seq<char>) -> Result<Seq<Seq<char>>, Seq<char>> {
    match regex_compile_error(asset_script_pattern()) {
        Some(m) => Err(m),
        None => Ok(first_groups(regex_all_matches(asset_script_pattern(), home_html))),
    }
}

/// The `client_id` an asset script holds, or the error of the pattern.
pub open spec fn asset_client_id(script: Seq<char>) -> Result<Option<Seq<char>>, Seq<char>> {
    match regex_compile_error(asset_client_id_pattern()) {
        Some(m) => Err(m),
        None => Ok(
            match regex_first_match(asset_client_id_pattern(), script) {
                Some(g) => group(g, 1),
                None => None,
            },
        ),
    }
}

/// The track a search item describes.
pub open spec fn search_track(item: JsonValue) -> TrackMetadataView {
    TrackMetadataView {
        title: text_or(field(Some(item), "title"@), ""@),
        artist: text_or(field(field(Some(item), "user"@), "username"@), ""@),
        album: None,
        album_art_url: text(field(Some(item), "artwork_url"@)),
        track_id: decimal(unsigned_or_zero(field(Some(item), "id"@)) as nat),
        source: AudioSource::SoundCloud,
    }
}

/// The tracks a search answer lists.
pub open spec fn search_tracks_spec(payload: JsonValue) -> Seq<TrackMetadataView> {
    match items(field(Some(payload), "collection"@)) {
        Some(list) => list.map_values(|item: JsonValue| search_track(item)),
        None => Seq::empty(),
    }
}

/// A search answer gives one track per item of its `collection`, in order:
/// track `k` takes its title, its uploader's name, its artwork and its
/// numeric id (in decimal) from item `k`; an answer without a collection
/// gives none.
pub proof fn law_search_one_track_per_item(payload: JsonValue)
    ensures
        items(field(Some(payload), "collection"@)) matches Some(list) ==> {
            &&& search_tracks_spec(payload).len() == list.len()
            &&& forall|k: int|
                0 <= k < list.len() ==> {
                    let t = #[trigger] search_tracks_spec(payload)[k];
                    &&& t.title == text_or(field(Some(list[k]), "title"@), ""@)
                    &&& t.artist == text_or(field(field(Some(list[k]), "user"@), "username"@), ""@)
                    &&& t.album is None
                    &&& t.album_art_url == text(field(Some(list[k]), "artwork_url"@))
                    &&& t.track_id == decimal(unsigned_or_zero(field(Some(list[k]), "id"@)) as nat)
                    &&& t.source == AudioSource::SoundCloud
                }
        },
        items(field(Some(payload), "collection"@)) is None ==> search_tracks_spec(payload).len() == 0,
{
}

/// A transcoding whose protocol is `progressive`.
pub open spec fn is_progressive(tc: JsonValue) -> bool {
    text(field(field(Some(tc), "format"@), "protocol"@)) == Some("progressive"@)
}

/// `list[i]` is the first progressive transcoding.
pub open spec fn is_first_progressive(list: Seq<JsonValue>, i: int) -> bool {
    &&& 0 <= i < list.len()
    &&& is_progressive(list[i])
    &&& forall|j: int| 0 <= j < i ==> !is_progressive(#[trigger] list[j])
}

/// The address of the first progressive transcoding of a track answer, or
/// why there is none.
pub open spec fn progressive_media_spec(track: JsonValue) -> Result<Seq<char>, Seq<char>> {
    match items(field(field(Some(track), "media"@), "transcodings"@)) {
        Some(list) => if exists|i: int| is_first_progressive(list, i) {
            match text(field(Some(list[choose|i: int| is_first_progressive(list, i)]), "url"@)) {
                Some(u) => Ok(u),
                None => Err("No progressive stream found"@),
            }
        } else {
            Err("No progressive stream found"@)
        },
        None => Err("No progressive stream found"@),
    }
}

/// The stream of track `track_id`, from its track answer and the answer of
/// its progressive address.
pub open spec fn stream_info_spec(track_id: Seq<char>, track: JsonValue, answer: JsonValue) -> Result<
    StreamInfoView,
    Seq<char>,
> {
    match text(field(Some(answer), "url"@)) {
        Some(url) => Ok(
            StreamInfoView {
                stream_url: url,
                format: "mp3"@,
                bitrate: 128,
                duration_secs: (unsigned_or_zero(field(Some(track), "duration"@)) / 1000) as u64,
                metadata: TrackMetadataView {
                    title: text_or(field(Some(track), "title"@), ""@),
                    artist: text_or(field(field(Some(track), "user"@), "username"@), ""@),
                    album: None,
                    album_art_url: text(field(Some(track), "artwork_url"@)),
                    track_id,
                    source: AudioSource::SoundCloud,
                },
            },
        ),
        None => Err("No stream URL in response"@),
    }
}

/// A SoundCloud extractor holding the `client_id` it found.
pub struct SoundCloudExtractor {
    client_id: String,
}

impl SoundCloudExtractor {
    /// The `client_id` the extractor asks with.
    pub closed spec fn client_id_spec(&self) -> Seq<char> {
        self.client_id@
    }

    /// An extractor asking with `client_id`.
    pub fn with_client_id(client_id: String) -> (r: Self)
        ensures
            r.client_id_spec() == client_id@,
    {
        SoundCloudExtractor { client_id }
    }

    /// The asset scripts of the home page (see [`asset_scripts`]).
    pub fn script_urls(home_html: &str) -> (r: Result<Vec<String>, String>)
        ensures
            match r {
                Ok(v) => asset_scripts(home_html@) == Ok::<Seq<Seq<char>>, Seq<char>>(
                    v@.map_values(|s: String| s@),
                ),
                Err(m) => asset_scripts(home_html@) == Err::<Seq<Seq<char>>, Seq<char>>(m@),
            },
    {
        let pattern = "<script crossorigin src=\"(https://a-v2.sndcdn.com/assets/.*?.js)\"></script>";
        match pattern_error(pattern) {
            Some(m) => Err(m),
            None => {
                let matches = all_matches(pattern, home_html);
                let ghost all = regex_all_matches(asset_script_pattern(), home_html@);
                assert(matches@.map_values(|g: Vec<Option<String>>| groups_view(g@)) =~= all);
                Ok(first_groups_of(&matches))
            },
        }
    }

    /// The `client_id` an asset script holds (see [`asset_client_id`]).
    pub fn client_id_in(script: &str) -> (r: Result<Option<String>, String>)
        ensures
            match r {
                Ok(o) => asset_client_id(script@) == Ok::<Option<Seq<char>>, Seq<char>>(opt_chars(o)),
                Err(m) => asset_client_id(script@) == Err::<Option<Seq<char>>, Seq<char>>(m@),
            },
    {
        let pattern = ",client_id:\"([a-zA-Z0-9]+)\"";
        match pattern_error(pattern) {
            Some(m) => Err(m),
            None => match first_match(pattern, script) {
                Some(g) => Ok(group_text(&g, 1)),
                None => Ok(None),
            },
        }
    }

    /// The error when no asset script holds a `client_id`.
    pub fn client_id_missing() -> (m: String)
        ensures
            m@ == "Failed to fetch SoundCloud client_id"@,
    {
        String::from_str("Failed to fetch SoundCloud client_id")
    }

    /// The search address asked for `query`, which is put in as it is.
    pub fn search_url(&self, query: &str) -> (r: String)
        ensures
            r@ == "https://api-v2.soundcloud.com/search/tracks?q="@ + query@ + "&client_id="@
                + self.client_id_spec(),
    {
        join("https://api-v2.soundcloud.com/search/tracks?q=", query).concat("&client_id=").concat(
            self.client_id.as_str(),
        )
    }

    /// The tracks a search answer lists (see [`search_tracks_spec`]).
    pub fn search_tracks(payload: &JsonValue) -> (r: Vec<TrackMetadata>)
        ensures
            track_views(r@) == search_tracks_spec(*payload),
    {
        let mut out: Vec<TrackMetadata> = Vec::new();
        match as_array(get(Some(payload), "collection")) {
            Some(list) => {
                let mut i: usize = 0;
                while i < list.len()
                    invariant
                        i <= list@.len(),
                        track_views(out@) == list@.take(i as int).map_values(
                            |item: JsonValue| search_track(item),
                        ),
                    decreases list.len() - i,
                {
                    let item = &list[i];
                    let t = TrackMetadata {
                        title: str_or(get(Some(item), "title"), ""),
                        artist: str_or(get(get(Some(item), "user"), "username"), ""),
                        album: None,
                        album_art_url: match as_str(get(Some(item), "artwork_url")) {
                            Some(a) => Some(String::from_str(a)),
                            None => None,
                        },
                        track_id: u64_to_string(u64_or_zero(get(Some(item), "id"))),
                        source: AudioSource::SoundCloud,
                    };
                    let ghost prev = out@;
                    let ghost tv = t@;
                    out.push(t);
                    assert(track_views(out@) =~= track_views(prev).push(tv));
                    assert(list@.take(i + 1) =~= list@.take(i as int).push(list@[i as int]));
                    assert(list@.take(i + 1).map_values(|item: JsonValue| search_track(item))
                        =~= list@.take(i as int).map_values(|item: JsonValue| search_track(item)).push(tv));
                    i = i + 1;
                }
                assert(list@.take(list.len() as int) =~= list@);
            },
            None => {
                assert(track_views(out@) =~= Seq::<TrackMetadataView>::empty());
            },
        }
        out
    }

    /// The track address asked about `track_id`.
    pub fn track_url(&self, track_id: &str) -> (r: String)
        ensures
            r@ == "https://api-v2.soundcloud.com/tracks/"@ + track_id@ + "?client_id="@
                + self.client_id_spec(),
    {
        join("https://api-v2.soundcloud.com/tracks/", track_id).concat("?client_id=").concat(
            self.client_id.as_str(),
        )
    }

    /// The `client_id` asked with, for the progressive address's query.
    pub fn client_id(&self) -> (r: &str)
        ensures
            r@ == self.client_id_spec(),
    {
        self.client_id.as_str()
    }

    /// The address of the first progressive transcoding (see
    /// [`progressive_media_spec`]).
    pub fn progressive_media_url(track: &JsonValue) -> (r: Result<String, String>)
        ensures
            match r {
                Ok(u) => progressive_media_spec(*track) == Ok::<Seq<char>, Seq<char>>(u@),
                Err(m) => progressive_media_spec(*track) == Err::<Seq<char>, Seq<char>>(m@),
            },
    {
        let list = match as_array(get(get(Some(track), "media"), "transcodings")) {
            Some(l) => l,
            None => {
                return Err(String::from_str("No progressive stream found"));
            },
        };
        let mut i: usize = 0;
        while i < list.len()
            invariant
                i <= list@.len(),
                items(field(field(Some(*track), "media"@), "transcodings"@)) == Some(list@),
                forall|j: int| 0 <= j < i ==> !is_progressive(#[trigger] list@[j]),
            decreases list.len() - i,
        {
            let tc = &list[i];
            let is_prog = match as_str(get(get(Some(tc), "format"), "protocol")) {
                Some(p) => crate::text::str_eq(p, "progressive"),
                None => false,
            };
            if is_prog {
                proof {
                    assert(is_first_progressive(list@, i as int));
                    let c = choose|c: int| is_first_progressive(list@, c);
                    if c < i {
                        assert(!is_progressive(list@[c]));
                    } else if c > i {
                        assert(!is_progressive(list@[i as int]));
                    }
                }
                return match as_str(get(Some(tc), "url")) {
                    Some(u) => Ok(String::from_str(u)),
                    None => Err(String::from_str("No progressive stream found")),
                };
            }
            i = i + 1;
        }
        assert(!exists|c: int| is_first_progressive(list@, c));
        Err(String::from_str("No progressive stream found"))
    }

    /// The stream of track `track_id` from its track answer and the answer
    /// of its progressive address (see [`stream_info_spec`]).
    pub fn stream_info(track_id: &str, track: &JsonValue, answer: &JsonValue) -> (r: Result<
        StreamInfo,
        String,
    >)
        ensures
            match r {
                Ok(s) => stream_info_spec(track_id@, *track, *answer) == Ok::<StreamInfoView, Seq<char>>(s@),
                Err(m) => stream_info_spec(track_id@, *track, *answer) == Err::<StreamInfoView, Seq<char>>(m@),
            },
    {
        match as_str(get(Some(answer), "url")) {
            Some(u) => {
                let metadata = TrackMetadata {
                    title: str_or(get(Some(track), "title"), ""),
                    artist: str_or(get(get(Some(track), "user"), "username"), ""),
                    album: None,
                    album_art_url: match as_str(get(Some(track), "artwork_url")) {
                        Some(a) => Some(String::from_str(a)),
                        None => None,
                    },
                    track_id: String::from_str(track_id),
                    source: AudioSource::SoundCloud,
                };
                Ok(
                    StreamInfo {
                        stream_url: String::from_str(u),
                        format: String::from_str("mp3"),
                        bitrate: 128,
                        duration_secs: u64_or_zero(get(Some(track), "duration")) / 1000,
                        metadata,
                    },
                )
            },
            None => Err(String::from_str("No stream URL in response")),
        }
    }
}

} // verus!
