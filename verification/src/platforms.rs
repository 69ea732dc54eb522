//! Recognition of media URLs of the supported platforms.
//!
//! Each platform extractor looks for its host and path markers in the URL and
//! isolates the media identifier with [`clean_id`]. The registry tries the
//! extractors in a fixed order and reports the first match.
use vstd::prelude::*;
use crate::text::{
    after_first, before, before_char, chars_of, concat_chars, contains, contains_spec, find, find_char,
    find_spec, is_first_occurrence, lemma_find_some, occurs_at, second_piece, second_piece_of, slice_of,
    string_of,
};

verus! {

/// Represents the metadata extracted from a supported media URL.
#[derive(Debug, Clone, PartialEq, Eq)]
pub struct MediaMetadata {
    /// The name of the platform (e.g., "YouTube", "Twitter").
    pub platform: String,
    /// The type of media content (e.g., "Video", "Post", "Track").
    pub media_type: String,
    /// The unique identifier for the media on its respective platform.
    pub media_id: String,
}

/// The abstract content of a [`MediaMetadata`].
pub struct MetadataView {
    pub platform: Seq<char>,
    pub media_type: Seq<char>,
    pub media_id: Seq<char>,
}

impl View for MediaMetadata {
    type V = MetadataView;

    open spec fn view(&self) -> MetadataView {
        MetadataView {
            platform: self.platform@,
            media_type: self.media_type@,
            media_id: self.media_id@,
        }
    }
}

/// The abstract content of an optional [`MediaMetadata`].
pub open spec fn opt_meta_view(m: Option<MediaMetadata>) -> Option<MetadataView> {
    match m {
        Some(m) => Some(m@),
        None => None,
    }
}

// ---------------------------------------------------------------------------
// Specification of the URL rules
// ---------------------------------------------------------------------------

/// The identifier at the start of `part`: everything before the first `?`,
/// `&`, `#` or `/` (query, extra parameters, fragment, further path).
pub open spec fn clean_id_spec(part: Seq<char>) -> Seq<char> {
    before_char(before_char(before_char(before_char(part, '?'), '&'), '#'), '/')
}

/// The cleaned identifier after the first occurrence of `marker` in `url`.
pub open spec fn id_after(url: Seq<char>, marker: Seq<char>) -> Option<Seq<char>> {
    match after_first(url, marker) {
        Some(rest) => Some(clean_id_spec(rest)),
        None => None,
    }
}

/// A match for `platform` and `media_type` when `id` is present and not empty.
pub open spec fn found(platform: Seq<char>, media_type: Seq<char>, id: Option<Seq<char>>) -> Option<
    MetadataView,
> {
    match id {
        Some(id) => if id.len() > 0 {
            Some(MetadataView { platform, media_type, media_id: id })
        } else {
            None
        },
        None => None,
    }
}

/// `a` if it is a match, else `b`.
pub open spec fn or_else(a: Option<MetadataView>, b: Option<MetadataView>) -> Option<MetadataView> {
    if a is Some {
        a
    } else {
        b
    }
}

/// YouTube: `youtube.com/watch?...v=ID`, `youtu.be/ID` and `youtube.com/shorts/ID`.
pub open spec fn youtube_rule(url: Seq<char>) -> Option<MetadataView> {
    if contains_spec(url, "youtube.com/watch"@) {
        found("YouTube"@, "Video"@, id_after(url, "v="@))
    } else if contains_spec(url, "youtu.be/"@) {
        found("YouTube"@, "Video"@, id_after(url, "youtu.be/"@))
    } else if contains_spec(url, "youtube.com/shorts/"@) {
        found("YouTube"@, "Short"@, id_after(url, "youtube.com/shorts/"@))
    } else {
        None
    }
}

/// Twitter/X: `twitter.com/...` or `x.com/...` with `/status/ID`.
pub open spec fn twitter_rule(url: Seq<char>) -> Option<MetadataView> {
    if contains_spec(url, "twitter.com/"@) || contains_spec(url, "x.com/"@) {
        found("Twitter"@, "Post"@, id_after(url, "/status/"@))
    } else {
        None
    }
}

/// Instagram: `/p/ID` (post), `/reel/ID` (reel) and `/tv/ID` (IGTV), in that order.
pub open spec fn instagram_rule(url: Seq<char>) -> Option<MetadataView> {
    if contains_spec(url, "instagram.com/"@) {
        or_else(
            found("Instagram"@, "Post"@, id_after(url, "/p/"@)),
            or_else(
                found("Instagram"@, "Reel"@, id_after(url, "/reel/"@)),
                found("Instagram"@, "IGTV"@, id_after(url, "/tv/"@)),
            ),
        )
    } else {
        None
    }
}

/// TikTok: `tiktok.com/.../video/ID`.
pub open spec fn tiktok_rule(url: Seq<char>) -> Option<MetadataView> {
    if contains_spec(url, "tiktok.com/"@) {
        found("TikTok"@, "Video"@, id_after(url, "/video/"@))
    } else {
        None
    }
}

/// Reddit: `reddit.com/r/.../comments/ID`.
pub open spec fn reddit_rule(url: Seq<char>) -> Option<MetadataView> {
    if contains_spec(url, "reddit.com/r/"@) {
        found("Reddit"@, "Post"@, id_after(url, "/comments/"@))
    } else {
        None
    }
}

/// Twitch: VODs (`/videos/ID`), clips (`clip/ID` or `clips.twitch.tv/ID`)
/// and otherwise the channel of a live stream (`twitch.tv/CHANNEL`).
pub open spec fn twitch_rule(url: Seq<char>) -> Option<MetadataView> {
    if contains_spec(url, "twitch.tv/"@) {
        if contains_spec(url, "/videos/"@) {
            found("Twitch"@, "Video"@, id_after(url, "/videos/"@))
        } else if contains_spec(url, "clip/"@) {
            found("Twitch"@, "Clip"@, id_after(url, "clip/"@))
        } else if contains_spec(url, "clips.twitch.tv/"@) {
            found(
                "Twitch"@,
                "Clip"@,
                Some(clean_id_spec(second_piece(url, "clips.twitch.tv/"@))),
            )
        } else {
            found("Twitch"@, "Stream"@, id_after(url, "twitch.tv/"@))
        }
    } else {
        None
    }
}

/// Spotify: `/track/`, `/album/`, `/playlist/` and `/episode/` IDs, in that order.
pub open spec fn spotify_rule(url: Seq<char>) -> Option<MetadataView> {
    if contains_spec(url, "spotify.com/"@) {
        or_else(
            found("Spotify"@, "Track"@, id_after(url, "/track/"@)),
            or_else(
                found("Spotify"@, "Album"@, id_after(url, "/album/"@)),
                or_else(
                    found("Spotify"@, "Playlist"@, id_after(url, "/playlist/"@)),
                    found("Spotify"@, "Episode"@, id_after(url, "/episode/"@)),
                ),
            ),
        )
    } else {
        None
    }
}

/// What `char::is_numeric` returns for `c` (Unicode general categories Nd, Nl, No).
pub uninterp spec fn char_is_numeric(c: char) -> bool;

/// Vimeo: `vimeo.com/ID` where the ID is numeric.
pub open spec fn vimeo_rule(url: Seq<char>) -> Option<MetadataView> {
    match id_after(url, "vimeo.com/"@) {
        Some(id) => if id.len() > 0 && (forall|k: int|
            0 <= k < id.len() ==> #[trigger] char_is_numeric(id[k])) {
            Some(MetadataView { platform: "Vimeo"@, media_type: "Video"@, media_id: id })
        } else {
            None
        },
        None => None,
    }
}

/// SoundCloud: `soundcloud.com/ARTIST/TRACK`, identified by `ARTIST/TRACK`.
pub open spec fn soundcloud_rule(url: Seq<char>) -> Option<MetadataView> {
    match after_first(url, "soundcloud.com/"@) {
        Some(path) => {
            let q = before_char(before_char(before_char(path, '?'), '#'), '&');
            match find_spec(q, seq!['/']) {
                Some(k) => {
                    let artist = q.take(k);
                    let track = before_char(q.skip(k + 1), '/');
                    if artist.len() > 0 && track.len() > 0 {
                        Some(
                            MetadataView {
                                platform: "SoundCloud"@,
                                media_type: "Track"@,
                                media_id: artist + seq!['/'] + track,
                            },
                        )
                    } else {
                        None
                    }
                },
                None => None,
            }
        },
        None => None,
    }
}

// ---------------------------------------------------------------------------
// Laws of `clean_id`
// ---------------------------------------------------------------------------

/// A character that ends a media identifier in a URL.
pub open spec fn is_id_terminator(c: char) -> bool {
    c == '?' || c == '&' || c == '#' || c == '/'
}

proof fn lemma_before_char(s: Seq<char>, c: char)
    ensures
        before_char(s, c).is_prefix_of(s),
        forall|k: int| 0 <= k < before_char(s, c).len() ==> before_char(s, c)[k] != c,
        before_char(s, c).len() < s.len() ==> s[before_char(s, c).len() as int] == c,
{
    match find_spec(s, seq![c]) {
        Some(i) => {
            lemma_find_some(s, seq![c]);
            assert forall|k: int| 0 <= k < i implies s[k] != c by {
                assert(!occurs_at(s, seq![c], k));
                if s[k] == c {
                    assert(s.subrange(k, k + 1) =~= seq![c]);
                }
            }
            assert(s.subrange(i, i + 1)[0] == s[i]);
        },
        None => {
            assert forall|k: int| 0 <= k < s.len() implies s[k] != c by {
                if s[k] == c {
                    assert(s.subrange(k, k + 1) =~= seq![c]);
                    assert(occurs_at(s, seq![c], k));
                    let j = choose|j: int| 0 <= j <= k && occurs_at(s, seq![c], j) && forall|
                        m: int,
                    | 0 <= m < j ==> !occurs_at(s, seq![c], m);
                    assert(false) by {
                        lemma_first_exists(s, seq![c], k);
                    }
                }
            }
        },
    }
}

/// If `p` occurs at `k`, then a first occurrence exists.
proof fn lemma_first_exists(s: Seq<char>, p: Seq<char>, k: int)
    requires
        occurs_at(s, p, k),
    ensures
        find_spec(s, p) is Some,
    decreases k,
{
    if forall|m: int| 0 <= m < k ==> !occurs_at(s, p, m) {
        assert(is_first_occurrence(s, p, k));
    } else {
        let m = choose|m: int| 0 <= m < k && occurs_at(s, p, m);
        lemma_first_exists(s, p, m);
    }
}

/// `clean_id` gives a prefix of its argument that holds no `?`, `&`, `#` or
/// `/`, and that stops only at such a character or at the end.
pub proof fn law_clean_id_prefix(part: Seq<char>)
    ensures
        clean_id_spec(part).is_prefix_of(part),
        forall|k: int|
            0 <= k < clean_id_spec(part).len() ==> !is_id_terminator(#[trigger] clean_id_spec(part)[k]),
        clean_id_spec(part).len() < part.len() ==> is_id_terminator(
            part[clean_id_spec(part).len() as int],
        ),
{
    let a = before_char(part, '?');
    let b = before_char(a, '&');
    let c = before_char(b, '#');
    let d = before_char(c, '/');
    lemma_before_char(part, '?');
    lemma_before_char(a, '&');
    lemma_before_char(b, '#');
    lemma_before_char(c, '/');
    assert forall|k: int| 0 <= k < d.len() implies !is_id_terminator(#[trigger] d[k]) by {
        assert(d[k] == c[k]);
        assert(c[k] == b[k]);
        assert(b[k] == a[k]);
    }
    if d.len() < part.len() {
        let n = d.len() as int;
        if n < c.len() {
        } else if n < b.len() {
            assert(c.len() == n);
            assert(part[n] == b[n]);
        } else if n < a.len() {
            assert(part[n] == a[n]);
        } else {
        }
    }
}

/// Cleaning an identifier that is already clean changes nothing.
pub proof fn law_clean_id_idempotent(part: Seq<char>)
    ensures
        clean_id_spec(clean_id_spec(part)) == clean_id_spec(part),
{
    let d = clean_id_spec(part);
    law_clean_id_prefix(part);
    lemma_no_char_before(d, '?');
    lemma_no_char_before(d, '&');
    lemma_no_char_before(d, '#');
    lemma_no_char_before(d, '/');
}

/// A media identifier as the registry reports it: at least one character,
/// no query (`?`, `&`) or fragment (`#`) part, and no trailing `/`.
pub open spec fn is_clean_media_id(id: Seq<char>) -> bool {
    &&& id.len() > 0
    &&& forall|k: int| 0 <= k < id.len() ==> id[k] != '?' && id[k] != '&' && id[k] != '#'
    &&& id.last() != '/'
}

/// Exactly one character of `id` is a `/`.
pub open spec fn has_one_slash(id: Seq<char>) -> bool {
    exists|k: int|
        0 <= k < id.len() && #[trigger] id[k] == '/' && forall|j: int| 0 <= j < id.len() && j != k ==> id[j] != '/'
}

/// Where a `/` may stand in an identifier: a SoundCloud `ARTIST/TRACK` has
/// exactly one, the identifiers of the other platforms none.
pub open spec fn has_slash_shape(m: MetadataView) -> bool {
    if m.platform == "SoundCloud"@ {
        has_one_slash(m.media_id)
    } else {
        forall|k: int| 0 <= k < m.media_id.len() ==> m.media_id[k] != '/'
    }
}

/// No `?`, `&`, `#` or `/` in `s`.
pub open spec fn lacks_id_terminators(s: Seq<char>) -> bool {
    forall|k: int| 0 <= k < s.len() ==> !is_id_terminator(#[trigger] s[k])
}

/// A cleaned identifier holds no `?`, `&`, `#` or `/`.
proof fn lemma_clean_id_lacks(part: Seq<char>)
    ensures
        lacks_id_terminators(clean_id_spec(part)),
{
    law_clean_id_prefix(part);
}

/// What `found` reports for a platform other than SoundCloud is clean and
/// holds no `/`, when the identifier it is given lacks the terminators.
proof fn lemma_found_clean(platform: Seq<char>, media_type: Seq<char>, id: Option<Seq<char>>)
    requires
        id matches Some(x) ==> lacks_id_terminators(x),
        platform != "SoundCloud"@,
    ensures
        found(platform, media_type, id) matches Some(m) ==> is_clean_media_id(m.media_id)
            && has_slash_shape(m),
{
    if let Some(x) = id {
        if x.len() > 0 {
            assert(!is_id_terminator(x[x.len() - 1]));
            assert forall|k: int| 0 <= k < x.len() implies x[k] != '?' && x[k] != '&' && x[k] != '#'
                && x[k] != '/' by {
                assert(!is_id_terminator(x[k]));
            }
        }
    }
}

/// The identifier after a marker lacks `?`, `&`, `#` and `/`.
proof fn lemma_id_after_lacks(url: Seq<char>, marker: Seq<char>)
    ensures
        id_after(url, marker) matches Some(x) ==> lacks_id_terminators(x),
{
    if let Some(rest) = after_first(url, marker) {
        lemma_clean_id_lacks(rest);
    }
}

/// The names of the platforms other than SoundCloud differ from it.
proof fn lemma_platform_names_differ()
    ensures
        "YouTube"@ != "SoundCloud"@,
        "Twitter"@ != "SoundCloud"@,
        "Instagram"@ != "SoundCloud"@,
        "TikTok"@ != "SoundCloud"@,
        "Reddit"@ != "SoundCloud"@,
        "Twitch"@ != "SoundCloud"@,
        "Spotify"@ != "SoundCloud"@,
        "Vimeo"@ != "SoundCloud"@,
{
    reveal_strlit("SoundCloud");
    reveal_strlit("YouTube");
    reveal_strlit("Twitter");
    reveal_strlit("Instagram");
    reveal_strlit("TikTok");
    reveal_strlit("Reddit");
    reveal_strlit("Twitch");
    reveal_strlit("Spotify");
    reveal_strlit("Vimeo");
    assert("SoundCloud"@.len() == 10);
    assert("YouTube"@.len() == 7);
    assert("Twitter"@.len() == 7);
    assert("Instagram"@.len() == 9);
    assert("TikTok"@.len() == 6);
    assert("Reddit"@.len() == 6);
    assert("Twitch"@.len() == 6);
    assert("Spotify"@.len() == 7);
    assert("Vimeo"@.len() == 5);
}

/// The SoundCloud identifier: `ARTIST/TRACK` with one `/`, no `?`, `&` or
/// `#`, and a last character that is not `/`.
proof fn lemma_soundcloud_id_clean(url: Seq<char>)
    ensures
        soundcloud_rule(url) matches Some(m) ==> is_clean_media_id(m.media_id) && has_slash_shape(m),
{
    if let Some(path) = after_first(url, "soundcloud.com/"@) {
        let a = before_char(path, '?');
        let b = before_char(a, '#');
        let q = before_char(b, '&');
        lemma_before_char(path, '?');
        lemma_before_char(a, '#');
        lemma_before_char(b, '&');
        assert forall|j: int| 0 <= j < q.len() implies q[j] != '?' && q[j] != '#' && q[j] != '&' by {
            assert(q[j] == b[j]);
            assert(b[j] == a[j]);
        }
        if let Some(k) = find_spec(q, seq!['/']) {
            lemma_find_some(q, seq!['/']);
            lemma_before_char(q, '/');
            assert(before_char(q, '/') == q.take(k));
            let artist = q.take(k);
            let rest = q.skip(k + 1);
            let track = before_char(rest, '/');
            lemma_before_char(rest, '/');
            let id = artist + seq!['/'] + track;
            if artist.len() > 0 && track.len() > 0 {
                assert(q.subrange(k, k + 1)[0] == q[k]);
                assert forall|j: int| 0 <= j < id.len() implies id[j] != '?' && id[j] != '&' && id[j] != '#'
                    && (j != k ==> id[j] != '/') by {
                    if j < k {
                        assert(id[j] == q[j]);
                        assert(artist[j] == q[j]);
                    } else if j > k {
                        assert(id[j] == track[j - k - 1]);
                        assert(track[j - k - 1] == rest[j - k - 1]);
                        assert(rest[j - k - 1] == q[j]);
                    }
                }
                assert(id[k] == '/');
                assert(id.last() == track.last());
                assert(has_one_slash(id));
                reveal_strlit("SoundCloud");
            }
        }
    }
}

/// Every identifier a platform recognizes is clean and has its platform's
/// shape of `/`.
proof fn lemma_platform_ids_clean(p: Platform, url: Seq<char>)
    ensures
        p.recognize(url) matches Some(m) ==> is_clean_media_id(m.media_id) && has_slash_shape(m),
{
    lemma_platform_names_differ();
    lemma_clean_id_lacks(second_piece(url, "clips.twitch.tv/"@));
    match p {
        Platform::YouTube => {
            lemma_id_after_lacks(url, "v="@);
            lemma_found_clean("YouTube"@, "Video"@, id_after(url, "v="@));
            lemma_id_after_lacks(url, "youtu.be/"@);
            lemma_found_clean("YouTube"@, "Video"@, id_after(url, "youtu.be/"@));
            lemma_id_after_lacks(url, "youtube.com/shorts/"@);
            lemma_found_clean("YouTube"@, "Short"@, id_after(url, "youtube.com/shorts/"@));
        },
        Platform::Twitter => {
            lemma_id_after_lacks(url, "/status/"@);
            lemma_found_clean("Twitter"@, "Post"@, id_after(url, "/status/"@));
        },
        Platform::Instagram => {
            lemma_id_after_lacks(url, "/p/"@);
            lemma_found_clean("Instagram"@, "Post"@, id_after(url, "/p/"@));
            lemma_id_after_lacks(url, "/reel/"@);
            lemma_found_clean("Instagram"@, "Reel"@, id_after(url, "/reel/"@));
            lemma_id_after_lacks(url, "/tv/"@);
            lemma_found_clean("Instagram"@, "IGTV"@, id_after(url, "/tv/"@));
        },
        Platform::TikTok => {
            lemma_id_after_lacks(url, "/video/"@);
            lemma_found_clean("TikTok"@, "Video"@, id_after(url, "/video/"@));
        },
        Platform::Reddit => {
            lemma_id_after_lacks(url, "/comments/"@);
            lemma_found_clean("Reddit"@, "Post"@, id_after(url, "/comments/"@));
        },
        Platform::Twitch => {
            lemma_id_after_lacks(url, "/videos/"@);
            lemma_found_clean("Twitch"@, "Video"@, id_after(url, "/videos/"@));
            lemma_id_after_lacks(url, "clip/"@);
            lemma_found_clean("Twitch"@, "Clip"@, id_after(url, "clip/"@));
            lemma_found_clean(
                "Twitch"@,
                "Clip"@,
                Some(clean_id_spec(second_piece(url, "clips.twitch.tv/"@))),
            );
            lemma_id_after_lacks(url, "twitch.tv/"@);
            lemma_found_clean("Twitch"@, "Stream"@, id_after(url, "twitch.tv/"@));
        },
        Platform::Spotify => {
            lemma_id_after_lacks(url, "/track/"@);
            lemma_found_clean("Spotify"@, "Track"@, id_after(url, "/track/"@));
            lemma_id_after_lacks(url, "/album/"@);
            lemma_found_clean("Spotify"@, "Album"@, id_after(url, "/album/"@));
            lemma_id_after_lacks(url, "/playlist/"@);
            lemma_found_clean("Spotify"@, "Playlist"@, id_after(url, "/playlist/"@));
            lemma_id_after_lacks(url, "/episode/"@);
            lemma_found_clean("Spotify"@, "Episode"@, id_after(url, "/episode/"@));
        },
        Platform::Vimeo => {
            lemma_id_after_lacks(url, "vimeo.com/"@);
            if let Some(x) = id_after(url, "vimeo.com/"@) {
                if x.len() > 0 {
                    assert(!is_id_terminator(x[x.len() - 1]));
                    assert forall|k: int| 0 <= k < x.len() implies x[k] != '?' && x[k] != '&' && x[k]
                        != '#' && x[k] != '/' by {
                        assert(!is_id_terminator(x[k]));
                    }
                }
            }
        },
        Platform::SoundCloud => {
            lemma_soundcloud_id_clean(url);
        },
    }
}

/// Whatever the default registry extracts carries a non-empty identifier
/// with no query (`?`, `&`), fragment (`#`) or trailing `/`; only a
/// SoundCloud identifier holds a `/`, and exactly one.
pub proof fn law_registry_ids_clean(url: Seq<char>)
    ensures
        first_recognized(default_platforms(), url) matches Some(m) ==> is_clean_media_id(m.media_id)
            && has_slash_shape(m),
{
    lemma_first_recognized_clean(default_platforms(), url);
}

/// The first recognized identifier among `platforms` is clean.
proof fn lemma_first_recognized_clean(platforms: Seq<Platform>, url: Seq<char>)
    ensures
        first_recognized(platforms, url) matches Some(m) ==> is_clean_media_id(m.media_id)
            && has_slash_shape(m),
    decreases platforms.len(),
{
    if platforms.len() > 0 {
        lemma_platform_ids_clean(platforms[0], url);
        lemma_first_recognized_clean(platforms.drop_first(), url);
    }
}

/// Cutting before a character that does not occur leaves the sequence whole.
proof fn lemma_no_char_before(s: Seq<char>, c: char)
    requires
        forall|k: int| 0 <= k < s.len() ==> s[k] != c,
    ensures
        before_char(s, c) == s,
{
    if find_spec(s, seq![c]) is Some {
        lemma_find_some(s, seq![c]);
        let i = find_spec(s, seq![c])->0;
        assert(s.subrange(i, i + 1)[0] == s[i]);
    }
}

// ---------------------------------------------------------------------------
// Executable extraction
// ---------------------------------------------------------------------------

/// The identifier at the start of `part` (see [`clean_id_spec`]).
fn clean_id_chars(part: &[char]) -> (r: Vec<char>)
    ensures
        r@ == clean_id_spec(part@),
{
    let a = before(part, '?');
    let b = before(&a, '&');
    let c = before(&b, '#');
    before(&c, '/')
}

/// Safely strips query parameters, fragment identifiers, and trailing slashes
/// from parsed URL segments to reliably isolate the raw ID.
pub fn clean_id(part: &str) -> (r: String)
    ensures
        r@ == clean_id_spec(part@),
{
    let chars = chars_of(part);
    let id = clean_id_chars(&chars);
    string_of(&id)
}

/// The cleaned identifier after the first occurrence of `marker` in `url`.
fn id_after_exec(url: &[char], marker: &str) -> (r: Option<Vec<char>>)
    ensures
        match r {
            Some(v) => id_after(url@, marker@) == Some(v@),
            None => id_after(url@, marker@) is None,
        },
{
    let m = chars_of(marker);
    match find(url, m.as_slice()) {
        Some(i) => {
            let n = url.len();
            let rest = slice_of(url, i + m.len(), n);
            assert(rest@ =~= url@.skip(i + m@.len()));
            Some(clean_id_chars(&rest))
        },
        None => None,
    }
}

/// Whether `url` contains `marker`.
fn has(url: &[char], marker: &str) -> (b: bool)
    ensures
        b == contains_spec(url@, marker@),
{
    let m = chars_of(marker);
    contains(url, &m)
}

/// Builds the metadata for a match (see [`found`]).
fn found_exec(platform: &str, media_type: &str, id: Option<Vec<char>>) -> (r: Option<MediaMetadata>)
    ensures
        opt_meta_view(r) == found(
            platform@,
            media_type@,
            match id {
                Some(v) => Some(v@),
                None => None,
            },
        ),
{
    match id {
        Some(id) => {
            if id.len() > 0 {
                Some(
                    MediaMetadata {
                        platform: String::from_str(platform),
                        media_type: String::from_str(media_type),
                        media_id: string_of(&id),
                    },
                )
            } else {
                None
            }
        },
        None => None,
    }
}

/// Calls `char::is_numeric`. The result is named [`char_is_numeric`]; which
/// characters are numeric is Unicode's classification and is not spelled out here.
#[verifier::external_body]
fn is_numeric(c: char) -> (b: bool)
    ensures
        b == char_is_numeric(c),
{
    c.is_numeric()
}

/// Core trait that allows scaling to an arbitrary number of media platforms.
/// Any new platform extractor must implement this trait.
pub trait PlatformExtractor {
    /// The metadata this extractor finds in `url`, if it recognizes it.
    spec fn recognize(&self, url: Seq<char>) -> Option<MetadataView>;

    /// Attempts to extract media metadata from the given URL.
    /// Returns `Some(MediaMetadata)` if successful, or `None` if the URL is not recognized by this extractor.
    fn extract(&self, url: &str) -> (r: Option<MediaMetadata>)
        ensures
            opt_meta_view(r) == self.recognize(url@),
    ;
}

/// Extractor for YouTube URLs (videos and shorts).
pub struct YouTubeExtractor;

impl PlatformExtractor for YouTubeExtractor {
    open spec fn recognize(&self, url: Seq<char>) -> Option<MetadataView> {
        youtube_rule(url)
    }

    fn extract(&self, url: &str) -> (r: Option<MediaMetadata>) {
        let u = chars_of(url);
        if has(&u, "youtube.com/watch") {
            found_exec("YouTube", "Video", id_after_exec(&u, "v="))
        } else if has(&u, "youtu.be/") {
            found_exec("YouTube", "Video", id_after_exec(&u, "youtu.be/"))
        } else if has(&u, "youtube.com/shorts/") {
            found_exec("YouTube", "Short", id_after_exec(&u, "youtube.com/shorts/"))
        } else {
            None
        }
    }
}

/// Extractor for Twitter/X URLs.
pub struct TwitterExtractor;

impl PlatformExtractor for TwitterExtractor {
    open spec fn recognize(&self, url: Seq<char>) -> Option<MetadataView> {
        twitter_rule(url)
    }

    fn extract(&self, url: &str) -> (r: Option<MediaMetadata>) {
        let u = chars_of(url);
        if has(&u, "twitter.com/") || has(&u, "x.com/") {
            found_exec("Twitter", "Post", id_after_exec(&u, "/status/"))
        } else {
            None
        }
    }
}

/// Extractor for Instagram URLs (posts, reels, IGTV).
pub struct InstagramExtractor;

impl PlatformExtractor for InstagramExtractor {
    open spec fn recognize(&self, url: Seq<char>) -> Option<MetadataView> {
        instagram_rule(url)
    }

    fn extract(&self, url: &str) -> (r: Option<MediaMetadata>) {
        let u = chars_of(url);
        if has(&u, "instagram.com/") {
            let post = found_exec("Instagram", "Post", id_after_exec(&u, "/p/"));
            if post.is_some() {
                return post;
            }
            let reel = found_exec("Instagram", "Reel", id_after_exec(&u, "/reel/"));
            if reel.is_some() {
                return reel;
            }
            found_exec("Instagram", "IGTV", id_after_exec(&u, "/tv/"))
        } else {
            None
        }
    }
}

/// Extractor for TikTok URLs.
pub struct TikTokExtractor;

impl PlatformExtractor for TikTokExtractor {
    open spec fn recognize(&self, url: Seq<char>) -> Option<MetadataView> {
        tiktok_rule(url)
    }

    fn extract(&self, url: &str) -> (r: Option<MediaMetadata>) {
        let u = chars_of(url);
        if has(&u, "tiktok.com/") {
            found_exec("TikTok", "Video", id_after_exec(&u, "/video/"))
        } else {
            None
        }
    }
}

/// Extractor for Reddit URLs.
pub struct RedditExtractor;

impl PlatformExtractor for RedditExtractor {
    open spec fn recognize(&self, url: Seq<char>) -> Option<MetadataView> {
        reddit_rule(url)
    }

    fn extract(&self, url: &str) -> (r: Option<MediaMetadata>) {
        let u = chars_of(url);
        if has(&u, "reddit.com/r/") {
            found_exec("Reddit", "Post", id_after_exec(&u, "/comments/"))
        } else {
            None
        }
    }
}

/// Extractor for Twitch URLs (VODs, clips, streams).
pub struct TwitchExtractor;

impl PlatformExtractor for TwitchExtractor {
    open spec fn recognize(&self, url: Seq<char>) -> Option<MetadataView> {
        twitch_rule(url)
    }

    fn extract(&self, url: &str) -> (r: Option<MediaMetadata>) {
        let u = chars_of(url);
        if has(&u, "twitch.tv/") {
            if has(&u, "/videos/") {
                found_exec("Twitch", "Video", id_after_exec(&u, "/videos/"))
            } else if has(&u, "clip/") {
                found_exec("Twitch", "Clip", id_after_exec(&u, "clip/"))
            } else if has(&u, "clips.twitch.tv/") {
                let piece = second_piece_of(&u, "clips.twitch.tv/");
                found_exec("Twitch", "Clip", Some(clean_id_chars(&piece)))
            } else {
                found_exec("Twitch", "Stream", id_after_exec(&u, "twitch.tv/"))
            }
        } else {
            None
        }
    }
}

/// Extractor for Spotify URLs (tracks, albums, playlists, episodes).
pub struct SpotifyExtractor;

impl PlatformExtractor for SpotifyExtractor {
    open spec fn recognize(&self, url: Seq<char>) -> Option<MetadataView> {
        spotify_rule(url)
    }

    fn extract(&self, url: &str) -> (r: Option<MediaMetadata>) {
        let u = chars_of(url);
        if has(&u, "spotify.com/") {
            let track = found_exec("Spotify", "Track", id_after_exec(&u, "/track/"));
            if track.is_some() {
                return track;
            }
            let album = found_exec("Spotify", "Album", id_after_exec(&u, "/album/"));
            if album.is_some() {
                return album;
            }
            let playlist = found_exec("Spotify", "Playlist", id_after_exec(&u, "/playlist/"));
            if playlist.is_some() {
                return playlist;
            }
            found_exec("Spotify", "Episode", id_after_exec(&u, "/episode/"))
        } else {
            None
        }
    }
}

/// Extractor for Vimeo URLs.
pub struct VimeoExtractor;

impl PlatformExtractor for VimeoExtractor {
    open spec fn recognize(&self, url: Seq<char>) -> Option<MetadataView> {
        vimeo_rule(url)
    }

    fn extract(&self, url: &str) -> (r: Option<MediaMetadata>) {
        let u = chars_of(url);
        match id_after_exec(&u, "vimeo.com/") {
            Some(id) => {
                if id.len() == 0 {
                    return None;
                }
                let mut k: usize = 0;
                while k < id.len()
                    invariant
                        k <= id.len(),
                        u@ == url@,
                        id_after(u@, "vimeo.com/"@) == Some(id@),
                        forall|j: int| 0 <= j < k ==> #[trigger] char_is_numeric(id@[j]),
                    decreases id.len() - k,
                {
                    if !is_numeric(id[k]) {
                        assert(!char_is_numeric(id@[k as int]));
                        return None;
                    }
                    k = k + 1;
                }
                Some(
                    MediaMetadata {
                        platform: String::from_str("Vimeo"),
                        media_type: String::from_str("Video"),
                        media_id: string_of(&id),
                    },
                )
            },
            None => None,
        }
    }
}

/// Extractor for SoundCloud URLs.
pub struct SoundCloudExtractor;

impl PlatformExtractor for SoundCloudExtractor {
    open spec fn recognize(&self, url: Seq<char>) -> Option<MetadataView> {
        soundcloud_rule(url)
    }

    fn extract(&self, url: &str) -> (r: Option<MediaMetadata>) {
        let u = chars_of(url);
        let m = chars_of("soundcloud.com/");
        match find(u.as_slice(), m.as_slice()) {
            Some(i) => {
                let n = u.len();
                let path = slice_of(&u, i + m.len(), n);
                assert(path@ =~= u@.skip(i + m@.len()));
                let p1 = before(&path, '?');
                let p2 = before(&p1, '#');
                let q = before(&p2, '&');
                match find_char(&q, '/') {
                    Some(k) => {
                        let artist = slice_of(&q, 0, k);
                        let qn = q.len();
                        let after = slice_of(&q, k + 1, qn);
                        assert(after@ =~= q@.skip(k + 1));
                        let track = before(&after, '/');
                        if artist.len() > 0 && track.len() > 0 {
                            let ghost artist_v = artist@;
                            let mut id = artist;
                            id.push('/');
                            let id = concat_chars(&id, &track);
                            assert(id@ =~= artist_v + seq!['/'] + track@);
                            Some(
                                MediaMetadata {
                                    platform: String::from_str("SoundCloud"),
                                    media_type: String::from_str("Track"),
                                    media_id: string_of(&id),
                                },
                            )
                        } else {
                            None
                        }
                    },
                    None => None,
                }
            },
            None => None,
        }
    }
}

// ---------------------------------------------------------------------------
// Registry
// ---------------------------------------------------------------------------

/// One of the platform extractors that a registry can hold.
#[derive(Clone, Copy, PartialEq, Eq, Debug)]
pub enum Platform {
    YouTube,
    Twitter,
    Instagram,
    TikTok,
    Reddit,
    Twitch,
    Spotify,
    Vimeo,
    SoundCloud,
}

impl Platform {
    /// The metadata this platform's extractor finds in `url`.
    pub open spec fn recognize(self, url: Seq<char>) -> Option<MetadataView> {
        match self {
            Platform::YouTube => youtube_rule(url),
            Platform::Twitter => twitter_rule(url),
            Platform::Instagram => instagram_rule(url),
            Platform::TikTok => tiktok_rule(url),
            Platform::Reddit => reddit_rule(url),
            Platform::Twitch => twitch_rule(url),
            Platform::Spotify => spotify_rule(url),
            Platform::Vimeo => vimeo_rule(url),
            Platform::SoundCloud => soundcloud_rule(url),
        }
    }

    /// Runs this platform's extractor on `url`.
    pub fn extract(&self, url: &str) -> (r: Option<MediaMetadata>)
        ensures
            opt_meta_view(r) == self.recognize(url@),
    {
        match self {
            Platform::YouTube => YouTubeExtractor.extract(url),
            Platform::Twitter => TwitterExtractor.extract(url),
            Platform::Instagram => InstagramExtractor.extract(url),
            Platform::TikTok => TikTokExtractor.extract(url),
            Platform::Reddit => RedditExtractor.extract(url),
            Platform::Twitch => TwitchExtractor.extract(url),
            Platform::Spotify => SpotifyExtractor.extract(url),
            Platform::Vimeo => VimeoExtractor.extract(url),
            Platform::SoundCloud => SoundCloudExtractor.extract(url),
        }
    }
}

/// The result of the first of `platforms` that recognizes `url`.
pub open spec fn first_recognized(platforms: Seq<Platform>, url: Seq<char>) -> Option<MetadataView>
    decreases platforms.len(),
{
    if platforms.len() == 0 {
        None
    } else {
        or_else(platforms[0].recognize(url), first_recognized(platforms.drop_first(), url))
    }
}

/// The platforms of the default registry, in the order they are tried.
pub open spec fn default_platforms() -> Seq<Platform> {
    seq![
        Platform::YouTube,
        Platform::Twitter,
        Platform::Instagram,
        Platform::TikTok,
        Platform::Reddit,
        Platform::Twitch,
        Platform::Spotify,
        Platform::Vimeo,
        Platform::SoundCloud,
    ]
}

/// The message of the error for a URL that no platform recognizes.
pub open spec fn no_platform_message(url: Seq<char>) -> Seq<char> {
    "No supported platform found for URL: "@ + url
}

/// None of the host markers of the platforms tried before the `n`-th one
/// (in the order of [`default_platforms`]) occurs in `url`.
pub open spec fn no_earlier_host(url: Seq<char>, n: int) -> bool {
    &&& n > 0 ==> !contains_spec(url, "youtube.com/watch"@) && !contains_spec(url, "youtu.be/"@)
        && !contains_spec(url, "youtube.com/shorts/"@)
    &&& n > 1 ==> !contains_spec(url, "twitter.com/"@) && !contains_spec(url, "x.com/"@)
    &&& n > 2 ==> !contains_spec(url, "instagram.com/"@)
    &&& n > 3 ==> !contains_spec(url, "tiktok.com/"@)
    &&& n > 4 ==> !contains_spec(url, "reddit.com/r/"@)
    &&& n > 5 ==> !contains_spec(url, "twitch.tv/"@)
    &&& n > 6 ==> !contains_spec(url, "spotify.com/"@)
    &&& n > 7 ==> !contains_spec(url, "vimeo.com/"@)
}

/// An identifier that stands after `marker` in `url` and is not empty.
pub open spec fn has_id_after(url: Seq<char>, marker: Seq<char>) -> bool {
    id_after(url, marker) matches Some(id) && id.len() > 0
}

/// The media found: platform, kind and the identifier after `marker`.
pub open spec fn media_after(platform: Seq<char>, media_type: Seq<char>, url: Seq<char>, marker: Seq<char>) -> Option<
    MetadataView,
> {
    Some(MetadataView { platform, media_type, media_id: id_after(url, marker)->0 })
}

/// Platforms that do not recognize a URL are passed over by the registry.
proof fn lemma_skip_unrecognized(url: Seq<char>, n: int)
    requires
        0 <= n <= 9,
        forall|i: int| 0 <= i < n ==> (#[trigger] default_platforms()[i]).recognize(url) is None,
    ensures
        first_recognized(default_platforms(), url) == first_recognized(default_platforms().skip(n), url),
    decreases n,
{
    if n > 0 {
        lemma_skip_unrecognized(url, n - 1);
        let p = default_platforms().skip(n - 1);
        assert(p.len() > 0);
        assert(p[0] == default_platforms()[n - 1]);
        assert(default_platforms()[n - 1].recognize(url) is None);
        assert(p.drop_first() =~= default_platforms().skip(n));
        assert(first_recognized(p, url) == or_else(p[0].recognize(url), first_recognized(p.drop_first(), url)));
    } else {
        assert(default_platforms().skip(0) =~= default_platforms());
    }
}

/// A URL that names none of the earlier hosts reaches the `n`-th platform,
/// and the registry gives what that platform finds if it finds anything.
proof fn lemma_reaches(url: Seq<char>, n: int)
    requires
        0 <= n < 9,
        no_earlier_host(url, n),
    ensures
        default_platforms()[n].recognize(url) is Some ==> first_recognized(default_platforms(), url)
            == default_platforms()[n].recognize(url),
{
    assert forall|i: int| 0 <= i < n implies (#[trigger] default_platforms()[i]).recognize(url) is None by {
        if i == 7 {
            assert(id_after(url, "vimeo.com/"@) is None);
        }
    }
    lemma_skip_unrecognized(url, n);
    let p = default_platforms().skip(n);
    assert(p[0] == default_platforms()[n]);
}

/// YouTube links: a watch page gives the video after `v=`, a `youtu.be/`
/// link the video after it, and a `youtube.com/shorts/` link a short.
pub proof fn law_registry_youtube(url: Seq<char>)
    ensures
        contains_spec(url, "youtube.com/watch"@) && has_id_after(url, "v="@) ==> first_recognized(
            default_platforms(),
            url,
        ) == media_after("YouTube"@, "Video"@, url, "v="@),
        !contains_spec(url, "youtube.com/watch"@) && contains_spec(url, "youtu.be/"@) && has_id_after(
            url,
            "youtu.be/"@,
        ) ==> first_recognized(default_platforms(), url) == media_after("YouTube"@, "Video"@, url, "youtu.be/"@),
        !contains_spec(url, "youtube.com/watch"@) && !contains_spec(url, "youtu.be/"@) && contains_spec(
            url,
            "youtube.com/shorts/"@,
        ) && has_id_after(url, "youtube.com/shorts/"@) ==> first_recognized(default_platforms(), url)
            == media_after("YouTube"@, "Short"@, url, "youtube.com/shorts/"@),
{
    lemma_reaches(url, 0);
}

/// Twitter and X links give the post after `/status/`.
pub proof fn law_registry_twitter(url: Seq<char>)
    requires
        no_earlier_host(url, 1),
        contains_spec(url, "twitter.com/"@) || contains_spec(url, "x.com/"@),
        has_id_after(url, "/status/"@),
    ensures
        first_recognized(default_platforms(), url) == media_after("Twitter"@, "Post"@, url, "/status/"@),
{
    lemma_reaches(url, 1);
}

/// Instagram links: a post after `/p/`, else a reel after `/reel/`, else an
/// IGTV video after `/tv/`.
pub proof fn law_registry_instagram(url: Seq<char>)
    requires
        no_earlier_host(url, 2),
        contains_spec(url, "instagram.com/"@),
    ensures
        has_id_after(url, "/p/"@) ==> first_recognized(default_platforms(), url) == media_after(
            "Instagram"@,
            "Post"@,
            url,
            "/p/"@,
        ),
        !has_id_after(url, "/p/"@) && has_id_after(url, "/reel/"@) ==> first_recognized(
            default_platforms(),
            url,
        ) == media_after("Instagram"@, "Reel"@, url, "/reel/"@),
        !has_id_after(url, "/p/"@) && !has_id_after(url, "/reel/"@) && has_id_after(url, "/tv/"@)
            ==> first_recognized(default_platforms(), url) == media_after("Instagram"@, "IGTV"@, url, "/tv/"@),
{
    lemma_reaches(url, 2);
}

/// TikTok links give the video after `/video/`.
pub proof fn law_registry_tiktok(url: Seq<char>)
    requires
        no_earlier_host(url, 3),
        contains_spec(url, "tiktok.com/"@),
        has_id_after(url, "/video/"@),
    ensures
        first_recognized(default_platforms(), url) == media_after("TikTok"@, "Video"@, url, "/video/"@),
{
    lemma_reaches(url, 3);
}

/// Reddit links under `reddit.com/r/` give the post after `/comments/`.
pub proof fn law_registry_reddit(url: Seq<char>)
    requires
        no_earlier_host(url, 4),
        contains_spec(url, "reddit.com/r/"@),
        has_id_after(url, "/comments/"@),
    ensures
        first_recognized(default_platforms(), url) == media_after("Reddit"@, "Post"@, url, "/comments/"@),
{
    lemma_reaches(url, 4);
}

/// Twitch links: a video after `/videos/`, else a clip after `clip/`, else
/// the live stream of the channel after `twitch.tv/`.
pub proof fn law_registry_twitch(url: Seq<char>)
    requires
        no_earlier_host(url, 5),
        contains_spec(url, "twitch.tv/"@),
    ensures
        has_id_after(url, "/videos/"@) ==> first_recognized(default_platforms(), url) == media_after(
            "Twitch"@,
            "Video"@,
            url,
            "/videos/"@,
        ),
        !contains_spec(url, "/videos/"@) && has_id_after(url, "clip/"@) ==> first_recognized(
            default_platforms(),
            url,
        ) == media_after("Twitch"@, "Clip"@, url, "clip/"@),
        !contains_spec(url, "/videos/"@) && !contains_spec(url, "clip/"@) && !contains_spec(
            url,
            "clips.twitch.tv/"@,
        ) && has_id_after(url, "twitch.tv/"@) ==> first_recognized(default_platforms(), url)
            == media_after("Twitch"@, "Stream"@, url, "twitch.tv/"@),
{
    lemma_reaches(url, 5);
    if has_id_after(url, "/videos/"@) {
        assert(contains_spec(url, "/videos/"@));
    }
    if !contains_spec(url, "/videos/"@) && has_id_after(url, "clip/"@) {
        assert(contains_spec(url, "clip/"@));
    }
}

/// Spotify links: a track, else an album, else a playlist, else an episode.
pub proof fn law_registry_spotify(url: Seq<char>)
    requires
        no_earlier_host(url, 6),
        contains_spec(url, "spotify.com/"@),
    ensures
        has_id_after(url, "/track/"@) ==> first_recognized(default_platforms(), url) == media_after(
            "Spotify"@,
            "Track"@,
            url,
            "/track/"@,
        ),
        !has_id_after(url, "/track/"@) && has_id_after(url, "/album/"@) ==> first_recognized(
            default_platforms(),
            url,
        ) == media_after("Spotify"@, "Album"@, url, "/album/"@),
        !has_id_after(url, "/track/"@) && !has_id_after(url, "/album/"@) && has_id_after(url, "/playlist/"@)
            ==> first_recognized(default_platforms(), url) == media_after(
            "Spotify"@,
            "Playlist"@,
            url,
            "/playlist/"@,
        ),
        !has_id_after(url, "/track/"@) && !has_id_after(url, "/album/"@) && !has_id_after(url, "/playlist/"@)
            && has_id_after(url, "/episode/"@) ==> first_recognized(default_platforms(), url) == media_after(
            "Spotify"@,
            "Episode"@,
            url,
            "/episode/"@,
        ),
{
    lemma_reaches(url, 6);
}

/// Vimeo links give the video after `vimeo.com/` when its id is all digits.
pub proof fn law_registry_vimeo(url: Seq<char>)
    requires
        no_earlier_host(url, 7),
        has_id_after(url, "vimeo.com/"@),
        forall|k: int|
            0 <= k < id_after(url, "vimeo.com/"@)->0.len() ==> #[trigger] char_is_numeric(
                id_after(url, "vimeo.com/"@)->0[k],
            ),
    ensures
        first_recognized(default_platforms(), url) == media_after("Vimeo"@, "Video"@, url, "vimeo.com/"@),
{
    lemma_reaches(url, 7);
}

/// A registry that holds all available platform extractors.
/// It iterates through them to find the appropriate one for a given URL.
pub struct PlatformRegistry {
    /// The registered extractors, in the order they are tried.
    extractors: Vec<Platform>,
}

impl View for PlatformRegistry {
    type V = Seq<Platform>;

    closed spec fn view(&self) -> Seq<Platform> {
        self.extractors@
    }
}

impl PlatformRegistry {
    /// Creates a new `PlatformRegistry` pre-populated with all supported platform extractors.
    pub fn new() -> (r: Self)
        ensures
            r@ == default_platforms(),
    {
        let r = PlatformRegistry {
            extractors: vec![
                Platform::YouTube,
                Platform::Twitter,
                Platform::Instagram,
                Platform::TikTok,
                Platform::Reddit,
                Platform::Twitch,
                Platform::Spotify,
                Platform::Vimeo,
                Platform::SoundCloud,
            ],
        };
        assert(r@ =~= default_platforms());
        r
    }

    /// Attempts to extract media metadata from the given URL using the registered extractors.
    ///
    /// Returns `Ok(MediaMetadata)` if an extractor successfully parses the URL,
    /// or `Err(String)` if no supported platform matches the URL.
    pub fn extract(&self, url: &str) -> (r: Result<MediaMetadata, String>)
        ensures
            match r {
                Ok(m) => first_recognized(self@, url@) == Some(m@),
                Err(msg) => first_recognized(self@, url@) is None && msg@ == no_platform_message(
                    url@,
                ),
            },
    {
        let mut i: usize = 0;
        assert(self@.skip(0) =~= self@);
        while i < self.extractors.len()
            invariant
                i <= self.extractors@.len(),
                first_recognized(self@, url@) == first_recognized(self@.skip(i as int), url@),
            decreases self.extractors.len() - i,
        {
            assert(self@.skip(i as int).drop_first() =~= self@.skip(i + 1));
            let res = self.extractors[i].extract(url);
            if let Some(m) = res {
                return Ok(m);
            }
            i = i + 1;
        }
        let mut msg = String::from_str("No supported platform found for URL: ");
        msg.append(url);
        Err(msg)
    }
}

impl Default for PlatformRegistry {
    fn default() -> (r: Self)
        ensures
            r@ == default_platforms(),
    {
        Self::new()
    }
}

} // verus!
