//! Segment lists of HLS (`.m3u8`) and DASH manifests.
use vstd::prelude::*;
use crate::client::EngineError;
use crate::text::{
    after_first, chars_of, concat_chars, find, find_char, find_spec, lines, lines_spec, slice_of,
    starts_with, starts_with_spec, string_of, trim, trim_end_char, trim_end_char_spec, trim_spec,
    trim_start_char, trim_start_char_spec,
};

verus! {

/// One downloadable segment of a manifest, with its position in the media.
#[derive(Debug, Clone, PartialEq)]
pub struct DownloadSegment {
    pub index: usize,
    pub url: String,
}

/// The absolute URL of a manifest entry: an `http://` or `https://` entry
/// is kept, any other is joined to `base_url` with exactly one `/`.
pub open spec fn resolve_url(entry: Seq<char>, base_url: Seq<char>) -> Seq<char> {
    if starts_with_spec(entry, "http://"@) || starts_with_spec(entry, "https://"@) {
        entry
    } else {
        trim_end_char_spec(base_url, '/') + seq!['/'] + trim_start_char_spec(entry, '/')
    }
}

/// The segment URLs of an HLS playlist given by its lines: every trimmed
/// line that is neither empty nor a `#` tag is a segment.
pub open spec fn m3u8_urls(lines: Seq<Seq<char>>, base_url: Seq<char>) -> Seq<Seq<char>>
    decreases lines.len(),
{
    if lines.len() == 0 {
        seq![]
    } else {
        let earlier = m3u8_urls(lines.drop_last(), base_url);
        let t = trim_spec(lines.last());
        if t.len() == 0 || t[0] == '#' {
            earlier
        } else {
            earlier.push(resolve_url(t, base_url))
        }
    }
}

/// The segments of a run of HLS lines are those of its first part, then
/// those of the rest.
pub proof fn law_m3u8_urls_append(a: Seq<Seq<char>>, b: Seq<Seq<char>>, base_url: Seq<char>)
    ensures
        m3u8_urls(a + b, base_url) == m3u8_urls(a, base_url) + m3u8_urls(b, base_url),
    decreases b.len(),
{
    if b.len() == 0 {
        assert(a + b =~= a);
        assert(m3u8_urls(a, base_url) + m3u8_urls(b, base_url) =~= m3u8_urls(a, base_url));
    } else {
        law_m3u8_urls_append(a, b.drop_last(), base_url);
        assert((a + b).drop_last() =~= a + b.drop_last());
        assert((a + b).last() == b.last());
        let x = resolve_url(trim_spec(b.last()), base_url);
        assert((m3u8_urls(a, base_url) + m3u8_urls(b.drop_last(), base_url)).push(x) =~= m3u8_urls(
            a,
            base_url,
        ) + m3u8_urls(b.drop_last(), base_url).push(x));
    }
}

/// One HLS line gives a segment when, trimmed, it is neither empty nor a
/// `#` tag: the line resolved against `base_url`.
pub proof fn law_m3u8_urls_single(line: Seq<char>, base_url: Seq<char>)
    ensures
        m3u8_urls(seq![line], base_url) == if trim_spec(line).len() == 0 || trim_spec(line)[0] == '#' {
            Seq::<Seq<char>>::empty()
        } else {
            seq![resolve_url(trim_spec(line), base_url)]
        },
{
    let one = seq![line];
    assert(one.drop_last() =~= Seq::<Seq<char>>::empty());
    assert(one.last() == line);
    assert(m3u8_urls(Seq::<Seq<char>>::empty(), base_url) == Seq::<Seq<char>>::empty());
    assert(Seq::<Seq<char>>::empty().push(resolve_url(trim_spec(line), base_url)) =~= seq![
        resolve_url(trim_spec(line), base_url),
    ]);
}

/// The value of the first `media="..."` attribute of a DASH manifest line.
pub open spec fn dash_media(line: Seq<char>) -> Option<Seq<char>> {
    match after_first(line, "media=\""@) {
        Some(rest) => match find_spec(rest, seq!['"']) {
            Some(end) => Some(rest.take(end)),
            None => None,
        },
        None => None,
    }
}

/// The segment URLs of a DASH manifest given by its lines: one for each
/// line with a complete `media="..."` attribute.
pub open spec fn dash_urls(lines: Seq<Seq<char>>, base_url: Seq<char>) -> Seq<Seq<char>>
    decreases lines.len(),
{
    if lines.len() == 0 {
        seq![]
    } else {
        let earlier = dash_urls(lines.drop_last(), base_url);
        match dash_media(lines.last()) {
            Some(part) => earlier.push(resolve_url(part, base_url)),
            None => earlier,
        }
    }
}

/// The segments of a run of DASH lines are those of its first part, then
/// those of the rest.
pub proof fn law_dash_urls_append(a: Seq<Seq<char>>, b: Seq<Seq<char>>, base_url: Seq<char>)
    ensures
        dash_urls(a + b, base_url) == dash_urls(a, base_url) + dash_urls(b, base_url),
    decreases b.len(),
{
    if b.len() == 0 {
        assert(a + b =~= a);
        assert(dash_urls(a, base_url) + dash_urls(b, base_url) =~= dash_urls(a, base_url));
    } else {
        law_dash_urls_append(a, b.drop_last(), base_url);
        assert((a + b).drop_last() =~= a + b.drop_last());
        assert((a + b).last() == b.last());
        if let Some(part) = dash_media(b.last()) {
            let x = resolve_url(part, base_url);
            assert((dash_urls(a, base_url) + dash_urls(b.drop_last(), base_url)).push(x) =~= dash_urls(
                a,
                base_url,
            ) + dash_urls(b.drop_last(), base_url).push(x));
        }
    }
}

/// One DASH line gives a segment when it has a complete `media="..."`
/// attribute: its value resolved against `base_url`.
pub proof fn law_dash_urls_single(line: Seq<char>, base_url: Seq<char>)
    ensures
        dash_urls(seq![line], base_url) == match dash_media(line) {
            Some(part) => seq![resolve_url(part, base_url)],
            None => Seq::<Seq<char>>::empty(),
        },
{
    let one = seq![line];
    assert(one.drop_last() =~= Seq::<Seq<char>>::empty());
    assert(one.last() == line);
    assert(dash_urls(Seq::<Seq<char>>::empty(), base_url) == Seq::<Seq<char>>::empty());
    if let Some(part) = dash_media(line) {
        assert(Seq::<Seq<char>>::empty().push(resolve_url(part, base_url)) =~= seq![resolve_url(part, base_url)]);
    }
}

/// `segments` are numbered from 0 in order and carry the URLs `urls`.
pub open spec fn numbered(segments: Seq<DownloadSegment>, urls: Seq<Seq<char>>) -> bool {
    &&& segments.len() == urls.len()
    &&& forall|k: int|
        0 <= k < segments.len() ==> (#[trigger] segments[k]).index == k && segments[k].url@ == urls[k]
}

/// The absolute URL of a manifest entry (see [`resolve_url`]).
fn resolve(entry: &[char], base: &[char]) -> (r: Vec<char>)
    ensures
        r@ == resolve_url(entry@, base@),
{
    let http = chars_of("http://");
    let https = chars_of("https://");
    if starts_with(entry, http.as_slice()) || starts_with(entry, https.as_slice()) {
        vstd::slice::slice_to_vec(entry)
    } else {
        let mut b = trim_end_char(base, '/');
        b.push('/');
        let e = trim_start_char(entry, '/');
        concat_chars(&b, &e)
    }
}

/// Appends the segment with the next index and the URL `url`.
fn push_segment(segments: &mut Vec<DownloadSegment>, url: &[char], Ghost(urls): Ghost<Seq<Seq<char>>>)
    requires
        numbered(old(segments)@, urls),
        old(segments)@.len() < usize::MAX,
    ensures
        numbered(final(segments)@, urls.push(url@)),
{
    let index = segments.len();
    segments.push(DownloadSegment { index, url: string_of(url) });
    assert forall|k: int| 0 <= k < segments@.len() implies (#[trigger] segments@[k]).index == k
        && segments@[k].url@ == urls.push(url@)[k] by {}
}

/// Parses an HLS playlist into its segments, resolving relative entries
/// against `base_url`.
pub fn parse_m3u8(manifest_content: &str, base_url: &str) -> (r: Result<Vec<DownloadSegment>, EngineError>)
    ensures
        r matches Ok(segments) && numbered(segments@, m3u8_urls(lines_spec(manifest_content@), base_url@)),
{
    let content = chars_of(manifest_content);
    let base = chars_of(base_url);
    let all = lines(&content);
    let ghost ls = all.deep_view();
    let mut segments: Vec<DownloadSegment> = Vec::new();
    let mut i: usize = 0;
    while i < all.len()
        invariant
            i <= all.len(),
            ls == all.deep_view(),
            ls == lines_spec(manifest_content@),
            base@ == base_url@,
            segments@.len() <= i,
            numbered(segments@, m3u8_urls(ls.take(i as int), base@)),
        decreases all.len() - i,
    {
        assert(ls.take(i + 1).drop_last() =~= ls.take(i as int));
        assert(ls.take(i + 1).last() == all@[i as int]@);
        let t = trim(&all[i]);
        if t.len() == 0 || t[0] == '#' {
        } else {
            let url = resolve(&t, &base);
            push_segment(&mut segments, &url, Ghost(m3u8_urls(ls.take(i as int), base@)));
        }
        i = i + 1;
    }
    assert(ls.take(all.len() as int) =~= ls);
    Ok(segments)
}

/// The value of the first complete `media="..."` attribute of `line`.
fn media_attribute(line: &[char]) -> (r: Option<Vec<char>>)
    ensures
        match r {
            Some(v) => dash_media(line@) == Some(v@),
            None => dash_media(line@) is None,
        },
{
    let marker = chars_of("media=\"");
    match find(line, marker.as_slice()) {
        Some(ms) => {
            let n = line.len();
            let rest = slice_of(line, ms + marker.len(), n);
            assert(rest@ =~= line@.skip(ms + marker@.len()));
            match find_char(&rest, '"') {
                Some(end) => Some(slice_of(&rest, 0, end)),
                None => None,
            }
        },
        None => None,
    }
}

/// Parses a DASH manifest into its segments, resolving relative `media`
/// attributes against `base_url`.
pub fn parse_dash(manifest_content: &str, base_url: &str) -> (r: Result<Vec<DownloadSegment>, EngineError>)
    ensures
        r matches Ok(segments) && numbered(segments@, dash_urls(lines_spec(manifest_content@), base_url@)),
{
    let content = chars_of(manifest_content);
    let base = chars_of(base_url);
    let all = lines(&content);
    let ghost ls = all.deep_view();
    let mut segments: Vec<DownloadSegment> = Vec::new();
    let mut i: usize = 0;
    while i < all.len()
        invariant
            i <= all.len(),
            ls == all.deep_view(),
            ls == lines_spec(manifest_content@),
            base@ == base_url@,
            segments@.len() <= i,
            numbered(segments@, dash_urls(ls.take(i as int), base@)),
        decreases all.len() - i,
    {
        assert(ls.take(i + 1).drop_last() =~= ls.take(i as int));
        assert(ls.take(i + 1).last() == all@[i as int]@);
        match media_attribute(&all[i]) {
            Some(part) => {
                let url = resolve(&part, &base);
                push_segment(&mut segments, &url, Ghost(dash_urls(ls.take(i as int), base@)));
            },
            None => {},
        }
        i = i + 1;
    }
    assert(ls.take(all.len() as int) =~= ls);
    Ok(segments)
}

} // verus!
