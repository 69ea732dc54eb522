//! Decisions of the download hand-off: which platform a URL belongs to,
//! which track it names, and the name of the finished file.
use vstd::prelude::*;
use crate::extractor::traits::{AudioSource, StreamInfo, StreamInfoView};
use crate::media::converter::{AudioFormat, format_name};
use crate::text::{
    after_first, before, before_char, chars_of, contains, contains_spec, find, second_piece,
    second_piece_of, slice_of, string_of, utf8_len, utf8_len_is, push_char, join_path,
    join_path_spec, join, str_eq,
};

verus! {

/// The platform a URL belongs to, judged by its host names.
pub open spec fn source_of_url(url: Seq<char>) -> Option<AudioSource> {
    if contains_spec(url, "youtube.com"@) || contains_spec(url, "youtu.be"@) || contains_spec(
        url,
        "music.youtube.com"@,
    ) {
        Some(AudioSource::YouTubeMusic)
    } else if contains_spec(url, "soundcloud.com"@) {
        Some(AudioSource::SoundCloud)
    } else if contains_spec(url, "spotify.com"@) {
        Some(AudioSource::Spotify)
    } else {
        None
    }
}

/// Detects the `AudioSource` from a URL string.
pub fn detect_source_from_url(url: &str) -> (r: Result<AudioSource, String>)
    ensures
        match r {
            Ok(s) => source_of_url(url@) == Some(s),
            Err(m) => source_of_url(url@) is None && m@ == "Cannot determine platform from URL: "@
                + url@,
        },
{
    let u = chars_of(url);
    let yt = chars_of("youtube.com");
    let be = chars_of("youtu.be");
    let music = chars_of("music.youtube.com");
    let sc = chars_of("soundcloud.com");
    let sp = chars_of("spotify.com");
    if contains(&u, &yt) || contains(&u, &be) || contains(&u, &music) {
        Ok(AudioSource::YouTubeMusic)
    } else if contains(&u, &sc) {
        Ok(AudioSource::SoundCloud)
    } else if contains(&u, &sp) {
        Ok(AudioSource::Spotify)
    } else {
        Err(String::from_str("Cannot determine platform from URL: ").concat(url))
    }
}

/// A YouTube video id: exactly 11 bytes long.
pub open spec fn eleven_bytes(id: Seq<char>) -> Option<Seq<char>> {
    if utf8_len(id) == 11 {
        Some(id)
    } else {
        None
    }
}

/// The YouTube video id of a URL: the `v=` parameter, or else the path
/// after `youtu.be/` up to its query.
pub open spec fn youtube_video_id(url: Seq<char>) -> Option<Seq<char>> {
    let from_param = match after_first(url, "v="@) {
        Some(rest) => eleven_bytes(before_char(rest, '&')),
        None => None,
    };
    if from_param is Some {
        from_param
    } else if contains_spec(url, "youtu.be/"@) {
        eleven_bytes(before_char(second_piece(url, "youtu.be/"@), '?'))
    } else {
        None
    }
}

/// The track id that `extract_track_id` derives from `url` for `source`.
pub open spec fn track_id_of(url: Seq<char>, source: AudioSource) -> Result<Seq<char>, Seq<char>> {
    match source {
        AudioSource::YouTubeMusic => match youtube_video_id(url) {
            Some(id) => Ok(id),
            None => Err("Could not extract YouTube video ID from '"@ + url + seq!['\'']),
        },
        AudioSource::SoundCloud => Ok(url),
        AudioSource::Spotify => Err("Spotify streaming is not supported"@),
    }
}

/// The abstract content of a result holding strings.
pub open spec fn result_view(r: Result<String, String>) -> Result<Seq<char>, Seq<char>> {
    match r {
        Ok(s) => Ok(s@),
        Err(e) => Err(e@),
    }
}

/// The id if it is exactly 11 bytes long.
fn eleven_bytes_exec(id: Vec<char>) -> (r: Option<Vec<char>>)
    ensures
        match r {
            Some(v) => eleven_bytes(id@) == Some(v@),
            None => eleven_bytes(id@) is None,
        },
{
    if utf8_len_is(&id, 11) {
        Some(id)
    } else {
        None
    }
}

/// Extracts the platform-specific track ID from a URL.
pub fn extract_track_id(url: &str, source: &AudioSource) -> (r: Result<String, String>)
    ensures
        result_view(r) == track_id_of(url@, *source),
{
    match source {
        AudioSource::YouTubeMusic => {
            let u = chars_of(url);
            let v = chars_of("v=");
            let from_param = match find(&u, &v) {
                Some(pos) => {
                    let n = u.len();
                    let rest = slice_of(&u, pos + v.len(), n);
                    assert(rest@ =~= u@.skip(pos + v@.len()));
                    eleven_bytes_exec(before(&rest, '&'))
                },
                None => None,
            };
            if let Some(id) = from_param {
                assert(youtube_video_id(url@) == Some(id@));
                let r = string_of(&id);
                return Ok(r);
            }
            let be = chars_of("youtu.be/");
            if contains(&u, &be) {
                let after = second_piece_of(&u, "youtu.be/");
                if let Some(id) = eleven_bytes_exec(before(&after, '?')) {
                    assert(youtube_video_id(url@) == Some(id@));
                    return Ok(string_of(&id));
                }
            }
            assert(youtube_video_id(url@) is None);
            let mut m = String::from_str("Could not extract YouTube video ID from '").concat(url);
            push_char(&mut m, '\'');
            assert(m@ == "Could not extract YouTube video ID from '"@ + url@ + seq!['\'']);
            Err(m)
        },
        AudioSource::SoundCloud => {
            let id = String::from_str(url);
            Ok(id)
        },
        AudioSource::Spotify => Err(String::from_str("Spotify streaming is not supported")),
    }
}

/// A character most file systems do not allow in a file name.
pub open spec fn is_forbidden_in_file_name(c: char) -> bool {
    c == '/' || c == '\\' || c == ':' || c == '*' || c == '?' || c == '"' || c == '<' || c == '>'
        || c == '|'
}

/// `name` with every forbidden character removed and every other character
/// kept, in order.
pub open spec fn sanitized(name: Seq<char>) -> Seq<char>
    decreases name.len(),
{
    if name.len() == 0 {
        name
    } else if is_forbidden_in_file_name(name.last()) {
        sanitized(name.drop_last())
    } else {
        sanitized(name.drop_last()).push(name.last())
    }
}

/// A name that holds no forbidden character is left as it is.
pub proof fn lemma_sanitized_clean_name(name: Seq<char>)
    requires
        forall|k: int| 0 <= k < name.len() ==> !is_forbidden_in_file_name(#[trigger] name[k]),
    ensures
        sanitized(name) == name,
    decreases name.len(),
{
    if name.len() > 0 {
        lemma_sanitized_clean_name(name.drop_last());
        assert(name.drop_last().push(name.last()) =~= name);
    }
}

/// What sanitising keeps: no forbidden character, at most the original length.
proof fn lemma_sanitized_shape(name: Seq<char>)
    ensures
        sanitized(name).len() <= name.len(),
        forall|k: int|
            0 <= k < sanitized(name).len() ==> !is_forbidden_in_file_name(#[trigger] sanitized(name)[k]),
    decreases name.len(),
{
    if name.len() > 0 {
        lemma_sanitized_shape(name.drop_last());
    }
}

/// A sanitised name holds no forbidden character and is no longer than the
/// original; a name without forbidden characters comes back unchanged; and
/// sanitising twice gives what sanitising once gives.
pub proof fn law_sanitize_clean(name: Seq<char>)
    ensures
        sanitized(name).len() <= name.len(),
        forall|k: int|
            0 <= k < sanitized(name).len() ==> !is_forbidden_in_file_name(#[trigger] sanitized(name)[k]),
        (forall|k: int| 0 <= k < name.len() ==> !is_forbidden_in_file_name(#[trigger] name[k]))
            ==> sanitized(name) == name,
        sanitized(sanitized(name)) == sanitized(name),
{
    lemma_sanitized_shape(name);
    lemma_sanitized_clean_name(sanitized(name));
    if forall|k: int| 0 <= k < name.len() ==> !is_forbidden_in_file_name(#[trigger] name[k]) {
        lemma_sanitized_clean_name(name);
    }
}

/// Sanitises a file name by removing characters not allowed in most file systems.
pub fn sanitize_filename(name: &str) -> (r: String)
    ensures
        r@ == sanitized(name@),
{
    let chars = chars_of(name);
    let mut out = String::new();
    let mut i: usize = 0;
    while i < chars.len()
        invariant
            i <= chars.len(),
            out@ == sanitized(chars@.take(i as int)),
        decreases chars.len() - i,
    {
        let c = chars[i];
        assert(chars@.take(i as int + 1).drop_last() =~= chars@.take(i as int));
        if !(c == '/' || c == '\\' || c == ':' || c == '*' || c == '?' || c == '"' || c == '<'
            || c == '>' || c == '|') {
            push_char(&mut out, c);
        }
        i = i + 1;
    }
    assert(chars@.take(chars.len() as int) =~= chars@);
    out
}

/// The extension of the finished file: the requested format's, or else the
/// subtype of the stream's MIME type (`audio/webm; ...` gives `webm`), or
/// else `mp3`.
pub open spec fn output_extension_spec(format: Option<AudioFormat>, stream_format: Seq<char>) -> Seq<char> {
    match format {
        Some(f) => format_name(f),
        None => if contains_spec(stream_format, "/"@) {
            before_char(second_piece(stream_format, "/"@), ';')
        } else {
            "mp3"@
        },
    }
}

/// The extension of the finished file (see [`output_extension_spec`]).
pub fn output_extension(format: Option<AudioFormat>, stream_format: &str) -> (r: String)
    ensures
        r@ == output_extension_spec(format, stream_format@),
{
    match format {
        Some(f) => f.to_string(),
        None => {
            let sf = chars_of(stream_format);
            let slash = chars_of("/");
            if contains(&sf, &slash) {
                let piece = second_piece_of(&sf, "/");
                string_of(&before(&piece, ';'))
            } else {
                String::from_str("mp3")
            }
        },
    }
}

/// The name of the finished file: `ARTIST - TITLE.EXT`, sanitised.
pub open spec fn output_file_name_spec(artist: Seq<char>, title: Seq<char>, ext: Seq<char>) -> Seq<char> {
    sanitized(artist + " - "@ + title + "."@ + ext)
}

/// The name of the finished file (see [`output_file_name_spec`]).
pub fn output_file_name(artist: &str, title: &str, ext: &str) -> (r: String)
    ensures
        r@ == output_file_name_spec(artist@, title@, ext@),
{
    let raw = String::from_str(artist).concat(" - ").concat(title).concat(".").concat(ext);
    sanitize_filename(raw.as_str())
}

/// Where the finished file of a stream goes: its name inside `temp_dir`.
pub open spec fn download_target_spec(temp_dir: Seq<char>, format: Option<AudioFormat>, info: StreamInfoView) -> Seq<char> {
    join_path_spec(
        temp_dir,
        output_file_name_spec(
            info.metadata.artist,
            info.metadata.title,
            output_extension_spec(format, info.format),
        ),
    )
}

/// Where the finished file of a stream goes (see [`download_target_spec`]).
pub fn download_target(temp_dir: &str, format: Option<AudioFormat>, info: &StreamInfo) -> (r: String)
    ensures
        r@ == download_target_spec(temp_dir@, format, info@),
{
    let ext = output_extension(format, info.format.as_str());
    let name = output_file_name(info.metadata.artist.as_str(), info.metadata.title.as_str(), ext.as_str());
    join_path(temp_dir, name.as_str())
}

/// What `url::Url::parse` reports for `s`: `None` when it parses, else the
/// text of its error.
pub uninterp spec fn url_parse_failure(s: Seq<char>) -> Option<Seq<char>>;

/// Calls `url::Url::parse` and keeps the text of its error, named by
/// [`url_parse_failure`].
#[verifier::external_body]
fn url_parse_error(s: &str) -> (r: Option<String>)
    ensures
        match r {
            Some(m) => url_parse_failure(s@) == Some(m@),
            None => url_parse_failure(s@) is None,
        },
{
    url::Url::parse(s).err().map(|e| e.to_string())
}

/// Refuses a stream address that is not a URL, quoting it and the parser's
/// reason.
pub fn check_stream_url(stream_url: &str) -> (r: Result<(), String>)
    ensures
        match url_parse_failure(stream_url@) {
            None => r is Ok,
            Some(reason) => r matches Err(m) && m@ == "Invalid stream URL '"@ + stream_url@ + "': "@
                + reason,
        },
{
    match url_parse_error(stream_url) {
        None => Ok(()),
        Some(reason) => Err(
            join("Invalid stream URL '", stream_url).concat("': ").concat(reason.as_str()),
        ),
    }
}

/// A progress report that says the download of `target_url` is complete:
/// it is about that address, its total is known, and all of it arrived.
pub fn download_complete(progress_url: &str, downloaded: u64, total: u64, target_url: &str) -> (b:
    bool)
    ensures
        b == (progress_url@ == target_url@ && total > 0 && downloaded >= total),
{
    str_eq(progress_url, target_url) && total > 0 && downloaded >= total
}

} // verus!
