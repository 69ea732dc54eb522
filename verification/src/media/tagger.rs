//! What is written into an audio file's tag.
use vstd::prelude::*;

verus! {

/// The image type of embedded cover art.
#[derive(Debug, Clone, Copy, PartialEq, Eq, Structural)]
pub enum CoverMime {
    Jpeg,
    Png,
}

/// The image type of cover art bytes, told by their magic bytes: PNG when
/// they start with `89 50`, JPEG otherwise (whether they start with `FF D8`
/// or not).
pub open spec fn cover_mime_spec(bytes: Seq<u8>) -> CoverMime {
    if bytes.len() >= 2 && bytes[0] == 0xFF && bytes[1] == 0xD8 {
        CoverMime::Jpeg
    } else if bytes.len() >= 2 && bytes[0] == 0x89 && bytes[1] == 0x50 {
        CoverMime::Png
    } else {
        CoverMime::Jpeg
    }
}

/// The image type of cover art bytes (see [`cover_mime_spec`]).
pub fn cover_mime(bytes: &[u8]) -> (m: CoverMime)
    ensures
        m == cover_mime_spec(bytes@),
{
    if bytes.len() >= 2 && bytes[0] == 0xFF && bytes[1] == 0xD8 {
        CoverMime::Jpeg
    } else if bytes.len() >= 2 && bytes[0] == 0x89 && bytes[1] == 0x50 {
        CoverMime::Png
    } else {
        CoverMime::Jpeg
    }
}

} // verus!
