//! Audio post-processing decisions: target formats and ffmpeg invocations.
pub mod converter;
pub mod tagger;
