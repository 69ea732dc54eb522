//! The central unified error type of the engine.
use vstd::prelude::*;

verus! {

/// The central unified error type for `mm-dlp-core`.
#[derive(Debug, Clone, PartialEq, Eq)]
pub enum EngineError {
    Network(String),
    UnsupportedUrl(String),
    StreamNotFound(String),
    FfmpegError(String),
    FfmpegNotFound,
    TaggingError(String),
    IoError(String),
    Serialization(String),
    InvalidConfig(String),
    Cancelled,
    QuicFallbackExhausted(String),
}

/// The plain content of an [`EngineError`].
pub enum EngineErrorView {
    Network(Seq<char>),
    UnsupportedUrl(Seq<char>),
    StreamNotFound(Seq<char>),
    FfmpegError(Seq<char>),
    FfmpegNotFound,
    TaggingError(Seq<char>),
    IoError(Seq<char>),
    Serialization(Seq<char>),
    InvalidConfig(Seq<char>),
    Cancelled,
    QuicFallbackExhausted(Seq<char>),
}

impl View for EngineError {
    type V = EngineErrorView;

    open spec fn view(&self) -> EngineErrorView {
        match self {
            EngineError::Network(s) => EngineErrorView::Network(s@),
            EngineError::UnsupportedUrl(s) => EngineErrorView::UnsupportedUrl(s@),
            EngineError::StreamNotFound(s) => EngineErrorView::StreamNotFound(s@),
            EngineError::FfmpegError(s) => EngineErrorView::FfmpegError(s@),
            EngineError::FfmpegNotFound => EngineErrorView::FfmpegNotFound,
            EngineError::TaggingError(s) => EngineErrorView::TaggingError(s@),
            EngineError::IoError(s) => EngineErrorView::IoError(s@),
            EngineError::Serialization(s) => EngineErrorView::Serialization(s@),
            EngineError::InvalidConfig(s) => EngineErrorView::InvalidConfig(s@),
            EngineError::Cancelled => EngineErrorView::Cancelled,
            EngineError::QuicFallbackExhausted(s) => EngineErrorView::QuicFallbackExhausted(s@),
        }
    }
}

/// A result taken by the views of its value and its error.
pub open spec fn result_view<T: View, E: View>(r: Result<T, E>) -> Result<T::V, E::V> {
    match r {
        Ok(t) => Ok(t@),
        Err(e) => Err(e@),
    }
}

/// The human-readable message of an [`EngineError`].
pub open spec fn engine_error_message(e: EngineError) -> Seq<char> {
    match e {
        EngineError::Network(s) => "Network error: "@ + s@,
        EngineError::UnsupportedUrl(s) => "Unsupported URL: "@ + s@,
        EngineError::StreamNotFound(s) => "Stream not found: "@ + s@,
        EngineError::FfmpegError(s) => "FFmpeg error: "@ + s@,
        EngineError::FfmpegNotFound => "FFmpeg not found in PATH"@,
        EngineError::TaggingError(s) => "Tagging error: "@ + s@,
        EngineError::IoError(s) => "I/O error: "@ + s@,
        EngineError::Serialization(s) => "Serialization error: "@ + s@,
        EngineError::InvalidConfig(s) => "Invalid configuration: "@ + s@,
        EngineError::Cancelled => "Operation cancelled"@,
        EngineError::QuicFallbackExhausted(s) => "QUIC fallback exhausted: "@ + s@,
    }
}

/// `prefix` followed by `detail`.
fn prefixed(prefix: &str, detail: &String) -> (m: String)
    ensures
        m@ == prefix@ + detail@,
{
    String::from_str(prefix).concat(detail.as_str())
}

impl EngineError {
    /// The human-readable message of this error.
    pub fn message(&self) -> (m: String)
        ensures
            m@ == engine_error_message(*self),
    {
        match self {
            EngineError::Network(s) => prefixed("Network error: ", s),
            EngineError::UnsupportedUrl(s) => prefixed("Unsupported URL: ", s),
            EngineError::StreamNotFound(s) => prefixed("Stream not found: ", s),
            EngineError::FfmpegError(s) => prefixed("FFmpeg error: ", s),
            EngineError::FfmpegNotFound => String::from_str("FFmpeg not found in PATH"),
            EngineError::TaggingError(s) => prefixed("Tagging error: ", s),
            EngineError::IoError(s) => prefixed("I/O error: ", s),
            EngineError::Serialization(s) => prefixed("Serialization error: ", s),
            EngineError::InvalidConfig(s) => prefixed("Invalid configuration: ", s),
            EngineError::Cancelled => String::from_str("Operation cancelled"),
            EngineError::QuicFallbackExhausted(s) => prefixed("QUIC fallback exhausted: ", s),
        }
    }
}

} // verus!
