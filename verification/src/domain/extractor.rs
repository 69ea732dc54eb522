//! Errors of the platform extractors.
use vstd::prelude::*;

verus! {

/// Domain-level error type for all platform extractors.
/// Separate from `EngineError` so extractors are decoupled from the FFI layer.
#[derive(Debug, Clone, PartialEq, Eq)]
pub enum ExtractorError {
    /// The URL did not match any known platform pattern.
    UnsupportedUrl(String),
    /// A network request failed.
    Network(String),
    /// The API response could not be parsed.
    Parse(String),
    /// No suitable audio stream was found for the requested quality.
    NoStream(String),
    /// Platform-specific authentication failed.
    Auth(String),
    /// Rate-limited by the platform.
    RateLimited(String),
}

/// The human-readable message of an [`ExtractorError`].
pub open spec fn extractor_error_message(e: ExtractorError) -> Seq<char> {
    match e {
        ExtractorError::UnsupportedUrl(s) => "Unsupported URL: "@ + s@,
        ExtractorError::Network(s) => "Network error: "@ + s@,
        ExtractorError::Parse(s) => "Parse error: "@ + s@,
        ExtractorError::NoStream(s) => "No audio stream found: "@ + s@,
        ExtractorError::Auth(s) => "Auth error: "@ + s@,
        ExtractorError::RateLimited(s) => "Rate limited: "@ + s@,
    }
}

impl ExtractorError {
    /// The human-readable message of this error.
    pub fn message(&self) -> (m: String)
        ensures
            m@ == extractor_error_message(*self),
    {
        match self {
            ExtractorError::UnsupportedUrl(s) => String::from_str("Unsupported URL: ").concat(s.as_str()),
            ExtractorError::Network(s) => String::from_str("Network error: ").concat(s.as_str()),
            ExtractorError::Parse(s) => String::from_str("Parse error: ").concat(s.as_str()),
            ExtractorError::NoStream(s) => String::from_str("No audio stream found: ").concat(s.as_str()),
            ExtractorError::Auth(s) => String::from_str("Auth error: ").concat(s.as_str()),
            ExtractorError::RateLimited(s) => String::from_str("Rate limited: ").concat(s.as_str()),
        }
    }
}

} // verus!
