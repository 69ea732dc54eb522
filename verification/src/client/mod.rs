//! Errors of the HTTP/TLS client layer and browser cookie access.
pub mod cookies;
pub mod h2;
pub mod h3;

use vstd::prelude::*;

verus! {

/// Errors raised by the client layer, the download pipeline and the plugin loader.
#[derive(Debug, Clone, PartialEq, Eq)]
pub enum EngineError {
    /// File system error: {0}
    FileSystemError(String),
    /// Decryption error: {0}
    DecryptionError(String),
    /// Database error: {0}
    DatabaseError(String),
    /// OS API error: {0}
    OsApiError(String),
}

impl EngineError {
    /// The human-readable message of this error.
    pub fn message(&self) -> (m: String)
        ensures
            m@ == match self {
                EngineError::FileSystemError(s) => "File system error: "@ + s@,
                EngineError::DecryptionError(s) => "Decryption error: "@ + s@,
                EngineError::DatabaseError(s) => "Database error: "@ + s@,
                EngineError::OsApiError(s) => "OS API error: "@ + s@,
            },
    {
        match self {
            EngineError::FileSystemError(s) => String::from_str("File system error: ").concat(s.as_str()),
            EngineError::DecryptionError(s) => String::from_str("Decryption error: ").concat(s.as_str()),
            EngineError::DatabaseError(s) => String::from_str("Database error: ").concat(s.as_str()),
            EngineError::OsApiError(s) => String::from_str("OS API error: ").concat(s.as_str()),
        }
    }
}

} // verus!
