//! Splitting of large downloads into byte ranges.
pub mod chunker;
pub mod manager;
