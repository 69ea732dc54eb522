//! Platform extractors: shared data types and the per-platform payload logic.
pub mod traits;
pub mod youtube;
pub mod spotify;
pub mod soundcloud;
pub mod registry;
