//! Domain model: platforms, qualities, tracks and playlists.
pub mod extractor;
pub mod models;
pub mod playlist;
