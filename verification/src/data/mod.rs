//! Import and export of playlists, and the extractors behind the stream router.
pub mod playlist;
pub mod extractors;
pub mod router;
