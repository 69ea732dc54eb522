//! Checks applied to imported playlists.
pub mod json_handler;
pub mod xml_handler;
