//! Media metadata extraction and download planning for mm-dlp.
pub mod text;
pub mod platforms;
pub mod client;
pub mod downloader;
pub mod download;
pub mod config;
pub mod engine;
pub mod error;
pub mod domain;
pub mod extractor;
pub mod ffi;
pub mod media;
pub mod data;
pub mod playlist;
pub mod plugin;
pub mod pool;
pub mod json;
pub mod encoding;
pub mod pattern;
pub mod js;
