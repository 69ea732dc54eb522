//! The extractors behind the stream router.
pub mod soundcloud;
pub mod youtube;
