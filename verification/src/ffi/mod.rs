//! The boundary towards the mobile application: transfer types and the
//! decisions of the file hand-off.
pub mod api;
pub mod file_handoff;
pub mod types;
