//! Extractor plugins: signature checks of plugin manifests and the bounds
//! checks of the host functions they call.
pub mod host_imports;
pub mod manifest;
