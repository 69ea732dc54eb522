//! Download planning: manifest parsing, in-order flushing of segments and
//! bounded writes into a mapped output file.
pub mod flusher;
pub mod manifest;
pub mod parallel;
pub mod fetch;
pub mod mmap;
