//! Deciphering of scrambled stream signatures, and the sandbox that runs them.
pub mod decipher;
pub mod engine;
