//! Core engine handle for mm-dlp.
use vstd::prelude::*;
use crate::config::EngineConfig;

verus! {

/// The engine, holding its configuration.
#[derive(Debug)]
pub struct Engine {
    config: EngineConfig,
}

impl View for Engine {
    type V = EngineConfig;

    closed spec fn view(&self) -> EngineConfig {
        self.config
    }
}

impl Engine {
    /// An engine with the configuration `config`.
    pub fn new(config: EngineConfig) -> (e: Self)
        ensures
            e@ == config,
    {
        Self { config }
    }

    /// The configuration of the engine.
    pub fn config(&self) -> (c: &EngineConfig)
        ensures
            *c == self@,
    {
        &self.config
    }
}

} // verus!
