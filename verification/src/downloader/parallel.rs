//! Downloaded segments tagged with their position.
use vstd::prelude::*;

verus! {

/// The bytes of one downloaded segment together with its index.
#[derive(Debug, Clone)]
pub struct SequencedChunk {
    pub index: usize,
    pub data: Vec<u8>,
}

impl PartialEq for SequencedChunk {
    /// Two chunks are equal when they belong to the same position.
    fn eq(&self, other: &Self) -> (r: bool) {
        self.index == other.index
    }
}

impl vstd::std_specs::cmp::PartialEqSpecImpl for SequencedChunk {
    open spec fn obeys_eq_spec() -> bool {
        true
    }

    open spec fn eq_spec(&self, other: &SequencedChunk) -> bool {
        self.index == other.index
    }
}

impl Eq for SequencedChunk {}

} // verus!
