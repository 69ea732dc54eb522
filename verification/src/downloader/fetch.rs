//! Outcomes of plain HTTP downloads.
use vstd::prelude::*;
use crate::error::{EngineError, EngineErrorView};
use crate::text::join;

verus! {

/// The refusal of a download whose answer had an unsuccessful status,
/// quoted as `status` (code and reason, as `http` prints it).
pub fn http_failure(status: &str) -> (e: EngineError)
    ensures
        e@ == EngineErrorView::Network("HTTP download failed with status code: "@ + status@),
{
    EngineError::Network(join("HTTP download failed with status code: ", status))
}

} // verus!
