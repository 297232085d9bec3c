//! The failure taxonomy of the orchestration core. Resolution and
//! classification failures surface immediately; process failures are retried
//! once before surfacing; artifact failures are distinguished from process
//! failures because the external tool reported success.

use vstd::prelude::*;

verus! {

/// One terminal failure of an orchestration operation.
#[derive(Debug, Clone)]
pub enum OrchestratorError {
    /// A required external tool could not be located; carries the tool name.
    BinaryNotFound(String),
    /// Empty or malformed input to an operation; carries a diagnostic.
    InvalidInput(String),
    /// The input could not be categorized; terminal, never retried.
    ClassificationUnknown,
    /// Non-zero exit from a spawned process after the retry was spent;
    /// carries the most specific diagnostic text available.
    ExternalToolFailure(String),
    /// The tool reported success but no qualifying output file appeared.
    ArtifactNotFound,
    /// Unparsable structured response from a probe or lookup.
    MalformedUpstreamData(String),
}

} // verus!
