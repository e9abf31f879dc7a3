//! The failure taxonomy shared by every pipeline-driving component.

use vstd::prelude::*;

verus! {

/// Why an operation on a pipeline was refused or failed.
#[derive(Clone, Copy, Debug, PartialEq, Eq, Structural)]
pub enum PipelineError {
    /// The pipeline descriptor is malformed.
    ParseError,
    /// A state transition or a negotiation failed inside the engine.
    EncodingError,
    /// The operation needs a playing pipeline.
    NotRunning,
    /// The operation needs a pipeline that is not playing yet.
    AlreadyStarted,
}

} // verus!
