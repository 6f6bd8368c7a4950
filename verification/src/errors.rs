//! The error taxonomy of the engine: malformed input, failures of the
//! delegated command execution, and failures of the resolution service.

use vstd::prelude::*;
use crate::text::concat2;

verus! {

/// A typed failure. Every failure reaches the operator as displayed text,
/// so each variant carries its message.
#[derive(Debug)]
pub enum DiracError {
    /// The delegated command failed: non-zero exit, timeout, signal
    /// termination, spawn failure, or an unresolvable `cd` target.
    CommandExecutionError(String),
    /// The resolution service failed: transport failure or a
    /// service-reported error.
    AIProcessingError(String),
    /// The invocation itself was malformed: empty input, or a head token
    /// that names no executable.
    InputError(String),
}

impl DiracError {
    /// The inner message, without the category prefix.
    pub open spec fn spec_inner(&self) -> Seq<char> {
        match self {
            DiracError::CommandExecutionError(m) => m@,
            DiracError::AIProcessingError(m) => m@,
            DiracError::InputError(m) => m@,
        }
    }

    /// The full operator-facing text of this error: a category prefix
    /// followed by the message.
    pub open spec fn spec_message(&self) -> Seq<char> {
        match self {
            DiracError::CommandExecutionError(m) => "Command execution error: "@ + m@,
            DiracError::AIProcessingError(m) => "AI processing error: "@ + m@,
            DiracError::InputError(m) => "Input error: "@ + m@,
        }
    }

    /// Renders the error as the operator sees it.
    pub fn message(&self) -> (r: String)
        ensures
            r@ == self.spec_message(),
    {
        match self {
            DiracError::CommandExecutionError(m) => concat2("Command execution error: ", m.as_str()),
            DiracError::AIProcessingError(m) => concat2("AI processing error: ", m.as_str()),
            DiracError::InputError(m) => concat2("Input error: ", m.as_str()),
        }
    }
}

} // verus!
