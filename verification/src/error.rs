//! The ways in which a call can fail.

use vstd::prelude::*;

verus! {

/// Why a call gave no result. Each kind carries the text that explains it.
#[derive(Debug, PartialEq, Eq)]
pub enum BridgeError {
    /// The working directory could not be determined.
    Environment(String),
    /// No interpreter candidate could be started. Carries what the last
    /// attempt reported.
    ProcessLaunch(String),
    /// The backend process ended with a failure. Carries what it wrote to its
    /// standard error.
    Backend(String),
    /// The backend process ended well, but what it wrote to its standard
    /// output is not JSON. Carries what the reader found wrong with it, and
    /// the output itself.
    ResponseFormat { diagnostic: String, raw_output: String },
    /// The arguments could not be written as JSON.
    Serialization(String),
}

impl BridgeError {
    /// The message that the user interface receives.
    pub open spec fn message_text(self) -> Seq<char> {
        match self {
            BridgeError::Environment(diagnostic) => diagnostic@,
            BridgeError::ProcessLaunch(diagnostic) => "Failed to execute Python: "@ + diagnostic@,
            BridgeError::Backend(errors) => "Python error: "@ + errors@,
            BridgeError::ResponseFormat { diagnostic, raw_output } => {
                "Failed to parse Python response: "@ + diagnostic@ + " - Output: "@ + raw_output@
            },
            BridgeError::Serialization(diagnostic) => "Failed to encode arguments: "@ + diagnostic@,
        }
    }

    /// The message that the user interface receives.
    pub fn message(&self) -> (message: String)
        ensures
            message@ == self.message_text(),
    {
        match self {
            BridgeError::Environment(diagnostic) => diagnostic.clone(),
            BridgeError::ProcessLaunch(diagnostic) => {
                String::from_str("Failed to execute Python: ").concat(diagnostic.as_str())
            },
            BridgeError::Backend(errors) => String::from_str("Python error: ").concat(
                errors.as_str(),
            ),
            BridgeError::ResponseFormat { diagnostic, raw_output } => {
                String::from_str("Failed to parse Python response: ").concat(
                    diagnostic.as_str(),
                ).concat(" - Output: ").concat(raw_output.as_str())
            },
            BridgeError::Serialization(diagnostic) => {
                String::from_str("Failed to encode arguments: ").concat(diagnostic.as_str())
            },
        }
    }
}

} // verus!
