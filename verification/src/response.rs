//! Reading what a backend process left behind.

use crate::error::BridgeError;
use crate::json::{parse_value, parsed_json, value_model};
use vstd::prelude::*;
use vstd::utf8::{decode_utf8, valid_utf8};

verus! {

/// What was captured of one run of the interpreter.
#[derive(Debug, PartialEq, Eq)]
pub struct ProcessOutcome {
    /// Whether the process ended with exit code zero.
    pub exit_success: bool,
    /// What it wrote to its standard output.
    pub stdout: Vec<u8>,
    /// What it wrote to its standard error.
    pub stderr: Vec<u8>,
}

/// The text that `String::from_utf8_lossy` makes of `bytes`: the bytes read as
/// UTF-8, with a replacement character wherever they are not.
pub uninterp spec fn lossy_text(bytes: Seq<u8>) -> Seq<char>;

/// `String::from_utf8_lossy`: the bytes as text. Bytes that are UTF-8 are
/// decoded as they stand.
#[verifier::external_body]
fn text_of(bytes: &Vec<u8>) -> (text: String)
    ensures
        text@ == lossy_text(bytes@),
        valid_utf8(bytes@) ==> text@ == decode_utf8(bytes@),
{
    String::from_utf8_lossy(bytes).into_owned()
}

/// The text of what a process wrote: the bytes decoded where they are UTF-8,
/// else with replacement characters.
pub open spec fn captured_text(bytes: Seq<u8>) -> Seq<char> {
    if valid_utf8(bytes) {
        decode_utf8(bytes)
    } else {
        lossy_text(bytes)
    }
}

/// The result of one call: the value that the backend returned, or why there
/// is none.
pub type CallResult = Result<serde_json::Value, BridgeError>;

/// What a call returns once a value was read from the output, or was not.
/// A value that was read is the result. Otherwise the call fails with the
/// reader's complaint and the output as it was.
pub fn response_from(raw_output: String, read: Result<serde_json::Value, String>) -> (result:
    CallResult)
    ensures
        match read {
            Ok(value) => result matches Ok(kept) && kept == value,
            Err(complaint) => {
                &&& result matches Err(BridgeError::ResponseFormat { diagnostic, raw_output: kept })
                &&& diagnostic == complaint
                &&& kept == raw_output
            },
        },
{
    match read {
        Ok(value) => Ok(value),
        Err(complaint) => Err(BridgeError::ResponseFormat { diagnostic: complaint, raw_output }),
    }
}

/// Whether `result` is what the call returns for a process that ended as
/// `outcome` says.
///
/// A process that failed gives a backend error with the text of its standard
/// error, whatever it wrote to its standard output. A process that ended well
/// gives the value that its standard output holds. Where that output is not
/// JSON, it gives a format error with the reader's complaint about it and the
/// output itself. Output that is UTF-8 is carried as it stands.
pub open spec fn decodes_to(outcome: ProcessOutcome, result: CallResult) -> bool {
    if !outcome.exit_success {
        &&& result matches Err(BridgeError::Backend(errors))
        &&& errors@ == captured_text(outcome.stderr@)
    } else {
        match parsed_json(captured_text(outcome.stdout@)) {
            Ok(model) => result matches Ok(value) && value_model(value) == model,
            Err(complaint) => {
                &&& result matches Err(BridgeError::ResponseFormat { diagnostic, raw_output })
                &&& diagnostic@ == complaint
                &&& raw_output@ == captured_text(outcome.stdout@)
            },
        }
    }
}

/// Turns the outcome of a process into the result of the call.
pub fn decode_response(outcome: &ProcessOutcome) -> (result: CallResult)
    ensures
        decodes_to(*outcome, result),
{
    if !outcome.exit_success {
        Err(BridgeError::Backend(text_of(&outcome.stderr)))
    } else {
        let raw_output = text_of(&outcome.stdout);
        let read = parse_value(raw_output.as_str());
        response_from(raw_output, read)
    }
}

} // verus!
