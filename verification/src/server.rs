//! The decisions of the language server around a save or open: what it logs
//! and what it publishes as each Mago check completes.
use crate::command::{command_name, MagoCommand};
use crate::diagnostics::Diagnostic;
use vstd::prelude::*;

verus! {

/// The warning logged for a document that is not a file.
pub open spec fn skipped_uri_text(uri: Seq<char>) -> Seq<char> {
    "Skipping non-file URI: "@ + uri
}

/// The error logged when a Mago check of a file fails.
pub open spec fn check_failure_text(
    command: MagoCommand,
    file_path: Seq<char>,
    error_message: Seq<char>,
) -> Seq<char> {
    "Mago "@ + command_name(command) + " failed for "@ + file_path + ": "@ + error_message
}

/// The warning logged for a document that is not a file.
pub fn skipped_uri_message(uri: &str) -> (text: String)
    ensures
        text@ == skipped_uri_text(uri@),
{
    let mut text = String::from_str("Skipping non-file URI: ");
    text.append(uri);
    text
}

/// The error logged when a Mago check of a file fails.
pub fn check_failure_message(
    command_type: MagoCommand,
    file_path: &str,
    error_message: &str,
) -> (text: String)
    ensures
        text@ == check_failure_text(command_type, file_path@, error_message@),
{
    let mut text = String::from_str("Mago ");
    text.append(command_type.as_str());
    text.append(" failed for ");
    text.append(file_path);
    text.append(": ");
    text.append(error_message);
    text
}

/// Takes in the outcome of one check of the pipeline. The diagnostics of a
/// successful check are appended, in order, to those gathered so far; a
/// failed check leaves them as they are and yields the message to log.
pub fn record_check_result(
    diagnostics: &mut Vec<Diagnostic>,
    command_type: MagoCommand,
    file_path: &str,
    outcome: Result<Vec<Diagnostic>, String>,
) -> (log: Option<String>)
    ensures
        match outcome {
            Ok(found) => {
                &&& final(diagnostics)@ == old(diagnostics)@ + found@
                &&& log is None
            },
            Err(message) => {
                &&& final(diagnostics)@ == old(diagnostics)@
                &&& log matches Some(text) && text@ == check_failure_text(
                    command_type,
                    file_path@,
                    message@,
                )
            },
        },
{
    match outcome {
        Ok(found) => {
            let mut found = found;
            diagnostics.append(&mut found);
            None
        },
        Err(message) => Some(check_failure_message(command_type, file_path, message.as_str())),
    }
}

} // verus!
