use crate::command::{command_name, MagoCommand};
use vstd::prelude::*;

verus! {

/// Why a Mago check could not be carried out.
#[derive(Debug)]
pub enum MagoError {
    /// The Mago process could not be started; `source` describes the
    /// operating system's refusal.
    ProcessSpawn {
        mago_bin: String,
        command_type: MagoCommand,
        file_path: String,
        source: String,
    },
}

/// The text shown for a process that could not be started:
/// ``failed to execute `<bin> <command> <file>`: <source>``.
pub open spec fn spawn_failure_message(
    mago_bin: Seq<char>,
    command: MagoCommand,
    file_path: Seq<char>,
    source: Seq<char>,
) -> Seq<char> {
    "failed to execute `"@ + mago_bin + " "@ + command_name(command) + " "@ + file_path + "`: "@
        + source
}

impl MagoError {
    /// The text that describes the error.
    pub fn message(&self) -> (text: String)
        ensures
            match self {
                MagoError::ProcessSpawn { mago_bin, command_type, file_path, source } => text@
                    == spawn_failure_message(mago_bin@, *command_type, file_path@, source@),
            },
    {
        match self {
            MagoError::ProcessSpawn { mago_bin, command_type, file_path, source } => {
                let mut text = String::from_str("failed to execute `");
                text.append(mago_bin.as_str());
                text.append(" ");
                text.append(command_type.as_str());
                text.append(" ");
                text.append(file_path.as_str());
                text.append("`: ");
                text.append(source.as_str());
                text
            },
        }
    }

    /// The description of the underlying cause.
    pub fn source_message(&self) -> (text: &str)
        ensures
            match self {
                MagoError::ProcessSpawn { source, .. } => text@ == source@,
            },
    {
        match self {
            MagoError::ProcessSpawn { source, .. } => source.as_str(),
        }
    }
}

} // verus!
