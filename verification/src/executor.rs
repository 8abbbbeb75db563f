use crate::command::{
    build_mago_command, command_name, is_mago_invocation, MagoCommand,
    MagoInvocation,
};
use crate::diagnostics::Diagnostic;
use crate::error::MagoError;
use crate::parser::{parse_mago_output, report_diagnostics};
use vstd::prelude::*;
use vstd::utf8::{decode_utf8, valid_utf8};

verus! {

/// The text `String::from_utf8_lossy` makes of `bytes`.
pub uninterp spec fn utf8_lossy(bytes: Seq<u8>) -> Seq<char>;

/// `String::from_utf8_lossy`, taken as an owned `String`. It claims that the
/// result is `utf8_lossy` of the bytes, and what the standard library
/// documents of it: valid UTF-8 is decoded unchanged.
#[verifier::external_body]
fn decode_lossy(bytes: &[u8]) -> (text: String)
    ensures
        text@ == utf8_lossy(bytes@),
        valid_utf8(bytes@) ==> text@ == decode_utf8(bytes@),
{
    String::from_utf8_lossy(bytes).into_owned()
}

/// Runs the decisions of a Mago check: it builds the command line for a file
/// and, once the process has run, turns its outcome into diagnostics or an
/// error.
pub struct MagoExecutor {
    mago_bin: String,
}

impl MagoExecutor {
    /// The Mago executable this executor starts.
    pub closed spec fn bin(&self) -> Seq<char> {
        self.mago_bin@
    }

    pub fn new(mago_bin: String) -> (executor: Self)
        ensures
            executor.bin() == mago_bin@,
    {
        MagoExecutor { mago_bin }
    }

    /// The command line that checks `file_path` with `command_type`, run in
    /// `workspace_root` where there is one (see `build_mago_command`).
    pub fn command_for(
        &self,
        file_path: &str,
        command_type: MagoCommand,
        workspace_root: Option<&str>,
    ) -> (invocation: MagoInvocation)
        ensures
            is_mago_invocation(
                invocation.deep_view(),
                self.bin(),
                file_path@,
                command_type,
                workspace_root.deep_view(),
            ),
    {
        build_mago_command(self.mago_bin.as_str(), file_path, command_type, workspace_root)
    }

    /// Completes a check of `file_path` once the process has run. `outcome` is
    /// the process's standard output, or the reason it could not be started.
    /// A process that could not be started gives `MagoError::ProcessSpawn`;
    /// otherwise its output, decoded leniently as UTF-8, is parsed into
    /// diagnostics whatever the exit status. `None` where that parse has no
    /// result (see `parse_mago_output`).
    pub fn complete_check(
        &self,
        file_path: &str,
        command_type: MagoCommand,
        outcome: Result<Vec<u8>, String>,
    ) -> (r: Option<Result<Vec<Diagnostic>, MagoError>>)
        ensures
            match outcome {
                Err(reason) => r matches Some(
                    Err(MagoError::ProcessSpawn { mago_bin, command_type: c, file_path: f, source }),
                ) && mago_bin@ == self.bin() && c == command_type && f@ == file_path@ && source@
                    == reason@,
                Ok(stdout) => {
                    let expected = report_diagnostics(
                        utf8_lossy(stdout@),
                        command_name(command_type),
                    );
                    &&& r is None <==> expected is None
                    &&& r matches Some(result) ==> result matches Ok(d) && Some(d.deep_view())
                        == expected
                }
            },
    {
        match outcome {
            Err(reason) => Some(
                Err(
                    MagoError::ProcessSpawn {
                        mago_bin: self.mago_bin.clone(),
                        command_type,
                        file_path: String::from_str(file_path),
                        source: reason,
                    },
                ),
            ),
            Ok(stdout) => {
                let text = decode_lossy(stdout.as_slice());
                match parse_mago_output(text.as_str(), command_type.as_str()) {
                    Some(diagnostics) => Some(Ok(diagnostics)),
                    None => None,
                }
            },
        }
    }
}

} // verus!
