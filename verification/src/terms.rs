use vstd::prelude::*;

verus! {

/// Canonical vocabulary shared by the command-line bridge and the editor extension.
#[derive(Clone, Copy, Debug, PartialEq, Eq, Structural)]
pub enum WorkspaceConcept {
    /// The workspace root path the editor opened for this project.
    EditorWorkspace,
}

/// The name under which a workspace concept is written down.
pub open spec fn concept_name(concept: WorkspaceConcept) -> Seq<char> {
    match concept {
        WorkspaceConcept::EditorWorkspace => "editor-workspace"@,
    }
}

impl WorkspaceConcept {
    pub fn as_str(self) -> (name: &'static str)
        ensures
            name@ == concept_name(self),
    {
        match self {
            WorkspaceConcept::EditorWorkspace => "editor-workspace",
        }
    }
}

/// Environment variable through which the editor hands over the workspace root.
pub const EDITOR_WORKSPACE_ROOT_ENV: &'static str = "MAGO_WORKSPACE_ROOT";

/// Environment variable that overrides the wrapper binary started by the extension.
pub const CLI_WRAPPER_BIN_ENV: &'static str = "MAGO_ZED_WRAPPER_BIN";

/// Wrapper binary started by the extension when no override is configured.
pub const CLI_WRAPPER_BIN_DEFAULT: &'static str = "cli";

/// Environment variable that overrides the Mago executable.
pub const MAGO_BIN_ENV: &'static str = "MAGO_BIN";

/// Mago executable used when no override is configured.
pub const MAGO_BIN_DEFAULT: &'static str = "mago";

} // verus!
