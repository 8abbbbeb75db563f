//! The editor extension's side: how it starts the language server.
use crate::runtime::{binary_choice, binary_or_default};
use crate::terms::{CLI_WRAPPER_BIN_DEFAULT, EDITOR_WORKSPACE_ROOT_ENV};
use vstd::prelude::*;

verus! {

/// How the editor starts the language server: the program, its arguments and
/// the environment variables it is given.
pub struct ServerLaunch {
    pub command: String,
    pub args: Vec<String>,
    pub env: Vec<(String, String)>,
}

/// The wrapper binary that hosts the language server, given the value of
/// `MAGO_ZED_WRAPPER_BIN`: that value unless it is blank, otherwise `cli`.
pub fn wrapper_binary(configured: Option<String>) -> (binary: String)
    ensures
        binary@ == binary_choice(configured.deep_view(), CLI_WRAPPER_BIN_DEFAULT@),
{
    binary_or_default(configured, CLI_WRAPPER_BIN_DEFAULT)
}

/// The launch of the language server for a worktree: the wrapper binary with
/// no arguments (it serves on standard input and output), told the
/// worktree's root through `MAGO_WORKSPACE_ROOT`.
pub fn language_server_command(wrapper_binary: String, worktree_root: String) -> (launch:
    ServerLaunch)
    ensures
        launch.command@ == wrapper_binary@,
        launch.args@.len() == 0,
        launch.env@.len() == 1,
        launch.env@[0].0@ == EDITOR_WORKSPACE_ROOT_ENV@,
        launch.env@[0].1@ == worktree_root@,
{
    let mut env: Vec<(String, String)> = Vec::new();
    env.push((String::from_str(EDITOR_WORKSPACE_ROOT_ENV), worktree_root));
    ServerLaunch { command: wrapper_binary, args: Vec::new(), env }
}

} // verus!
