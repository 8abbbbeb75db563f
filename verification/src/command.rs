//! Mago command lines: which subcommand runs, which configuration file of the
//! workspace it is pointed at, and the argument list that results.
use crate::text::{join_path, join_relative};
use vstd::prelude::*;

verus! {

/// A Mago subcommand.
#[derive(Clone, Copy, Debug, PartialEq, Eq, Structural)]
pub enum MagoCommand {
    Lint,
    Analyze,
}

/// The word that names a subcommand on Mago's command line.
pub open spec fn command_name(command: MagoCommand) -> Seq<char> {
    match command {
        MagoCommand::Lint => "lint"@,
        MagoCommand::Analyze => "analyze"@,
    }
}

impl MagoCommand {
    /// The subcommand's name on the command line.
    pub fn as_str(self) -> (name: &'static str)
        ensures
            name@ == command_name(self),
    {
        match self {
            MagoCommand::Lint => "lint",
            MagoCommand::Analyze => "analyze",
        }
    }

    /// The subcommands run, in this order, to produce a file's diagnostics:
    /// the linter alone.
    pub fn diagnostics_pipeline() -> (pipeline: [MagoCommand; 1])
        ensures
            pipeline@ == seq![MagoCommand::Lint],
    {
        let pipeline = [MagoCommand::Lint];
        assert(pipeline@ =~= seq![MagoCommand::Lint]);
        pipeline
    }
}

/// Distinct subcommands have distinct names, so a name read back from a
/// command line determines the subcommand.
pub proof fn lemma_command_names_distinct(a: MagoCommand, b: MagoCommand)
    requires
        command_name(a) == command_name(b),
    ensures
        a == b,
{
    reveal_strlit("lint");
    reveal_strlit("analyze");
    assert("lint"@.len() == 4);
    assert("analyze"@.len() == 7);
}

// ---------------------------------------------------------------------------
// Workspace configuration
// ---------------------------------------------------------------------------

/// The configuration file names Mago looks for in a workspace, in order of
/// precedence: `mago` before `mago.dist`, and for each of them the formats
/// `toml`, `yaml`, `yml`, `json` in turn.
pub open spec fn config_file_names() -> Seq<Seq<char>> {
    seq![
        "mago.toml"@,
        "mago.yaml"@,
        "mago.yml"@,
        "mago.json"@,
        "mago.dist.toml"@,
        "mago.dist.yaml"@,
        "mago.dist.yml"@,
        "mago.dist.json"@,
    ]
}

/// The number of configuration file names.
pub open spec fn config_file_count() -> int {
    8
}

/// The path of the `k`-th configuration candidate in `workspace_root`.
pub open spec fn config_candidate(workspace_root: Seq<char>, k: int) -> Seq<char> {
    join_path(workspace_root, config_file_names()[k])
}

/// `path` is one of the configuration candidates of `workspace_root`.
pub open spec fn is_config_candidate(workspace_root: Seq<char>, path: Seq<char>) -> bool {
    exists|k: int| 0 <= k < config_file_count() && path == config_candidate(workspace_root, k)
}

/// The `k`-th configuration file name.
pub fn config_file_name(k: usize) -> (name: &'static str)
    requires
        k < 8,
    ensures
        name@ == config_file_names()[k as int],
{
    match k {
        0 => "mago.toml",
        1 => "mago.yaml",
        2 => "mago.yml",
        3 => "mago.json",
        4 => "mago.dist.toml",
        5 => "mago.dist.yaml",
        6 => "mago.dist.yml",
        _ => "mago.dist.json",
    }
}

/// `Path::is_file`: whether a regular file exists at `path`. What it returns
/// depends on the file system at the time of the call, so nothing is claimed
/// of the result.
#[verifier::external_body]
fn path_is_file(path: &str) -> bool {
    std::path::Path::new(path).is_file()
}

/// Looks for a Mago configuration file in `workspace_root` and returns the
/// first candidate, in the order of `config_file_names`, that is a file.
/// Each candidate in turn is asked of the file system until one is a file;
/// the answers gathered are handed to `select_workspace_config`, which makes
/// the choice. Which candidates exist is up to the file system; whatever it
/// answers, the result is the choice made from some complete list of
/// answers, and a path returned is one of the candidates.
pub fn resolve_workspace_config(workspace_root: &str) -> (config: Option<String>)
    ensures
        config matches Some(p) ==> is_config_candidate(workspace_root@, p@),
        exists|present: Seq<bool>|
            present.len() == config_file_count() && config.deep_view() == chosen_config(
                workspace_root@,
                present,
            ),
{
    let mut present: Vec<bool> = Vec::new();
    let mut found = false;
    let mut k: usize = 0;
    while k < 8 && !found
        invariant
            k <= 8,
            present.len() == k,
            found ==> k > 0 && present@[k - 1],
        decreases 8 - k,
    {
        let candidate = join_relative(workspace_root, config_file_name(k));
        let is_file = path_is_file(candidate.as_str());
        present.push(is_file);
        found = is_file;
        k = k + 1;
    }
    let config = select_workspace_config(workspace_root, &present);
    proof {
        let answers = present@;
        let complete = answers + Seq::new((8 - answers.len()) as nat, |i: int| false);
        lemma_first_present_prefix(answers, complete, 0);
        assert(chosen_config(workspace_root@, answers) == chosen_config(workspace_root@, complete));
        lemma_first_present_in_range(answers, 0);
    }
    config
}

/// Answers gathered up to the first candidate that is a file (or for all
/// candidates) choose the same configuration as any complete list that
/// agrees with them.
proof fn lemma_first_present_prefix(answers: Seq<bool>, complete: Seq<bool>, k: int)
    requires
        answers.len() <= config_file_count(),
        complete.len() == config_file_count(),
        forall|i: int| 0 <= i < answers.len() ==> #[trigger] complete[i] == answers[i],
        0 <= k,
        answers.len() == config_file_count() || (k < answers.len() && answers[answers.len()
            - 1]),
    ensures
        first_present_from(answers, k) == first_present_from(complete, k),
    decreases config_file_count() - k,
{
    if k < config_file_count() && k < answers.len() && !answers[k] {
        assert(complete[k] == answers[k]);
        lemma_first_present_prefix(answers, complete, k + 1);
    } else if k < config_file_count() && k < answers.len() {
        assert(complete[k] == answers[k]);
    }
}

/// The first present candidate lies between the starting index and the last
/// candidate.
proof fn lemma_first_present_in_range(present: Seq<bool>, k: int)
    ensures
        first_present_from(present, k) matches Some(i) ==> k <= i < config_file_count() && 0 <= i,
    decreases config_file_count() - k,
{
    if 0 <= k < config_file_count() && !(k < present.len() && present[k]) {
        lemma_first_present_in_range(present, k + 1);
    }
}

/// The index of the first candidate, from `k` on, that `present` marks as
/// existing (a missing entry counts as absent).
pub open spec fn first_present_from(present: Seq<bool>, k: int) -> Option<int>
    decreases config_file_count() - k,
{
    if k < 0 || k >= config_file_count() {
        None
    } else if k < present.len() && present[k] {
        Some(k)
    } else {
        first_present_from(present, k + 1)
    }
}

/// The configuration chosen in `workspace_root` when `present` tells which
/// candidates exist.
pub open spec fn chosen_config(workspace_root: Seq<char>, present: Seq<bool>) -> Option<Seq<char>> {
    match first_present_from(present, 0) {
        Some(k) => Some(config_candidate(workspace_root, k)),
        None => None,
    }
}

/// Chooses the configuration file of `workspace_root` given which candidates
/// exist (`present[k]` for the `k`-th candidate): the first one present, or none.
pub fn select_workspace_config(workspace_root: &str, present: &Vec<bool>) -> (config: Option<
    String,
>)
    ensures
        config.deep_view() == chosen_config(workspace_root@, present@),
{
    let mut k: usize = 0;
    while k < 8
        invariant
            k <= 8,
            first_present_from(present@, 0) == first_present_from(present@, k as int),
        decreases 8 - k,
    {
        if k < present.len() && present[k] {
            let candidate = join_relative(workspace_root, config_file_name(k));
            return Some(candidate);
        }
        k = k + 1;
    }
    None
}

/// Precedence of configuration files: where two candidates exist, the later
/// one is never chosen. So a `mago` file always wins over a `mago.dist` file
/// and, for the same name, `toml` over `yaml` over `yml` over `json`.
pub proof fn lemma_config_precedence(present: Seq<bool>, j: int, k: int)
    requires
        0 <= j < k < config_file_count(),
        k < present.len(),
        present[j],
        present[k],
    ensures
        first_present_from(present, 0) != Some(k),
        first_present_from(present, 0) matches Some(i) && i <= j,
{
    lemma_first_present_at_most(present, 0, j);
}

/// Searching from `from` finds a present candidate no later than `j`.
proof fn lemma_first_present_at_most(present: Seq<bool>, from: int, j: int)
    requires
        0 <= from <= j < config_file_count(),
        j < present.len(),
        present[j],
    ensures
        first_present_from(present, from) matches Some(i) && from <= i <= j,
    decreases j - from,
{
    if !(from < present.len() && present[from]) {
        lemma_first_present_at_most(present, from + 1, j);
    }
}

// ---------------------------------------------------------------------------
// Command lines
// ---------------------------------------------------------------------------

/// A process to start: the program, its arguments and the directory it runs
/// in (`None`: the caller's own).
pub struct MagoInvocation {
    pub program: String,
    pub args: Vec<String>,
    pub current_dir: Option<String>,
}

/// The mathematical value of a `MagoInvocation`.
pub struct InvocationView {
    pub program: Seq<char>,
    pub args: Seq<Seq<char>>,
    pub current_dir: Option<Seq<char>>,
}

impl DeepView for MagoInvocation {
    type V = InvocationView;

    open spec fn deep_view(&self) -> InvocationView {
        InvocationView {
            program: self.program@,
            args: self.args.deep_view(),
            current_dir: self.current_dir.deep_view(),
        }
    }
}

/// The arguments of a Mago run on `file_path`: inside a workspace,
/// `--workspace <root>` comes first, then `--config <path>` where a
/// configuration was found; the subcommand and the file always come last.
pub open spec fn mago_args(
    file_path: Seq<char>,
    command: MagoCommand,
    workspace_root: Option<Seq<char>>,
    config: Option<Seq<char>>,
) -> Seq<Seq<char>> {
    let target = seq![command_name(command), file_path];
    match workspace_root {
        Some(root) => seq!["--workspace"@, root] + match config {
            Some(c) => seq!["--config"@, c],
            None => Seq::empty(),
        } + target,
        None => target,
    }
}

/// The whole invocation of a Mago run: it starts `mago_bin` with `mago_args`,
/// in the workspace root where there is one.
pub open spec fn mago_invocation(
    mago_bin: Seq<char>,
    file_path: Seq<char>,
    command: MagoCommand,
    workspace_root: Option<Seq<char>>,
    config: Option<Seq<char>>,
) -> InvocationView {
    InvocationView {
        program: mago_bin,
        args: mago_args(file_path, command, workspace_root, config),
        current_dir: workspace_root,
    }
}

/// Builds the invocation of a Mago run with a configuration already chosen.
/// The configuration is used only inside a workspace.
pub fn command_with_config(
    mago_bin: &str,
    file_path: &str,
    command_type: MagoCommand,
    workspace_root: Option<&str>,
    config_path: Option<String>,
) -> (invocation: MagoInvocation)
    ensures
        invocation.deep_view() == mago_invocation(
            mago_bin@,
            file_path@,
            command_type,
            workspace_root.deep_view(),
            config_path.deep_view(),
        ),
{
    let mut args: Vec<String> = Vec::new();
    let mut current_dir: Option<String> = None;
    match workspace_root {
        Some(root) => {
            args.push(String::from_str("--workspace"));
            args.push(String::from_str(root));
            match config_path {
                Some(c) => {
                    args.push(String::from_str("--config"));
                    args.push(c);
                },
                None => {},
            }
            current_dir = Some(String::from_str(root));
        },
        None => {},
    }
    args.push(String::from_str(command_type.as_str()));
    args.push(String::from_str(file_path));
    let invocation = MagoInvocation { program: String::from_str(mago_bin), args, current_dir };
    assert(invocation.deep_view().args =~= mago_args(
        file_path@,
        command_type,
        workspace_root.deep_view(),
        config_path.deep_view(),
    ));
    invocation
}

/// `inv` is the invocation of a Mago run whose configuration is the one
/// chosen from some complete list of answers to which candidates exist (and
/// none outside a workspace).
pub open spec fn is_mago_invocation(
    inv: InvocationView,
    mago_bin: Seq<char>,
    file_path: Seq<char>,
    command: MagoCommand,
    workspace_root: Option<Seq<char>>,
) -> bool {
    exists|present: Seq<bool>|
        {
            &&& present.len() == config_file_count()
            &&& inv == mago_invocation(
                mago_bin,
                file_path,
                command,
                workspace_root,
                workspace_config(workspace_root, present),
            )
        }
}

/// The configuration a Mago run is pointed at, when `present` tells which
/// candidates exist: the chosen one inside a workspace, none outside.
pub open spec fn workspace_config(workspace_root: Option<Seq<char>>, present: Seq<bool>) -> Option<
    Seq<char>,
> {
    match workspace_root {
        Some(root) => chosen_config(root, present),
        None => None,
    }
}

/// Builds the invocation of a Mago run on `file_path`. Inside a workspace the
/// configuration is looked up with `resolve_workspace_config`, so the
/// arguments carry the first candidate the file system reports as a file (or
/// none); outside one, Mago gets just the subcommand and the file.
pub fn build_mago_command(
    mago_bin: &str,
    file_path: &str,
    command_type: MagoCommand,
    workspace_root: Option<&str>,
) -> (invocation: MagoInvocation)
    ensures
        is_mago_invocation(
            invocation.deep_view(),
            mago_bin@,
            file_path@,
            command_type,
            workspace_root.deep_view(),
        ),
{
    let config = match workspace_root {
        Some(root) => resolve_workspace_config(root),
        None => None,
    };
    let invocation = command_with_config(mago_bin, file_path, command_type, workspace_root, config);
    proof {
        match workspace_root {
            Some(root) => {
                let present = choose|present: Seq<bool>|
                    present.len() == config_file_count() && config.deep_view() == chosen_config(
                        root@,
                        present,
                    );
                assert(workspace_root.deep_view() == Some(root@));
                assert(config.deep_view() == workspace_config(workspace_root.deep_view(), present));
            },
            None => {
                let present = Seq::new(8, |i: int| false);
                assert(config.deep_view() == workspace_config(workspace_root.deep_view(), present));
            },
        }
    }
    invocation
}

/// Whatever configuration is chosen, a Mago run ends with the subcommand
/// and the file, and inside a workspace it starts with `--workspace <root>`
/// and runs in that root.
pub proof fn lemma_invocation_shape(
    mago_bin: Seq<char>,
    file_path: Seq<char>,
    command: MagoCommand,
    workspace_root: Option<Seq<char>>,
    config: Option<Seq<char>>,
)
    ensures
        ({
            let inv = mago_invocation(mago_bin, file_path, command, workspace_root, config);
            let n = inv.args.len();
            &&& n >= 2
            &&& inv.args[n - 2] == command_name(command)
            &&& inv.args[n - 1] == file_path
            &&& inv.program == mago_bin
            &&& inv.current_dir == workspace_root
            &&& (workspace_root matches Some(root) ==> inv.args[0] == "--workspace"@ && inv.args[1]
                == root)
            &&& (workspace_root is None ==> n == 2)
        }),
{
}

/// The workspace root handed over through the environment: a value that is
/// present and not empty; otherwise none.
pub fn workspace_root_from_env(value: Option<String>) -> (root: Option<String>)
    ensures
        root.deep_view() == value_if_not_empty(value.deep_view()),
{
    match value {
        Some(v) => if v.as_str().is_empty() {
            None
        } else {
            Some(v)
        },
        None => None,
    }
}

/// The root a Mago run works in: the one handed over through the
/// environment, or else the current directory.
pub fn workspace_root_for_command(env_value: Option<String>, current_dir: Option<String>) -> (root:
    Option<String>)
    ensures
        root.deep_view() == match value_if_not_empty(env_value.deep_view()) {
            Some(v) => Some(v),
            None => current_dir.deep_view(),
        },
{
    match workspace_root_from_env(env_value) {
        Some(root) => Some(root),
        None => current_dir,
    }
}

/// A value that is present and not empty.
pub open spec fn value_if_not_empty(value: Option<Seq<char>>) -> Option<Seq<char>> {
    match value {
        Some(v) => if v.len() > 0 {
            Some(v)
        } else {
            None
        },
        None => None,
    }
}

} // verus!
