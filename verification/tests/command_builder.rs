use mago_zed::command::{
    build_mago_command, command_with_config, resolve_workspace_config, select_workspace_config,
    workspace_root_for_command, workspace_root_from_env, MagoCommand,
};

const MAGO_BIN: &str = "mago";

#[test]
fn build_mago_command_omits_workspace_when_none_is_provided() {
    let file_path = "/tmp/example.php";
    let command = build_mago_command(MAGO_BIN, file_path, MagoCommand::Lint, None);

    let args: Vec<String> = command.args.clone();

    assert_eq!(args, ["lint", "/tmp/example.php"]);
    assert_eq!(command.current_dir, None);
}

#[test]
fn build_mago_command_forwards_workspace_to_mago() {
    let workspace_root = "/tmp/workspace";
    let file_path = "/tmp/workspace/src/example.php";
    let command =
        build_mago_command(MAGO_BIN, file_path, MagoCommand::Analyze, Some(workspace_root));

    let args: Vec<String> = command.args.clone();

    assert_eq!(
        args,
        ["--workspace", "/tmp/workspace", "analyze", "/tmp/workspace/src/example.php",]
    );
    assert_eq!(command.current_dir.as_deref(), Some(workspace_root));
}

#[test]
fn selected_config_is_attached_when_only_mago_toml_exists() {
    let workspace_root = "/tmp/workspace-config-present";
    // Only `mago.toml` exists in the workspace.
    let present = vec![true, false, false, false, false, false, false, false];
    let config = select_workspace_config(workspace_root, &present);

    let file_path = "/tmp/workspace-config-present/src/example.php";
    let command =
        command_with_config(MAGO_BIN, file_path, MagoCommand::Lint, Some(workspace_root), config);

    assert_eq!(
        command.args,
        [
            "--workspace",
            workspace_root,
            "--config",
            "/tmp/workspace-config-present/mago.toml",
            "lint",
            file_path,
        ]
    );
}

#[test]
fn selected_config_falls_back_to_mago_dist_with_format_precedence() {
    let workspace_root = "/tmp/workspace-dist-fallback";
    // `mago.dist.yaml` and `mago.dist.json` exist; no `mago.*` file does.
    let present = vec![false, false, false, false, false, true, false, true];
    let config = select_workspace_config(workspace_root, &present);

    let file_path = "/tmp/workspace-dist-fallback/src/example.php";
    let command =
        command_with_config(MAGO_BIN, file_path, MagoCommand::Analyze, Some(workspace_root), config);

    let args = command.args;

    assert_eq!(args[2], "--config");
    assert_eq!(args[3], "/tmp/workspace-dist-fallback/mago.dist.yaml");
}

#[test]
fn resolve_workspace_config_finds_nothing_in_missing_directory() {
    assert_eq!(resolve_workspace_config("/nonexistent/mago-zed-workspace"), None);
}

#[test]
fn select_workspace_config_prefers_mago_over_dist() {
    let present = vec![false, false, false, true, true, false, false, false];
    assert_eq!(
        select_workspace_config("/w", &present).as_deref(),
        Some("/w/mago.json")
    );
}

#[test]
fn select_workspace_config_orders_formats() {
    let present = vec![false, false, false, false, false, true, true, true];
    assert_eq!(
        select_workspace_config("/w/", &present).as_deref(),
        Some("/w/mago.dist.yaml")
    );
    let present = vec![true; 8];
    assert_eq!(select_workspace_config("", &present).as_deref(), Some("mago.toml"));
}

#[test]
fn select_workspace_config_none_present() {
    assert_eq!(select_workspace_config("/w", &vec![false; 8]), None);
    assert_eq!(select_workspace_config("/w", &vec![]), None);
    assert_eq!(select_workspace_config("/w", &vec![false, false]), None);
}

#[test]
fn command_with_config_places_config_after_workspace() {
    let command = command_with_config(
        "/usr/bin/mago",
        "a.php",
        MagoCommand::Lint,
        Some("/w"),
        Some("/w/mago.yml".to_string()),
    );
    assert_eq!(command.program, "/usr/bin/mago");
    assert_eq!(command.args, ["--workspace", "/w", "--config", "/w/mago.yml", "lint", "a.php"]);
    assert_eq!(command.current_dir.as_deref(), Some("/w"));
}

#[test]
fn command_with_config_ignores_config_outside_workspace() {
    let command = command_with_config(
        "mago",
        "a.php",
        MagoCommand::Analyze,
        None,
        Some("/w/mago.yml".to_string()),
    );
    assert_eq!(command.args, ["analyze", "a.php"]);
    assert_eq!(command.current_dir, None);
}

#[test]
fn mago_command_names() {
    assert_eq!(MagoCommand::Lint.as_str(), "lint");
    assert_eq!(MagoCommand::Analyze.as_str(), "analyze");
    assert_eq!(MagoCommand::diagnostics_pipeline(), [MagoCommand::Lint]);
}

#[test]
fn workspace_root_from_env_drops_empty_values() {
    assert_eq!(workspace_root_from_env(None), None);
    assert_eq!(workspace_root_from_env(Some(String::new())), None);
    assert_eq!(workspace_root_from_env(Some(" ".to_string())).as_deref(), Some(" "));
    assert_eq!(workspace_root_from_env(Some("/w".to_string())).as_deref(), Some("/w"));
}

#[test]
fn workspace_root_for_command_falls_back_to_current_dir() {
    assert_eq!(
        workspace_root_for_command(Some("/w".to_string()), Some("/cwd".to_string())).as_deref(),
        Some("/w")
    );
    assert_eq!(
        workspace_root_for_command(Some(String::new()), Some("/cwd".to_string())).as_deref(),
        Some("/cwd")
    );
    assert_eq!(workspace_root_for_command(None, None), None);
}
