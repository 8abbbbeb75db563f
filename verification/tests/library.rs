use mago_zed::command::MagoCommand;
use mago_zed::diagnostics::{build_mago_diagnostic, DiagnosticSeverity, Position, Range};
use mago_zed::error::MagoError;
use mago_zed::executor::MagoExecutor;
use mago_zed::extension::{language_server_command, wrapper_binary};
use mago_zed::runtime::{binary_or_default, resolve_mago_bin};
use mago_zed::server::{check_failure_message, record_check_result, skipped_uri_message};
use mago_zed::terms::{WorkspaceConcept, EDITOR_WORKSPACE_ROOT_ENV, MAGO_BIN_DEFAULT};
use mago_zed::text::{
    is_blank_text, join_relative, parse_u32, slice_between, text_eq, trim_text,
};

#[test]
fn workspace_concept_name() {
    assert_eq!(WorkspaceConcept::EditorWorkspace.as_str(), "editor-workspace");
    assert_eq!(EDITOR_WORKSPACE_ROOT_ENV, "MAGO_WORKSPACE_ROOT");
}

#[test]
fn build_mago_diagnostic_spans_one_line() {
    let d = build_mago_diagnostic(
        4,
        2,
        5,
        DiagnosticSeverity::Error,
        "code".to_string(),
        "msg".to_string(),
        "analyze",
    );
    assert_eq!(
        d.range,
        Range {
            start: Position { line: 4, character: 2 },
            end: Position { line: 4, character: 7 },
        }
    );
    assert_eq!(d.severity, Some(DiagnosticSeverity::Error));
    assert_eq!(d.code.as_deref(), Some("code"));
    assert_eq!(d.source.as_deref(), Some("mago analyze"));
    assert_eq!(d.message, "msg");
}

#[test]
fn parse_u32_follows_std() {
    for s in ["0", "7", "+12", "4294967295", "", "+", "-1", "4294967296", "12a", " 1", "٣", "00042"] {
        assert_eq!(parse_u32(s), s.parse::<u32>().ok(), "{s:?}");
    }
}

#[test]
fn trim_follows_std() {
    for s in ["", "  ", " a b ", "\t\nx\r\n", "\u{3000}y\u{a0}", "z\u{200b}", "\u{85}q"] {
        assert_eq!(trim_text(s), s.trim(), "{s:?}");
        assert_eq!(is_blank_text(s), s.trim().is_empty(), "{s:?}");
    }
}

#[test]
fn text_equality() {
    assert!(text_eq("error", "error"));
    assert!(!text_eq("error", "errors"));
    assert!(!text_eq("warning", "error"));
    assert!(text_eq("", ""));
}

#[test]
fn join_relative_follows_path_join() {
    assert_eq!(join_relative("/w", "mago.toml"), "/w/mago.toml");
    assert_eq!(join_relative("/w/", "mago.toml"), "/w/mago.toml");
    assert_eq!(join_relative("", "mago.toml"), "mago.toml");
    assert_eq!(join_relative("a", "b"), std::path::Path::new("a").join("b").to_string_lossy());
}

#[test]
fn slice_between_takes_byte_range() {
    assert_eq!(slice_between("héllo", 1, 3), "é");
    assert_eq!(slice_between("héllo", 0, 6), "héllo");
    assert_eq!(slice_between("héllo", 3, 3), "");
}

#[test]
fn mago_error_message() {
    let e = MagoError::ProcessSpawn {
        mago_bin: "mago".to_string(),
        command_type: MagoCommand::Lint,
        file_path: "/tmp/a.php".to_string(),
        source: "No such file or directory (os error 2)".to_string(),
    };
    assert_eq!(
        e.message(),
        "failed to execute `mago lint /tmp/a.php`: No such file or directory (os error 2)"
    );
    assert_eq!(e.source_message(), "No such file or directory (os error 2)");
}

#[test]
fn executor_reports_spawn_failure() {
    let executor = MagoExecutor::new("/opt/mago".to_string());
    let r = executor
        .complete_check("/tmp/a.php", MagoCommand::Analyze, Err("denied".to_string()))
        .unwrap();
    match r {
        Err(MagoError::ProcessSpawn { mago_bin, command_type, file_path, source }) => {
            assert_eq!(mago_bin, "/opt/mago");
            assert_eq!(command_type, MagoCommand::Analyze);
            assert_eq!(file_path, "/tmp/a.php");
            assert_eq!(source, "denied");
        }
        Ok(_) => panic!("expected an error"),
    }
}

#[test]
fn executor_parses_output_and_labels_with_command() {
    let executor = MagoExecutor::new("mago".to_string());
    let stdout = b"warning[w]: title\n  \xe2\x94\x8c\xe2\x94\x80 a.php:2:3\n".to_vec();
    let d = executor.complete_check("a.php", MagoCommand::Lint, Ok(stdout)).unwrap().unwrap();
    assert_eq!(d.len(), 1);
    assert_eq!(d[0].source.as_deref(), Some("mago lint"));
    assert_eq!((d[0].range.start.line, d[0].range.start.character), (1, 2));
}

#[test]
fn executor_decodes_invalid_utf8_leniently() {
    let executor = MagoExecutor::new("mago".to_string());
    let stdout = b"error[e]: bad \xff byte\n".to_vec();
    let d = executor.complete_check("a.php", MagoCommand::Lint, Ok(stdout)).unwrap().unwrap();
    assert_eq!(d.len(), 1);
    assert_eq!(d[0].message, "bad \u{fffd} byte");
}

#[test]
fn executor_command_for_uses_its_binary() {
    let executor = MagoExecutor::new("/opt/mago".to_string());
    let inv = executor.command_for("a.php", MagoCommand::Lint, None);
    assert_eq!(inv.program, "/opt/mago");
    assert_eq!(inv.args, ["lint", "a.php"]);
}

#[test]
fn binary_selection() {
    assert_eq!(resolve_mago_bin(None), MAGO_BIN_DEFAULT);
    assert_eq!(resolve_mago_bin(Some("   ".to_string())), "mago");
    assert_eq!(resolve_mago_bin(Some(" /bin/mago ".to_string())), " /bin/mago ");
    assert_eq!(wrapper_binary(None), "cli");
    assert_eq!(wrapper_binary(Some("\t\n".to_string())), "cli");
    assert_eq!(wrapper_binary(Some("lsp".to_string())), "lsp");
    assert_eq!(binary_or_default(Some(String::new()), "x"), "x");
}

#[test]
fn launch_command_for_worktree() {
    let launch = language_server_command("cli".to_string(), "/home/u/project".to_string());
    assert_eq!(launch.command, "cli");
    assert!(launch.args.is_empty());
    assert_eq!(launch.env, vec![("MAGO_WORKSPACE_ROOT".to_string(), "/home/u/project".to_string())]);
}

#[test]
fn server_messages() {
    assert_eq!(skipped_uri_message("untitled:1"), "Skipping non-file URI: untitled:1");
    assert_eq!(
        check_failure_message(MagoCommand::Lint, "/a.php", "boom"),
        "Mago lint failed for /a.php: boom"
    );
}

#[test]
fn record_check_result_appends_or_reports() {
    let first = build_mago_diagnostic(0, 0, 1, DiagnosticSeverity::Warning, "a".into(), "m".into(), "lint");
    let second = build_mago_diagnostic(1, 0, 1, DiagnosticSeverity::Error, "b".into(), "n".into(), "lint");
    let mut gathered = vec![first.clone()];
    let log = record_check_result(&mut gathered, MagoCommand::Lint, "/a.php", Ok(vec![second.clone()]));
    assert_eq!(log, None);
    assert_eq!(gathered, vec![first.clone(), second.clone()]);
    let log = record_check_result(&mut gathered, MagoCommand::Analyze, "/a.php", Err("x".into()));
    assert_eq!(log.as_deref(), Some("Mago analyze failed for /a.php: x"));
    assert_eq!(gathered, vec![first, second]);
}
