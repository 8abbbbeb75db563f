use mago_zed::diagnostics::DiagnosticSeverity;
use mago_zed::parser::{parse_mago_output, MagoOutputParser};

#[test]
fn test_parse_mago_analyze_output() {
    let raw_output = r#"
error[possibly-invalid-argument]: The first value for `require` might have the wrong type.
  ┌─ examples/test.php:7:9
  │
7 │ require $_GET["template"]; // RFI
  │ ------- ^^^^^^^^^^^^^^^^^ This is `non-empty-array<int|non-empty-string, array<int|non-empty-string, mixed>|string>|string`, which only sometimes overlaps with `string`
  │ │
  │ `require` called here
  │
  = Help: Add a type check to ensure the value is what you expect.

error: found 1 issues: 1 error(s)
"#;

    let diagnostics = parse_mago_output(raw_output, "analyze").unwrap();

    assert_eq!(diagnostics.len(), 1);

    let diag = &diagnostics[0];

    assert_eq!(diag.severity, Some(DiagnosticSeverity::Error));
    assert_eq!(diag.range.start.line, 6);
    assert_eq!(diag.range.start.character, 8);

    assert!(diag.message.contains("The first value for `require` might have the wrong type."));
    assert!(diag.message.contains("Note: This is `non-empty-array"));
    assert!(diag.message.contains("Help: Add a type check"));

    assert_eq!(diag.code, Some("possibly-invalid-argument".to_string()));
    assert_eq!(diag.source, Some("mago analyze".to_string()));
}

#[test]
fn test_parse_mago_lint_output() {
    let raw_output = r"
warning[strict-types]: Missing `declare(strict_types=1);` statement at the beginning of the file.
  ┌─ examples/test.php:1:1
  │
1 │ <?php
  │ ^^^^^
  │
   = The `strict_types` directive enforces strict type checking, which can prevent subtle bugs.
   = Help: Add `declare(strict_types=1);` at the top of your file.
";

    let diagnostics = parse_mago_output(raw_output, "lint").unwrap();

    assert_eq!(diagnostics.len(), 1);
    let diag = &diagnostics[0];

    assert_eq!(diag.severity, Some(DiagnosticSeverity::Warning));
    assert_eq!(diag.range.start.line, 0);
    assert_eq!(diag.range.start.character, 0);
    assert!(diag.message.contains("Missing `declare(strict_types=1);`"));
    assert!(diag.message.contains("Help: Add `declare(strict_types=1);`"));
}

#[test]
fn parse_exact_message_range_and_width() {
    let raw_output = "error[rule-a]: First problem\n  ┌─ a.php:3:5\n  │\n3 │ $x = foo();\n  │     ^^^ bad call\n  = Help: fix it  \n";
    let diagnostics = parse_mago_output(raw_output, "lint").unwrap();
    assert_eq!(diagnostics.len(), 1);
    let d = &diagnostics[0];
    assert_eq!(d.range.start.line, 2);
    assert_eq!(d.range.start.character, 4);
    assert_eq!(d.range.end.line, 2);
    assert_eq!(d.range.end.character, 7);
    assert_eq!(d.message, "First problem\n\nNote: bad call\n\nHelp: fix it");
    assert_eq!(d.code.as_deref(), Some("rule-a"));
    assert_eq!(d.source.as_deref(), Some("mago lint"));
}

#[test]
fn parse_splits_report_into_blocks_in_order() {
    let raw_output = "warning[w1]: one\n  ┌─ a.php:1:2\nerror[e2]: two\n  ┌─ b.php:10:1\n";
    let diagnostics = parse_mago_output(raw_output, "analyze").unwrap();
    assert_eq!(diagnostics.len(), 2);
    assert_eq!(diagnostics[0].code.as_deref(), Some("w1"));
    assert_eq!(diagnostics[0].severity, Some(DiagnosticSeverity::Warning));
    assert_eq!((diagnostics[0].range.start.line, diagnostics[0].range.start.character), (0, 1));
    assert_eq!(diagnostics[1].code.as_deref(), Some("e2"));
    assert_eq!(diagnostics[1].severity, Some(DiagnosticSeverity::Error));
    assert_eq!((diagnostics[1].range.start.line, diagnostics[1].range.start.character), (9, 0));
    // Without carets the diagnostic is one character wide.
    assert_eq!(diagnostics[1].range.end.character, 1);
}

#[test]
fn parse_without_location_starts_at_origin() {
    let diagnostics = parse_mago_output("warning[x]: no location here\n", "lint").unwrap();
    assert_eq!(diagnostics.len(), 1);
    let d = &diagnostics[0];
    assert_eq!((d.range.start.line, d.range.start.character), (0, 0));
    assert_eq!((d.range.end.line, d.range.end.character), (0, 1));
    assert_eq!(d.message, "no location here");
}

#[test]
fn parse_empty_output_has_no_diagnostics() {
    assert_eq!(parse_mago_output("", "lint").unwrap().len(), 0);
    assert_eq!(parse_mago_output("error: found 0 issues\n", "lint").unwrap().len(), 0);
}

#[test]
fn parse_refuses_line_zero() {
    assert_eq!(parse_mago_output("error[x]: t\n  ┌─ a.php:0:3\n", "lint"), None);
    assert_eq!(parse_mago_output("error[x]: t\n  ┌─ a.php:3:0\n", "lint"), None);
}

#[test]
fn parse_refuses_width_past_limit() {
    let raw = "error[x]: t\n  ┌─ a.php:1:4294967295\n  │ ^^\n";
    assert_eq!(parse_mago_output(raw, "lint"), None);
    let raw = "error[x]: t\n  ┌─ a.php:1:4294967295\n";
    let d = parse_mago_output(raw, "lint").unwrap();
    assert_eq!(d[0].range.start.character, 4294967294);
    assert_eq!(d[0].range.end.character, 4294967295);
}

#[test]
fn parse_out_of_range_number_counts_as_one() {
    let raw = "error[x]: t\n  ┌─ a.php:99999999999:7\n";
    let d = parse_mago_output(raw, "lint").unwrap();
    assert_eq!((d[0].range.start.line, d[0].range.start.character), (0, 6));
}

#[test]
fn parse_caret_width_counts_bytes() {
    let raw = "error[x]: t\n  ┌─ a.php:2:3\n  │ ^^^^^^^^^^\n";
    let d = parse_mago_output(raw, "lint").unwrap();
    assert_eq!(d[0].range.end.character - d[0].range.start.character, 10);
}

#[test]
fn parser_compiles_its_patterns() {
    assert!(MagoOutputParser::new().is_some());
}
