use vstd::prelude::*;

verus! {

/// A position in a text document: a zero-based line and a zero-based
/// character offset on that line.
#[derive(Clone, Copy, Debug, PartialEq, Eq, Structural)]
pub struct Position {
    pub line: u32,
    pub character: u32,
}

/// A range in a text document, from `start` up to `end`.
#[derive(Clone, Copy, Debug, PartialEq, Eq, Structural)]
pub struct Range {
    pub start: Position,
    pub end: Position,
}

/// How serious a diagnostic is.
#[derive(Clone, Copy, Debug, PartialEq, Eq, Structural)]
pub enum DiagnosticSeverity {
    Error,
    Warning,
}

/// One problem reported to the editor: where it is, how serious it is, the
/// rule (`code`) that raised it, the tool that produced it (`source`) and the
/// text shown to the user.
#[derive(Clone, Debug, PartialEq, Eq)]
pub struct Diagnostic {
    pub range: Range,
    pub severity: Option<DiagnosticSeverity>,
    pub code: Option<String>,
    pub source: Option<String>,
    pub message: String,
}

/// The mathematical value of a `Diagnostic`: its texts as character sequences.
pub struct DiagnosticView {
    pub range: Range,
    pub severity: Option<DiagnosticSeverity>,
    pub code: Option<Seq<char>>,
    pub source: Option<Seq<char>>,
    pub message: Seq<char>,
}

impl DeepView for Diagnostic {
    type V = DiagnosticView;

    open spec fn deep_view(&self) -> DiagnosticView {
        DiagnosticView {
            range: self.range,
            severity: self.severity,
            code: self.code.deep_view(),
            source: self.source.deep_view(),
            message: self.message@,
        }
    }
}

/// The `source` label of a diagnostic raised by a Mago command: `mago <command>`.
pub open spec fn mago_source(command_type: Seq<char>) -> Seq<char> {
    "mago "@ + command_type
}

/// The diagnostic that `build_mago_diagnostic` produces.
pub open spec fn mago_diagnostic(
    line: u32,
    col: u32,
    error_length: u32,
    severity: DiagnosticSeverity,
    code: Seq<char>,
    message: Seq<char>,
    command_type: Seq<char>,
) -> DiagnosticView {
    DiagnosticView {
        range: Range {
            start: Position { line, character: col },
            end: Position { line, character: (col + error_length) as u32 },
        },
        severity: Some(severity),
        code: Some(code),
        source: Some(mago_source(command_type)),
        message,
    }
}

/// Builds the diagnostic for one Mago finding: it spans `error_length`
/// characters from `(line, col)` on one line, carries the rule code, and names
/// `mago <command_type>` as its source.
pub fn build_mago_diagnostic(
    line: u32,
    col: u32,
    error_length: u32,
    severity: DiagnosticSeverity,
    code: String,
    message: String,
    command_type: &str,
) -> (d: Diagnostic)
    requires
        col + error_length <= u32::MAX,
    ensures
        d.deep_view() == mago_diagnostic(
            line,
            col,
            error_length,
            severity,
            code@,
            message@,
            command_type@,
        ),
{
    let mut source = String::from_str("mago ");
    source.append(command_type);
    Diagnostic {
        range: Range {
            start: Position { line, character: col },
            end: Position { line, character: col + error_length },
        },
        severity: Some(severity),
        code: Some(code),
        source: Some(source),
        message,
    }
}

} // verus!
