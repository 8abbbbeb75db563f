//! Turning Mago's textual report into diagnostics.
//!
//! A report is a series of blocks. Each block opens with a header line
//! `warning[code]: title` or `error[code]: title` and runs up to the next
//! header (or the end of the report). Inside a block the parser looks for the
//! `┌─ file:line:column` location line, the first run of `^` carets under the
//! source excerpt, the annotation labels after the `^`/`-` markers, and a
//! `= Help: ...` line. The searches themselves are regular expressions (see
//! `pattern`); everything made of their results is proved here.
use crate::diagnostics::{
    build_mago_diagnostic, mago_diagnostic, mago_source, Diagnostic, DiagnosticSeverity, DiagnosticView,
};
use crate::pattern::{
    captures, captures_iter, group_string, group_text, regex_compiles, regex_first_match,
    regex_matches, CompiledRegex,
};
use crate::text::{
    byte_len, byte_slice, parse_u32, parse_u32_spec, slice_between, text_eq, trim, trim_text,
    utf8_len,
};
use vstd::prelude::*;
use vstd::string::StringSliceAdditionalSpecFns;
use vstd::utf8::*;

verus! {

broadcast use vstd::utf8::encode_utf8_valid_utf8;

/// A block header: severity word, rule code in brackets, then the title.
pub const HEADER_PATTERN: &'static str = r"(?m)^(warning|error)\[([^\]]+)\]: (.+)$";

/// The location line: `┌─ path:line:column`.
pub const LOCATION_PATTERN: &'static str = r"(?m)^\s*┌─.*?:(\d+):(\d+)$";

/// An annotation label that follows a run of `^` or `-` markers.
pub const ANNOTATION_PATTERN: &'static str = r"(?m)^\s*│\s*(?:[\^-]+\s+)+(.*)$";

/// The first run of `^` carets under the source excerpt.
pub const CARET_PATTERN: &'static str = r"(?m)^\s*│.*?(\^+)";

/// A help line: `= Help: ...`.
pub const HELP_PATTERN: &'static str = r"(?m)^\s*=\s+(Help:.*)";

/// The pieces of one report block, as the searches found them and before any
/// of them is interpreted.
pub struct RawBlock {
    /// `warning` or `error`.
    pub severity: String,
    /// The rule code between the brackets.
    pub code: String,
    /// The title after `]: `.
    pub title: String,
    /// The line and column digits of the location line, if there is one.
    pub location: Option<(String, String)>,
    /// The first run of carets, if there is one.
    pub caret: Option<String>,
    /// The annotation labels, in order, untrimmed.
    pub notes: Vec<String>,
    /// The help text, starting at `Help:`, untrimmed.
    pub help: Option<String>,
}

/// The mathematical value of a `RawBlock`.
pub struct RawBlockView {
    pub severity: Seq<char>,
    pub code: Seq<char>,
    pub title: Seq<char>,
    pub location: Option<(Seq<char>, Seq<char>)>,
    pub caret: Option<Seq<char>>,
    pub notes: Seq<Seq<char>>,
    pub help: Option<Seq<char>>,
}

impl DeepView for RawBlock {
    type V = RawBlockView;

    open spec fn deep_view(&self) -> RawBlockView {
        RawBlockView {
            severity: self.severity@,
            code: self.code@,
            title: self.title@,
            location: self.location.deep_view(),
            caret: self.caret.deep_view(),
            notes: self.notes.deep_view(),
            help: self.help.deep_view(),
        }
    }
}

// ---------------------------------------------------------------------------
// Splitting a report into blocks
// ---------------------------------------------------------------------------

/// The header matches of a report.
pub open spec fn report_headers(stdout: Seq<char>) -> Seq<(usize, Seq<Option<Seq<char>>>)> {
    regex_matches(HEADER_PATTERN@, stdout)
}

/// The byte offset where block `i` ends: where the next header starts, or the
/// end of the report for the last block.
pub open spec fn block_end(
    stdout: Seq<char>,
    headers: Seq<(usize, Seq<Option<Seq<char>>>)>,
    i: int,
) -> int {
    if i + 1 < headers.len() {
        headers[i + 1].0 as int
    } else {
        utf8_len(stdout) as int
    }
}

/// The text of block `i`: from its header up to `block_end`.
pub open spec fn block_body(
    stdout: Seq<char>,
    headers: Seq<(usize, Seq<Option<Seq<char>>>)>,
    i: int,
) -> Seq<char> {
    byte_slice(stdout, headers[i].0 as int, block_end(stdout, headers, i))
}

/// The pieces found in a block whose header groups are `header` and whose
/// text is `body`.
pub open spec fn block_pieces(header: Seq<Option<Seq<char>>>, body: Seq<char>) -> RawBlockView {
    RawBlockView {
        severity: group_text(header, 1),
        code: group_text(header, 2),
        title: group_text(header, 3),
        location: match regex_first_match(LOCATION_PATTERN@, body) {
            Some(g) => Some((group_text(g, 1), group_text(g, 2))),
            None => None,
        },
        caret: match regex_first_match(CARET_PATTERN@, body) {
            Some(g) => Some(group_text(g, 1)),
            None => None,
        },
        notes: regex_matches(ANNOTATION_PATTERN@, body).map_values(
            |m: (usize, Seq<Option<Seq<char>>>)| group_text(m.1, 1),
        ),
        help: match regex_first_match(HELP_PATTERN@, body) {
            Some(g) => Some(group_text(g, 1)),
            None => None,
        },
    }
}

/// The blocks of a report, one per header, in order.
pub open spec fn report_blocks(stdout: Seq<char>) -> Seq<RawBlockView> {
    let headers = report_headers(stdout);
    Seq::new(
        headers.len(),
        |i: int| block_pieces(headers[i].1, block_body(stdout, headers, i)),
    )
}

// ---------------------------------------------------------------------------
// Interpreting a block
// ---------------------------------------------------------------------------

/// A location number as the report gives it, or 1 where it is not a `u32`.
pub open spec fn number_or_one(t: Seq<char>) -> int {
    match parse_u32_spec(t) {
        Some(n) => n as int,
        None => 1,
    }
}

/// The zero-based line and column where a block's diagnostic starts: the
/// one-based numbers of the location line less one, or `(0, 0)` without one.
pub open spec fn block_start(b: RawBlockView) -> (int, int) {
    match b.location {
        Some((l, c)) => (number_or_one(l) - 1, number_or_one(c) - 1),
        None => (0, 0),
    }
}

/// The width of a block's diagnostic: the byte length of its caret run, or 1
/// without carets (or where the length does not fit in a `u32`).
pub open spec fn block_width(b: RawBlockView) -> int {
    match b.caret {
        Some(t) => if utf8_len(t) <= u32::MAX {
            utf8_len(t) as int
        } else {
            1
        },
        None => 1,
    }
}

/// A block whose position can be represented: its location numbers are at
/// least 1 and its diagnostic does not run past `u32::MAX` characters.
pub open spec fn block_in_range(b: RawBlockView) -> bool {
    let (line, col) = block_start(b);
    &&& 0 <= line
    &&& 0 <= col
    &&& col + block_width(b) <= u32::MAX
}

/// The annotation labels appended to a message, each trimmed; an empty label
/// adds nothing.
pub open spec fn notes_text(notes: Seq<Seq<char>>) -> Seq<char>
    decreases notes.len(),
{
    if notes.len() == 0 {
        Seq::empty()
    } else {
        let note = trim(notes.last());
        notes_text(notes.drop_last()) + if note.len() > 0 {
            "\n\nNote: "@ + note
        } else {
            Seq::empty()
        }
    }
}

/// The help text appended to a message, trimmed.
pub open spec fn help_text(help: Option<Seq<char>>) -> Seq<char> {
    match help {
        Some(h) => "\n\n"@ + trim(h),
        None => Seq::empty(),
    }
}

/// The message of a block: its title, then its notes, then its help.
pub open spec fn block_message(b: RawBlockView) -> Seq<char> {
    b.title + notes_text(b.notes) + help_text(b.help)
}

/// The severity of a block: `error` is an error, anything else a warning.
pub open spec fn block_severity(b: RawBlockView) -> DiagnosticSeverity {
    if b.severity == "error"@ {
        DiagnosticSeverity::Error
    } else {
        DiagnosticSeverity::Warning
    }
}

/// The diagnostic of a block reported by `command_type`.
pub open spec fn block_diagnostic(b: RawBlockView, command_type: Seq<char>) -> DiagnosticView {
    let (line, col) = block_start(b);
    mago_diagnostic(
        line as u32,
        col as u32,
        block_width(b) as u32,
        block_severity(b),
        b.code,
        block_message(b),
        command_type,
    )
}

/// All five patterns are accepted by the regex crate.
pub open spec fn patterns_compile() -> bool {
    &&& regex_compiles(HEADER_PATTERN@)
    &&& regex_compiles(LOCATION_PATTERN@)
    &&& regex_compiles(ANNOTATION_PATTERN@)
    &&& regex_compiles(CARET_PATTERN@)
    &&& regex_compiles(HELP_PATTERN@)
}

/// The diagnostics of a report: `None` where a pattern does not compile or a
/// block's position cannot be represented; otherwise one diagnostic per block,
/// in the order of the report.
pub open spec fn report_diagnostics(stdout: Seq<char>, command_type: Seq<char>) -> Option<
    Seq<DiagnosticView>,
> {
    let blocks = report_blocks(stdout);
    if !patterns_compile() {
        None
    } else if forall|i: int| 0 <= i < blocks.len() ==> block_in_range(#[trigger] blocks[i]) {
        Some(blocks.map_values(|b: RawBlockView| block_diagnostic(b, command_type)))
    } else {
        None
    }
}

/// What every parsed report satisfies: one diagnostic per header, in order;
/// each takes its code from the header, is an error exactly when the header
/// says `error`, is labelled `mago <command>`, spans part of one line, and
/// has a message that starts with the header's title. A location line
/// `l:c` puts the diagnostic at the zero-based line `l - 1`, column `c - 1`.
pub proof fn lemma_report_shape(stdout: Seq<char>, command_type: Seq<char>)
    ensures
        report_diagnostics(stdout, command_type) matches Some(ds) ==> {
            let headers = report_headers(stdout);
            let blocks = report_blocks(stdout);
            &&& ds.len() == headers.len()
            &&& forall|i: int|
                #![trigger ds[i]]
                0 <= i < ds.len() ==> {
                    let h = headers[i].1;
                    &&& ds[i].code == Some(group_text(h, 2))
                    &&& (ds[i].severity == Some(DiagnosticSeverity::Error)) == (group_text(h, 1)
                        == "error"@)
                    &&& ds[i].severity is Some
                    &&& ds[i].source == Some(mago_source(command_type))
                    &&& ds[i].range.start.line == ds[i].range.end.line
                    &&& ds[i].range.start.character <= ds[i].range.end.character
                    &&& ds[i].message.subrange(0, group_text(h, 3).len() as int) == group_text(
                        h,
                        3,
                    )
                    &&& (blocks[i].location matches Some((l, c)) ==> parse_u32_spec(l) matches Some(
                        ln,
                    ) ==> parse_u32_spec(c) matches Some(cn) ==> ds[i].range.start.line == ln - 1
                        && ds[i].range.start.character == cn - 1)
                }
        },
{
    if let Some(ds) = report_diagnostics(stdout, command_type) {
        let headers = report_headers(stdout);
        let blocks = report_blocks(stdout);
        assert forall|i: int| #![trigger ds[i]] 0 <= i < ds.len() implies {
            let h = headers[i].1;
            &&& ds[i].code == Some(group_text(h, 2))
            &&& (ds[i].severity == Some(DiagnosticSeverity::Error)) == (group_text(h, 1)
                == "error"@)
            &&& ds[i].severity is Some
            &&& ds[i].source == Some(mago_source(command_type))
            &&& ds[i].range.start.line == ds[i].range.end.line
            &&& ds[i].range.start.character <= ds[i].range.end.character
            &&& ds[i].message.subrange(0, group_text(h, 3).len() as int) == group_text(h, 3)
            &&& (blocks[i].location matches Some((l, c)) ==> parse_u32_spec(l) matches Some(ln)
                ==> parse_u32_spec(c) matches Some(cn) ==> ds[i].range.start.line == ln - 1
                && ds[i].range.start.character == cn - 1)
        } by {
            let b = blocks[i];
            assert(block_in_range(b));
            assert(ds[i] == block_diagnostic(b, command_type));
            let m = block_message(b);
            assert(m.subrange(0, b.title.len() as int) =~= b.title);
        }
    }
}

/// Each block is read from its own text only: the pieces of block `i` come
/// from the report between the start of header `i` and the start of header
/// `i + 1`, so nothing that follows the next header (a note, a help line, a
/// caret run or a location line of a later issue) ever shows in block `i`.
/// The last block runs to the end of the report.
pub proof fn lemma_block_reads_own_text(stdout: Seq<char>, i: int)
    requires
        0 <= i < report_headers(stdout).len(),
    ensures
        i + 1 < report_headers(stdout).len() ==> report_blocks(stdout)[i] == block_pieces(
            report_headers(stdout)[i].1,
            byte_slice(
                stdout,
                report_headers(stdout)[i].0 as int,
                report_headers(stdout)[i + 1].0 as int,
            ),
        ),
        i + 1 == report_headers(stdout).len() ==> report_blocks(stdout)[i] == block_pieces(
            report_headers(stdout)[i].1,
            byte_slice(stdout, report_headers(stdout)[i].0 as int, utf8_len(stdout) as int),
        ),
        report_diagnostics(stdout, Seq::empty()) matches Some(ds) ==> ds.len()
            == report_headers(stdout).len(),
{
}

/// The notes of a message are taken label by label: the notes text of the
/// labels `a` followed by the labels `b` is the notes text of `a` followed by
/// that of `b`. So every label of a block contributes, in order, and none is
/// dropped or repeated.
pub proof fn lemma_notes_concat(a: Seq<Seq<char>>, b: Seq<Seq<char>>)
    ensures
        notes_text(a + b) == notes_text(a) + notes_text(b),
    decreases b.len(),
{
    if b.len() == 0 {
        assert(a + b =~= a);
        assert(notes_text(a) + notes_text(b) =~= notes_text(a));
    } else {
        lemma_notes_concat(a, b.drop_last());
        assert((a + b).drop_last() =~= a + b.drop_last());
        assert((a + b).last() == b.last());
        let note = trim(b.last());
        let part: Seq<char> = if note.len() > 0 {
            "\n\nNote: "@ + note
        } else {
            Seq::empty()
        };
        assert(notes_text(a + b) == notes_text(a + b.drop_last()) + part);
        assert(notes_text(b) == notes_text(b.drop_last()) + part);
        assert(notes_text(a) + notes_text(b) =~= (notes_text(a) + notes_text(b.drop_last())) + part);
    }
}

/// One label adds `\n\nNote: ` and the label trimmed, or nothing where the
/// trimmed label is empty.
pub proof fn lemma_single_note(label: Seq<char>)
    ensures
        notes_text(seq![label]) == if trim(label).len() > 0 {
            "\n\nNote: "@ + trim(label)
        } else {
            Seq::<char>::empty()
        },
{
    assert(seq![label].drop_last() =~= Seq::<Seq<char>>::empty());
    assert(seq![label].last() == label);
    assert(notes_text(Seq::<Seq<char>>::empty()) == Seq::<char>::empty());
    assert(notes_text(seq![label].drop_last()) == Seq::<char>::empty());
    let note = trim(label);
    if note.len() > 0 {
        assert(Seq::<char>::empty() + ("\n\nNote: "@ + note) =~= "\n\nNote: "@ + note);
    } else {
        assert(Seq::<char>::empty() + Seq::<char>::empty() =~= Seq::<char>::empty());
    }
}

/// A message holds the title, then one `\n\nNote: <label>` for every label
/// that is not blank, in order, then the help: adding a label that is not
/// blank after the others appends exactly its note to the notes of the others.
pub proof fn lemma_message_notes_in_order(
    b: RawBlockView,
    earlier: Seq<Seq<char>>,
    label: Seq<char>,
)
    requires
        b.notes == earlier.push(label),
        trim(label).len() > 0,
    ensures
        block_message(b) == b.title + notes_text(earlier) + ("\n\nNote: "@ + trim(label))
            + help_text(b.help),
        block_message(b).len() > b.title.len() + notes_text(earlier).len() + help_text(
            b.help,
        ).len(),
{
    assert(earlier.push(label) =~= earlier + seq![label]);
    lemma_notes_concat(earlier, seq![label]);
    lemma_single_note(label);
}

/// Builds the message of a block: title, notes, help.
pub fn block_message_text(block: &RawBlock) -> (r: String)
    ensures
        r@ == block_message(block.deep_view()),
{
    let mut message = block.title.clone();
    let n = block.notes.len();
    let ghost notes = block.notes.deep_view();
    let mut i: usize = 0;
    while i < n
        invariant
            n == notes.len(),
            notes == block.notes.deep_view(),
            i <= n,
            message@ == block.title@ + notes_text(notes.subrange(0, i as int)),
        decreases n - i,
    {
        let note = trim_text(block.notes[i].as_str());
        let ghost before = notes.subrange(0, i as int);
        assert(notes.subrange(0, i + 1).drop_last() =~= before);
        assert(notes.subrange(0, i + 1).last() == notes[i as int]);
        let ghost prev = message@;
        assert(note@ == trim(notes[i as int]));
        if !note.as_str().is_empty() {
            message.append("\n\nNote: ");
            message.append(note.as_str());
            assert(notes_text(notes.subrange(0, i + 1)) == notes_text(before) + ("\n\nNote: "@
                + note@));
            assert((block.title@ + notes_text(before)) + ("\n\nNote: "@ + note@) =~= block.title@
                + (notes_text(before) + ("\n\nNote: "@ + note@)));
            assert(message@ == block.title@ + notes_text(notes.subrange(0, i + 1)));
        } else {
            assert(message@ =~= block.title@ + notes_text(notes.subrange(0, i + 1)));
        }
        i = i + 1;
    }
    assert(notes.subrange(0, n as int) =~= notes);
    match &block.help {
        Some(h) => {
            let help = trim_text(h.as_str());
            message.append("\n\n");
            message.append(help.as_str());
        },
        None => {},
    }
    assert(message@ =~= block_message(block.deep_view()));
    message
}

/// Interprets one block: position from the location line, width from the
/// caret run, severity from the header, message from title, notes and help.
pub fn block_to_diagnostic(block: &RawBlock, command_type: &str) -> (d: Diagnostic)
    requires
        block_in_range(block.deep_view()),
    ensures
        d.deep_view() == block_diagnostic(block.deep_view(), command_type@),
{
    let (line, col) = match &block.location {
        Some((l, c)) => {
            let line = match parse_u32(l.as_str()) {
                Some(n) => n,
                None => 1,
            };
            let col = match parse_u32(c.as_str()) {
                Some(n) => n,
                None => 1,
            };
            (line - 1, col - 1)
        },
        None => (0, 0),
    };
    let width: u32 = match &block.caret {
        Some(t) => {
            let len = byte_len(t.as_str());
            if len <= 4294967295usize {
                len as u32
            } else {
                1
            }
        },
        None => 1,
    };
    let severity = if text_eq(block.severity.as_str(), "error") {
        DiagnosticSeverity::Error
    } else {
        DiagnosticSeverity::Warning
    };
    let message = block_message_text(block);
    build_mago_diagnostic(line, col, width, severity, block.code.clone(), message, command_type)
}

/// Interprets every block of a report, in order.
pub fn diagnostics_from_blocks(blocks: &Vec<RawBlock>, command_type: &str) -> (r: Vec<Diagnostic>)
    requires
        forall|i: int| 0 <= i < blocks.len() ==> block_in_range(#[trigger] blocks@[i].deep_view()),
    ensures
        r.deep_view() == blocks.deep_view().map_values(
            |b: RawBlockView| block_diagnostic(b, command_type@),
        ),
{
    let mut out: Vec<Diagnostic> = Vec::new();
    let n = blocks.len();
    let mut i: usize = 0;
    while i < n
        invariant
            n == blocks.len(),
            i <= n,
            forall|k: int| 0 <= k < blocks.len() ==> block_in_range(#[trigger] blocks@[k].deep_view()),
            out.deep_view() =~= blocks.deep_view().subrange(0, i as int).map_values(
                |b: RawBlockView| block_diagnostic(b, command_type@),
            ),
        decreases n - i,
    {
        let d = block_to_diagnostic(&blocks[i], command_type);
        let ghost prev = out.deep_view();
        out.push(d);
        assert(blocks.deep_view().subrange(0, i + 1) =~= blocks.deep_view().subrange(
            0,
            i as int,
        ).push(blocks@[i as int].deep_view()));
        assert(out.deep_view() =~= prev.push(d.deep_view()));
        i = i + 1;
    }
    out
}

/// Decides whether every block's position can be represented.
pub fn blocks_in_range(blocks: &Vec<RawBlock>) -> (r: bool)
    ensures
        r == forall|i: int| 0 <= i < blocks.len() ==> block_in_range(#[trigger] blocks@[i].deep_view()),
{
    let n = blocks.len();
    let mut i: usize = 0;
    while i < n
        invariant
            n == blocks.len(),
            i <= n,
            forall|k: int| 0 <= k < i ==> block_in_range(#[trigger] blocks@[k].deep_view()),
        decreases n - i,
    {
        if !block_fits(&blocks[i]) {
            return false;
        }
        i = i + 1;
    }
    true
}

/// Decides `block_in_range` for one block.
pub fn block_fits(block: &RawBlock) -> (r: bool)
    ensures
        r == block_in_range(block.deep_view()),
{
    let (line, col): (u32, u32) = match &block.location {
        Some((l, c)) => {
            let line = match parse_u32(l.as_str()) {
                Some(n) => n,
                None => 1,
            };
            let col = match parse_u32(c.as_str()) {
                Some(n) => n,
                None => 1,
            };
            (line, col)
        },
        None => (1, 1),
    };
    if line == 0 || col == 0 {
        return false;
    }
    let width: u64 = match &block.caret {
        Some(t) => {
            let len = byte_len(t.as_str());
            if len <= 4294967295usize {
                len as u64
            } else {
                1
            }
        },
        None => 1,
    };
    (col - 1) as u64 + width <= 4294967295u64
}

// ---------------------------------------------------------------------------
// The parser
// ---------------------------------------------------------------------------

/// The compiled searches of the report format.
pub struct MagoOutputParser {
    header: CompiledRegex,
    location: CompiledRegex,
    annotation: CompiledRegex,
    caret: CompiledRegex,
    help: CompiledRegex,
}

impl MagoOutputParser {
    /// Each search was compiled from its pattern.
    pub closed spec fn wf(&self) -> bool {
        &&& self.header@ == HEADER_PATTERN@
        &&& self.location@ == LOCATION_PATTERN@
        &&& self.annotation@ == ANNOTATION_PATTERN@
        &&& self.caret@ == CARET_PATTERN@
        &&& self.help@ == HELP_PATTERN@
    }

    /// Compiles the five patterns; `None` where the regex crate refuses one.
    pub fn new() -> (r: Option<MagoOutputParser>)
        ensures
            r is Some <==> patterns_compile(),
            r matches Some(p) ==> p.wf(),
    {
        let header = match CompiledRegex::new(HEADER_PATTERN) {
            Some(c) => c,
            None => return None,
        };
        let location = match CompiledRegex::new(LOCATION_PATTERN) {
            Some(c) => c,
            None => return None,
        };
        let annotation = match CompiledRegex::new(ANNOTATION_PATTERN) {
            Some(c) => c,
            None => return None,
        };
        let caret = match CompiledRegex::new(CARET_PATTERN) {
            Some(c) => c,
            None => return None,
        };
        let help = match CompiledRegex::new(HELP_PATTERN) {
            Some(c) => c,
            None => return None,
        };
        Some(MagoOutputParser { header, location, annotation, caret, help })
    }

    /// Collects the pieces of one block from its header groups and its text.
    pub fn block_pieces(&self, header: &Vec<Option<String>>, body: &str) -> (b: RawBlock)
        requires
            self.wf(),
        ensures
            b.deep_view() == block_pieces(header.deep_view(), body@),
    {
        let severity = group_string(header, 1);
        let code = group_string(header, 2);
        let title = group_string(header, 3);
        let location = match captures(&self.location, body) {
            Some(g) => Some((group_string(&g, 1), group_string(&g, 2))),
            None => None,
        };
        let caret = match captures(&self.caret, body) {
            Some(g) => Some(group_string(&g, 1)),
            None => None,
        };
        let found = captures_iter(&self.annotation, body);
        let ghost found_view = found.deep_view();
        let mut notes: Vec<String> = Vec::new();
        let n = found.len();
        let mut i: usize = 0;
        while i < n
            invariant
                n == found.len(),
                found_view == found.deep_view(),
                i <= n,
                notes.deep_view() =~= found_view.subrange(0, i as int).map_values(
                    |m: (usize, Seq<Option<Seq<char>>>)| group_text(m.1, 1),
                ),
            decreases n - i,
        {
            let note = group_string(&found[i].1, 1);
            let ghost prev = notes.deep_view();
            notes.push(note);
            assert(found_view.subrange(0, i + 1) =~= found_view.subrange(0, i as int).push(
                found_view[i as int],
            ));
            assert(notes.deep_view() =~= prev.push(note@));
            i = i + 1;
        }
        let help = match captures(&self.help, body) {
            Some(g) => Some(group_string(&g, 1)),
            None => None,
        };
        let b = RawBlock { severity, code, title, location, caret, notes, help };
        assert(b.deep_view().notes =~= block_pieces(header.deep_view(), body@).notes);
        b
    }

    /// Splits a report into its blocks, one per header, in order.
    pub fn scan(&self, stdout: &str) -> (blocks: Vec<RawBlock>)
        requires
            self.wf(),
        ensures
            blocks.deep_view() == report_blocks(stdout@),
    {
        let headers = captures_iter(&self.header, stdout);
        let ghost hv = headers.deep_view();
        let n = headers.len();
        let total = byte_len(stdout);
        proof {
            is_char_boundary_start_end_of_seq(stdout.spec_bytes());
        }
        let mut blocks: Vec<RawBlock> = Vec::new();
        let mut i: usize = 0;
        while i < n
            invariant
                n == headers.len(),
                hv == headers.deep_view(),
                hv == report_headers(stdout@),
                self.wf(),
                total == stdout.spec_bytes().len(),
                is_char_boundary(stdout.spec_bytes(), total as int),
                forall|k: int|
                    0 <= k < headers.len() ==> #[trigger] headers@[k].0 <= stdout.spec_bytes().len()
                        && is_char_boundary(stdout.spec_bytes(), headers@[k].0 as int),
                forall|k: int, j: int|
                    0 <= k < j < headers.len() ==> #[trigger] headers@[k].0 <= #[trigger] headers@[j].0,
                i <= n,
                blocks.len() == i,
                forall|k: int|
                    0 <= k < i ==> #[trigger] blocks@[k].deep_view() == block_pieces(
                        hv[k].1,
                        block_body(stdout@, hv, k),
                    ),
            decreases n - i,
        {
            let start = headers[i].0;
            let end = if i + 1 < n {
                headers[i + 1].0
            } else {
                total
            };
            let body = slice_between(stdout, start, end);
            assert(body@ == block_body(stdout@, hv, i as int));
            let block = self.block_pieces(&headers[i].1, body.as_str());
            blocks.push(block);
            i = i + 1;
        }
        assert(blocks.deep_view() =~= report_blocks(stdout@));
        blocks
    }
}

/// Parses Mago's textual report into one diagnostic per block, labelled with
/// `command_type`. `None` where a pattern does not compile or where a block's
/// location or width cannot be represented (a line or column of 0, or a
/// diagnostic running past `u32::MAX` characters).
pub fn parse_mago_output(stdout: &str, command_type: &str) -> (r: Option<Vec<Diagnostic>>)
    ensures
        r.deep_view() == report_diagnostics(stdout@, command_type@),
{
    let parser = match MagoOutputParser::new() {
        Some(p) => p,
        None => return None,
    };
    let blocks = parser.scan(stdout);
    if !blocks_in_range(&blocks) {
        proof {
            let bv = report_blocks(stdout@);
            let k = choose|k: int|
                0 <= k < blocks.len() && !block_in_range(#[trigger] blocks@[k].deep_view());
            assert(bv[k] == blocks@[k].deep_view());
            assert(!(forall|i: int| 0 <= i < bv.len() ==> block_in_range(#[trigger] bv[i])));
        }
        return None;
    }
    let diagnostics = diagnostics_from_blocks(&blocks, command_type);
    proof {
        let bv = report_blocks(stdout@);
        assert forall|i: int| 0 <= i < bv.len() implies block_in_range(#[trigger] bv[i]) by {
            assert(bv[i] == blocks@[i].deep_view());
        }
    }
    Some(diagnostics)
}

} // verus!
