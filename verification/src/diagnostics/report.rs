//! The text in which a diagnostic is reported.

use crate::diagnostics::maneger::{Diagnostic, DiagnosticsManager, DiagnosticView, Severity};
use crate::lexer::scan::byte_length;
use crate::utils::{
    decode, highlight_text_with_cyan, highlight_text_with_green, highlight_text_with_red,
    highlight_text_with_white, highlight_text_with_yellow, painted,
};
use crate::utils::range::Range;
use crate::utils::source::Source;
use vstd::prelude::*;
use vstd::string::*;
use vstd::utf8::is_ascii_chars;

verus! {

/// What `code_highlighter::highlight_error` returns for the bytes `start` to
/// `end` of a text: the lines that hold them, numbered, with the bytes
/// underlined in red.
pub uninterp spec fn error_excerpt(start: int, end: int, text: Seq<char>) -> Seq<char>;

/// What `code_highlighter::highlight_warning` returns for the bytes `start`
/// to `end` of a text: as for an error, underlined in yellow.
pub uninterp spec fn warning_excerpt(start: int, end: int, text: Seq<char>) -> Seq<char>;

/// The intervals of a text that an excerpt can be made of. The interval is
/// ordered and ends inside the text; it starts on a line that the text has,
/// so that an interval at the very end is left out where the text is empty
/// or ends with a line feed; and a text with a carriage return holds only
/// ASCII.
pub open spec fn excerpt_defined(start: int, end: int, text: Seq<char>) -> bool {
    &&& 0 <= start <= end <= byte_length(text)
    &&& start < byte_length(text) || (text.len() > 0 && text.last() != '\n')
    &&& !text.contains('\r') || is_ascii_chars(text)
}

/// Calls `code_highlighter::highlight_error`. Its result is a function of
/// the two offsets and the text alone, and it returns for every interval
/// that `excerpt_defined` admits: it asserts that the interval is ordered,
/// takes the last of the lines that it found for the interval, and cuts
/// the text at offsets that it computes from the lengths of the lines
/// without their line endings.
#[verifier::external_body]
fn excerpt_of_error(start: usize, end: usize, text: &str) -> (excerpt: String)
    requires
        excerpt_defined(start as int, end as int, text@),
    ensures
        excerpt@ == error_excerpt(start as int, end as int, text@),
{
    code_highlighter::highlight_error(start, end, text)
}

/// Calls `code_highlighter::highlight_warning`, which differs from
/// `highlight_error` in the colour alone.
#[verifier::external_body]
fn excerpt_of_warning(start: usize, end: usize, text: &str) -> (excerpt: String)
    requires
        excerpt_defined(start as int, end as int, text@),
    ensures
        excerpt@ == warning_excerpt(start as int, end as int, text@),
{
    code_highlighter::highlight_warning(start, end, text)
}

/// The excerpt of a diagnostic: that of a warning or that of an error.
pub open spec fn excerpt(range: Range, text: Seq<char>, warning: bool) -> Seq<char> {
    if warning {
        warning_excerpt(range.start as int, range.end as int, text)
    } else {
        error_excerpt(range.start as int, range.end as int, text)
    }
}

/// The banner of a report: `ERROR >>>` in red or `WARNING >>>` in yellow.
pub open spec fn banner(warning: bool) -> Seq<char> {
    if warning {
        painted("\x1b[33m"@, "WARNING >>>"@)
    } else {
        painted("\x1b[31m"@, "ERROR >>>"@)
    }
}

/// The help of a report: an empty line and `HELP:` with the hint, or
/// nothing where there is no hint.
pub open spec fn help(hint: Option<Seq<char>>) -> Seq<char> {
    match hint {
        Some(hint) => "\n"@ + painted("\x1b[32m"@, "HELP:"@) + " "@ + painted("\x1b[97m"@, hint)
            + "\n"@,
        None => Seq::empty(),
    }
}

/// The text of a report: an empty line, the banner with the message, the
/// path, an empty line, the excerpt, the help and an empty line.
pub open spec fn report_layout(
    message: Seq<char>,
    hint: Option<Seq<char>>,
    path: Seq<char>,
    excerpt: Seq<char>,
    warning: bool,
) -> Seq<char> {
    "\n"@ + banner(warning) + " "@ + painted("\x1b[97m"@, message) + "\n"@ + painted(
        "\x1b[36m"@,
        path,
    ) + "\n"@ + "\n"@ + excerpt + "\n"@ + help(hint) + "\n"@
}

/// The view of an optional text.
pub open spec fn hint_view(hint: Option<String>) -> Option<Seq<char>> {
    match hint {
        Some(hint) => Some(hint@),
        None => None,
    }
}

/// Lays out a report around an excerpt that was already made.
pub fn report_text(
    message: &str,
    hint: &Option<String>,
    path: &str,
    excerpt: &str,
    warning: bool,
) -> (text: String)
    ensures
        text@ == report_layout(message@, hint_view(*hint), path@, excerpt@, warning),
{
    let mut text = String::from_str("\n");
    if !warning {
        text.append(highlight_text_with_red("ERROR >>>").as_str());
    } else {
        text.append(highlight_text_with_yellow("WARNING >>>").as_str());
    }
    text.append(" ");
    text.append(highlight_text_with_white(message).as_str());
    text.append("\n");
    text.append(highlight_text_with_cyan(path).as_str());
    text.append("\n");
    text.append("\n");
    text.append(excerpt);
    text.append("\n");
    if let Some(hint) = hint {
        text.append("\n");
        text.append(highlight_text_with_green("HELP:").as_str());
        text.append(" ");
        text.append(highlight_text_with_white(hint.as_str()).as_str());
        text.append("\n");
    }
    text.append("\n");
    text
}

/// A text with one more character is ASCII where the text and the character are.
pub proof fn lemma_ascii_push(text: Seq<char>, c: char)
    ensures
        is_ascii_chars(text.push(c)) <==> is_ascii_chars(text) && c <= '\u{7f}',
{
    let single = seq![c];
    assert(single[0] == c);
    assert(text.push(c) =~= text + single);
    vstd::utf8::is_ascii_chars_concat(text.push(c), text, single);
}

/// Whether an excerpt can be made of the interval `range` of `text`.
pub fn can_excerpt(range: &Range, text: &str) -> (b: bool)
    ensures
        b == excerpt_defined(range.start as int, range.end as int, text@),
{
    let length = text.as_bytes().len();
    if range.start > range.end || range.end > length {
        return false;
    }
    let chars = decode(text);
    if range.start == length {
        if chars.len() == 0 || chars[chars.len() - 1] == '\n' {
            return false;
        }
    }
    let mut ascii = true;
    let mut carriage_return = false;
    let mut i: usize = 0;
    while i < chars.len()
        invariant
            i <= chars.len(),
            ascii == is_ascii_chars(chars@.take(i as int)),
            carriage_return == chars@.take(i as int).contains('\r'),
        decreases chars.len() - i,
    {
        let c = chars[i];
        proof {
            let before = chars@.take(i as int);
            let after = chars@.take(i + 1);
            assert(after =~= before.push(c));
            assert(before =~= after.take(i as int));
            if before.contains('\r') {
                let k = choose|k: int| 0 <= k < before.len() && before[k] == '\r';
                assert(after[k] == '\r');
            }
            if after.contains('\r') && c != '\r' {
                let k = choose|k: int| 0 <= k < after.len() && after[k] == '\r';
                assert(before[k] == '\r');
            }
            if c == '\r' {
                assert(after[i as int] == '\r');
            }
            lemma_ascii_push(before, c);
        }
        if c > '\u{7f}' {
            ascii = false;
        }
        if c == '\r' {
            carriage_return = true;
        }
        i = i + 1;
    }
    proof {
        assert(chars@.take(i as int) =~= chars@);
    }
    !carriage_return || ascii
}

/// The report of one problem, as it is printed.
pub fn report_error(
    message: &str,
    hint: &Option<String>,
    range: &Range,
    source: &Source,
    warning: bool,
) -> (text: String)
    requires
        excerpt_defined(range.start as int, range.end as int, source.raw@),
    ensures
        text@ == report_layout(
            message@,
            hint_view(*hint),
            source.path@,
            excerpt(*range, source.raw@, warning),
            warning,
        ),
{
    let code = if warning {
        excerpt_of_warning(range.start, range.end, source.raw)
    } else {
        excerpt_of_error(range.start, range.end, source.raw)
    };
    report_text(message, hint, source.path, code.as_str(), warning)
}

impl DiagnosticView {
    /// Whether the diagnostic can be reported against a text.
    pub open spec fn reportable(self, text: Seq<char>) -> bool {
        excerpt_defined(self.range.start as int, self.range.end as int, text)
    }

    /// The report of the diagnostic against a source with the given path and text.
    pub open spec fn report(self, path: Seq<char>, text: Seq<char>) -> Seq<char> {
        report_layout(
            self.message,
            self.hint,
            path,
            excerpt(self.range, text, self.severity == Severity::Warning),
            self.severity == Severity::Warning,
        )
    }
}

/// Whether every diagnostic of a sequence can be reported against a text.
pub open spec fn all_reportable(diagnostics: Seq<DiagnosticView>, text: Seq<char>) -> bool {
    forall|i: int| 0 <= i < diagnostics.len() ==> (#[trigger] diagnostics[i]).reportable(text)
}

/// The reports of the diagnostics, one after the other.
pub open spec fn reports(diagnostics: Seq<DiagnosticView>, path: Seq<char>, text: Seq<char>) -> Seq<
    char,
>
    decreases diagnostics.len(),
{
    if diagnostics.len() == 0 {
        Seq::empty()
    } else {
        reports(diagnostics.drop_last(), path, text) + diagnostics.last().report(path, text)
    }
}

impl Diagnostic {
    /// Whether the diagnostic can be reported against `source`.
    pub fn can_report(&self, source: &Source) -> (b: bool)
        ensures
            b == self@.reportable(source.raw@),
    {
        can_excerpt(&self.range, source.raw)
    }

    /// The report of the diagnostic, as it is printed.
    pub fn report(&self, source: &Source) -> (text: String)
        requires
            self@.reportable(source.raw@),
        ensures
            text@ == self@.report(source.path@, source.raw@),
    {
        report_error(
            self.message.as_str(),
            &self.hint,
            &self.range,
            source,
            self.severity == Severity::Warning,
        )
    }
}

impl DiagnosticsManager {
    /// Whether every collected diagnostic can be reported against `source`.
    pub fn can_report(&self, source: &Source) -> (b: bool)
        ensures
            b == all_reportable(self@, source.raw@),
    {
        let mut i: usize = 0;
        while i < self.diagnostics.len()
            invariant
                i <= self.diagnostics.len(),
                forall|k: int| 0 <= k < i ==> (#[trigger] self@[k]).reportable(source.raw@),
            decreases self.diagnostics.len() - i,
        {
            if !self.diagnostics[i].can_report(source) {
                assert(!self@[i as int].reportable(source.raw@));
                return false;
            }
            i = i + 1;
        }
        true
    }

    /// The reports of all collected diagnostics, in the order in which
    /// they were added; none is left out and none is merged with another.
    pub fn report(&self, source: &Source) -> (text: String)
        requires
            all_reportable(self@, source.raw@),
        ensures
            text@ == reports(self@, source.path@, source.raw@),
    {
        let mut text = String::new();
        let mut i: usize = 0;
        while i < self.diagnostics.len()
            invariant
                i <= self.diagnostics.len(),
                all_reportable(self@, source.raw@),
                text@ == reports(self@.take(i as int), source.path@, source.raw@),
            decreases self.diagnostics.len() - i,
        {
            proof {
                assert(self@.take(i + 1).drop_last() =~= self@.take(i as int));
                assert(self@.take(i + 1).last() == self@[i as int]);
                assert(self@[i as int].reportable(source.raw@));
            }
            text.append(self.diagnostics[i].report(source).as_str());
            i = i + 1;
        }
        proof {
            assert(self@.take(i as int) =~= self@);
        }
        text
    }
}

} // verus!
