//! Diagnostics, their severities, and the collection of them.

use crate::utils::range::Range;
use crate::utils::views;
use vstd::prelude::*;
use vstd::string::*;

verus! {

/// Whether a diagnostic blocks the emission of SQL.
#[derive(Debug, Clone, Copy, PartialEq, Eq, Structural)]
pub enum Severity {
    Error,
    Warning,
}

/// A reported problem: what is wrong, where, how grave, and what may help.
#[derive(Debug, PartialEq, Eq)]
pub struct Diagnostic {
    pub message: String,
    pub hint: Option<String>,
    pub range: Range,
    pub severity: Severity,
}

/// A diagnostic with its texts as sequences of characters.
pub struct DiagnosticView {
    pub message: Seq<char>,
    pub hint: Option<Seq<char>>,
    pub range: Range,
    pub severity: Severity,
}

impl View for Diagnostic {
    type V = DiagnosticView;

    open spec fn view(&self) -> DiagnosticView {
        DiagnosticView {
            message: self.message@,
            hint: match self.hint {
                Some(hint) => Some(hint@),
                None => None,
            },
            range: self.range,
            severity: self.severity,
        }
    }
}

impl Clone for Diagnostic {
    fn clone(&self) -> (diagnostic: Diagnostic)
        ensures
            diagnostic == *self,
    {
        Diagnostic {
            message: self.message.clone(),
            hint: self.hint.clone(),
            range: self.range,
            severity: self.severity,
        }
    }
}

/// The diagnostic of a failure that stops lexing or parsing: an error
/// with a message and no hint.
pub open spec fn fatal(message: Seq<char>, range: Range) -> DiagnosticView {
    DiagnosticView { message, hint: None, range, severity: Severity::Error }
}

impl Diagnostic {
    /// An error without a hint, as lexing and parsing report it.
    pub fn fatal(message: String, range: Range) -> (diagnostic: Diagnostic)
        ensures
            diagnostic@ == fatal(message@, range),
    {
        Diagnostic { message, hint: None, range, severity: Severity::Error }
    }
}

/// Whether some diagnostic of the sequence is an error.
pub open spec fn some_error(diagnostics: Seq<DiagnosticView>) -> bool {
    exists|i: int|
        0 <= i < diagnostics.len() && (#[trigger] diagnostics[i]).severity == Severity::Error
}

/// Collects diagnostics in the order in which they are added.
pub struct DiagnosticsManager {
    pub diagnostics: Vec<Diagnostic>,
}

impl View for DiagnosticsManager {
    type V = Seq<DiagnosticView>;

    open spec fn view(&self) -> Seq<DiagnosticView> {
        views(self.diagnostics@)
    }
}

impl DiagnosticsManager {
    /// A manager without diagnostics.
    pub fn new() -> (manager: Self)
        ensures
            manager@ == Seq::<DiagnosticView>::empty(),
    {
        let manager = Self { diagnostics: Vec::new() };
        assert(manager@ =~= Seq::<DiagnosticView>::empty());
        manager
    }

    /// Appends a diagnostic.
    pub fn add(&mut self, diagnostic: Diagnostic)
        ensures
            final(self)@ == old(self)@.push(diagnostic@),
            final(self).diagnostics@ == old(self).diagnostics@.push(diagnostic),
    {
        self.diagnostics.push(diagnostic);
        assert(self@ =~= old(self)@.push(diagnostic@));
    }

    /// A copy of the diagnostics, in the order in which they were added.
    pub fn get_diagnostics(&self) -> (copy: Vec<Diagnostic>)
        ensures
            copy@ == self.diagnostics@,
    {
        let mut copy: Vec<Diagnostic> = Vec::new();
        let mut i: usize = 0;
        while i < self.diagnostics.len()
            invariant
                i <= self.diagnostics.len(),
                copy@ == self.diagnostics@.take(i as int),
            decreases self.diagnostics.len() - i,
        {
            copy.push(self.diagnostics[i].clone());
            i = i + 1;
            assert(copy@ =~= self.diagnostics@.take(i as int));
        }
        assert(self.diagnostics@.take(i as int) =~= self.diagnostics@);
        copy
    }

    /// Whether a collected diagnostic is an error.
    pub fn contains_error(&self) -> (b: bool)
        ensures
            b == some_error(self@),
    {
        let mut i: usize = 0;
        while i < self.diagnostics.len()
            invariant
                i <= self.diagnostics.len(),
                forall|j: int| 0 <= j < i ==> (#[trigger] self@[j]).severity != Severity::Error,
            decreases self.diagnostics.len() - i,
        {
            if self.diagnostics[i].severity == Severity::Error {
                assert(self@[i as int].severity == Severity::Error);
                return true;
            }
            i = i + 1;
        }
        false
    }
}

/// The problems that checking a program can find, each where it was found.
///
/// A table that is introduced twice and a column that is selected twice are
/// problems of two kinds, which are reported in the same words.
pub enum TypeError {
    MissingIndexOnJoin { range: Range },
    PipeWithoutFrom { range: Range },
    RedundantSubQuery { range: Range },
    UnexpectedToken { range: Range },
    MissingSelectClause { range: Range },
    DuplicateColumn { range: Range },
    DuplicateTable { range: Range },
    UnsupportedOperator { range: Range },
    MissingGroupBy { range: Range },
    AmbiguousColumn { range: Range },
    FunctionArgumentMismatch { range: Range },
}

impl TypeError {
    /// Where the problem was found.
    pub open spec fn range(self) -> Range {
        match self {
            TypeError::MissingIndexOnJoin { range } => range,
            TypeError::PipeWithoutFrom { range } => range,
            TypeError::RedundantSubQuery { range } => range,
            TypeError::UnexpectedToken { range } => range,
            TypeError::MissingSelectClause { range } => range,
            TypeError::DuplicateColumn { range } => range,
            TypeError::DuplicateTable { range } => range,
            TypeError::UnsupportedOperator { range } => range,
            TypeError::MissingGroupBy { range } => range,
            TypeError::AmbiguousColumn { range } => range,
            TypeError::FunctionArgumentMismatch { range } => range,
        }
    }

    /// The message that the problem is reported with.
    pub open spec fn message(self) -> Seq<char> {
        match self {
            TypeError::MissingIndexOnJoin { .. } => "missing index on join"@,
            TypeError::PipeWithoutFrom { .. } => "pipe missing `FROM` clause"@,
            TypeError::RedundantSubQuery { .. } => "redundant subquery"@,
            TypeError::UnexpectedToken { .. } => "unexpected token"@,
            TypeError::MissingSelectClause { .. } => "missing `SELECT` clause"@,
            TypeError::DuplicateColumn { .. } => "duplicate column"@,
            TypeError::DuplicateTable { .. } => "duplicate column"@,
            TypeError::UnsupportedOperator { .. } => "unsupported operator"@,
            TypeError::MissingGroupBy { .. } => "missing `GROUP BY` clause"@,
            TypeError::AmbiguousColumn { .. } => "ambiguous column reference"@,
            TypeError::FunctionArgumentMismatch { .. } => "function argument mismatch"@,
        }
    }

    /// The advice that accompanies the message.
    pub open spec fn hint(self) -> Seq<char> {
        match self {
            TypeError::MissingIndexOnJoin { .. } => {
                "consider adding an index to improve performance"@
            },
            TypeError::PipeWithoutFrom { .. } => "ensure `FROM` clause is present after aggregate"@,
            TypeError::RedundantSubQuery { .. } => "optimize by refactoring the subquery"@,
            TypeError::UnexpectedToken { .. } => "check the SQL syntax"@,
            TypeError::MissingSelectClause { .. } => "ensure the query starts with `SELECT`"@,
            TypeError::DuplicateColumn { .. } => "remove or rename the duplicate column"@,
            TypeError::DuplicateTable { .. } => "remove or rename the duplicate column"@,
            TypeError::UnsupportedOperator { .. } => "use supported operators like `=`, `<`, `>`"@,
            TypeError::MissingGroupBy { .. } => "add `GROUP BY` to group results correctly"@,
            TypeError::AmbiguousColumn { .. } => "qualify column names with table names"@,
            TypeError::FunctionArgumentMismatch { .. } => {
                "check the number and types of arguments"@
            },
        }
    }

    /// Whether the problem blocks the emission of SQL.
    pub open spec fn severity(self) -> Severity {
        match self {
            TypeError::MissingIndexOnJoin { .. } => Severity::Warning,
            TypeError::PipeWithoutFrom { .. } => Severity::Error,
            TypeError::RedundantSubQuery { .. } => Severity::Warning,
            TypeError::UnexpectedToken { .. } => Severity::Error,
            TypeError::MissingSelectClause { .. } => Severity::Error,
            TypeError::DuplicateColumn { .. } => Severity::Warning,
            TypeError::DuplicateTable { .. } => Severity::Warning,
            TypeError::UnsupportedOperator { .. } => Severity::Error,
            TypeError::MissingGroupBy { .. } => Severity::Error,
            TypeError::AmbiguousColumn { .. } => Severity::Error,
            TypeError::FunctionArgumentMismatch { .. } => Severity::Error,
        }
    }

    /// The diagnostic that the problem is reported as.
    pub open spec fn diagnostic(self) -> DiagnosticView {
        DiagnosticView {
            message: self.message(),
            hint: Some(self.hint()),
            range: self.range(),
            severity: self.severity(),
        }
    }
}

impl vstd::std_specs::convert::FromSpecImpl<TypeError> for Diagnostic {
    /// A diagnostic owns its texts, so no ghost value can stand for the
    /// result: the conversion is described by the view of what it returns.
    open spec fn obeys_from_spec() -> bool {
        false
    }

    open spec fn from_spec(error: TypeError) -> Diagnostic {
        arbitrary()
    }
}

impl From<TypeError> for Diagnostic {
    fn from(error: TypeError) -> (diagnostic: Diagnostic)
        ensures
            diagnostic@ == error.diagnostic(),
    {
        match error {
            TypeError::MissingIndexOnJoin { range } => Diagnostic {
                message: String::from_str("missing index on join"),
                range,
                severity: Severity::Warning,
                hint: Some(String::from_str("consider adding an index to improve performance")),
            },
            TypeError::PipeWithoutFrom { range } => Diagnostic {
                message: String::from_str("pipe missing `FROM` clause"),
                range,
                severity: Severity::Error,
                hint: Some(String::from_str("ensure `FROM` clause is present after aggregate")),
            },
            TypeError::RedundantSubQuery { range } => Diagnostic {
                message: String::from_str("redundant subquery"),
                range,
                severity: Severity::Warning,
                hint: Some(String::from_str("optimize by refactoring the subquery")),
            },
            TypeError::UnexpectedToken { range } => Diagnostic {
                message: String::from_str("unexpected token"),
                range,
                severity: Severity::Error,
                hint: Some(String::from_str("check the SQL syntax")),
            },
            TypeError::MissingSelectClause { range } => Diagnostic {
                message: String::from_str("missing `SELECT` clause"),
                range,
                severity: Severity::Error,
                hint: Some(String::from_str("ensure the query starts with `SELECT`")),
            },
            TypeError::DuplicateColumn { range } => Diagnostic {
                message: String::from_str("duplicate column"),
                range,
                severity: Severity::Warning,
                hint: Some(String::from_str("remove or rename the duplicate column")),
            },
            TypeError::DuplicateTable { range } => Diagnostic {
                message: String::from_str("duplicate column"),
                range,
                severity: Severity::Warning,
                hint: Some(String::from_str("remove or rename the duplicate column")),
            },
            TypeError::UnsupportedOperator { range } => Diagnostic {
                message: String::from_str("unsupported operator"),
                range,
                severity: Severity::Error,
                hint: Some(String::from_str("use supported operators like `=`, `<`, `>`")),
            },
            TypeError::MissingGroupBy { range } => Diagnostic {
                message: String::from_str("missing `GROUP BY` clause"),
                range,
                severity: Severity::Error,
                hint: Some(String::from_str("add `GROUP BY` to group results correctly")),
            },
            TypeError::AmbiguousColumn { range } => Diagnostic {
                message: String::from_str("ambiguous column reference"),
                range,
                severity: Severity::Error,
                hint: Some(String::from_str("qualify column names with table names")),
            },
            TypeError::FunctionArgumentMismatch { range } => Diagnostic {
                message: String::from_str("function argument mismatch"),
                range,
                severity: Severity::Error,
                hint: Some(String::from_str("check the number and types of arguments")),
            },
        }
    }
}

} // verus!
