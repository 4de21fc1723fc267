//! Compiling a source: parse, check, render.

use crate::checker::{Checker, CheckerView};
use crate::checker::laws::{diagnostics_fit, lemma_checked_statements_fit};
use crate::diagnostics::maneger::{some_error, Diagnostic, DiagnosticView};
use crate::lexer::Lexer;
use crate::lexer::scan::{byte_length, fits};
use crate::parser::grammar::program;
use crate::parser::Parser;
use crate::parser::placement::lemma_program_fits;
use crate::utils::source::Source;
use crate::utils::views;
use vstd::prelude::*;

verus! {

/// How compiling a source ends.
pub enum Compiled {
    /// Lexing or parsing failed: there is no program, and one diagnostic.
    Rejected(Diagnostic),
    /// The program was parsed and checked. It has SQL if and only if no
    /// diagnostic is an error.
    Checked { diagnostics: Vec<Diagnostic>, sql: Option<String> },
}

/// A `Compiled` with its texts as sequences of characters.
pub enum CompiledView {
    Rejected(DiagnosticView),
    Checked { diagnostics: Seq<DiagnosticView>, sql: Option<Seq<char>> },
}

impl View for Compiled {
    type V = CompiledView;

    open spec fn view(&self) -> CompiledView {
        match self {
            Compiled::Rejected(diagnostic) => CompiledView::Rejected(diagnostic@),
            Compiled::Checked { diagnostics, sql } => CompiledView::Checked {
                diagnostics: views(diagnostics@),
                sql: match sql {
                    Some(sql) => Some(sql@),
                    None => None,
                },
            },
        }
    }
}

/// What compiling a text gives. A text that does not lex or parse is
/// rejected with the diagnostic of the first failure. Any other is checked
/// from a fresh state, and rendered unless checking raised an error;
/// warnings do not stand in the way.
pub open spec fn compilation(text: Seq<char>) -> CompiledView {
    match program(text) {
        Err(diagnostic) => CompiledView::Rejected(diagnostic),
        Ok(program) => {
            let diagnostics = CheckerView::fresh().check(program).diagnostics;
            CompiledView::Checked {
                diagnostics,
                sql: if some_error(diagnostics) {
                    None
                } else {
                    Some(program.sql())
                },
            }
        },
    }
}

/// Compiles a source: lexes and parses it, checks the program, and renders
/// it to SQL where the check allows.
pub fn compile(source: &Source) -> (compiled: Compiled)
    ensures
        compiled@ == compilation(source.raw@),
        byte_length(source.raw@) <= usize::MAX,
{
    let mut lexer = Lexer::new(source);
    let mut parser = Parser::new(&mut lexer);
    match parser.parse() {
        Err(diagnostic) => Compiled::Rejected(diagnostic),
        Ok(program) => {
            let mut checker = Checker::new();
            checker.check(&program);
            let diagnostics = checker.get_diagnostics();
            let sql = if checker.contains_error() {
                None
            } else {
                Some(program.to_sql())
            };
            Compiled::Checked { diagnostics, sql }
        },
    }
}

/// SQL is emitted if and only if no collected diagnostic is an error.
pub proof fn lemma_emission_follows_check(text: Seq<char>)
    ensures
        compilation(text) matches CompiledView::Checked { diagnostics, sql } ==> (sql is Some
            <==> !some_error(diagnostics)),
{
}

/// Every diagnostic that compiling a text gives has an ordered range inside
/// the text: that of a failure of lexing or parsing, and those that the
/// check raises.
pub proof fn lemma_diagnostics_lie_in_the_text(text: Seq<char>)
    requires
        byte_length(text) <= usize::MAX,
    ensures
        match compilation(text) {
            CompiledView::Rejected(diagnostic) => fits(diagnostic.range, byte_length(text) as int),
            CompiledView::Checked { diagnostics, .. } => diagnostics_fit(
                diagnostics,
                byte_length(text) as int,
            ),
        },
{
    lemma_program_fits(text);
    if let Ok(parsed) = program(text) {
        lemma_checked_statements_fit(
            CheckerView::fresh(),
            parsed.statements,
            byte_length(text) as int,
        );
    }
}

} // verus!
