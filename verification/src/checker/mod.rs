//! The rules that a program is held to before it is rendered.

use crate::diagnostics::maneger::{
    some_error, Diagnostic, DiagnosticsManager, DiagnosticView, TypeError,
};
use crate::diagnostics::report::{all_reportable, reports};
use crate::parser::ast::{
    AggregateClause, AggregateClauseView, Expression, ExpressionView, FromClause, FromClauseView,
    GroupByClause, GroupByClauseView, JoinClause, JoinClauseView, PipeStatement, Program,
    ProgramView, SelectExpression, SelectExpressionView, SelectStatement, SelectStatementView,
    Statement, StatementView, WhereClause, WhereClauseView,
};
use crate::utils::{decode, same_text, views};
use crate::utils::source::Source;
use vstd::prelude::*;
use vstd::string::*;

pub mod laws;

verus! {

/// Whether `needle` stands at the index `at` of `text`.
pub open spec fn occurs_at(text: Seq<char>, needle: Seq<char>, at: int) -> bool {
    0 <= at <= text.len() - needle.len() && text.subrange(at, at + needle.len()) == needle
}

/// Whether `needle` stands somewhere in `text`.
pub open spec fn occurs(text: Seq<char>, needle: Seq<char>) -> bool {
    exists|at: int| occurs_at(text, needle, at)
}

/// Whether `needle` stands at the index `at` of `text`.
fn matches_at(text: &Vec<char>, needle: &Vec<char>, at: usize) -> (b: bool)
    requires
        at + needle.len() <= text.len(),
    ensures
        b == occurs_at(text@, needle@, at as int),
{
    let mut j: usize = 0;
    while j < needle.len()
        invariant
            j <= needle.len(),
            at + needle.len() <= text.len(),
            forall|k: int| 0 <= k < j ==> text@[at + k] == needle@[k],
        decreases needle.len() - j,
    {
        if text[at + j] != needle[j] {
            proof {
                assert(text@.subrange(at as int, at + needle.len())[j as int] == text@[at + j]);
            }
            return false;
        }
        j = j + 1;
    }
    proof {
        assert(text@.subrange(at as int, at + needle.len()) =~= needle@);
    }
    true
}

/// Whether `needle` stands somewhere in `text`.
#[verifier::loop_isolation(false)]
pub fn contains_text(text: &str, needle: &str) -> (b: bool)
    ensures
        b == occurs(text@, needle@),
{
    let chars = decode(text);
    let pattern = decode(needle);
    if pattern.len() > chars.len() {
        return false;
    }
    let last = chars.len() - pattern.len();
    let mut i: usize = 0;
    loop
        invariant
            i <= last,
            forall|k: int| 0 <= k < i ==> !occurs_at(chars@, pattern@, k),
        decreases last - i,
    {
        if matches_at(&chars, &pattern, i) {
            return true;
        }
        if i == last {
            return false;
        }
        i = i + 1;
    }
}

/// Whether `name` is one of `names`.
pub fn contains_name(names: &Vec<String>, name: &str) -> (b: bool)
    ensures
        b == views(names@).contains(name@),
{
    let mut i: usize = 0;
    while i < names.len()
        invariant
            i <= names.len(),
            forall|k: int| 0 <= k < i ==> views(names@)[k] != name@,
        decreases names.len() - i,
    {
        if same_text(names[i].as_str(), name) {
            assert(views(names@)[i as int] == name@);
            return true;
        }
        i = i + 1;
    }
    false
}

/// What a checker has found and seen so far: the diagnostics in the order
/// in which they were raised, the tables that `FROM` clauses introduced, and
/// the columns that select lists named. Tables and columns are kept for the
/// whole run, not for one statement.
pub struct CheckerView {
    pub diagnostics: Seq<DiagnosticView>,
    pub tables: Seq<Seq<char>>,
    pub columns: Seq<Seq<char>>,
}

impl CheckerView {
    /// A checker that has seen nothing.
    pub open spec fn fresh() -> CheckerView {
        CheckerView { diagnostics: Seq::empty(), tables: Seq::empty(), columns: Seq::empty() }
    }

    /// The state after a problem was found.
    pub open spec fn raise(self, error: TypeError) -> CheckerView {
        CheckerView { diagnostics: self.diagnostics.push(error.diagnostic()), ..self }
    }

    /// A table that was introduced before is reported as a duplicate; a new
    /// one is remembered.
    pub open spec fn check_from(self, from: FromClauseView) -> CheckerView {
        if self.tables.contains(from.table.name()) {
            self.raise(TypeError::DuplicateTable { range: from.span() })
        } else {
            CheckerView { tables: self.tables.push(from.table.name()), ..self }
        }
    }

    /// A plain column that was named before is reported as a duplicate; a
    /// new one is remembered. Other expressions are passed over.
    pub open spec fn check_select_item(self, item: SelectExpressionView) -> CheckerView {
        match item.expression {
            ExpressionView::Column(column) => if self.columns.contains(column.column.name()) {
                self.raise(TypeError::DuplicateColumn { range: column.range })
            } else {
                CheckerView { columns: self.columns.push(column.column.name()), ..self }
            },
            _ => self,
        }
    }

    /// The items of a select list, checked in order.
    pub open spec fn check_select_items(self, items: Seq<SelectExpressionView>) -> CheckerView
        decreases items.len(),
    {
        if items.len() == 0 {
            self
        } else {
            self.check_select_items(items.drop_last()).check_select_item(items.last())
        }
    }

    /// An empty select list is an error; the items of the list are checked
    /// one by one.
    pub open spec fn check_select(self, select: SelectStatementView) -> CheckerView {
        (if select.expressions.len() == 0 {
            self.raise(TypeError::MissingSelectClause { range: select.range })
        } else {
            self
        }).check_select_items(select.expressions)
    }

    /// Joining a table that no `FROM` clause introduced gets a warning.
    pub open spec fn check_join(self, join: JoinClauseView) -> CheckerView {
        if !self.tables.contains(join.table.name()) {
            self.raise(TypeError::MissingIndexOnJoin { range: join.range })
        } else {
            self
        }
    }

    /// A condition whose SQL holds ` OR ` is an error, wherever in the text
    /// of the condition it stands.
    pub open spec fn check_where(self, filter: WhereClauseView) -> CheckerView {
        if occurs(filter.condition.sql(), " OR "@) {
            self.raise(TypeError::UnsupportedOperator { range: filter.range })
        } else {
            self
        }
    }

    /// Grouping by no column is an error.
    pub open spec fn check_group_by(self, group_by: GroupByClauseView) -> CheckerView {
        if group_by.columns.len() == 0 {
            self.raise(TypeError::MissingGroupBy { range: group_by.range })
        } else {
            self
        }
    }

    /// Aggregating over a subquery gets a warning.
    pub open spec fn check_aggregate(self, aggregate: AggregateClauseView) -> CheckerView {
        if aggregate.argument is Subquery {
            self.raise(TypeError::RedundantSubQuery { range: aggregate.range })
        } else {
            self
        }
    }

    /// The state after checking one statement. A pipe is checked left side
    /// first; stages without a rule leave the state as it is.
    pub open spec fn check_statement(self, statement: StatementView) -> CheckerView
        decreases statement,
    {
        match statement {
            StatementView::Select(select) => self.check_select(select),
            StatementView::From(from) => self.check_from(from),
            StatementView::Join(join) => self.check_join(join),
            StatementView::Where(filter) => self.check_where(filter),
            StatementView::GroupBy(group_by) => self.check_group_by(group_by),
            StatementView::Aggregate(aggregate) => self.check_aggregate(aggregate),
            StatementView::Pipe(pipe) => self.check_statement(*pipe.left).check_statement(
                *pipe.right,
            ),
            _ => self,
        }
    }

    /// Statements checked in order.
    pub open spec fn check_statements(self, statements: Seq<StatementView>) -> CheckerView
        decreases statements.len(),
    {
        if statements.len() == 0 {
            self
        } else {
            self.check_statements(statements.drop_last()).check_statement(statements.last())
        }
    }

    /// The state after checking a program: every statement is visited.
    pub open spec fn check(self, program: ProgramView) -> CheckerView {
        self.check_statements(program.statements)
    }
}

/// Walks a program and collects what is wrong with it. It changes nothing
/// in the program and never stops early.
pub struct Checker {
    diagnostics: DiagnosticsManager,
    tables: Vec<String>,
    columns: Vec<String>,
}

impl View for Checker {
    type V = CheckerView;

    closed spec fn view(&self) -> CheckerView {
        CheckerView {
            diagnostics: self.diagnostics@,
            tables: views(self.tables@),
            columns: views(self.columns@),
        }
    }
}

impl Checker {
    /// A checker that has seen nothing.
    pub fn new() -> (checker: Self)
        ensures
            checker@ == CheckerView::fresh(),
    {
        let checker = Self {
            diagnostics: DiagnosticsManager::new(),
            tables: Vec::new(),
            columns: Vec::new(),
        };
        proof {
            assert(views(checker.tables@) =~= Seq::empty());
            assert(views(checker.columns@) =~= Seq::empty());
        }
        checker
    }

    /// Checks every statement of a program, in order.
    pub fn check(&mut self, program: &Program)
        ensures
            final(self)@ == old(self)@.check(program@),
    {
        let mut i: usize = 0;
        while i < program.statements.len()
            invariant
                i <= program.statements.len(),
                self@ == old(self)@.check_statements(program@.statements.take(i as int)),
            decreases program.statements.len() - i,
        {
            proof {
                assert(program@.statements.take(i + 1).drop_last() =~= program@.statements.take(
                    i as int,
                ));
            }
            self.check_statement(&program.statements[i]);
            i = i + 1;
        }
        proof {
            assert(program@.statements.take(i as int) =~= program@.statements);
        }
    }

    /// Checks one statement; a pipe is checked left side first.
    pub fn check_statement(&mut self, stmt: &Statement)
        ensures
            final(self)@ == old(self)@.check_statement(stmt@),
        decreases stmt,
    {
        match stmt {
            Statement::Select(select) => self.check_select(select),
            Statement::From(from) => self.check_from(from),
            Statement::Join(join) => self.check_join(join),
            Statement::Where(where_clause) => self.check_where(where_clause),
            Statement::GroupBy(group_by) => self.check_group_by(group_by),
            Statement::Aggregate(agg) => self.check_aggregate(agg),
            Statement::Pipe(pipe) => self.check_pipe(pipe),
            _ => {},
        }
    }

    /// Adds the diagnostic of a problem.
    fn raise(&mut self, error: TypeError)
        ensures
            final(self)@ == old(self)@.raise(error),
    {
        self.diagnostics.add(Diagnostic::from(error));
    }

    fn check_from(&mut self, from: &FromClause)
        ensures
            final(self)@ == old(self)@.check_from(from@),
    {
        let table_name = from.table.name();
        if contains_name(&self.tables, table_name) {
            self.raise(TypeError::DuplicateTable { range: from.get_range() });
        } else {
            self.tables.push(String::from_str(table_name));
            proof {
                assert(views(self.tables@) =~= views(old(self).tables@).push(table_name@));
            }
        }
    }

    fn check_select(&mut self, select: &SelectStatement)
        ensures
            final(self)@ == old(self)@.check_select(select@),
    {
        if select.expressions.len() == 0 {
            self.raise(TypeError::MissingSelectClause { range: select.get_range() });
        }
        let ghost start = self@;
        let mut i: usize = 0;
        while i < select.expressions.len()
            invariant
                i <= select.expressions.len(),
                self@ == start.check_select_items(select@.expressions.take(i as int)),
            decreases select.expressions.len() - i,
        {
            proof {
                assert(select@.expressions.take(i + 1).drop_last() =~= select@.expressions.take(
                    i as int,
                ));
            }
            self.check_select_item(&select.expressions[i]);
            i = i + 1;
        }
        proof {
            assert(select@.expressions.take(i as int) =~= select@.expressions);
        }
    }

    fn check_select_item(&mut self, expr: &SelectExpression)
        ensures
            final(self)@ == old(self)@.check_select_item(expr@),
    {
        if let Expression::Column(col) = &expr.expression {
            let column_name = col.column.name();
            if !contains_name(&self.columns, column_name) {
                self.columns.push(String::from_str(column_name));
                proof {
                    assert(views(self.columns@) =~= views(old(self).columns@).push(column_name@));
                }
            } else {
                self.raise(TypeError::DuplicateColumn { range: col.get_range() });
            }
        }
    }

    fn check_join(&mut self, join: &JoinClause)
        ensures
            final(self)@ == old(self)@.check_join(join@),
    {
        let table_name = join.table.name();
        if !contains_name(&self.tables, table_name) {
            self.raise(TypeError::MissingIndexOnJoin { range: join.get_range() });
        }
    }

    fn check_where(&mut self, where_clause: &WhereClause)
        ensures
            final(self)@ == old(self)@.check_where(where_clause@),
    {
        if contains_text(where_clause.condition.emit().as_str(), " OR ") {
            self.raise(TypeError::UnsupportedOperator { range: where_clause.get_range() });
        }
    }

    fn check_group_by(&mut self, group_by: &GroupByClause)
        ensures
            final(self)@ == old(self)@.check_group_by(group_by@),
    {
        if group_by.columns.len() == 0 {
            self.raise(TypeError::MissingGroupBy { range: group_by.get_range() });
        }
    }

    fn check_aggregate(&mut self, agg: &AggregateClause)
        ensures
            final(self)@ == old(self)@.check_aggregate(agg@),
    {
        if let Expression::Subquery(_) = &agg.argument {
            self.raise(TypeError::RedundantSubQuery { range: agg.get_range() });
        }
    }

    fn check_pipe(&mut self, pipe: &PipeStatement)
        ensures
            final(self)@ == old(self)@.check_statement(*pipe@.left).check_statement(
                *pipe@.right,
            ),
        decreases pipe,
    {
        self.check_statement(&pipe.left);
        self.check_statement(&pipe.right);
    }

    /// The diagnostics collected so far, in the order in which they were raised.
    pub fn get_diagnostics(&self) -> (copy: Vec<Diagnostic>)
        ensures
            views(copy@) == self@.diagnostics,
    {
        self.diagnostics.get_diagnostics()
    }

    /// Whether every collected diagnostic can be reported against `source`.
    pub fn can_report(&self, source: &Source) -> (b: bool)
        ensures
            b == all_reportable(self@.diagnostics, source.raw@),
    {
        self.diagnostics.can_report(source)
    }

    /// The reports of all collected diagnostics, in the order in which
    /// they were raised.
    pub fn report(&self, source: &Source) -> (text: String)
        requires
            all_reportable(self@.diagnostics, source.raw@),
        ensures
            text@ == reports(self@.diagnostics, source.path@, source.raw@),
    {
        self.diagnostics.report(source)
    }

    /// Whether a diagnostic that was raised is an error.
    pub fn contains_error(&self) -> (b: bool)
        ensures
            b == some_error(self@.diagnostics),
    {
        self.diagnostics.contains_error()
    }
}

} // verus!
