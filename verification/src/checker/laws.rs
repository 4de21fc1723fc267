//! What holds of every run of the checker.

use crate::checker::CheckerView;
use crate::diagnostics::maneger::{DiagnosticView, TypeError};
use crate::lexer::scan::fits;
use crate::parser::ast::{
    ColumnExpressionView, ExpressionView, SelectExpressionView, SelectStatementView, StatementView,
};
use vstd::prelude::*;

verus! {

/// Whether `later` has kept all that `earlier` had found and seen: its
/// diagnostics begin with those of `earlier`, and it knows every table and
/// column that `earlier` knew.
pub open spec fn keeps(earlier: CheckerView, later: CheckerView) -> bool {
    &&& earlier.diagnostics.is_prefix_of(later.diagnostics)
    &&& forall|name: Seq<char>| earlier.tables.contains(name) ==> later.tables.contains(name)
    &&& forall|name: Seq<char>| earlier.columns.contains(name) ==> later.columns.contains(name)
}

/// Whether an item of a select list is the plain column `column`.
pub open spec fn names(item: SelectExpressionView, column: ColumnExpressionView) -> bool {
    item.expression == ExpressionView::Column(column)
}

/// The diagnostic of a column that was selected before.
pub open spec fn duplicate(column: ColumnExpressionView) -> DiagnosticView {
    (TypeError::DuplicateColumn { range: column.range }).diagnostic()
}

proof fn lemma_push_keeps<A>(items: Seq<A>, item: A)
    ensures
        items.is_prefix_of(items.push(item)),
        items.push(item).contains(item),
        forall|other: A| items.contains(other) ==> items.push(item).contains(other),
{
    assert(items.push(item)[items.len() as int] == item);
    assert forall|other: A| items.contains(other) implies items.push(item).contains(other) by {
        let k = choose|k: int| 0 <= k < items.len() && items[k] == other;
        assert(items.push(item)[k] == other);
    }
}

/// Checking an item of a select list forgets nothing, and leaves the
/// column's name known where the item is a plain column.
pub proof fn lemma_select_item_keeps(state: CheckerView, item: SelectExpressionView)
    ensures
        keeps(state, state.check_select_item(item)),
        forall|column: ColumnExpressionView|
            names(item, column) ==> state.check_select_item(item).columns.contains(
                column.column.name(),
            ),
{
    match item.expression {
        ExpressionView::Column(column) => {
            lemma_push_keeps(state.columns, column.column.name());
            lemma_push_keeps(state.diagnostics, duplicate(column));
        },
        _ => {},
    }
}

/// Checking a select list forgets nothing.
pub proof fn lemma_select_items_keep(state: CheckerView, items: Seq<SelectExpressionView>)
    ensures
        keeps(state, state.check_select_items(items)),
    decreases items.len(),
{
    if items.len() > 0 {
        lemma_select_items_keep(state, items.drop_last());
        lemma_select_item_keeps(state.check_select_items(items.drop_last()), items.last());
    }
}

/// After a select list was checked, the name of each of its plain columns is known.
pub proof fn lemma_select_items_know(
    state: CheckerView,
    items: Seq<SelectExpressionView>,
    index: int,
    column: ColumnExpressionView,
)
    requires
        0 <= index < items.len(),
        names(items[index], column),
    ensures
        state.check_select_items(items).columns.contains(column.column.name()),
    decreases items.len(),
{
    let before = state.check_select_items(items.drop_last());
    lemma_select_item_keeps(before, items.last());
    if index < items.len() - 1 {
        lemma_select_items_know(state, items.drop_last(), index, column);
    }
}

/// A plain column whose name is known when its select list is checked is
/// reported as a duplicate.
pub proof fn lemma_select_items_report(
    state: CheckerView,
    items: Seq<SelectExpressionView>,
    index: int,
    column: ColumnExpressionView,
)
    requires
        0 <= index < items.len(),
        names(items[index], column),
        state.columns.contains(column.column.name()),
    ensures
        state.check_select_items(items).diagnostics.contains(duplicate(column)),
    decreases items.len(),
{
    let before = state.check_select_items(items.drop_last());
    lemma_select_item_keeps(before, items.last());
    if index < items.len() - 1 {
        lemma_select_items_report(state, items.drop_last(), index, column);
        let found = choose|k: int|
            0 <= k < before.diagnostics.len() && before.diagnostics[k] == duplicate(column);
        assert(before.check_select_item(items.last()).diagnostics[found] == duplicate(column));
    } else {
        lemma_select_items_keep(state, items.drop_last());
        lemma_push_keeps(before.diagnostics, duplicate(column));
    }
}

/// Checking a select forgets nothing.
pub proof fn lemma_select_keeps(state: CheckerView, select: SelectStatementView)
    ensures
        keeps(state, state.check_select(select)),
{
    let missing = (TypeError::MissingSelectClause { range: select.range }).diagnostic();
    lemma_push_keeps(state.diagnostics, missing);
    let start = if select.expressions.len() == 0 {
        state.raise(TypeError::MissingSelectClause { range: select.range })
    } else {
        state
    };
    lemma_select_items_keep(start, select.expressions);
}

/// Checking a statement forgets nothing: no diagnostic is dropped or
/// reordered, and no table or column is forgotten.
pub proof fn lemma_statement_keeps(state: CheckerView, statement: StatementView)
    ensures
        keeps(state, state.check_statement(statement)),
    decreases statement,
{
    match statement {
        StatementView::Select(select) => lemma_select_keeps(state, select),
        StatementView::From(from) => {
            lemma_push_keeps(
                state.diagnostics,
                (TypeError::DuplicateTable { range: from.span() }).diagnostic(),
            );
            lemma_push_keeps(state.tables, from.table.name());
        },
        StatementView::Join(join) => {
            lemma_push_keeps(
                state.diagnostics,
                (TypeError::MissingIndexOnJoin { range: join.range }).diagnostic(),
            );
        },
        StatementView::Where(filter) => {
            lemma_push_keeps(
                state.diagnostics,
                (TypeError::UnsupportedOperator { range: filter.range }).diagnostic(),
            );
        },
        StatementView::GroupBy(group_by) => {
            lemma_push_keeps(
                state.diagnostics,
                (TypeError::MissingGroupBy { range: group_by.range }).diagnostic(),
            );
        },
        StatementView::Aggregate(aggregate) => {
            lemma_push_keeps(
                state.diagnostics,
                (TypeError::RedundantSubQuery { range: aggregate.range }).diagnostic(),
            );
        },
        StatementView::Pipe(pipe) => {
            lemma_statement_keeps(state, *pipe.left);
            lemma_statement_keeps(state.check_statement(*pipe.left), *pipe.right);
        },
        _ => {},
    }
}

/// Checking statements one after the other forgets nothing.
pub proof fn lemma_statements_keep(state: CheckerView, statements: Seq<StatementView>)
    ensures
        keeps(state, state.check_statements(statements)),
    decreases statements.len(),
{
    if statements.len() > 0 {
        lemma_statements_keep(state, statements.drop_last());
        lemma_statement_keeps(state.check_statements(statements.drop_last()), statements.last());
    }
}

/// Columns are remembered for the whole run, not for one statement: where
/// two selects name the same plain column, the second occurrence is
/// reported as a duplicate, whatever the checker had seen before the first
/// select and whatever statements stand between the two.
pub proof fn lemma_duplicate_across_statements(
    state: CheckerView,
    first: SelectStatementView,
    first_index: int,
    first_column: ColumnExpressionView,
    between: Seq<StatementView>,
    second: SelectStatementView,
    second_index: int,
    second_column: ColumnExpressionView,
)
    requires
        0 <= first_index < first.expressions.len(),
        names(first.expressions[first_index], first_column),
        0 <= second_index < second.expressions.len(),
        names(second.expressions[second_index], second_column),
        first_column.column.name() == second_column.column.name(),
    ensures
        state.check_select(first).check_statements(between).check_select(
            second,
        ).diagnostics.contains(duplicate(second_column)),
{
    let start = if first.expressions.len() == 0 {
        state.raise(TypeError::MissingSelectClause { range: first.range })
    } else {
        state
    };
    lemma_select_items_know(start, first.expressions, first_index, first_column);
    let after_first = state.check_select(first);
    lemma_statements_keep(after_first, between);
    let before_second = after_first.check_statements(between);
    lemma_select_items_report(before_second, second.expressions, second_index, second_column);
}

/// Whether the range of every diagnostic is ordered and ends at or before
/// the byte `limit`.
pub open spec fn diagnostics_fit(diagnostics: Seq<DiagnosticView>, limit: int) -> bool {
    forall|i: int| 0 <= i < diagnostics.len() ==> fits((#[trigger] diagnostics[i]).range, limit)
}

proof fn lemma_raise_fits(state: CheckerView, error: TypeError, limit: int)
    requires
        diagnostics_fit(state.diagnostics, limit),
        fits(error.range(), limit),
    ensures
        diagnostics_fit(state.raise(error).diagnostics, limit),
{
    let raised = state.raise(error).diagnostics;
    assert forall|i: int| 0 <= i < raised.len() implies fits(
        (#[trigger] raised[i]).range,
        limit,
    ) by {
        if i < state.diagnostics.len() {
            assert(raised[i] == state.diagnostics[i]);
        }
    }
}

/// The diagnostics of a select list lie where the columns of the list lie.
pub proof fn lemma_checked_select_items_fit(
    state: CheckerView,
    items: Seq<SelectExpressionView>,
    limit: int,
)
    requires
        diagnostics_fit(state.diagnostics, limit),
        forall|i: int| 0 <= i < items.len() ==> (#[trigger] items[i]).fits(limit),
    ensures
        diagnostics_fit(state.check_select_items(items).diagnostics, limit),
    decreases items.len(),
{
    if items.len() > 0 {
        let before = state.check_select_items(items.drop_last());
        assert forall|i: int| 0 <= i < items.drop_last().len() implies (
        #[trigger] items.drop_last()[i]).fits(limit) by {
            assert(items.drop_last()[i] == items[i]);
        }
        lemma_checked_select_items_fit(state, items.drop_last(), limit);
        assert(items.last().fits(limit));
        match items.last().expression {
            ExpressionView::Column(column) => {
                lemma_raise_fits(before, TypeError::DuplicateColumn { range: column.range }, limit);
            },
            _ => {},
        }
    }
}

/// Checking a statement whose ranges are ordered and inside a text raises
/// only diagnostics whose ranges are.
pub proof fn lemma_checked_statement_fits(state: CheckerView, statement: StatementView, limit: int)
    requires
        diagnostics_fit(state.diagnostics, limit),
        statement.fits(limit),
    ensures
        diagnostics_fit(state.check_statement(statement).diagnostics, limit),
    decreases statement,
{
    match statement {
        StatementView::Select(select) => {
            let missing = TypeError::MissingSelectClause { range: select.range };
            lemma_raise_fits(state, missing, limit);
            let start = if select.expressions.len() == 0 {
                state.raise(missing)
            } else {
                state
            };
            lemma_checked_select_items_fit(start, select.expressions, limit);
        },
        StatementView::From(from) => {
            lemma_raise_fits(state, TypeError::DuplicateTable { range: from.span() }, limit);
        },
        StatementView::Join(join) => {
            lemma_raise_fits(state, TypeError::MissingIndexOnJoin { range: join.range }, limit);
        },
        StatementView::Where(filter) => {
            lemma_raise_fits(state, TypeError::UnsupportedOperator { range: filter.range }, limit);
        },
        StatementView::GroupBy(group_by) => {
            lemma_raise_fits(state, TypeError::MissingGroupBy { range: group_by.range }, limit);
        },
        StatementView::Aggregate(aggregate) => {
            lemma_raise_fits(state, TypeError::RedundantSubQuery { range: aggregate.range }, limit);
        },
        StatementView::Pipe(pipe) => {
            lemma_checked_statement_fits(state, *pipe.left, limit);
            lemma_checked_statement_fits(state.check_statement(*pipe.left), *pipe.right, limit);
        },
        _ => {},
    }
}

/// Checking statements whose ranges are ordered and inside a text raises
/// only diagnostics whose ranges are.
pub proof fn lemma_checked_statements_fit(
    state: CheckerView,
    statements: Seq<StatementView>,
    limit: int,
)
    requires
        diagnostics_fit(state.diagnostics, limit),
        forall|i: int| 0 <= i < statements.len() ==> (#[trigger] statements[i]).fits(limit),
    ensures
        diagnostics_fit(state.check_statements(statements).diagnostics, limit),
    decreases statements.len(),
{
    if statements.len() > 0 {
        assert forall|i: int| 0 <= i < statements.drop_last().len() implies (
        #[trigger] statements.drop_last()[i]).fits(limit) by {
            assert(statements.drop_last()[i] == statements[i]);
        }
        lemma_checked_statements_fit(state, statements.drop_last(), limit);
        assert(statements.last().fits(limit));
        lemma_checked_statement_fits(
            state.check_statements(statements.drop_last()),
            statements.last(),
            limit,
        );
    }
}

} // verus!
