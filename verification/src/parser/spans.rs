//! What it means for the ranges of a syntax tree to be ordered and to lie
//! inside a text.

use crate::lexer::scan::fits;
use crate::lexer::token::TokenView;
use crate::parser::ast::{
    AggregateClauseView, ColumnExpressionView, ConditionExpressionView, ExpressionView,
    FromClauseView, FunctionCallExpressionView, GroupByClauseView, JoinClauseView, LimitClauseView,
    OrderClauseView, OrderColumnView, PipeStatementView, ProgramView, SelectExpressionView,
    SelectStatementView, StatementView, SubqueryExpressionView, WhereClauseView,
};
use crate::utils::range::merged;
use vstd::prelude::*;

verus! {

/// Whether the range of a token that may be absent fits.
pub open spec fn optional_fits(token: Option<TokenView>, limit: int) -> bool {
    token matches Some(token) ==> fits(token.range, limit)
}

impl ColumnExpressionView {
    /// Whether every range of the column is ordered and ends at or before
    /// the byte `limit`.
    pub open spec fn fits(self, limit: int) -> bool {
        &&& fits(self.range, limit)
        &&& fits(self.column.range, limit)
        &&& optional_fits(self.table, limit)
    }
}

impl ConditionExpressionView {
    /// Whether every range in the node is ordered and ends at or before the
    /// byte `limit`.
    pub open spec fn fits(self, limit: int) -> bool
        decreases self,
    {
        &&& self.left.fits(limit)
        &&& self.right.fits(limit)
        &&& fits(merged(self.left.range(), self.right.range()), limit)
    }
}

impl FunctionCallExpressionView {
    /// Whether every range in the node is ordered and ends at or before the
    /// byte `limit`.
    pub open spec fn fits(self, limit: int) -> bool
        decreases self,
    {
        &&& fits(self.range, limit)
        &&& fits(self.function_name.range, limit)
        &&& forall|i: int|
            0 <= i < self.arguments.len() ==> (#[trigger] self.arguments[i]).fits(limit)
    }
}

impl SubqueryExpressionView {
    /// Whether every range in the node is ordered and ends at or before the
    /// byte `limit`.
    pub open spec fn fits(self, limit: int) -> bool
        decreases self,
    {
        fits(self.range, limit) && self.stmt.fits(limit)
    }
}

impl ExpressionView {
    /// Whether every range in the expression is ordered and ends at or
    /// before the byte `limit`.
    pub open spec fn fits(self, limit: int) -> bool
        decreases self,
    {
        match self {
            ExpressionView::Column(column) => column.fits(limit),
            ExpressionView::Literal(literal) => fits(literal.range(), limit),
            ExpressionView::Condition(condition) => condition.fits(limit),
            ExpressionView::FunctionCall(call) => call.fits(limit),
            ExpressionView::Subquery(subquery) => subquery.fits(limit),
        }
    }
}

impl SelectExpressionView {
    /// Whether every range in the node is ordered and ends at or before the
    /// byte `limit`.
    pub open spec fn fits(self, limit: int) -> bool
        decreases self,
    {
        &&& fits(self.range, limit)
        &&& self.expression.fits(limit)
        &&& optional_fits(self.alias, limit)
    }
}

impl FromClauseView {
    /// Whether every range in the node is ordered and ends at or before the
    /// byte `limit`.
    pub open spec fn fits(self, limit: int) -> bool {
        &&& fits(self.range, limit)
        &&& fits(self.table.range, limit)
        &&& fits(self.span(), limit)
    }
}

impl JoinClauseView {
    /// Whether every range in the node is ordered and ends at or before the
    /// byte `limit`.
    pub open spec fn fits(self, limit: int) -> bool
        decreases self,
    {
        &&& fits(self.range, limit)
        &&& fits(self.table.range, limit)
        &&& self.on.fits(limit)
    }
}

impl WhereClauseView {
    /// Whether every range in the node is ordered and ends at or before the
    /// byte `limit`.
    pub open spec fn fits(self, limit: int) -> bool
        decreases self,
    {
        fits(self.range, limit) && self.condition.fits(limit)
    }
}

impl GroupByClauseView {
    /// Whether every range in the node is ordered and ends at or before the
    /// byte `limit`.
    pub open spec fn fits(self, limit: int) -> bool
        decreases self,
    {
        &&& fits(self.range, limit)
        &&& forall|i: int| 0 <= i < self.columns.len() ==> (#[trigger] self.columns[i]).fits(limit)
    }
}

impl OrderColumnView {
    /// Whether every range in the node is ordered and ends at or before the
    /// byte `limit`.
    pub open spec fn fits(self, limit: int) -> bool
        decreases self,
    {
        self.column.fits(limit)
    }
}

impl OrderClauseView {
    /// Whether every range in the node is ordered and ends at or before the
    /// byte `limit`.
    pub open spec fn fits(self, limit: int) -> bool
        decreases self,
    {
        &&& fits(self.range, limit)
        &&& forall|i: int| 0 <= i < self.columns.len() ==> (#[trigger] self.columns[i]).fits(limit)
    }
}

impl LimitClauseView {
    /// Whether every range in the node is ordered and ends at or before the
    /// byte `limit`.
    pub open spec fn fits(self, limit: int) -> bool {
        &&& fits(self.range, limit)
        &&& fits(self.count.range, limit)
        &&& self.offset matches Some(offset) ==> fits(offset.range, limit)
    }
}

impl AggregateClauseView {
    /// Whether every range in the node is ordered and ends at or before the
    /// byte `limit`.
    pub open spec fn fits(self, limit: int) -> bool
        decreases self,
    {
        &&& fits(self.range, limit)
        &&& self.argument.fits(limit)
        &&& optional_fits(self.alias, limit)
    }
}

impl SelectStatementView {
    /// Whether every range in the node is ordered and ends at or before the
    /// byte `limit`.
    pub open spec fn fits(self, limit: int) -> bool
        decreases self,
    {
        &&& fits(self.range, limit)
        &&& forall|i: int|
            0 <= i < self.expressions.len() ==> (#[trigger] self.expressions[i]).fits(limit)
        &&& self.from matches Some(from) ==> from.fits(limit)
    }
}

impl PipeStatementView {
    /// Whether every range in the node is ordered and ends at or before the
    /// byte `limit`.
    pub open spec fn fits(self, limit: int) -> bool
        decreases self,
    {
        &&& self.left.fits(limit)
        &&& self.right.fits(limit)
        &&& fits(merged(self.left.range(), self.right.range()), limit)
    }
}

impl StatementView {
    /// Whether every range in the statement is ordered and ends at or
    /// before the byte `limit`.
    pub open spec fn fits(self, limit: int) -> bool
        decreases self,
    {
        match self {
            StatementView::Select(select) => select.fits(limit),
            StatementView::From(from) => from.fits(limit),
            StatementView::Join(join) => join.fits(limit),
            StatementView::Where(filter) => filter.fits(limit),
            StatementView::GroupBy(group_by) => group_by.fits(limit),
            StatementView::Order(order) => order.fits(limit),
            StatementView::Limit(limit_clause) => limit_clause.fits(limit),
            StatementView::Pipe(pipe) => pipe.fits(limit),
            StatementView::Aggregate(aggregate) => aggregate.fits(limit),
            StatementView::Expression(expression) => expression.fits(limit),
        }
    }
}

impl ProgramView {
    /// Whether every range in the program is ordered and ends at or before
    /// the byte `limit`.
    pub open spec fn fits(self, limit: int) -> bool {
        forall|i: int|
            0 <= i < self.statements.len() ==> (#[trigger] self.statements[i]).fits(limit)
    }
}

} // verus!
