//! Copies of syntax trees.

use crate::lexer::token::Token;
use crate::parser::ast::{
    AggregateClause, BooleanLiteral, ColumnExpression, ConditionExpression, Expression, FromClause,
    FunctionCallExpression, GroupByClause, JoinClause, LimitClause, Literal, NumberLiteral,
    OrderClause, OrderColumn, PipeStatement, Program, SelectExpression, SelectStatement, Statement,
    StringLiteral, SubqueryExpression, WhereClause,
};
use crate::utils::views;
use vstd::prelude::*;

verus! {

/// A copy of a token that may be absent.
fn duplicate_token(token: &Option<Token>) -> (copy: Option<Token>)
    ensures
        copy == *token,
{
    match token {
        Some(token) => Some(token.clone()),
        None => None,
    }
}

/// Copies of the items of a list, in order.
fn duplicate_statements(items: &Vec<Statement>) -> (copy: Vec<Statement>)
    ensures
        views(copy@) == views(items@),
    decreases items,
{
    let mut copy: Vec<Statement> = Vec::new();
    let mut i: usize = 0;
    while i < items.len()
        invariant
            i <= items.len(),
            copy@.len() == i,
            forall|k: int| 0 <= k < i ==> (#[trigger] copy@[k])@ == items@[k]@,
        decreases items.len() - i,
    {
        copy.push(items[i].duplicate());
        i = i + 1;
    }
    proof {
        assert(views(copy@) =~= views(items@));
    }
    copy
}

/// Copies of the items of a list, in order.
fn duplicate_select_expressions(items: &Vec<SelectExpression>) -> (copy: Vec<SelectExpression>)
    ensures
        views(copy@) == views(items@),
    decreases items,
{
    let mut copy: Vec<SelectExpression> = Vec::new();
    let mut i: usize = 0;
    while i < items.len()
        invariant
            i <= items.len(),
            copy@.len() == i,
            forall|k: int| 0 <= k < i ==> (#[trigger] copy@[k])@ == items@[k]@,
        decreases items.len() - i,
    {
        copy.push(items[i].duplicate());
        i = i + 1;
    }
    proof {
        assert(views(copy@) =~= views(items@));
    }
    copy
}

/// Copies of the items of a list, in order.
fn duplicate_expressions(items: &Vec<Expression>) -> (copy: Vec<Expression>)
    ensures
        views(copy@) == views(items@),
    decreases items,
{
    let mut copy: Vec<Expression> = Vec::new();
    let mut i: usize = 0;
    while i < items.len()
        invariant
            i <= items.len(),
            copy@.len() == i,
            forall|k: int| 0 <= k < i ==> (#[trigger] copy@[k])@ == items@[k]@,
        decreases items.len() - i,
    {
        copy.push(items[i].duplicate());
        i = i + 1;
    }
    proof {
        assert(views(copy@) =~= views(items@));
    }
    copy
}

/// Copies of the items of a list, in order.
fn duplicate_order_columns(items: &Vec<OrderColumn>) -> (copy: Vec<OrderColumn>)
    ensures
        views(copy@) == views(items@),
    decreases items,
{
    let mut copy: Vec<OrderColumn> = Vec::new();
    let mut i: usize = 0;
    while i < items.len()
        invariant
            i <= items.len(),
            copy@.len() == i,
            forall|k: int| 0 <= k < i ==> (#[trigger] copy@[k])@ == items@[k]@,
        decreases items.len() - i,
    {
        copy.push(items[i].duplicate());
        i = i + 1;
    }
    proof {
        assert(views(copy@) =~= views(items@));
    }
    copy
}

impl Program {
    /// A copy with the same view.
    fn duplicate(&self) -> (copy: Self)
        ensures
            copy@ == self@,
        decreases self,
    {
        let copy = Program {
            statements: duplicate_statements(&self.statements),
        };
        proof {
            assert(copy@.statements =~= views(copy.statements@));
            assert(self@.statements =~= views(self.statements@));
        }
        copy
    }
}

impl Clone for Program {
    fn clone(&self) -> (copy: Self)
        ensures
            copy@ == self@,
    {
        self.duplicate()
    }
}

impl Statement {
    /// A copy with the same view.
    fn duplicate(&self) -> (copy: Self)
        ensures
            copy@ == self@,
        decreases self,
    {
        match self {
            Statement::Select(inner) => Statement::Select(inner.duplicate()),
            Statement::From(inner) => Statement::From(inner.duplicate()),
            Statement::Join(inner) => Statement::Join(inner.duplicate()),
            Statement::Where(inner) => Statement::Where(inner.duplicate()),
            Statement::GroupBy(inner) => Statement::GroupBy(inner.duplicate()),
            Statement::Order(inner) => Statement::Order(inner.duplicate()),
            Statement::Limit(inner) => Statement::Limit(inner.duplicate()),
            Statement::Pipe(inner) => Statement::Pipe(inner.duplicate()),
            Statement::Aggregate(inner) => Statement::Aggregate(inner.duplicate()),
            Statement::Expression(inner) => Statement::Expression(inner.duplicate()),
        }
    }
}

impl Clone for Statement {
    fn clone(&self) -> (copy: Self)
        ensures
            copy@ == self@,
    {
        self.duplicate()
    }
}

impl PipeStatement {
    /// A copy with the same view.
    fn duplicate(&self) -> (copy: Self)
        ensures
            copy@ == self@,
        decreases self,
    {
        let copy = PipeStatement {
            left: Box::new(self.left.duplicate()),
            right: Box::new(self.right.duplicate()),
        };
        copy
    }
}

impl Clone for PipeStatement {
    fn clone(&self) -> (copy: Self)
        ensures
            copy@ == self@,
    {
        self.duplicate()
    }
}

impl AggregateClause {
    /// A copy with the same view.
    fn duplicate(&self) -> (copy: Self)
        ensures
            copy@ == self@,
        decreases self,
    {
        let copy = AggregateClause {
            function: self.function,
            argument: self.argument.duplicate(),
            alias: duplicate_token(&self.alias),
            range: self.range,
        };
        copy
    }
}

impl Clone for AggregateClause {
    fn clone(&self) -> (copy: Self)
        ensures
            copy@ == self@,
    {
        self.duplicate()
    }
}

impl SelectStatement {
    /// A copy with the same view.
    fn duplicate(&self) -> (copy: Self)
        ensures
            copy@ == self@,
        decreases self,
    {
        let copy = SelectStatement {
            distinct: self.distinct,
            expressions: duplicate_select_expressions(&self.expressions),
            from: match &self.from {
                Some(inner) => Some(inner.duplicate()),
                None => None,
            },
            range: self.range,
        };
        proof {
            assert(copy@.expressions =~= views(copy.expressions@));
            assert(self@.expressions =~= views(self.expressions@));
        }
        copy
    }
}

impl Clone for SelectStatement {
    fn clone(&self) -> (copy: Self)
        ensures
            copy@ == self@,
    {
        self.duplicate()
    }
}

impl SelectExpression {
    /// A copy with the same view.
    fn duplicate(&self) -> (copy: Self)
        ensures
            copy@ == self@,
        decreases self,
    {
        let copy = SelectExpression {
            expression: self.expression.duplicate(),
            alias: duplicate_token(&self.alias),
            range: self.range,
        };
        copy
    }
}

impl Clone for SelectExpression {
    fn clone(&self) -> (copy: Self)
        ensures
            copy@ == self@,
    {
        self.duplicate()
    }
}

impl FromClause {
    /// A copy with the same view.
    fn duplicate(&self) -> (copy: Self)
        ensures
            copy@ == self@,
    {
        let copy = FromClause {
            table: self.table.clone(),
            range: self.range,
        };
        copy
    }
}

impl Clone for FromClause {
    fn clone(&self) -> (copy: Self)
        ensures
            copy@ == self@,
    {
        self.duplicate()
    }
}

impl JoinClause {
    /// A copy with the same view.
    fn duplicate(&self) -> (copy: Self)
        ensures
            copy@ == self@,
        decreases self,
    {
        let copy = JoinClause {
            table: self.table.clone(),
            on: self.on.duplicate(),
            range: self.range,
        };
        copy
    }
}

impl Clone for JoinClause {
    fn clone(&self) -> (copy: Self)
        ensures
            copy@ == self@,
    {
        self.duplicate()
    }
}

impl WhereClause {
    /// A copy with the same view.
    fn duplicate(&self) -> (copy: Self)
        ensures
            copy@ == self@,
        decreases self,
    {
        let copy = WhereClause {
            condition: self.condition.duplicate(),
            range: self.range,
        };
        copy
    }
}

impl Clone for WhereClause {
    fn clone(&self) -> (copy: Self)
        ensures
            copy@ == self@,
    {
        self.duplicate()
    }
}

impl GroupByClause {
    /// A copy with the same view.
    fn duplicate(&self) -> (copy: Self)
        ensures
            copy@ == self@,
        decreases self,
    {
        let copy = GroupByClause {
            columns: duplicate_expressions(&self.columns),
            range: self.range,
        };
        proof {
            assert(copy@.columns =~= views(copy.columns@));
            assert(self@.columns =~= views(self.columns@));
        }
        copy
    }
}

impl Clone for GroupByClause {
    fn clone(&self) -> (copy: Self)
        ensures
            copy@ == self@,
    {
        self.duplicate()
    }
}

impl OrderClause {
    /// A copy with the same view.
    fn duplicate(&self) -> (copy: Self)
        ensures
            copy@ == self@,
        decreases self,
    {
        let copy = OrderClause {
            columns: duplicate_order_columns(&self.columns),
            range: self.range,
        };
        proof {
            assert(copy@.columns =~= views(copy.columns@));
            assert(self@.columns =~= views(self.columns@));
        }
        copy
    }
}

impl Clone for OrderClause {
    fn clone(&self) -> (copy: Self)
        ensures
            copy@ == self@,
    {
        self.duplicate()
    }
}

impl LimitClause {
    /// A copy with the same view.
    fn duplicate(&self) -> (copy: Self)
        ensures
            copy@ == self@,
    {
        let copy = LimitClause {
            count: self.count.duplicate(),
            offset: match &self.offset {
                Some(inner) => Some(inner.duplicate()),
                None => None,
            },
            range: self.range,
        };
        copy
    }
}

impl Clone for LimitClause {
    fn clone(&self) -> (copy: Self)
        ensures
            copy@ == self@,
    {
        self.duplicate()
    }
}

impl Expression {
    /// A copy with the same view.
    fn duplicate(&self) -> (copy: Self)
        ensures
            copy@ == self@,
        decreases self,
    {
        match self {
            Expression::Column(inner) => Expression::Column(inner.duplicate()),
            Expression::Literal(inner) => Expression::Literal(inner.duplicate()),
            Expression::Condition(inner) => Expression::Condition(inner.duplicate()),
            Expression::FunctionCall(inner) => Expression::FunctionCall(inner.duplicate()),
            Expression::Subquery(inner) => Expression::Subquery(inner.duplicate()),
        }
    }
}

impl Clone for Expression {
    fn clone(&self) -> (copy: Self)
        ensures
            copy@ == self@,
    {
        self.duplicate()
    }
}

impl SubqueryExpression {
    /// A copy with the same view.
    fn duplicate(&self) -> (copy: Self)
        ensures
            copy@ == self@,
        decreases self,
    {
        let copy = SubqueryExpression {
            stmt: Box::new(self.stmt.duplicate()),
            range: self.range,
        };
        copy
    }
}

impl Clone for SubqueryExpression {
    fn clone(&self) -> (copy: Self)
        ensures
            copy@ == self@,
    {
        self.duplicate()
    }
}

impl FunctionCallExpression {
    /// A copy with the same view.
    fn duplicate(&self) -> (copy: Self)
        ensures
            copy@ == self@,
        decreases self,
    {
        let copy = FunctionCallExpression {
            function_name: self.function_name.clone(),
            arguments: duplicate_expressions(&self.arguments),
            range: self.range,
        };
        proof {
            assert(copy@.arguments =~= views(copy.arguments@));
            assert(self@.arguments =~= views(self.arguments@));
        }
        copy
    }
}

impl Clone for FunctionCallExpression {
    fn clone(&self) -> (copy: Self)
        ensures
            copy@ == self@,
    {
        self.duplicate()
    }
}

impl ColumnExpression {
    /// A copy with the same view.
    fn duplicate(&self) -> (copy: Self)
        ensures
            copy@ == self@,
    {
        let copy = ColumnExpression {
            table: duplicate_token(&self.table),
            column: self.column.clone(),
            range: self.range,
        };
        copy
    }
}

impl Clone for ColumnExpression {
    fn clone(&self) -> (copy: Self)
        ensures
            copy@ == self@,
    {
        self.duplicate()
    }
}

impl ConditionExpression {
    /// A copy with the same view.
    fn duplicate(&self) -> (copy: Self)
        ensures
            copy@ == self@,
        decreases self,
    {
        let copy = ConditionExpression {
            left: Box::new(self.left.duplicate()),
            operator: self.operator,
            right: Box::new(self.right.duplicate()),
        };
        copy
    }
}

impl Clone for ConditionExpression {
    fn clone(&self) -> (copy: Self)
        ensures
            copy@ == self@,
    {
        self.duplicate()
    }
}

impl Literal {
    /// A copy with the same view.
    fn duplicate(&self) -> (copy: Self)
        ensures
            copy@ == self@,
    {
        match self {
            Literal::String(inner) => Literal::String(inner.duplicate()),
            Literal::Number(inner) => Literal::Number(inner.duplicate()),
            Literal::Boolean(inner) => Literal::Boolean(inner.duplicate()),
        }
    }
}

impl Clone for Literal {
    fn clone(&self) -> (copy: Self)
        ensures
            copy@ == self@,
    {
        self.duplicate()
    }
}

impl StringLiteral {
    /// A copy with the same view.
    fn duplicate(&self) -> (copy: Self)
        ensures
            copy@ == self@,
    {
        let copy = StringLiteral {
            value: self.value.clone(),
            range: self.range,
        };
        copy
    }
}

impl Clone for StringLiteral {
    fn clone(&self) -> (copy: Self)
        ensures
            copy@ == self@,
    {
        self.duplicate()
    }
}

impl NumberLiteral {
    /// A copy with the same view.
    fn duplicate(&self) -> (copy: Self)
        ensures
            copy@ == self@,
    {
        let copy = NumberLiteral {
            raw: self.raw.clone(),
            range: self.range,
        };
        copy
    }
}

impl Clone for NumberLiteral {
    fn clone(&self) -> (copy: Self)
        ensures
            copy@ == self@,
    {
        self.duplicate()
    }
}

impl BooleanLiteral {
    /// A copy with the same view.
    fn duplicate(&self) -> (copy: Self)
        ensures
            copy@ == self@,
    {
        let copy = BooleanLiteral {
            value: self.value,
            range: self.range,
        };
        copy
    }
}

impl Clone for BooleanLiteral {
    fn clone(&self) -> (copy: Self)
        ensures
            copy@ == self@,
    {
        self.duplicate()
    }
}

impl OrderColumn {
    /// A copy with the same view.
    fn duplicate(&self) -> (copy: Self)
        ensures
            copy@ == self@,
        decreases self,
    {
        let copy = OrderColumn {
            column: self.column.duplicate(),
            direction: self.direction,
        };
        copy
    }
}

impl Clone for OrderColumn {
    fn clone(&self) -> (copy: Self)
        ensures
            copy@ == self@,
    {
        self.duplicate()
    }
}

} // verus!
