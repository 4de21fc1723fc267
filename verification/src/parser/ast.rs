use crate::lexer::token::{Token, TokenView};
use crate::utils::range::{merged, range_from, Range};
use vstd::prelude::*;

verus! {

/// The functions that `AGGREGATE` can apply.
#[derive(Debug, Clone, Copy, PartialEq, Eq, Structural)]
pub enum AggregateFn {
    Count,
    Sum,
    Avg,
    Min,
    Max,
    StdDev,
    StdDevPop,
    StdDevSamp,
    VarPop,
    VarSamp,
    Variance,
    First,
    Last,
    GroupConcat,
    StringAgg,
    Median,
    Mode,
    ArrayAgg,
    JsonAgg,
    JsonObjectAgg,
    BitAnd,
    BitOr,
    BoolAnd,
    BoolOr,
}

/// The operators of a condition. None binds tighter than another: a
/// condition has exactly one.
#[derive(Debug, Clone, Copy, PartialEq, Eq, Structural)]
pub enum Operator {
    Equal,
    NotEqual,
    LessThan,
    GreaterThan,
    LessThanOrEqual,
    GreaterThanOrEqual,
    And,
    Or,
}

/// The direction of an ordering.
#[derive(Debug, Clone, Copy, PartialEq, Eq, Structural)]
pub enum OrderDirection {
    Asc,
    Desc,
}

impl View for AggregateFn {
    type V = AggregateFn;

    open spec fn view(&self) -> AggregateFn {
        *self
    }
}

impl View for Operator {
    type V = Operator;

    open spec fn view(&self) -> Operator {
        *self
    }
}

impl View for OrderDirection {
    type V = OrderDirection;

    open spec fn view(&self) -> OrderDirection {
        *self
    }
}

/// A whole input: its statements in the order in which they were written.
#[derive(Debug, PartialEq, Eq)]
pub struct Program {
    pub statements: Vec<Statement>,
}

/// A `Program` as a mathematical value: texts are sequences of characters, lists are
/// sequences.
pub struct ProgramView {
    pub statements: Seq<StatementView>,
}

impl Program {
    /// The value that `self` stands for; it is also the view of `self`.
    pub open spec fn model(&self) -> ProgramView
        decreases self,
    {
        ProgramView {
            statements: Seq::new(
                self.statements@.len(),
                |i: int|
                    if 0 <= i < self.statements@.len() {
                        self.statements@[i].model()
                    } else {
                        arbitrary()
                    },
            ),
        }
    }
}

impl View for Program {
    type V = ProgramView;

    open spec fn view(&self) -> ProgramView {
        self.model()
    }
}

/// One stage of a query, or two of them joined by a pipe.
#[derive(Debug, PartialEq, Eq)]
pub enum Statement {
    Select(SelectStatement),
    From(FromClause),
    Join(JoinClause),
    Where(WhereClause),
    GroupBy(GroupByClause),
    Order(OrderClause),
    Limit(LimitClause),
    Pipe(PipeStatement),
    Aggregate(AggregateClause),
    Expression(Expression),
}

/// A `Statement` as a mathematical value, variant by variant.
pub enum StatementView {
    Select(SelectStatementView),
    From(FromClauseView),
    Join(JoinClauseView),
    Where(WhereClauseView),
    GroupBy(GroupByClauseView),
    Order(OrderClauseView),
    Limit(LimitClauseView),
    Pipe(PipeStatementView),
    Aggregate(AggregateClauseView),
    Expression(ExpressionView),
}

impl Statement {
    /// The value that `self` stands for; it is also the view of `self`.
    pub open spec fn model(&self) -> StatementView
        decreases self,
    {
        match self {
            Statement::Select(inner) => StatementView::Select(inner.model()),
            Statement::From(inner) => StatementView::From(inner.model()),
            Statement::Join(inner) => StatementView::Join(inner.model()),
            Statement::Where(inner) => StatementView::Where(inner.model()),
            Statement::GroupBy(inner) => StatementView::GroupBy(inner.model()),
            Statement::Order(inner) => StatementView::Order(inner.model()),
            Statement::Limit(inner) => StatementView::Limit(inner.model()),
            Statement::Pipe(inner) => StatementView::Pipe(inner.model()),
            Statement::Aggregate(inner) => StatementView::Aggregate(inner.model()),
            Statement::Expression(inner) => StatementView::Expression(inner.model()),
        }
    }
}

impl View for Statement {
    type V = StatementView;

    open spec fn view(&self) -> StatementView {
        self.model()
    }
}

/// Two stages joined by `|>`. A chain `a |> b |> c` nests to the left, so
/// that `right` is always the stage that was written last.
#[derive(Debug, PartialEq, Eq)]
pub struct PipeStatement {
    pub left: Box<Statement>,
    pub right: Box<Statement>,
}

/// A `PipeStatement` as a mathematical value: texts are sequences of characters, lists are
/// sequences.
pub struct PipeStatementView {
    pub left: Box<StatementView>,
    pub right: Box<StatementView>,
}

impl PipeStatement {
    /// The value that `self` stands for; it is also the view of `self`.
    pub open spec fn model(&self) -> PipeStatementView
        decreases self,
    {
        PipeStatementView {
            left: Box::new(self.left.model()),
            right: Box::new(self.right.model()),
        }
    }
}

impl View for PipeStatement {
    type V = PipeStatementView;

    open spec fn view(&self) -> PipeStatementView {
        self.model()
    }
}

/// `AGGREGATE function(argument) [AS alias]`.
#[derive(Debug, PartialEq, Eq)]
pub struct AggregateClause {
    pub function: AggregateFn,
    pub argument: Expression,
    pub alias: Option<Token>,
    pub range: Range,
}

/// A `AggregateClause` as a mathematical value: texts are sequences of characters, lists are
/// sequences.
pub struct AggregateClauseView {
    pub function: AggregateFn,
    pub argument: ExpressionView,
    pub alias: Option<TokenView>,
    pub range: Range,
}

impl AggregateClause {
    /// The value that `self` stands for; it is also the view of `self`.
    pub open spec fn model(&self) -> AggregateClauseView
        decreases self,
    {
        AggregateClauseView {
            function: self.function,
            argument: self.argument.model(),
            alias: match self.alias {
                Some(inner) => Some(inner@),
                None => None,
            },
            range: self.range,
        }
    }
}

impl View for AggregateClause {
    type V = AggregateClauseView;

    open spec fn view(&self) -> AggregateClauseView {
        self.model()
    }
}

/// `SELECT [DISTINCT] expression, ... [FROM table]`.
#[derive(Debug, PartialEq, Eq)]
pub struct SelectStatement {
    pub distinct: bool,
    pub expressions: Vec<SelectExpression>,
    pub from: Option<FromClause>,
    pub range: Range,
}

/// A `SelectStatement` as a mathematical value: texts are sequences of characters, lists are
/// sequences.
pub struct SelectStatementView {
    pub distinct: bool,
    pub expressions: Seq<SelectExpressionView>,
    pub from: Option<FromClauseView>,
    pub range: Range,
}

impl SelectStatement {
    /// The value that `self` stands for; it is also the view of `self`.
    pub open spec fn model(&self) -> SelectStatementView
        decreases self,
    {
        SelectStatementView {
            distinct: self.distinct,
            expressions: Seq::new(
                self.expressions@.len(),
                |i: int|
                    if 0 <= i < self.expressions@.len() {
                        self.expressions@[i].model()
                    } else {
                        arbitrary()
                    },
            ),
            from: match self.from {
                Some(inner) => Some(inner.model()),
                None => None,
            },
            range: self.range,
        }
    }
}

impl View for SelectStatement {
    type V = SelectStatementView;

    open spec fn view(&self) -> SelectStatementView {
        self.model()
    }
}

/// One item of a select list: `expression [AS alias]`.
#[derive(Debug, PartialEq, Eq)]
pub struct SelectExpression {
    pub expression: Expression,
    pub alias: Option<Token>,
    pub range: Range,
}

/// A `SelectExpression` as a mathematical value: texts are sequences of characters, lists are
/// sequences.
pub struct SelectExpressionView {
    pub expression: ExpressionView,
    pub alias: Option<TokenView>,
    pub range: Range,
}

impl SelectExpression {
    /// The value that `self` stands for; it is also the view of `self`.
    pub open spec fn model(&self) -> SelectExpressionView
        decreases self,
    {
        SelectExpressionView {
            expression: self.expression.model(),
            alias: match self.alias {
                Some(inner) => Some(inner@),
                None => None,
            },
            range: self.range,
        }
    }
}

impl View for SelectExpression {
    type V = SelectExpressionView;

    open spec fn view(&self) -> SelectExpressionView {
        self.model()
    }
}

/// `FROM table`.
#[derive(Debug, PartialEq, Eq)]
pub struct FromClause {
    pub table: Token,
    pub range: Range,
}

/// A `FromClause` as a mathematical value: texts are sequences of characters, lists are
/// sequences.
pub struct FromClauseView {
    pub table: TokenView,
    pub range: Range,
}

impl FromClause {
    /// The value that `self` stands for; it is also the view of `self`.
    pub open spec fn model(&self) -> FromClauseView
        decreases self,
    {
        FromClauseView {
            table: self.table@,
            range: self.range,
        }
    }
}

impl View for FromClause {
    type V = FromClauseView;

    open spec fn view(&self) -> FromClauseView {
        self.model()
    }
}

/// `JOIN table ON condition`.
#[derive(Debug, PartialEq, Eq)]
pub struct JoinClause {
    pub table: Token,
    pub on: ConditionExpression,
    pub range: Range,
}

/// A `JoinClause` as a mathematical value: texts are sequences of characters, lists are
/// sequences.
pub struct JoinClauseView {
    pub table: TokenView,
    pub on: ConditionExpressionView,
    pub range: Range,
}

impl JoinClause {
    /// The value that `self` stands for; it is also the view of `self`.
    pub open spec fn model(&self) -> JoinClauseView
        decreases self,
    {
        JoinClauseView {
            table: self.table@,
            on: self.on.model(),
            range: self.range,
        }
    }
}

impl View for JoinClause {
    type V = JoinClauseView;

    open spec fn view(&self) -> JoinClauseView {
        self.model()
    }
}

/// `WHERE condition`.
#[derive(Debug, PartialEq, Eq)]
pub struct WhereClause {
    pub condition: Expression,
    pub range: Range,
}

/// A `WhereClause` as a mathematical value: texts are sequences of characters, lists are
/// sequences.
pub struct WhereClauseView {
    pub condition: ExpressionView,
    pub range: Range,
}

impl WhereClause {
    /// The value that `self` stands for; it is also the view of `self`.
    pub open spec fn model(&self) -> WhereClauseView
        decreases self,
    {
        WhereClauseView {
            condition: self.condition.model(),
            range: self.range,
        }
    }
}

impl View for WhereClause {
    type V = WhereClauseView;

    open spec fn view(&self) -> WhereClauseView {
        self.model()
    }
}

/// `GROUP BY column, ...`.
#[derive(Debug, PartialEq, Eq)]
pub struct GroupByClause {
    pub columns: Vec<Expression>,
    pub range: Range,
}

/// A `GroupByClause` as a mathematical value: texts are sequences of characters, lists are
/// sequences.
pub struct GroupByClauseView {
    pub columns: Seq<ExpressionView>,
    pub range: Range,
}

impl GroupByClause {
    /// The value that `self` stands for; it is also the view of `self`.
    pub open spec fn model(&self) -> GroupByClauseView
        decreases self,
    {
        GroupByClauseView {
            columns: Seq::new(
                self.columns@.len(),
                |i: int|
                    if 0 <= i < self.columns@.len() {
                        self.columns@[i].model()
                    } else {
                        arbitrary()
                    },
            ),
            range: self.range,
        }
    }
}

impl View for GroupByClause {
    type V = GroupByClauseView;

    open spec fn view(&self) -> GroupByClauseView {
        self.model()
    }
}

/// `ORDER BY column [ASC|DESC], ...`.
#[derive(Debug, PartialEq, Eq)]
pub struct OrderClause {
    pub columns: Vec<OrderColumn>,
    pub range: Range,
}

/// A `OrderClause` as a mathematical value: texts are sequences of characters, lists are
/// sequences.
pub struct OrderClauseView {
    pub columns: Seq<OrderColumnView>,
    pub range: Range,
}

impl OrderClause {
    /// The value that `self` stands for; it is also the view of `self`.
    pub open spec fn model(&self) -> OrderClauseView
        decreases self,
    {
        OrderClauseView {
            columns: Seq::new(
                self.columns@.len(),
                |i: int|
                    if 0 <= i < self.columns@.len() {
                        self.columns@[i].model()
                    } else {
                        arbitrary()
                    },
            ),
            range: self.range,
        }
    }
}

impl View for OrderClause {
    type V = OrderClauseView;

    open spec fn view(&self) -> OrderClauseView {
        self.model()
    }
}

/// `LIMIT count [, offset]`.
#[derive(Debug, PartialEq, Eq)]
pub struct LimitClause {
    pub count: NumberLiteral,
    pub offset: Option<NumberLiteral>,
    pub range: Range,
}

/// A `LimitClause` as a mathematical value: texts are sequences of characters, lists are
/// sequences.
pub struct LimitClauseView {
    pub count: NumberLiteralView,
    pub offset: Option<NumberLiteralView>,
    pub range: Range,
}

impl LimitClause {
    /// The value that `self` stands for; it is also the view of `self`.
    pub open spec fn model(&self) -> LimitClauseView
        decreases self,
    {
        LimitClauseView {
            count: self.count.model(),
            offset: match self.offset {
                Some(inner) => Some(inner.model()),
                None => None,
            },
            range: self.range,
        }
    }
}

impl View for LimitClause {
    type V = LimitClauseView;

    open spec fn view(&self) -> LimitClauseView {
        self.model()
    }
}

/// What can stand where a value is expected.
#[derive(Debug, PartialEq, Eq)]
pub enum Expression {
    Column(ColumnExpression),
    Literal(Literal),
    Condition(ConditionExpression),
    FunctionCall(FunctionCallExpression),
    Subquery(SubqueryExpression),
}

/// A `Expression` as a mathematical value, variant by variant.
pub enum ExpressionView {
    Column(ColumnExpressionView),
    Literal(LiteralView),
    Condition(ConditionExpressionView),
    FunctionCall(FunctionCallExpressionView),
    Subquery(SubqueryExpressionView),
}

impl Expression {
    /// The value that `self` stands for; it is also the view of `self`.
    pub open spec fn model(&self) -> ExpressionView
        decreases self,
    {
        match self {
            Expression::Column(inner) => ExpressionView::Column(inner.model()),
            Expression::Literal(inner) => ExpressionView::Literal(inner.model()),
            Expression::Condition(inner) => ExpressionView::Condition(inner.model()),
            Expression::FunctionCall(inner) => ExpressionView::FunctionCall(inner.model()),
            Expression::Subquery(inner) => ExpressionView::Subquery(inner.model()),
        }
    }
}

impl View for Expression {
    type V = ExpressionView;

    open spec fn view(&self) -> ExpressionView {
        self.model()
    }
}

/// A statement in parentheses, used as an expression.
#[derive(Debug, PartialEq, Eq)]
pub struct SubqueryExpression {
    pub stmt: Box<Statement>,
    pub range: Range,
}

/// A `SubqueryExpression` as a mathematical value: texts are sequences of characters, lists are
/// sequences.
pub struct SubqueryExpressionView {
    pub stmt: Box<StatementView>,
    pub range: Range,
}

impl SubqueryExpression {
    /// The value that `self` stands for; it is also the view of `self`.
    pub open spec fn model(&self) -> SubqueryExpressionView
        decreases self,
    {
        SubqueryExpressionView {
            stmt: Box::new(self.stmt.model()),
            range: self.range,
        }
    }
}

impl View for SubqueryExpression {
    type V = SubqueryExpressionView;

    open spec fn view(&self) -> SubqueryExpressionView {
        self.model()
    }
}

/// `name(argument, ...)`.
#[derive(Debug, PartialEq, Eq)]
pub struct FunctionCallExpression {
    pub function_name: Token,
    pub arguments: Vec<Expression>,
    pub range: Range,
}

/// A `FunctionCallExpression` as a mathematical value: texts are sequences of characters, lists are
/// sequences.
pub struct FunctionCallExpressionView {
    pub function_name: TokenView,
    pub arguments: Seq<ExpressionView>,
    pub range: Range,
}

impl FunctionCallExpression {
    /// The value that `self` stands for; it is also the view of `self`.
    pub open spec fn model(&self) -> FunctionCallExpressionView
        decreases self,
    {
        FunctionCallExpressionView {
            function_name: self.function_name@,
            arguments: Seq::new(
                self.arguments@.len(),
                |i: int|
                    if 0 <= i < self.arguments@.len() {
                        self.arguments@[i].model()
                    } else {
                        arbitrary()
                    },
            ),
            range: self.range,
        }
    }
}

impl View for FunctionCallExpression {
    type V = FunctionCallExpressionView;

    open spec fn view(&self) -> FunctionCallExpressionView {
        self.model()
    }
}

/// A column with its qualifier, if it has one. Of two identifiers joined by a dot in
/// the source, the first is the column and the second the qualifier, and rendering
/// writes them in that order.
#[derive(Debug, PartialEq, Eq)]
pub struct ColumnExpression {
    pub table: Option<Token>,
    pub column: Token,
    pub range: Range,
}

/// A `ColumnExpression` as a mathematical value: texts are sequences of characters, lists are
/// sequences.
pub struct ColumnExpressionView {
    pub table: Option<TokenView>,
    pub column: TokenView,
    pub range: Range,
}

impl ColumnExpression {
    /// The value that `self` stands for; it is also the view of `self`.
    pub open spec fn model(&self) -> ColumnExpressionView
        decreases self,
    {
        ColumnExpressionView {
            table: match self.table {
                Some(inner) => Some(inner@),
                None => None,
            },
            column: self.column@,
            range: self.range,
        }
    }
}

impl View for ColumnExpression {
    type V = ColumnExpressionView;

    open spec fn view(&self) -> ColumnExpressionView {
        self.model()
    }
}

/// `left operator right`.
#[derive(Debug, PartialEq, Eq)]
pub struct ConditionExpression {
    pub left: Box<Expression>,
    pub operator: Operator,
    pub right: Box<Expression>,
}

/// A `ConditionExpression` as a mathematical value: texts are sequences of characters, lists are
/// sequences.
pub struct ConditionExpressionView {
    pub left: Box<ExpressionView>,
    pub operator: Operator,
    pub right: Box<ExpressionView>,
}

impl ConditionExpression {
    /// The value that `self` stands for; it is also the view of `self`.
    pub open spec fn model(&self) -> ConditionExpressionView
        decreases self,
    {
        ConditionExpressionView {
            left: Box::new(self.left.model()),
            operator: self.operator,
            right: Box::new(self.right.model()),
        }
    }
}

impl View for ConditionExpression {
    type V = ConditionExpressionView;

    open spec fn view(&self) -> ConditionExpressionView {
        self.model()
    }
}

/// A literal value.
#[derive(Debug, PartialEq, Eq)]
pub enum Literal {
    String(StringLiteral),
    Number(NumberLiteral),
    Boolean(BooleanLiteral),
}

/// A `Literal` as a mathematical value, variant by variant.
pub enum LiteralView {
    String(StringLiteralView),
    Number(NumberLiteralView),
    Boolean(BooleanLiteralView),
}

impl Literal {
    /// The value that `self` stands for; it is also the view of `self`.
    pub open spec fn model(&self) -> LiteralView
        decreases self,
    {
        match self {
            Literal::String(inner) => LiteralView::String(inner.model()),
            Literal::Number(inner) => LiteralView::Number(inner.model()),
            Literal::Boolean(inner) => LiteralView::Boolean(inner.model()),
        }
    }
}

impl View for Literal {
    type V = LiteralView;

    open spec fn view(&self) -> LiteralView {
        self.model()
    }
}

/// A quoted string, without its quotes.
#[derive(Debug, PartialEq, Eq)]
pub struct StringLiteral {
    pub value: String,
    pub range: Range,
}

/// A `StringLiteral` as a mathematical value: texts are sequences of characters, lists are
/// sequences.
pub struct StringLiteralView {
    pub value: Seq<char>,
    pub range: Range,
}

impl StringLiteral {
    /// The value that `self` stands for; it is also the view of `self`.
    pub open spec fn model(&self) -> StringLiteralView
        decreases self,
    {
        StringLiteralView {
            value: self.value@,
            range: self.range,
        }
    }
}

impl View for StringLiteral {
    type V = StringLiteralView;

    open spec fn view(&self) -> StringLiteralView {
        self.model()
    }
}

/// A number, as it was written.
#[derive(Debug, PartialEq, Eq)]
pub struct NumberLiteral {
    pub raw: String,
    pub range: Range,
}

/// A `NumberLiteral` as a mathematical value: texts are sequences of characters, lists are
/// sequences.
pub struct NumberLiteralView {
    pub raw: Seq<char>,
    pub range: Range,
}

impl NumberLiteral {
    /// The value that `self` stands for; it is also the view of `self`.
    pub open spec fn model(&self) -> NumberLiteralView
        decreases self,
    {
        NumberLiteralView {
            raw: self.raw@,
            range: self.range,
        }
    }
}

impl View for NumberLiteral {
    type V = NumberLiteralView;

    open spec fn view(&self) -> NumberLiteralView {
        self.model()
    }
}

/// `true` or `false`.
#[derive(Debug, PartialEq, Eq)]
pub struct BooleanLiteral {
    pub value: bool,
    pub range: Range,
}

/// A `BooleanLiteral` as a mathematical value: texts are sequences of characters, lists are
/// sequences.
pub struct BooleanLiteralView {
    pub value: bool,
    pub range: Range,
}

impl BooleanLiteral {
    /// The value that `self` stands for; it is also the view of `self`.
    pub open spec fn model(&self) -> BooleanLiteralView
        decreases self,
    {
        BooleanLiteralView {
            value: self.value,
            range: self.range,
        }
    }
}

impl View for BooleanLiteral {
    type V = BooleanLiteralView;

    open spec fn view(&self) -> BooleanLiteralView {
        self.model()
    }
}

/// A column to order by, with the direction.
#[derive(Debug, PartialEq, Eq)]
pub struct OrderColumn {
    pub column: Expression,
    pub direction: OrderDirection,
}

/// A `OrderColumn` as a mathematical value: texts are sequences of characters, lists are
/// sequences.
pub struct OrderColumnView {
    pub column: ExpressionView,
    pub direction: OrderDirection,
}

impl OrderColumn {
    /// The value that `self` stands for; it is also the view of `self`.
    pub open spec fn model(&self) -> OrderColumnView
        decreases self,
    {
        OrderColumnView {
            column: self.column.model(),
            direction: self.direction,
        }
    }
}

impl View for OrderColumn {
    type V = OrderColumnView;

    open spec fn view(&self) -> OrderColumnView {
        self.model()
    }
}

impl StatementView {
    /// The part of the source that the statement was read from.
    pub open spec fn range(self) -> Range
        decreases self,
    {
        match self {
            StatementView::Select(select) => select.range,
            StatementView::From(from) => from.span(),
            StatementView::Join(join) => join.range,
            StatementView::Where(filter) => filter.range,
            StatementView::GroupBy(group_by) => group_by.range,
            StatementView::Order(order) => order.range,
            StatementView::Limit(limit) => limit.range,
            StatementView::Pipe(pipe) => merged(pipe.left.range(), pipe.right.range()),
            StatementView::Aggregate(aggregate) => aggregate.range,
            StatementView::Expression(expression) => expression.range(),
        }
    }
}

impl ExpressionView {
    /// The part of the source that the expression was read from.
    pub open spec fn range(self) -> Range
        decreases self,
    {
        match self {
            ExpressionView::Column(column) => column.range,
            ExpressionView::Literal(literal) => literal.range(),
            ExpressionView::Condition(condition) => merged(
                condition.left.range(),
                condition.right.range(),
            ),
            ExpressionView::FunctionCall(call) => call.range,
            ExpressionView::Subquery(subquery) => subquery.range,
        }
    }
}

impl LiteralView {
    /// The part of the source that the literal was read from.
    pub open spec fn range(self) -> Range {
        match self {
            LiteralView::String(string) => string.range,
            LiteralView::Number(number) => number.range,
            LiteralView::Boolean(boolean) => boolean.range,
        }
    }
}

impl FromClauseView {
    /// From the start of the clause to the end of the table's name.
    pub open spec fn span(self) -> Range {
        merged(self.range, self.table.range)
    }
}

impl Program {
    pub fn new(statements: Vec<Statement>) -> (program: Self)
        ensures
            program == (Program { statements }),
    {
        Program { statements }
    }
}

impl Statement {
    pub fn create_select(
        distinct: bool,
        expressions: Vec<SelectExpression>,
        range: Range,
    ) -> (statement: Self)
        ensures
            statement == Statement::Select(
                SelectStatement { distinct, expressions, from: None, range },
            ),
    {
        Statement::Select(SelectStatement::new(distinct, expressions, range))
    }

    pub fn create_from(table: Token, range: Range) -> (statement: Self)
        ensures
            statement == Statement::From(FromClause { table, range }),
    {
        Statement::From(FromClause::new(table, range))
    }

    pub fn create_join(table: Token, on: ConditionExpression, range: Range) -> (statement: Self)
        ensures
            statement == Statement::Join(JoinClause { table, on, range }),
    {
        Statement::Join(JoinClause::new(table, on, range))
    }

    pub fn create_where(condition: Expression, range: Range) -> (statement: Self)
        ensures
            statement == Statement::Where(WhereClause { condition, range }),
    {
        Statement::Where(WhereClause::new(condition, range))
    }

    pub fn create_group_by(columns: Vec<Expression>, range: Range) -> (statement: Self)
        ensures
            statement == Statement::GroupBy(GroupByClause { columns, range }),
    {
        Statement::GroupBy(GroupByClause::new(columns, range))
    }

    pub fn create_order(columns: Vec<OrderColumn>, range: Range) -> (statement: Self)
        ensures
            statement == Statement::Order(OrderClause { columns, range }),
    {
        Statement::Order(OrderClause::new(columns, range))
    }

    pub fn create_limit(
        count: NumberLiteral,
        offset: Option<NumberLiteral>,
        range: Range,
    ) -> (statement: Self)
        ensures
            statement == Statement::Limit(LimitClause { count, offset, range }),
    {
        Statement::Limit(LimitClause::new(count, offset, range))
    }

    pub fn create_pipe(left: Statement, right: Statement) -> (statement: Self)
        ensures
            statement == Statement::Pipe(
                PipeStatement { left: Box::new(left), right: Box::new(right) },
            ),
    {
        Statement::Pipe(PipeStatement::new(left, right))
    }

    /// The part of the source that the statement covers: the range that a
    /// stage carries, and for a pipe from the start of its left side to the
    /// end of its right side.
    pub fn get_range(&self) -> (range: Range)
        ensures
            range == self@.range(),
        decreases self,
    {
        match self {
            Statement::Select(select) => select.get_range(),
            Statement::From(from) => from.get_range(),
            Statement::Join(join) => join.get_range(),
            Statement::Where(where_) => where_.get_range(),
            Statement::GroupBy(group_by) => group_by.get_range(),
            Statement::Order(order) => order.get_range(),
            Statement::Limit(limit) => limit.get_range(),
            Statement::Pipe(pipe) => pipe.get_range(),
            Statement::Expression(expression) => expression.get_range(),
            Statement::Aggregate(aggregate) => aggregate.get_range(),
        }
    }
}

impl PipeStatement {
    pub fn new(left: Statement, right: Statement) -> (pipe: Self)
        ensures
            pipe == (PipeStatement { left: Box::new(left), right: Box::new(right) }),
    {
        PipeStatement { left: Box::new(left), right: Box::new(right) }
    }

    /// From the start of the left side to the end of the right side.
    pub fn get_range(&self) -> (range: Range)
        ensures
            range == merged(self.left@.range(), self.right@.range()),
        decreases self,
    {
        let left = self.left.get_range();
        let right = self.right.get_range();
        range_from(&left, &right)
    }
}

impl AggregateClause {
    /// A node with the given parts.
    pub fn new(
        function: AggregateFn,
        argument: Expression,
        alias: Option<Token>,
        range: Range,
    ) -> (node: Self)
        ensures
            node == (AggregateClause { function, argument, alias, range }),
    {
        AggregateClause { function, argument, alias, range }
    }

    /// The range that the node carries.
    pub fn get_range(&self) -> (range: Range)
        ensures
            range == self.range,
    {
        self.range
    }
}

impl SelectStatement {
    pub fn new(distinct: bool, expressions: Vec<SelectExpression>, range: Range) -> (node: Self)
        ensures
            node == (SelectStatement { distinct, expressions, from: None, range }),
    {
        SelectStatement { distinct, expressions, range, from: None }
    }

    /// Attaches the `FROM` clause that follows the select list, and extends
    /// the statement's range to the end of that clause.
    pub fn with_from_clause(&mut self, from: FromClause)
        ensures
            *final(self) == (SelectStatement {
                from: Some(from),
                range: merged(old(self).range, from@.span()),
                ..*old(self)
            }),
    {
        self.range = range_from(&self.range, &from.get_range());
        self.from = Some(from);
    }

    /// The range that the node carries.
    pub fn get_range(&self) -> (range: Range)
        ensures
            range == self.range,
    {
        self.range
    }
}

impl SelectExpression {
    /// A node with the given parts.
    pub fn new(expression: Expression, alias: Option<Token>, range: Range) -> (node: Self)
        ensures
            node == (SelectExpression { expression, alias, range }),
    {
        SelectExpression { expression, alias, range }
    }

    /// The range that the node carries.
    pub fn get_range(&self) -> (range: Range)
        ensures
            range == self.range,
    {
        self.range
    }
}

impl FromClause {
    pub fn new(table: Token, range: Range) -> (node: Self)
        ensures
            node == (FromClause { table, range }),
    {
        FromClause { table, range }
    }

    /// From the start of the clause to the end of the table's name.
    pub fn get_range(&self) -> (range: Range)
        ensures
            range == self@.span(),
    {
        range_from(&self.range, &self.table.range)
    }
}

impl JoinClause {
    /// A node with the given parts.
    pub fn new(table: Token, on: ConditionExpression, range: Range) -> (node: Self)
        ensures
            node == (JoinClause { table, on, range }),
    {
        JoinClause { table, on, range }
    }

    /// The range that the node carries.
    pub fn get_range(&self) -> (range: Range)
        ensures
            range == self.range,
    {
        self.range
    }
}

impl WhereClause {
    /// A node with the given parts.
    pub fn new(condition: Expression, range: Range) -> (node: Self)
        ensures
            node == (WhereClause { condition, range }),
    {
        WhereClause { condition, range }
    }

    /// The range that the node carries.
    pub fn get_range(&self) -> (range: Range)
        ensures
            range == self.range,
    {
        self.range
    }
}

impl GroupByClause {
    /// A node with the given parts.
    pub fn new(columns: Vec<Expression>, range: Range) -> (node: Self)
        ensures
            node == (GroupByClause { columns, range }),
    {
        GroupByClause { columns, range }
    }

    /// The range that the node carries.
    pub fn get_range(&self) -> (range: Range)
        ensures
            range == self.range,
    {
        self.range
    }
}

impl OrderClause {
    /// A node with the given parts.
    pub fn new(columns: Vec<OrderColumn>, range: Range) -> (node: Self)
        ensures
            node == (OrderClause { columns, range }),
    {
        OrderClause { columns, range }
    }

    /// The range that the node carries.
    pub fn get_range(&self) -> (range: Range)
        ensures
            range == self.range,
    {
        self.range
    }
}

impl LimitClause {
    /// A node with the given parts.
    pub fn new(count: NumberLiteral, offset: Option<NumberLiteral>, range: Range) -> (node: Self)
        ensures
            node == (LimitClause { count, offset, range }),
    {
        LimitClause { count, offset, range }
    }

    /// The range that the node carries.
    pub fn get_range(&self) -> (range: Range)
        ensures
            range == self.range,
    {
        self.range
    }
}

impl SubqueryExpression {
    pub fn new(stmt: Statement, range: Range) -> (node: Self)
        ensures
            node == (SubqueryExpression { stmt: Box::new(stmt), range }),
    {
        SubqueryExpression { stmt: Box::new(stmt), range }
    }

    /// The range that the node carries.
    pub fn get_range(&self) -> (range: Range)
        ensures
            range == self.range,
    {
        self.range
    }
}

/// The range of a column built from its parts: from the start of the
/// qualifier, or of the column where there is none, to the end of the column.
pub open spec fn column_span(table: Option<Token>, column: Token) -> Range {
    merged(
        match table {
            Some(table) => table.range,
            None => column.range,
        },
        column.range,
    )
}

impl Expression {
    /// A column whose range is computed from its parts: it runs from the
    /// start of the qualifier, or of the column where there is none, to the
    /// end of the column.
    pub fn create_column(table: Option<Token>, column: Token) -> (expression: Self)
        ensures
            expression == Expression::Column(
                ColumnExpression { table, column, range: column_span(table, column) },
            ),
    {
        let start = match &table {
            Some(table) => table.range,
            None => column.range,
        };
        let range = range_from(&start, &column.range);
        Expression::Column(ColumnExpression::new(table, column, range))
    }

    pub fn create_literal(value: Literal) -> (expression: Self)
        ensures
            expression == Expression::Literal(value),
    {
        Expression::Literal(value)
    }

    pub fn create_condition(left: Expression, operator: Operator, right: Expression) -> (expression:
        Self)
        ensures
            expression == Expression::Condition(
                ConditionExpression { left: Box::new(left), operator, right: Box::new(right) },
            ),
    {
        Expression::Condition(ConditionExpression::new(left, operator, right))
    }

    pub fn create_function_call(
        function_name: Token,
        arguments: Vec<Expression>,
        range: Range,
    ) -> (expression: Self)
        ensures
            expression == Expression::FunctionCall(
                FunctionCallExpression { function_name, arguments, range },
            ),
    {
        Expression::FunctionCall(FunctionCallExpression::new(function_name, arguments, range))
    }

    pub fn create_subquery(stmt: Statement, range: Range) -> (expression: Self)
        ensures
            expression == Expression::Subquery(
                SubqueryExpression { stmt: Box::new(stmt), range },
            ),
    {
        Expression::Subquery(SubqueryExpression::new(stmt, range))
    }

    /// The part of the source that the expression covers: the range that
    /// it carries, and for a condition from the start of its left side to the
    /// end of its right side.
    pub fn get_range(&self) -> (range: Range)
        ensures
            range == self@.range(),
        decreases self,
    {
        match self {
            Expression::Column(column) => column.get_range(),
            Expression::Literal(literal) => literal.get_range(),
            Expression::Condition(condition) => condition.get_range(),
            Expression::FunctionCall(function_call) => function_call.get_range(),
            Expression::Subquery(select) => select.get_range(),
        }
    }
}

impl FunctionCallExpression {
    /// A node with the given parts.
    pub fn new(function_name: Token, arguments: Vec<Expression>, range: Range) -> (node: Self)
        ensures
            node == (FunctionCallExpression { function_name, arguments, range }),
    {
        FunctionCallExpression { function_name, arguments, range }
    }

    /// The range that the node carries.
    pub fn get_range(&self) -> (range: Range)
        ensures
            range == self.range,
    {
        self.range
    }
}

impl ColumnExpression {
    /// A node with the given parts.
    pub fn new(table: Option<Token>, column: Token, range: Range) -> (node: Self)
        ensures
            node == (ColumnExpression { table, column, range }),
    {
        ColumnExpression { table, column, range }
    }

    /// The range that the node carries.
    pub fn get_range(&self) -> (range: Range)
        ensures
            range == self.range,
    {
        self.range
    }
}

impl ConditionExpression {
    pub fn new(left: Expression, operator: Operator, right: Expression) -> (node: Self)
        ensures
            node == (ConditionExpression {
                left: Box::new(left),
                operator,
                right: Box::new(right),
            }),
    {
        ConditionExpression { left: Box::new(left), operator, right: Box::new(right) }
    }

    /// From the start of the left side to the end of the right side.
    pub fn get_range(&self) -> (range: Range)
        ensures
            range == merged(self.left@.range(), self.right@.range()),
        decreases self,
    {
        let left = self.left.get_range();
        let right = self.right.get_range();
        range_from(&left, &right)
    }
}

impl Literal {
    pub fn create_string(value: String, range: Range) -> (literal: Self)
        ensures
            literal == Literal::String(StringLiteral { value, range }),
    {
        Literal::String(StringLiteral::new(value, range))
    }

    pub fn create_number(value: String, range: Range) -> (literal: Self)
        ensures
            literal == Literal::Number(NumberLiteral { raw: value, range }),
    {
        Literal::Number(NumberLiteral::new(value, range))
    }

    pub fn create_boolean(value: bool, range: Range) -> (literal: Self)
        ensures
            literal == Literal::Boolean(BooleanLiteral { value, range }),
    {
        Literal::Boolean(BooleanLiteral::new(value, range))
    }

    /// The range that the literal carries.
    pub fn get_range(&self) -> (range: Range)
        ensures
            range == self@.range(),
    {
        match self {
            Literal::String(string) => string.range,
            Literal::Number(number) => number.range,
            Literal::Boolean(boolean) => boolean.range,
        }
    }
}

impl StringLiteral {
    /// A node with the given parts.
    pub fn new(value: String, range: Range) -> (node: Self)
        ensures
            node == (StringLiteral { value, range }),
    {
        StringLiteral { value, range }
    }
}

impl NumberLiteral {
    /// A node with the given parts.
    pub fn new(raw: String, range: Range) -> (node: Self)
        ensures
            node == (NumberLiteral { raw, range }),
    {
        NumberLiteral { raw, range }
    }
}

impl BooleanLiteral {
    /// A node with the given parts.
    pub fn new(value: bool, range: Range) -> (node: Self)
        ensures
            node == (BooleanLiteral { value, range }),
    {
        BooleanLiteral { value, range }
    }
}

impl OrderColumn {
    pub fn new(column: Expression, direction: OrderDirection) -> (node: Self)
        ensures
            node == (OrderColumn { column, direction }),
    {
        OrderColumn { column, direction }
    }

    /// The range of the column; the direction is not part of it.
    pub fn get_range(&self) -> (range: Range)
        ensures
            range == self.column@.range(),
    {
        self.column.get_range()
    }
}

} // verus!
