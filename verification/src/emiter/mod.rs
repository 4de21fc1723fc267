//! From a program to SQL text.

use crate::lexer::token::{Token, TokenView};
use crate::parser::ast::{
    AggregateClause, AggregateClauseView, AggregateFn, BooleanLiteral, BooleanLiteralView,
    ColumnExpression, ColumnExpressionView, ConditionExpression, ConditionExpressionView,
    Expression, ExpressionView, FromClause, FromClauseView, FunctionCallExpression,
    FunctionCallExpressionView, GroupByClause, GroupByClauseView, JoinClause, JoinClauseView,
    LimitClause, LimitClauseView, Literal, LiteralView, NumberLiteral, NumberLiteralView, Operator,
    OrderClause, OrderClauseView, OrderColumn, OrderColumnView, OrderDirection, PipeStatement,
    PipeStatementView, Program, ProgramView, SelectExpression, SelectExpressionView,
    SelectStatement, SelectStatementView, Statement, StatementView, StringLiteral,
    StringLiteralView, SubqueryExpression, SubqueryExpressionView, WhereClause, WhereClauseView,
};
use crate::utils::views;
use vstd::prelude::*;
use vstd::string::*;

verus! {

/// The parts in order, with the separator between each two of them.
pub open spec fn join(parts: Seq<Seq<char>>, separator: Seq<char>) -> Seq<char>
    decreases parts.len(),
{
    if parts.len() == 0 {
        Seq::empty()
    } else if parts.len() == 1 {
        parts[0]
    } else {
        join(parts.drop_last(), separator) + separator + parts.last()
    }
}

/// Whether `text` begins with `prefix`.
pub open spec fn has_prefix(text: Seq<char>, prefix: Seq<char>) -> bool {
    prefix.len() <= text.len() && text.subrange(0, prefix.len() as int) == prefix
}

/// ` AS alias`, or nothing where there is no alias.
pub open spec fn alias_suffix(alias: Option<TokenView>) -> Seq<char> {
    match alias {
        Some(alias) => " AS "@ + alias.name(),
        None => Seq::empty(),
    }
}

impl AggregateFn {
    /// The name of the function in SQL.
    pub open spec fn name(self) -> Seq<char> {
        match self {
            AggregateFn::Count => "COUNT"@,
            AggregateFn::Sum => "SUM"@,
            AggregateFn::Avg => "AVG"@,
            AggregateFn::Min => "MIN"@,
            AggregateFn::Max => "MAX"@,
            AggregateFn::StdDev => "STDDEV"@,
            AggregateFn::StdDevPop => "STDDEV_POP"@,
            AggregateFn::StdDevSamp => "STDDEV_SAMP"@,
            AggregateFn::VarPop => "VAR_POP"@,
            AggregateFn::VarSamp => "VAR_SAMP"@,
            AggregateFn::Variance => "VARIANCE"@,
            AggregateFn::First => "FIRST"@,
            AggregateFn::Last => "LAST"@,
            AggregateFn::GroupConcat => "GROUP_CONCAT"@,
            AggregateFn::StringAgg => "STRING_AGG"@,
            AggregateFn::Median => "MEDIAN"@,
            AggregateFn::Mode => "MODE"@,
            AggregateFn::ArrayAgg => "ARRAY_AGG"@,
            AggregateFn::JsonAgg => "JSON_AGG"@,
            AggregateFn::JsonObjectAgg => "JSON_OBJECT_AGG"@,
            AggregateFn::BitAnd => "BIT_AND"@,
            AggregateFn::BitOr => "BIT_OR"@,
            AggregateFn::BoolAnd => "BOOL_AND"@,
            AggregateFn::BoolOr => "BOOL_OR"@,
        }
    }

    /// The name of the function in SQL.
    pub fn emit(&self) -> (text: &'static str)
        ensures
            text@ == self.name(),
    {
        match self {
            AggregateFn::Count => "COUNT",
            AggregateFn::Sum => "SUM",
            AggregateFn::Avg => "AVG",
            AggregateFn::Min => "MIN",
            AggregateFn::Max => "MAX",
            AggregateFn::StdDev => "STDDEV",
            AggregateFn::StdDevPop => "STDDEV_POP",
            AggregateFn::StdDevSamp => "STDDEV_SAMP",
            AggregateFn::VarPop => "VAR_POP",
            AggregateFn::VarSamp => "VAR_SAMP",
            AggregateFn::Variance => "VARIANCE",
            AggregateFn::First => "FIRST",
            AggregateFn::Last => "LAST",
            AggregateFn::GroupConcat => "GROUP_CONCAT",
            AggregateFn::StringAgg => "STRING_AGG",
            AggregateFn::Median => "MEDIAN",
            AggregateFn::Mode => "MODE",
            AggregateFn::ArrayAgg => "ARRAY_AGG",
            AggregateFn::JsonAgg => "JSON_AGG",
            AggregateFn::JsonObjectAgg => "JSON_OBJECT_AGG",
            AggregateFn::BitAnd => "BIT_AND",
            AggregateFn::BitOr => "BIT_OR",
            AggregateFn::BoolAnd => "BOOL_AND",
            AggregateFn::BoolOr => "BOOL_OR",
        }
    }
}

impl Operator {
    /// How the operator is written in SQL.
    pub open spec fn symbol(self) -> Seq<char> {
        match self {
            Operator::Equal => "="@,
            Operator::NotEqual => "!="@,
            Operator::LessThan => "<"@,
            Operator::GreaterThan => ">"@,
            Operator::LessThanOrEqual => "<="@,
            Operator::GreaterThanOrEqual => ">="@,
            Operator::And => "AND"@,
            Operator::Or => "OR"@,
        }
    }

    /// How the operator is written in SQL.
    pub fn emit(&self) -> (text: &'static str)
        ensures
            text@ == self.symbol(),
    {
        match self {
            Operator::Equal => "=",
            Operator::NotEqual => "!=",
            Operator::LessThan => "<",
            Operator::GreaterThan => ">",
            Operator::LessThanOrEqual => "<=",
            Operator::GreaterThanOrEqual => ">=",
            Operator::And => "AND",
            Operator::Or => "OR",
        }
    }
}

impl OrderDirection {
    /// How the direction is written in SQL.
    pub open spec fn keyword(self) -> Seq<char> {
        match self {
            OrderDirection::Asc => "ASC"@,
            OrderDirection::Desc => "DESC"@,
        }
    }

    /// How the direction is written in SQL.
    pub fn emit(&self) -> (text: &'static str)
        ensures
            text@ == self.keyword(),
    {
        match self {
            OrderDirection::Asc => "ASC",
            OrderDirection::Desc => "DESC",
        }
    }
}

impl ProgramView {
    /// The statements rendered one by one.
    pub open spec fn parts(self) -> Seq<Seq<char>> {
        Seq::new(self.statements.len(), |i: int| self.statements[i].sql())
    }

    /// The SQL of the program: that of its statements, separated by one space.
    pub open spec fn sql(self) -> Seq<char> {
        join(self.parts(), " "@)
    }
}

impl StatementView {
    /// The SQL of a statement.
    pub open spec fn sql(self) -> Seq<char>
        decreases self,
    {
        match self {
            StatementView::Select(select) => select.sql(),
            StatementView::From(from) => from.sql(),
            StatementView::Join(join) => join.sql(),
            StatementView::Where(filter) => filter.sql(),
            StatementView::GroupBy(group_by) => group_by.sql(),
            StatementView::Order(order) => order.sql(),
            StatementView::Limit(limit) => limit.sql(),
            StatementView::Pipe(pipe) => pipe.sql(),
            StatementView::Aggregate(aggregate) => aggregate.sql(),
            StatementView::Expression(expression) => expression.sql(),
        }
    }
}

impl PipeStatementView {
    /// A pipe renders its left side and then combines the result with its
    /// right side: an aggregate wraps it into a `SELECT`, every other stage is
    /// appended after one space.
    pub open spec fn sql(self) -> Seq<char>
        decreases self,
    {
        match *self.right {
            StatementView::Aggregate(aggregate) => aggregate.sql_with_base(self.left.sql()),
            right => self.left.sql() + " "@ + right.sql(),
        }
    }
}

impl AggregateClauseView {
    /// `FUNCTION(argument)`, with ` AS alias` where there is an alias.
    pub open spec fn sql(self) -> Seq<char>
        decreases self, 0nat,
    {
        self.function.name() + "("@ + self.argument.sql() + ")"@ + alias_suffix(self.alias)
    }

    /// The aggregate selected from `base`: a base that begins with `FROM`
    /// follows the call as it is, any other is taken for a source and gets
    /// `FROM` put in front.
    pub open spec fn sql_with_base(self, base: Seq<char>) -> Seq<char>
        decreases self, 1nat,
    {
        if has_prefix(base, "FROM"@) {
            "SELECT "@ + self.sql() + " "@ + base
        } else {
            "SELECT "@ + self.sql() + " FROM "@ + base
        }
    }
}

impl SelectStatementView {
    /// The items of the list, each rendered to SQL.
    pub open spec fn parts(self) -> Seq<Seq<char>>
        decreases self, 0nat,
    {
        Seq::new(
            self.expressions.len(),
            |i: int|
                if 0 <= i < self.expressions.len() {
                    self.expressions[i].sql()
                } else {
                    Seq::empty()
                },
        )
    }

    /// The SQL of a select statement.
    pub open spec fn sql(self) -> Seq<char>
        decreases self, 1nat,
    {
        "SELECT "@ + (if self.distinct {
            "DISTINCT "@
        } else {
            Seq::empty()
        }) + join(self.parts(), ", "@) + (match self.from {
            Some(from) => " "@ + from.sql(),
            None => Seq::empty(),
        })
    }
}

impl SelectExpressionView {
    /// The SQL of a select expression.
    pub open spec fn sql(self) -> Seq<char>
        decreases self,
    {
        self.expression.sql() + alias_suffix(self.alias)
    }
}

impl FromClauseView {
    /// The SQL of a from clause.
    pub open spec fn sql(self) -> Seq<char> {
        "FROM "@ + self.table.name()
    }
}

impl JoinClauseView {
    /// The SQL of a join clause.
    pub open spec fn sql(self) -> Seq<char>
        decreases self,
    {
        "JOIN "@ + self.table.name() + " ON "@ + self.on.sql()
    }
}

impl WhereClauseView {
    /// The SQL of a where clause.
    pub open spec fn sql(self) -> Seq<char>
        decreases self,
    {
        "WHERE "@ + self.condition.sql()
    }
}

impl GroupByClauseView {
    /// The items of the list, each rendered to SQL.
    pub open spec fn parts(self) -> Seq<Seq<char>>
        decreases self, 0nat,
    {
        Seq::new(
            self.columns.len(),
            |i: int| if 0 <= i < self.columns.len() { self.columns[i].sql() } else { Seq::empty() },
        )
    }

    /// The SQL of a group by clause.
    pub open spec fn sql(self) -> Seq<char>
        decreases self, 1nat,
    {
        "GROUP BY "@ + join(self.parts(), ", "@)
    }
}

impl OrderClauseView {
    /// The items of the list, each rendered to SQL.
    pub open spec fn parts(self) -> Seq<Seq<char>>
        decreases self, 0nat,
    {
        Seq::new(
            self.columns.len(),
            |i: int| if 0 <= i < self.columns.len() { self.columns[i].sql() } else { Seq::empty() },
        )
    }

    /// The SQL of an order clause.
    pub open spec fn sql(self) -> Seq<char>
        decreases self, 1nat,
    {
        "ORDER BY "@ + join(self.parts(), ", "@)
    }
}

impl OrderColumnView {
    /// The SQL of an order column.
    pub open spec fn sql(self) -> Seq<char>
        decreases self,
    {
        self.column.sql() + " "@ + self.direction.keyword()
    }
}

impl LimitClauseView {
    /// The SQL of a limit clause.
    pub open spec fn sql(self) -> Seq<char> {
        "LIMIT "@ + self.count.sql() + (match self.offset {
            Some(offset) => ", "@ + offset.sql(),
            None => Seq::empty(),
        })
    }
}

impl ExpressionView {
    /// The SQL of an expression.
    pub open spec fn sql(self) -> Seq<char>
        decreases self,
    {
        match self {
            ExpressionView::Column(column) => column.sql(),
            ExpressionView::Literal(literal) => literal.sql(),
            ExpressionView::Condition(condition) => condition.sql(),
            ExpressionView::FunctionCall(call) => call.sql(),
            ExpressionView::Subquery(subquery) => subquery.sql(),
        }
    }
}

impl ColumnExpressionView {
    /// The column, followed by a dot and the qualifier where there is one.
    pub open spec fn sql(self) -> Seq<char> {
        match self.table {
            None => self.column.name(),
            Some(table) => self.column.name() + "."@ + table.name(),
        }
    }
}

impl ConditionExpressionView {
    /// The SQL of a condition expression.
    pub open spec fn sql(self) -> Seq<char>
        decreases self,
    {
        self.left.sql() + " "@ + self.operator.symbol() + " "@ + self.right.sql()
    }
}

impl LiteralView {
    /// The SQL of a literal.
    pub open spec fn sql(self) -> Seq<char> {
        match self {
            LiteralView::String(string) => string.sql(),
            LiteralView::Number(number) => number.sql(),
            LiteralView::Boolean(boolean) => boolean.sql(),
        }
    }
}

impl NumberLiteralView {
    /// The SQL of a number literal.
    pub open spec fn sql(self) -> Seq<char> {
        self.raw
    }
}

impl StringLiteralView {
    /// The value between single quotes, whatever quotes it was written with.
    pub open spec fn sql(self) -> Seq<char> {
        "'"@ + self.value + "'"@
    }
}

impl BooleanLiteralView {
    /// The SQL of a boolean literal.
    pub open spec fn sql(self) -> Seq<char> {
        if self.value {
            "true"@
        } else {
            "false"@
        }
    }
}

impl FunctionCallExpressionView {
    /// The items of the list, each rendered to SQL.
    pub open spec fn parts(self) -> Seq<Seq<char>>
        decreases self, 0nat,
    {
        Seq::new(
            self.arguments.len(),
            |i: int|
                if 0 <= i < self.arguments.len() {
                    self.arguments[i].sql()
                } else {
                    Seq::empty()
                },
        )
    }

    /// The SQL of a function call expression.
    pub open spec fn sql(self) -> Seq<char>
        decreases self, 1nat,
    {
        self.function_name.name() + "("@ + join(self.parts(), ", "@) + ")"@
    }
}

impl SubqueryExpressionView {
    /// The SQL of a subquery expression.
    pub open spec fn sql(self) -> Seq<char>
        decreases self,
    {
        "("@ + self.stmt.sql() + ")"@
    }
}

/// Joins rendered parts with a separator.
pub fn join_strings(parts: &Vec<String>, separator: &str) -> (text: String)
    ensures
        text@ == join(views(parts@), separator@),
{
    let mut text = String::new();
    let mut i: usize = 0;
    while i < parts.len()
        invariant
            i <= parts.len(),
            text@ == join(views(parts@).take(i as int), separator@),
        decreases parts.len() - i,
    {
        let ghost before = views(parts@).take(i as int);
        let ghost after = views(parts@).take(i + 1);
        proof {
            assert(after.drop_last() =~= before);
            assert(after.last() == parts@[i as int]@);
        }
        if i > 0 {
            text.append(separator);
        }
        text.append(parts[i].as_str());
        i = i + 1;
        proof {
            assert(text@ =~= join(after, separator@));
        }
    }
    proof {
        assert(views(parts@).take(i as int) =~= views(parts@));
    }
    text
}

/// Whether `text` begins with `FROM`.
pub fn starts_with_from(text: &str) -> (b: bool)
    ensures
        b == has_prefix(text@, "FROM"@),
{
    proof {
        reveal_strlit("FROM");
    }
    let length = text.unicode_len();
    if length < 4 {
        return false;
    }
    let b = text.get_char(0) == 'F' && text.get_char(1) == 'R' && text.get_char(2) == 'O'
        && text.get_char(3) == 'M';
    proof {
        if b {
            assert(text@.subrange(0, 4) =~= "FROM"@);
        } else {
            assert(text@.subrange(0, 4)[0] == text@[0]);
            assert(text@.subrange(0, 4)[1] == text@[1]);
            assert(text@.subrange(0, 4)[2] == text@[2]);
            assert(text@.subrange(0, 4)[3] == text@[3]);
        }
    }
    b
}

/// ` AS alias`, or nothing where there is no alias.
fn emit_alias(alias: &Option<Token>) -> (text: String)
    ensures
        text@ == alias_suffix(
            match alias {
                Some(alias) => Some(alias@),
                None => None,
            },
        ),
{
    match alias {
        Some(alias) => {
            let mut text = String::from_str(" AS ");
            text.append(alias.name());
            text
        },
        None => String::new(),
    }
}

impl Program {
    /// Renders the program to SQL.
    pub fn to_sql(&self) -> (text: String)
        ensures
            text@ == self@.sql(),
    {
        let mut parts: Vec<String> = Vec::new();
        let mut i: usize = 0;
        while i < self.statements.len()
            invariant
                i <= self.statements.len(),
                parts@.len() == i,
                forall|j: int| 0 <= j < i ==> (#[trigger] parts@[j])@ == self@.parts()[j],
            decreases self.statements.len() - i,
        {
            parts.push(self.statements[i].to_sql());
            i = i + 1;
        }
        proof {
            assert(views(parts@) =~= self@.parts());
        }
        join_strings(&parts, " ")
    }
}

impl Statement {
    /// Renders the statement to SQL.
    pub fn to_sql(&self) -> (text: String)
        ensures
            text@ == self@.sql(),
        decreases self,
    {
        match self {
            Statement::Select(s) => s.emit(),
            Statement::From(f) => f.emit(),
            Statement::Join(j) => j.emit(),
            Statement::Where(w) => w.emit(),
            Statement::GroupBy(g) => g.emit(),
            Statement::Order(o) => o.emit(),
            Statement::Limit(l) => l.emit(),
            Statement::Pipe(p) => p.to_sql(),
            Statement::Aggregate(a) => a.emit(),
            Statement::Expression(e) => e.emit(),
        }
    }
}

impl PipeStatement {
    /// Renders the pipe statement to SQL.
    pub fn to_sql(&self) -> (text: String)
        ensures
            text@ == self@.sql(),
        decreases self,
    {
        let left = self.left.to_sql();
        match &*self.right {
            Statement::Aggregate(a) => a.emit_with_base(left),
            right => {
                let mut text = left;
                text.append(" ");
                text.append(right.to_sql().as_str());
                text
            },
        }
    }
}

impl AggregateClause {
    /// Renders the aggregate as a `SELECT` from `base`.
    pub fn emit_with_base(&self, base: String) -> (text: String)
        ensures
            text@ == self@.sql_with_base(base@),
        decreases self, 1nat,
    {
        let mut text = String::from_str("SELECT ");
        text.append(self.emit().as_str());
        if starts_with_from(base.as_str()) {
            text.append(" ");
        } else {
            text.append(" FROM ");
        }
        text.append(base.as_str());
        text
    }

    /// Renders the aggregate clause to SQL.
    pub fn emit(&self) -> (text: String)
        ensures
            text@ == self@.sql(),
        decreases self, 0nat,
    {
        let mut text = String::from_str(self.function.emit());
        text.append("(");
        text.append(self.argument.emit().as_str());
        text.append(")");
        text.append(emit_alias(&self.alias).as_str());
        text
    }
}

impl SelectStatement {
    /// Renders the select statement to SQL.
    pub fn emit(&self) -> (text: String)
        ensures
            text@ == self@.sql(),
        decreases self,
    {
        let mut parts: Vec<String> = Vec::new();
        let mut i: usize = 0;
        while i < self.expressions.len()
            invariant
                i <= self.expressions.len(),
                parts@.len() == i,
                forall|j: int| 0 <= j < i ==> (#[trigger] parts@[j])@ == self@.parts()[j],
            decreases self.expressions.len() - i,
        {
            parts.push(self.expressions[i].emit());
            i = i + 1;
        }
        proof {
            assert(views(parts@) =~= self@.parts());
        }
        let mut text = String::from_str("SELECT ");
        if self.distinct {
            text.append("DISTINCT ");
        }
        text.append(join_strings(&parts, ", ").as_str());
        match &self.from {
            Some(from) => {
                text.append(" ");
                text.append(from.emit().as_str());
            },
            None => {},
        }
        text
    }
}

impl JoinClause {
    /// Renders the join clause to SQL.
    pub fn emit(&self) -> (text: String)
        ensures
            text@ == self@.sql(),
        decreases self,
    {
        let mut text = String::from_str("JOIN ");
        text.append(self.table.name());
        text.append(" ON ");
        text.append(self.on.emit().as_str());
        text
    }
}

impl WhereClause {
    /// Renders the where clause to SQL.
    pub fn emit(&self) -> (text: String)
        ensures
            text@ == self@.sql(),
        decreases self,
    {
        let mut text = String::from_str("WHERE ");
        text.append(self.condition.emit().as_str());
        text
    }
}

impl GroupByClause {
    /// Renders the group by clause to SQL.
    pub fn emit(&self) -> (text: String)
        ensures
            text@ == self@.sql(),
        decreases self,
    {
        let mut parts: Vec<String> = Vec::new();
        let mut i: usize = 0;
        while i < self.columns.len()
            invariant
                i <= self.columns.len(),
                parts@.len() == i,
                forall|j: int| 0 <= j < i ==> (#[trigger] parts@[j])@ == self@.parts()[j],
            decreases self.columns.len() - i,
        {
            parts.push(self.columns[i].emit());
            i = i + 1;
        }
        proof {
            assert(views(parts@) =~= self@.parts());
        }
        let mut text = String::from_str("GROUP BY ");
        text.append(join_strings(&parts, ", ").as_str());
        text
    }
}

impl OrderClause {
    /// Renders the order clause to SQL.
    pub fn emit(&self) -> (text: String)
        ensures
            text@ == self@.sql(),
        decreases self,
    {
        let mut parts: Vec<String> = Vec::new();
        let mut i: usize = 0;
        while i < self.columns.len()
            invariant
                i <= self.columns.len(),
                parts@.len() == i,
                forall|j: int| 0 <= j < i ==> (#[trigger] parts@[j])@ == self@.parts()[j],
            decreases self.columns.len() - i,
        {
            parts.push(self.columns[i].emit());
            i = i + 1;
        }
        proof {
            assert(views(parts@) =~= self@.parts());
        }
        let mut text = String::from_str("ORDER BY ");
        text.append(join_strings(&parts, ", ").as_str());
        text
    }
}

impl OrderColumn {
    /// Renders the order column to SQL.
    pub fn emit(&self) -> (text: String)
        ensures
            text@ == self@.sql(),
        decreases self,
    {
        let mut text = self.column.emit();
        text.append(" ");
        text.append(self.direction.emit());
        text
    }
}

impl LimitClause {
    /// Renders the limit clause to SQL.
    pub fn emit(&self) -> (text: String)
        ensures
            text@ == self@.sql(),
    {
        let mut text = String::from_str("LIMIT ");
        text.append(self.count.emit().as_str());
        match &self.offset {
            Some(literal) => {
                text.append(", ");
                text.append(literal.emit().as_str());
            },
            None => {},
        }
        text
    }
}

impl Expression {
    /// Renders the expression to SQL.
    pub fn emit(&self) -> (text: String)
        ensures
            text@ == self@.sql(),
        decreases self,
    {
        match self {
            Expression::Column(c) => c.emit(),
            Expression::Literal(l) => l.emit(),
            Expression::Condition(c) => c.emit(),
            Expression::FunctionCall(f) => f.emit(),
            Expression::Subquery(s) => s.emit(),
        }
    }
}

impl ColumnExpression {
    /// Renders the column expression to SQL.
    pub fn emit(&self) -> (text: String)
        ensures
            text@ == self@.sql(),
    {
        match &self.table {
            None => String::from_str(self.column.name()),
            Some(table) => {
                let mut text = String::from_str(self.column.name());
                text.append(".");
                text.append(table.name());
                text
            },
        }
    }
}

impl ConditionExpression {
    /// Renders the condition expression to SQL.
    pub fn emit(&self) -> (text: String)
        ensures
            text@ == self@.sql(),
        decreases self,
    {
        let mut text = self.left.emit();
        text.append(" ");
        text.append(self.operator.emit());
        text.append(" ");
        text.append(self.right.emit().as_str());
        text
    }
}

impl FromClause {
    /// Renders the from clause to SQL.
    pub fn emit(&self) -> (text: String)
        ensures
            text@ == self@.sql(),
    {
        let mut text = String::from_str("FROM ");
        text.append(self.table.name());
        text
    }
}

impl Literal {
    /// Renders the literal to SQL.
    pub fn emit(&self) -> (text: String)
        ensures
            text@ == self@.sql(),
    {
        match self {
            Literal::String(s) => s.emit(),
            Literal::Number(n) => n.emit(),
            Literal::Boolean(b) => b.emit(),
        }
    }
}

impl NumberLiteral {
    /// Renders the number literal to SQL.
    pub fn emit(&self) -> (text: String)
        ensures
            text@ == self@.sql(),
    {
        self.raw.clone()
    }
}

impl StringLiteral {
    /// Renders the string literal to SQL.
    pub fn emit(&self) -> (text: String)
        ensures
            text@ == self@.sql(),
    {
        let mut text = String::from_str("'");
        text.append(self.value.as_str());
        text.append("'");
        text
    }
}

impl BooleanLiteral {
    /// Renders the boolean literal to SQL.
    pub fn emit(&self) -> (text: String)
        ensures
            text@ == self@.sql(),
    {
        if self.value {
            String::from_str("true")
        } else {
            String::from_str("false")
        }
    }
}

impl FunctionCallExpression {
    /// Renders the function call expression to SQL.
    pub fn emit(&self) -> (text: String)
        ensures
            text@ == self@.sql(),
        decreases self,
    {
        let mut parts: Vec<String> = Vec::new();
        let mut i: usize = 0;
        while i < self.arguments.len()
            invariant
                i <= self.arguments.len(),
                parts@.len() == i,
                forall|j: int| 0 <= j < i ==> (#[trigger] parts@[j])@ == self@.parts()[j],
            decreases self.arguments.len() - i,
        {
            parts.push(self.arguments[i].emit());
            i = i + 1;
        }
        proof {
            assert(views(parts@) =~= self@.parts());
        }
        let mut text = String::from_str(self.function_name.name());
        text.append("(");
        text.append(join_strings(&parts, ", ").as_str());
        text.append(")");
        text
    }
}

impl SubqueryExpression {
    /// Renders the subquery expression to SQL.
    pub fn emit(&self) -> (text: String)
        ensures
            text@ == self@.sql(),
        decreases self,
    {
        let mut text = String::from_str("(");
        text.append(self.stmt.to_sql().as_str());
        text.append(")");
        text
    }
}

impl SelectExpression {
    /// Renders the select expression to SQL.
    pub fn emit(&self) -> (text: String)
        ensures
            text@ == self@.sql(),
        decreases self,
    {
        let mut text = self.expression.emit();
        text.append(emit_alias(&self.alias).as_str());
        text
    }
}

} // verus!
