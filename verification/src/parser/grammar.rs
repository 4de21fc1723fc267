//! The grammar: the program that a text holds, as a mathematical function
//! of the text.

use crate::diagnostics::maneger::{fatal, DiagnosticView};
use crate::lexer::scan::{byte_offset, lemma_lex_advances, lex};
use crate::lexer::token::{TokenType, TokenView};
use crate::parser::ast::{
    AggregateClauseView, AggregateFn, BooleanLiteralView, ColumnExpressionView,
    ConditionExpressionView, ExpressionView, FromClauseView, FunctionCallExpressionView,
    GroupByClauseView, JoinClauseView, LimitClauseView, LiteralView, NumberLiteralView, Operator,
    OrderClauseView, OrderColumnView, OrderDirection, PipeStatementView, ProgramView,
    SelectExpressionView, SelectStatementView, StatementView, StringLiteralView,
    SubqueryExpressionView, WhereClauseView,
};
use crate::utils::range::{merged, Range};
use vstd::prelude::*;

verus! {

/// What parsing gives: a value and the position behind it, or the
/// diagnostic of the failure.
pub type Parsed<T> = Result<(T, int), DiagnosticView>;

/// The failure on a token that cannot stand where it was found.
pub open spec fn unexpected(found: TokenView) -> DiagnosticView {
    fatal("unexpected token `"@ + found.kind.text() + "`"@, found.range)
}

/// The failure on a token of another kind than the one that must stand there.
pub open spec fn mismatch(expected: TokenType, found: TokenView) -> DiagnosticView {
    fatal(
        "expected `"@ + expected.text() + "` but found `"@ + found.kind.text() + "`"@,
        found.range,
    )
}

/// The failure on a literal token that carries no text.
pub open spec fn missing_text(message: Seq<char>, found: TokenView) -> DiagnosticView {
    fatal(message, found.range)
}

/// The range of a construct that begins with the token at `first` and
/// has taken every token up to the position `next`: from the start of its
/// first token to the end of its last.
pub open spec fn covered(text: Seq<char>, first: Range, next: int) -> Range {
    Range { start: first.start, end: byte_offset(text, next) as usize }
}

/// Takes the next token, which must be of the given kind.
pub open spec fn expect(text: Seq<char>, position: int, kind: TokenType) -> Parsed<TokenView> {
    match lex(text, position) {
        Err(diagnostic) => Err(diagnostic),
        Ok((token, next)) => if token.kind == kind {
            Ok((token, next))
        } else {
            Err(mismatch(kind, token))
        },
    }
}

/// Takes the next token if it is of the given kind, and nothing otherwise.
pub open spec fn accept(text: Seq<char>, position: int, kind: TokenType) -> Parsed<
    Option<TokenView>,
> {
    match lex(text, position) {
        Err(diagnostic) => Err(diagnostic),
        Ok((token, next)) => if token.kind == kind {
            Ok((Some(token), next))
        } else {
            Ok((None, position))
        },
    }
}

/// Whether the next token is of the given kind.
pub open spec fn at_kind(text: Seq<char>, position: int, kind: TokenType) -> Result<
    bool,
    DiagnosticView,
> {
    match lex(text, position) {
        Err(diagnostic) => Err(diagnostic),
        Ok((token, _)) => Ok(token.kind == kind),
    }
}

/// Every construct of the grammar takes at least one token. `advancing`
/// writes that into the definition of the constructs that repeat or follow
/// one another, which makes those definitions well-founded. The failure
/// that it introduces never arises: the lemmas of `progress` show that
/// `advancing` leaves every result as it is.
pub open spec fn advancing<T>(text: Seq<char>, position: int, parsed: Parsed<T>) -> Parsed<T> {
    match parsed {
        Ok((_, next)) => if position < next <= text.len() {
            parsed
        } else {
            Err(fatal("no token was taken"@, Range { start: 0, end: 0 }))
        },
        Err(_) => parsed,
    }
}

/// Passes over the comments that stand at `position`.
pub open spec fn skip_comments(text: Seq<char>, position: int) -> Result<int, DiagnosticView>
    decreases text.len() - position,
{
    match lex(text, position) {
        Err(diagnostic) => Err(diagnostic),
        Ok((token, next)) => if token.kind == TokenType::Comment {
            proof {
                lemma_lex_advances(text, position);
            }
            skip_comments(text, next)
        } else {
            Ok(position)
        },
    }
}

/// The aggregate function that a token names.
pub open spec fn aggregate_function_of(kind: TokenType) -> Option<AggregateFn> {
    match kind {
        TokenType::Count => Some(AggregateFn::Count),
        TokenType::Sum => Some(AggregateFn::Sum),
        TokenType::Avg => Some(AggregateFn::Avg),
        TokenType::Min => Some(AggregateFn::Min),
        TokenType::Max => Some(AggregateFn::Max),
        TokenType::StdDev => Some(AggregateFn::StdDev),
        TokenType::StdDevPop => Some(AggregateFn::StdDevPop),
        TokenType::StdDevSamp => Some(AggregateFn::StdDevSamp),
        TokenType::VarPop => Some(AggregateFn::VarPop),
        TokenType::VarSamp => Some(AggregateFn::VarSamp),
        TokenType::Variance => Some(AggregateFn::Variance),
        TokenType::First => Some(AggregateFn::First),
        TokenType::Last => Some(AggregateFn::Last),
        TokenType::StringAgg => Some(AggregateFn::StringAgg),
        TokenType::Median => Some(AggregateFn::Median),
        TokenType::Mode => Some(AggregateFn::Mode),
        TokenType::ArrayAgg => Some(AggregateFn::ArrayAgg),
        TokenType::JsonAgg => Some(AggregateFn::JsonAgg),
        TokenType::BitAnd => Some(AggregateFn::BitAnd),
        TokenType::BitOr => Some(AggregateFn::BitOr),
        TokenType::BoolAnd => Some(AggregateFn::BoolAnd),
        TokenType::BoolOr => Some(AggregateFn::BoolOr),
        _ => None,
    }
}

/// The operator that a token stands for.
pub open spec fn operator_of(kind: TokenType) -> Option<Operator> {
    match kind {
        TokenType::Equal => Some(Operator::Equal),
        TokenType::NotEqual => Some(Operator::NotEqual),
        TokenType::LessThan => Some(Operator::LessThan),
        TokenType::GreaterThan => Some(Operator::GreaterThan),
        TokenType::LessThanOrEqual => Some(Operator::LessThanOrEqual),
        TokenType::GreaterThanOrEqual => Some(Operator::GreaterThanOrEqual),
        TokenType::And => Some(Operator::And),
        TokenType::Or => Some(Operator::Or),
        _ => None,
    }
}

/// `agg-fn`: one token that names an aggregate function.
pub open spec fn aggregate_function(text: Seq<char>, position: int) -> Parsed<AggregateFn> {
    match lex(text, position) {
        Err(diagnostic) => Err(diagnostic),
        Ok((token, next)) => match aggregate_function_of(token.kind) {
            Some(function) => Ok((function, next)),
            None => Err(unexpected(token)),
        },
    }
}

/// `operator`: one token that stands for an operator.
pub open spec fn operator(text: Seq<char>, position: int) -> Parsed<Operator> {
    match lex(text, position) {
        Err(diagnostic) => Err(diagnostic),
        Ok((token, next)) => match operator_of(token.kind) {
            Some(operator) => Ok((operator, next)),
            None => Err(unexpected(token)),
        },
    }
}

/// `number-literal`.
pub open spec fn number_literal(text: Seq<char>, position: int) -> Parsed<NumberLiteralView> {
    match expect(text, position, TokenType::Number) {
        Err(diagnostic) => Err(diagnostic),
        Ok((token, next)) => match token.lexeme {
            Some(raw) => Ok((NumberLiteralView { raw, range: token.range }, next)),
            None => Err(missing_text("expected number literal"@, token)),
        },
    }
}

/// `string-literal`.
pub open spec fn string_literal(text: Seq<char>, position: int) -> Parsed<StringLiteralView> {
    match expect(text, position, TokenType::String) {
        Err(diagnostic) => Err(diagnostic),
        Ok((token, next)) => match token.lexeme {
            Some(value) => Ok((StringLiteralView { value, range: token.range }, next)),
            None => Err(missing_text("expected string literal"@, token)),
        },
    }
}

/// `boolean-literal`: `true` or `false`.
pub open spec fn boolean_literal(text: Seq<char>, position: int) -> Parsed<BooleanLiteralView> {
    match expect(text, position, TokenType::Boolean) {
        Err(diagnostic) => Err(diagnostic),
        Ok((token, next)) => Ok(
            (BooleanLiteralView { value: token.lexeme == Some("true"@), range: token.range }, next),
        ),
    }
}

/// `column := identifier ['.' identifier]`. The first identifier is the
/// column, the second its qualifier.
pub open spec fn column(text: Seq<char>, position: int) -> Parsed<ColumnExpressionView> {
    match expect(text, position, TokenType::Identifier) {
        Err(diagnostic) => Err(diagnostic),
        Ok((name, after_name)) => qualified(text, after_name, name),
    }
}

/// What may follow the name of a column: a dot and a qualifier.
pub open spec fn qualified(text: Seq<char>, position: int, name: TokenView) -> Parsed<
    ColumnExpressionView,
> {
    match accept(text, position, TokenType::Dot) {
        Err(diagnostic) => Err(diagnostic),
        Ok((None, _)) => Ok(
            (ColumnExpressionView { table: None, column: name, range: name.range }, position),
        ),
        Ok((Some(_), after_dot)) => match expect(text, after_dot, TokenType::Identifier) {
            Err(diagnostic) => Err(diagnostic),
            Ok((qualifier, next)) => Ok(
                (
                    ColumnExpressionView {
                        table: Some(qualifier),
                        column: name,
                        range: merged(name.range, qualifier.range),
                    },
                    next,
                ),
            ),
        },
    }
}

/// A column, as an expression.
pub open spec fn column_expression(text: Seq<char>, position: int) -> Parsed<ExpressionView> {
    match column(text, position) {
        Err(diagnostic) => Err(diagnostic),
        Ok((column, next)) => Ok((ExpressionView::Column(column), next)),
    }
}

/// `from-clause := FROM identifier`.
pub open spec fn from_clause(text: Seq<char>, position: int) -> Parsed<FromClauseView> {
    match expect(text, position, TokenType::From) {
        Err(diagnostic) => Err(diagnostic),
        Ok((keyword, after_keyword)) => match expect(text, after_keyword, TokenType::Identifier) {
            Err(diagnostic) => Err(diagnostic),
            Ok((table, next)) => Ok(
                (FromClauseView { table, range: merged(keyword.range, table.range) }, next),
            ),
        },
    }
}

/// `join-clause := JOIN identifier ON column operator column`.
pub open spec fn join_clause(text: Seq<char>, position: int) -> Parsed<JoinClauseView> {
    match expect(text, position, TokenType::Join) {
        Err(diagnostic) => Err(diagnostic),
        Ok((keyword, after1)) => match expect(text, after1, TokenType::Identifier) {
            Err(diagnostic) => Err(diagnostic),
            Ok((table, after2)) => match expect(text, after2, TokenType::On) {
                Err(diagnostic) => Err(diagnostic),
                Ok((_, after3)) => match column(text, after3) {
                    Err(diagnostic) => Err(diagnostic),
                    Ok((left, after4)) => match operator(text, after4) {
                        Err(diagnostic) => Err(diagnostic),
                        Ok((operator, after5)) => match column(text, after5) {
                            Err(diagnostic) => Err(diagnostic),
                            Ok((right, next)) => Ok(
                                (
                                    JoinClauseView {
                                        table,
                                        on: ConditionExpressionView {
                                            left: Box::new(ExpressionView::Column(left)),
                                            operator,
                                            right: Box::new(ExpressionView::Column(right)),
                                        },
                                        range: merged(
                                            merged(keyword.range, left.range),
                                            right.range,
                                        ),
                                    },
                                    next,
                                ),
                            ),
                        },
                    },
                },
            },
        },
    }
}

/// The columns of a `GROUP BY`: none where `ORDER`, `LIMIT` or the end of
/// input follows, else columns as long as a comma follows each.
pub open spec fn group_columns(
    text: Seq<char>,
    position: int,
    columns: Seq<ExpressionView>,
) -> Parsed<Seq<ExpressionView>>
    decreases text.len() - position,
{
    match lex(text, position) {
        Err(diagnostic) => Err(diagnostic),
        Ok((token, _)) => if token.kind == TokenType::Order || token.kind == TokenType::Limit
            || token.kind == TokenType::EOF {
            Ok((columns, position))
        } else {
            match column(text, position) {
                Err(diagnostic) => Err(diagnostic),
                Ok((column, after1)) => match accept(text, after1, TokenType::Comma) {
                    Err(diagnostic) => Err(diagnostic),
                    Ok((None, _)) => Ok((columns.push(ExpressionView::Column(column)), after1)),
                    Ok((Some(_), after2)) => {
                        proof {
                            lemma_column_advances(text, position);
                            lemma_lex_advances(text, after1);
                        }
                        group_columns(text, after2, columns.push(ExpressionView::Column(column)))
                    },
                },
            }
        },
    }
}

/// `group-by-clause := GROUP BY column (',' column)*`, where the list may
/// also be empty.
pub open spec fn group_by_clause(text: Seq<char>, position: int) -> Parsed<GroupByClauseView> {
    match expect(text, position, TokenType::Group) {
        Err(diagnostic) => Err(diagnostic),
        Ok((keyword, after1)) => match expect(text, after1, TokenType::By) {
            Err(diagnostic) => Err(diagnostic),
            Ok((_, after2)) => match group_columns(text, after2, Seq::empty()) {
                Err(diagnostic) => Err(diagnostic),
                Ok((columns, next)) => Ok(
                    (
                        GroupByClauseView {
                            columns,
                            range: covered(text, keyword.range, next),
                        },
                        next,
                    ),
                ),
            },
        },
    }
}

/// `order-column := column [ASC|DESC]`, ascending where no direction is written.
pub open spec fn order_column(text: Seq<char>, position: int) -> Parsed<OrderColumnView> {
    match column(text, position) {
        Err(diagnostic) => Err(diagnostic),
        Ok((column, after1)) => match accept(text, after1, TokenType::Desc) {
            Err(diagnostic) => Err(diagnostic),
            Ok((Some(_), next)) => Ok(
                (
                    OrderColumnView {
                        column: ExpressionView::Column(column),
                        direction: OrderDirection::Desc,
                    },
                    next,
                ),
            ),
            Ok((None, _)) => match accept(text, after1, TokenType::Asc) {
                Err(diagnostic) => Err(diagnostic),
                Ok((_, next)) => Ok(
                    (
                        OrderColumnView {
                            column: ExpressionView::Column(column),
                            direction: OrderDirection::Asc,
                        },
                        next,
                    ),
                ),
            },
        },
    }
}

/// The columns of an `ORDER BY`: none where `LIMIT` or the end of input
/// follows, else columns as long as a comma follows each.
pub open spec fn order_columns(
    text: Seq<char>,
    position: int,
    columns: Seq<OrderColumnView>,
) -> Parsed<Seq<OrderColumnView>>
    decreases text.len() - position,
{
    match lex(text, position) {
        Err(diagnostic) => Err(diagnostic),
        Ok((token, _)) => if token.kind == TokenType::Limit || token.kind == TokenType::EOF {
            Ok((columns, position))
        } else {
            match order_column(text, position) {
                Err(diagnostic) => Err(diagnostic),
                Ok((column, after1)) => match accept(text, after1, TokenType::Comma) {
                    Err(diagnostic) => Err(diagnostic),
                    Ok((None, _)) => Ok((columns.push(column), after1)),
                    Ok((Some(_), after2)) => {
                        proof {
                            lemma_order_column_advances(text, position);
                            lemma_lex_advances(text, after1);
                        }
                        order_columns(text, after2, columns.push(column))
                    },
                },
            }
        },
    }
}

/// `order-clause := ORDER BY order-column (',' order-column)*`, where the
/// list may also be empty.
pub open spec fn order_clause(text: Seq<char>, position: int) -> Parsed<OrderClauseView> {
    match expect(text, position, TokenType::Order) {
        Err(diagnostic) => Err(diagnostic),
        Ok((keyword, after1)) => match expect(text, after1, TokenType::By) {
            Err(diagnostic) => Err(diagnostic),
            Ok((_, after2)) => match order_columns(text, after2, Seq::empty()) {
                Err(diagnostic) => Err(diagnostic),
                Ok((columns, next)) => Ok(
                    (
                        OrderClauseView {
                            columns,
                            range: covered(text, keyword.range, next),
                        },
                        next,
                    ),
                ),
            },
        },
    }
}

/// `limit-clause := LIMIT number [',' number]`; the second number is the offset.
pub open spec fn limit_clause(text: Seq<char>, position: int) -> Parsed<LimitClauseView> {
    match expect(text, position, TokenType::Limit) {
        Err(diagnostic) => Err(diagnostic),
        Ok((keyword, after1)) => match number_literal(text, after1) {
            Err(diagnostic) => Err(diagnostic),
            Ok((count, after2)) => match accept(text, after2, TokenType::Comma) {
                Err(diagnostic) => Err(diagnostic),
                Ok((None, _)) => Ok(
                    (
                        LimitClauseView {
                            count,
                            offset: None,
                            range: merged(keyword.range, count.range),
                        },
                        after2,
                    ),
                ),
                Ok((Some(_), after3)) => match number_literal(text, after3) {
                    Err(diagnostic) => Err(diagnostic),
                    Ok((offset, next)) => Ok(
                        (
                            LimitClauseView {
                                count,
                                offset: Some(offset),
                                range: merged(merged(keyword.range, count.range), offset.range),
                            },
                            next,
                        ),
                    ),
                },
            },
        },
    }
}

/// `[AS identifier]`.
pub open spec fn alias(text: Seq<char>, position: int) -> Parsed<Option<TokenView>> {
    match accept(text, position, TokenType::As) {
        Err(diagnostic) => Err(diagnostic),
        Ok((None, _)) => Ok((None, position)),
        Ok((Some(_), after_keyword)) => match expect(text, after_keyword, TokenType::Identifier) {
            Err(diagnostic) => Err(diagnostic),
            Ok((name, next)) => Ok((Some(name), next)),
        },
    }
}

/// `statement := stage ('|>' stage)*`, after any comments. The stages
/// nest to the left.
pub open spec fn statement(text: Seq<char>, position: int) -> Parsed<StatementView>
    decreases text.len() - position, 9nat,
    when 0 <= position <= text.len()
{
    match skip_comments(text, position) {
        Err(diagnostic) => Err(diagnostic),
        Ok(start) => {
            proof {
                lemma_skip_comments(text, position);
            }
            match advancing(text, start, stage(text, start)) {
                Err(diagnostic) => Err(diagnostic),
                Ok((first, next)) => pipes(text, next, first),
            }
        },
    }
}

/// The stages that are piped onto `left`.
pub open spec fn pipes(text: Seq<char>, position: int, left: StatementView) -> Parsed<
    StatementView,
>
    decreases text.len() - position, 10nat,
    when 0 <= position <= text.len()
{
    match accept(text, position, TokenType::Pipe) {
        Err(diagnostic) => Err(diagnostic),
        Ok((None, _)) => Ok((left, position)),
        Ok((Some(_), after1)) => {
            proof {
                lemma_lex_advances(text, position);
            }
            match advancing(text, after1, stage(text, after1)) {
                Err(diagnostic) => Err(diagnostic),
                Ok((right, next)) => pipes(
                    text,
                    next,
                    StatementView::Pipe(
                        PipeStatementView { left: Box::new(left), right: Box::new(right) },
                    ),
                ),
            }
        },
    }
}

/// One stage, chosen by its first token.
pub open spec fn stage(text: Seq<char>, position: int) -> Parsed<StatementView>
    decreases text.len() - position, 8nat,
    when 0 <= position <= text.len()
{
    match lex(text, position) {
        Err(diagnostic) => Err(diagnostic),
        Ok((token, _)) => match token.kind {
            TokenType::Select => match select_statement(text, position) {
                Err(diagnostic) => Err(diagnostic),
                Ok((select, next)) => Ok((StatementView::Select(select), next)),
            },
            TokenType::From => match from_clause(text, position) {
                Err(diagnostic) => Err(diagnostic),
                Ok((from, next)) => Ok((StatementView::From(from), next)),
            },
            TokenType::Join => match join_clause(text, position) {
                Err(diagnostic) => Err(diagnostic),
                Ok((join, next)) => Ok((StatementView::Join(join), next)),
            },
            TokenType::Where => match where_clause(text, position) {
                Err(diagnostic) => Err(diagnostic),
                Ok((filter, next)) => Ok((StatementView::Where(filter), next)),
            },
            TokenType::Group => match group_by_clause(text, position) {
                Err(diagnostic) => Err(diagnostic),
                Ok((group_by, next)) => Ok((StatementView::GroupBy(group_by), next)),
            },
            TokenType::Order => match order_clause(text, position) {
                Err(diagnostic) => Err(diagnostic),
                Ok((order, next)) => Ok((StatementView::Order(order), next)),
            },
            TokenType::Limit => match limit_clause(text, position) {
                Err(diagnostic) => Err(diagnostic),
                Ok((limit, next)) => Ok((StatementView::Limit(limit), next)),
            },
            TokenType::Aggregate => match aggregate_clause(text, position) {
                Err(diagnostic) => Err(diagnostic),
                Ok((aggregate, next)) => Ok((StatementView::Aggregate(aggregate), next)),
            },
            _ => Err(unexpected(token)),
        },
    }
}

/// `aggregate-clause := AGGREGATE agg-fn '(' expression ')' [AS identifier]`.
pub open spec fn aggregate_clause(text: Seq<char>, position: int) -> Parsed<AggregateClauseView>
    decreases text.len() - position, 7nat,
    when 0 <= position <= text.len()
{
    match expect(text, position, TokenType::Aggregate) {
        Err(diagnostic) => Err(diagnostic),
        Ok((keyword, after1)) => match aggregate_function(text, after1) {
            Err(diagnostic) => Err(diagnostic),
            Ok((function, after2)) => match expect(text, after2, TokenType::LeftParen) {
                Err(diagnostic) => Err(diagnostic),
                Ok((_, after3)) => {
                    proof {
                        lemma_lex_advances(text, position);
                        lemma_lex_advances(text, after1);
                        lemma_lex_advances(text, after2);
                    }
                    match expression(text, after3) {
                        Err(diagnostic) => Err(diagnostic),
                        Ok((argument, after4)) => match expect(
                            text,
                            after4,
                            TokenType::RightParen,
                        ) {
                            Err(diagnostic) => Err(diagnostic),
                            Ok((_, after5)) => match alias(text, after5) {
                                Err(diagnostic) => Err(diagnostic),
                                Ok((alias, next)) => Ok(
                                    (
                                        AggregateClauseView {
                                            function,
                                            argument,
                                            alias,
                                            range: covered(text, keyword.range, next),
                                        },
                                        next,
                                    ),
                                ),
                            },
                        },
                    }
                },
            },
        },
    }
}

/// The items of a select list: they end where `FROM` or the end of input
/// follows, and a comma may follow each.
pub open spec fn select_items(
    text: Seq<char>,
    position: int,
    items: Seq<SelectExpressionView>,
) -> Parsed<Seq<SelectExpressionView>>
    decreases text.len() - position, 6nat,
    when 0 <= position <= text.len()
{
    match lex(text, position) {
        Err(diagnostic) => Err(diagnostic),
        Ok((token, _)) => if token.kind == TokenType::From || token.kind == TokenType::EOF {
            Ok((items, position))
        } else {
            match advancing(text, position, select_expression(text, position)) {
                Err(diagnostic) => Err(diagnostic),
                Ok((item, after1)) => match accept(text, after1, TokenType::Comma) {
                    Err(diagnostic) => Err(diagnostic),
                    Ok((_, after2)) => {
                        proof {
                            lemma_lex_advances(text, after1);
                        }
                        select_items(text, after2, items.push(item))
                    },
                },
            }
        },
    }
}

/// `select-stmt := SELECT [DISTINCT] select-expr (',' select-expr)* [from-clause]`,
/// where the list may also be empty and the commas may be left out.
pub open spec fn select_statement(text: Seq<char>, position: int) -> Parsed<SelectStatementView>
    decreases text.len() - position, 7nat,
    when 0 <= position <= text.len()
{
    match expect(text, position, TokenType::Select) {
        Err(diagnostic) => Err(diagnostic),
        Ok((keyword, after1)) => match accept(text, after1, TokenType::Distinct) {
            Err(diagnostic) => Err(diagnostic),
            Ok((distinct, after2)) => {
                proof {
                    lemma_lex_advances(text, position);
                    lemma_lex_advances(text, after1);
                }
                match select_items(text, after2, Seq::empty()) {
                    Err(diagnostic) => Err(diagnostic),
                    Ok((expressions, after3)) => {
                        let range = covered(text, keyword.range, after3);
                        match at_kind(text, after3, TokenType::From) {
                            Err(diagnostic) => Err(diagnostic),
                            Ok(false) => Ok(
                                (
                                    SelectStatementView {
                                        distinct: distinct is Some,
                                        expressions,
                                        from: None,
                                        range,
                                    },
                                    after3,
                                ),
                            ),
                            Ok(true) => match from_clause(text, after3) {
                                Err(diagnostic) => Err(diagnostic),
                                Ok((from, next)) => Ok(
                                    (
                                        SelectStatementView {
                                            distinct: distinct is Some,
                                            expressions,
                                            from: Some(from),
                                            range: merged(range, from.span()),
                                        },
                                        next,
                                    ),
                                ),
                            },
                        }
                    },
                }
            },
        },
    }
}

/// `select-expr := expression [AS identifier]`.
pub open spec fn select_expression(text: Seq<char>, position: int) -> Parsed<SelectExpressionView>
    decreases text.len() - position, 5nat,
    when 0 <= position <= text.len()
{
    match expression(text, position) {
        Err(diagnostic) => Err(diagnostic),
        Ok((expression, after1)) => match alias(text, after1) {
            Err(diagnostic) => Err(diagnostic),
            Ok((alias, next)) => Ok(
                (
                    SelectExpressionView {
                        expression,
                        alias,
                        range: match alias {
                            Some(name) => merged(expression.range(), name.range),
                            None => expression.range(),
                        },
                    },
                    next,
                ),
            ),
        },
    }
}

/// `where-clause := WHERE condition`.
pub open spec fn where_clause(text: Seq<char>, position: int) -> Parsed<WhereClauseView>
    decreases text.len() - position, 7nat,
    when 0 <= position <= text.len()
{
    match expect(text, position, TokenType::Where) {
        Err(diagnostic) => Err(diagnostic),
        Ok((keyword, after1)) => {
            proof {
                lemma_lex_advances(text, position);
            }
            match condition(text, after1) {
                Err(diagnostic) => Err(diagnostic),
                Ok((condition, next)) => Ok(
                    (
                        WhereClauseView {
                            condition,
                            range: merged(keyword.range, condition.range()),
                        },
                        next,
                    ),
                ),
            }
        },
    }
}

/// `condition := expression operator expression`.
pub open spec fn condition(text: Seq<char>, position: int) -> Parsed<ExpressionView>
    decreases text.len() - position, 6nat,
    when 0 <= position <= text.len()
{
    match advancing(text, position, expression(text, position)) {
        Err(diagnostic) => Err(diagnostic),
        Ok((left, after1)) => match operator(text, after1) {
            Err(diagnostic) => Err(diagnostic),
            Ok((operator, after2)) => {
                proof {
                    lemma_lex_advances(text, after1);
                }
                match expression(text, after2) {
                    Err(diagnostic) => Err(diagnostic),
                    Ok((right, next)) => Ok(
                        (
                            ExpressionView::Condition(
                                ConditionExpressionView {
                                    left: Box::new(left),
                                    operator,
                                    right: Box::new(right),
                                },
                            ),
                            next,
                        ),
                    ),
                }
            },
        },
    }
}

/// `expression := column-or-call | number | string | boolean | '(' statement ')'`,
/// chosen by its first token.
pub open spec fn expression(text: Seq<char>, position: int) -> Parsed<ExpressionView>
    decreases text.len() - position, 4nat,
    when 0 <= position <= text.len()
{
    match lex(text, position) {
        Err(diagnostic) => Err(diagnostic),
        Ok((token, _)) => match token.kind {
            TokenType::Identifier => column_or_function_call(text, position),
            TokenType::Number => match number_literal(text, position) {
                Err(diagnostic) => Err(diagnostic),
                Ok((number, next)) => Ok(
                    (ExpressionView::Literal(LiteralView::Number(number)), next),
                ),
            },
            TokenType::String => match string_literal(text, position) {
                Err(diagnostic) => Err(diagnostic),
                Ok((string, next)) => Ok(
                    (ExpressionView::Literal(LiteralView::String(string)), next),
                ),
            },
            TokenType::Boolean => match boolean_literal(text, position) {
                Err(diagnostic) => Err(diagnostic),
                Ok((boolean, next)) => Ok(
                    (ExpressionView::Literal(LiteralView::Boolean(boolean)), next),
                ),
            },
            TokenType::LeftParen => subquery(text, position),
            _ => Err(unexpected(token)),
        },
    }
}

/// The arguments of a call: they end where `)` or the end of input follows,
/// and a comma may follow each.
pub open spec fn arguments(text: Seq<char>, position: int, items: Seq<ExpressionView>) -> Parsed<
    Seq<ExpressionView>,
>
    decreases text.len() - position, 6nat,
    when 0 <= position <= text.len()
{
    match lex(text, position) {
        Err(diagnostic) => Err(diagnostic),
        Ok((token, _)) => if token.kind == TokenType::RightParen || token.kind == TokenType::EOF {
            Ok((items, position))
        } else {
            match advancing(text, position, expression(text, position)) {
                Err(diagnostic) => Err(diagnostic),
                Ok((item, after1)) => match accept(text, after1, TokenType::Comma) {
                    Err(diagnostic) => Err(diagnostic),
                    Ok((_, after2)) => {
                        proof {
                            lemma_lex_advances(text, after1);
                        }
                        arguments(text, after2, items.push(item))
                    },
                },
            }
        },
    }
}

/// `column-or-call := identifier ['.' identifier]
///                  | identifier '(' (expression (',' expression)*)? ')'`,
/// where the commas may be left out.
pub open spec fn column_or_function_call(text: Seq<char>, position: int) -> Parsed<ExpressionView>
    decreases text.len() - position, 3nat,
    when 0 <= position <= text.len()
{
    match expect(text, position, TokenType::Identifier) {
        Err(diagnostic) => Err(diagnostic),
        Ok((name, after1)) => match accept(text, after1, TokenType::LeftParen) {
            Err(diagnostic) => Err(diagnostic),
            Ok((None, _)) => match qualified(text, after1, name) {
                Err(diagnostic) => Err(diagnostic),
                Ok((column, next)) => Ok((ExpressionView::Column(column), next)),
            },
            Ok((Some(_), after2)) => {
                proof {
                    lemma_lex_advances(text, position);
                    lemma_lex_advances(text, after1);
                }
                match arguments(text, after2, Seq::empty()) {
                    Err(diagnostic) => Err(diagnostic),
                    Ok((arguments, after3)) => match expect(text, after3, TokenType::RightParen) {
                        Err(diagnostic) => Err(diagnostic),
                        Ok((close, next)) => Ok(
                            (
                                ExpressionView::FunctionCall(
                                    FunctionCallExpressionView {
                                        function_name: name,
                                        arguments,
                                        range: merged(name.range, close.range),
                                    },
                                ),
                                next,
                            ),
                        ),
                    },
                }
            },
        },
    }
}

/// `'(' statement ')'`.
pub open spec fn subquery(text: Seq<char>, position: int) -> Parsed<ExpressionView>
    decreases text.len() - position, 3nat,
    when 0 <= position <= text.len()
{
    match expect(text, position, TokenType::LeftParen) {
        Err(diagnostic) => Err(diagnostic),
        Ok((open, after1)) => {
            proof {
                lemma_lex_advances(text, position);
            }
            match statement(text, after1) {
                Err(diagnostic) => Err(diagnostic),
                Ok((stmt, after2)) => match expect(text, after2, TokenType::RightParen) {
                    Err(diagnostic) => Err(diagnostic),
                    Ok((close, next)) => Ok(
                        (
                            ExpressionView::Subquery(
                                SubqueryExpressionView {
                                    stmt: Box::new(stmt),
                                    range: merged(open.range, close.range),
                                },
                            ),
                            next,
                        ),
                    ),
                },
            }
        },
    }
}

/// The statements of a program, from `position` to the end of input; a
/// semicolon may follow each.
pub open spec fn statements(text: Seq<char>, position: int, read: Seq<StatementView>) -> Result<
    Seq<StatementView>,
    DiagnosticView,
>
    decreases text.len() - position,
{
    match at_kind(text, position, TokenType::EOF) {
        Err(diagnostic) => Err(diagnostic),
        Ok(true) => Ok(read),
        Ok(false) => match advancing(text, position, statement(text, position)) {
            Err(diagnostic) => Err(diagnostic),
            Ok((next_statement, after1)) => match accept(text, after1, TokenType::Semicolon) {
                Err(diagnostic) => Err(diagnostic),
                Ok((_, after2)) => {
                    proof {
                        lemma_lex_advances(text, after1);
                    }
                    statements(text, after2, read.push(next_statement))
                },
            },
        },
    }
}

/// The program that a text holds from `position` on, or the diagnostic of
/// the first failure of lexing or parsing.
pub open spec fn program_from(text: Seq<char>, position: int) -> Result<
    ProgramView,
    DiagnosticView,
> {
    match statements(text, position, Seq::empty()) {
        Err(diagnostic) => Err(diagnostic),
        Ok(read) => Ok(ProgramView { statements: read }),
    }
}

/// The program that a text holds, or the diagnostic of the first failure
/// of lexing or parsing.
pub open spec fn program(text: Seq<char>) -> Result<ProgramView, DiagnosticView> {
    program_from(text, 0)
}

/// Passing over comments does not go back in the text.
pub proof fn lemma_skip_comments(text: Seq<char>, position: int)
    requires
        0 <= position <= text.len(),
    ensures
        skip_comments(text, position) matches Ok(start) ==> position <= start <= text.len(),
    decreases text.len() - position,
{
    lemma_lex_advances(text, position);
    match lex(text, position) {
        Ok((token, next)) => {
            if token.kind == TokenType::Comment {
                lemma_skip_comments(text, next);
            }
        },
        Err(_) => {},
    }
}

/// A column takes at least one token.
pub proof fn lemma_column_advances(text: Seq<char>, position: int)
    ensures
        column(text, position) matches Ok((_, next)) ==> 0 <= position < next <= text.len(),
{
    lemma_lex_advances(text, position);
    match expect(text, position, TokenType::Identifier) {
        Ok((_, after1)) => {
            lemma_lex_advances(text, after1);
            match accept(text, after1, TokenType::Dot) {
                Ok((Some(_), after2)) => {
                    lemma_lex_advances(text, after2);
                },
                _ => {},
            }
        },
        Err(_) => {},
    }
}

/// A column to order by takes at least one token.
pub proof fn lemma_order_column_advances(text: Seq<char>, position: int)
    ensures
        order_column(text, position) matches Ok((_, next)) ==> 0 <= position < next <= text.len(),
{
    lemma_column_advances(text, position);
    match column(text, position) {
        Ok((_, after1)) => {
            lemma_lex_advances(text, after1);
        },
        Err(_) => {},
    }
}

} // verus!
