//! Every range that parsing assigns runs from the first byte of the first
//! token of its node to the end of the last, is ordered, and lies inside the
//! text.

use crate::lexer::scan::{
    byte_length, byte_offset, fits, lemma_lex_advances, lemma_lex_ranges, lemma_offsets_ordered,
    lex, placed, spans,
};
use crate::lexer::token::{TokenType, TokenView};
use crate::parser::ast::{
    ExpressionView, OrderColumnView, PipeStatementView, SelectExpressionView, StatementView,
};
use crate::parser::grammar::{
    accept, aggregate_clause, aggregate_function, alias, arguments, at_kind, boolean_literal,
    column, column_expression, column_or_function_call, condition, expect, expression, from_clause,
    group_by_clause, group_columns, join_clause, lemma_column_advances, lemma_order_column_advances,
    limit_clause, number_literal, operator, order_clause, order_column, order_columns, pipes,
    program, qualified, select_expression, select_items, select_statement, skip_comments, stage,
    statement, statements, string_literal, subquery, unexpected, where_clause, Parsed,
};
use crate::parser::progress::{
    lemma_expression_advances, lemma_select_expression_advances, lemma_stage_advances,
    lemma_statement_advances,
};
use vstd::prelude::*;

verus! {

/// Whether a text can be parsed from `position`: the position lies
/// inside it, and its bytes can be counted in a `usize`.
pub open spec fn parsable(text: Seq<char>, position: int) -> bool {
    0 <= position <= text.len() && byte_length(text) <= usize::MAX
}

/// Whether a failure lies inside the text.
pub open spec fn failure_fits<T>(text: Seq<char>, parsed: Parsed<T>) -> bool {
    parsed matches Err(diagnostic) ==> fits(diagnostic.range, byte_length(text) as int)
}

/// Whether a token that was taken lies between the position before it and
/// the position behind it.
pub open spec fn token_placed(text: Seq<char>, position: int, parsed: Parsed<TokenView>) -> bool {
    &&& failure_fits(text, parsed)
    &&& parsed matches Ok((token, next)) ==> {
        &&& position <= next <= text.len()
        &&& placed(text, position, next, token.range)
        &&& spans(text, position, next, token.range)
        &&& fits(token.range, byte_length(text) as int)
    }
}

/// As `token_placed`, for a token that may be absent.
pub open spec fn optional_placed(
    text: Seq<char>,
    position: int,
    parsed: Parsed<Option<TokenView>>,
) -> bool {
    &&& failure_fits(text, parsed)
    &&& parsed matches Ok((found, next)) ==> {
        &&& position <= next <= text.len()
        &&& found is None ==> next == position
        &&& found matches Some(token) ==> {
            &&& placed(text, position, next, token.range)
            &&& spans(text, position, next, token.range)
            &&& fits(token.range, byte_length(text) as int)
        }
    }
}

/// Whether an expression that was parsed runs from the start of its
/// first token to the end of its last, with every range in it ordered and
/// inside the text.
pub open spec fn expression_placed(
    text: Seq<char>,
    position: int,
    parsed: Parsed<ExpressionView>,
) -> bool {
    &&& failure_fits(text, parsed)
    &&& parsed matches Ok((value, next)) ==> {
        &&& position <= next <= text.len()
        &&& placed(text, position, next, value.range())
        &&& spans(text, position, next, value.range())
        &&& value.fits(byte_length(text) as int)
    }
}

/// As `expression_placed`, for a stage.
pub open spec fn statement_placed(
    text: Seq<char>,
    position: int,
    parsed: Parsed<StatementView>,
) -> bool {
    &&& failure_fits(text, parsed)
    &&& parsed matches Ok((value, next)) ==> {
        &&& position <= next <= text.len()
        &&& placed(text, position, next, value.range())
        &&& spans(text, position, next, value.range())
        &&& value.fits(byte_length(text) as int)
    }
}

/// Tokens that are expected or accepted lie where they were read.
pub proof fn lemma_tokens_placed(text: Seq<char>, position: int, kind: TokenType)
    requires
        parsable(text, position),
    ensures
        token_placed(text, position, lex(text, position)),
        token_placed(text, position, expect(text, position, kind)),
        optional_placed(text, position, accept(text, position, kind)),
        at_kind(text, position, kind) matches Err(diagnostic) ==> fits(
            diagnostic.range,
            byte_length(text) as int,
        ),
        lex(text, position) matches Ok((token, _)) ==> fits(
            unexpected(token).range,
            byte_length(text) as int,
        ),
{
    lemma_lex_ranges(text, position);
    lemma_offsets_ordered(text);
}

/// An alias lies where it was read.
pub proof fn lemma_alias_placed(text: Seq<char>, position: int)
    requires
        parsable(text, position),
    ensures
        failure_fits(text, alias(text, position)),
        alias(text, position) matches Ok((found, next)) ==> {
            &&& position <= next <= text.len()
            &&& found is None ==> next == position
            &&& found matches Some(name) ==> {
                &&& placed(text, position, next, name.range)
                &&& name.range.end == byte_offset(text, next)
                &&& fits(name.range, byte_length(text) as int)
            }
        },
{
    lemma_offsets_ordered(text);
    lemma_tokens_placed(text, position, TokenType::As);
    if let Ok((Some(_), after1)) = accept(text, position, TokenType::As) {
        lemma_tokens_placed(text, after1, TokenType::Identifier);
    }
}

/// A column lies where it was read.
pub proof fn lemma_column_placed(text: Seq<char>, position: int)
    requires
        parsable(text, position),
    ensures
        failure_fits(text, column(text, position)),
        column(text, position) matches Ok((value, next)) ==> {
            &&& position <= next <= text.len()
            &&& placed(text, position, next, value.range)
            &&& spans(text, position, next, value.range)
            &&& value.fits(byte_length(text) as int)
        },
        expression_placed(text, position, column_expression(text, position)),
{
    lemma_offsets_ordered(text);
    lemma_tokens_placed(text, position, TokenType::Identifier);
    if let Ok((name, after1)) = expect(text, position, TokenType::Identifier) {
        lemma_qualified_placed(text, position, after1, name);
    }
}

/// A column with its qualifier lies between the start of its name and
/// the position behind it.
pub proof fn lemma_qualified_placed(
    text: Seq<char>,
    start: int,
    position: int,
    name: TokenView,
)
    requires
        parsable(text, position),
        0 <= start <= position,
        placed(text, start, position, name.range),
        name.range.end == byte_offset(text, position),
    ensures
        failure_fits(text, qualified(text, position, name)),
        qualified(text, position, name) matches Ok((value, next)) ==> {
            &&& position <= next <= text.len()
            &&& placed(text, start, next, value.range)
            &&& value.range.start == name.range.start
            &&& value.range.end == byte_offset(text, next)
            &&& value.fits(byte_length(text) as int)
        },
{
    lemma_offsets_ordered(text);
    lemma_tokens_placed(text, position, TokenType::Dot);
    if let Ok((Some(_), after1)) = accept(text, position, TokenType::Dot) {
        lemma_tokens_placed(text, after1, TokenType::Identifier);
    }
}

/// The literals lie where they were read.
pub proof fn lemma_literals_placed(text: Seq<char>, position: int)
    requires
        parsable(text, position),
    ensures
        failure_fits(text, number_literal(text, position)),
        number_literal(text, position) matches Ok((value, next)) ==> position <= next <= text.len()
            && placed(text, position, next, value.range) && spans(
            text,
            position,
            next,
            value.range,
        ),
        failure_fits(text, string_literal(text, position)),
        string_literal(text, position) matches Ok((value, next)) ==> position <= next <= text.len()
            && placed(text, position, next, value.range) && spans(
            text,
            position,
            next,
            value.range,
        ),
        failure_fits(text, boolean_literal(text, position)),
        boolean_literal(text, position) matches Ok((value, next)) ==> position <= next
            <= text.len() && placed(text, position, next, value.range) && spans(
            text,
            position,
            next,
            value.range,
        ),
{
    lemma_offsets_ordered(text);
    lemma_tokens_placed(text, position, TokenType::Number);
    lemma_tokens_placed(text, position, TokenType::String);
    lemma_tokens_placed(text, position, TokenType::Boolean);
}

/// An operator and the name of an aggregate function take one token.
pub proof fn lemma_symbols_placed(text: Seq<char>, position: int)
    requires
        parsable(text, position),
    ensures
        failure_fits(text, operator(text, position)),
        operator(text, position) matches Ok((_, next)) ==> position <= next <= text.len(),
        failure_fits(text, aggregate_function(text, position)),
        aggregate_function(text, position) matches Ok((_, next)) ==> position <= next
            <= text.len(),
{
    lemma_tokens_placed(text, position, TokenType::EOF);
}

/// Passing over comments fails inside the text, if it fails.
pub proof fn lemma_skip_comments_placed(text: Seq<char>, position: int)
    requires
        parsable(text, position),
    ensures
        skip_comments(text, position) matches Err(diagnostic) ==> fits(
            diagnostic.range,
            byte_length(text) as int,
        ),
        skip_comments(text, position) matches Ok(start) ==> position <= start <= text.len(),
    decreases text.len() - position,
{
    lemma_tokens_placed(text, position, TokenType::Comment);
    lemma_lex_advances(text, position);
    if let Ok((token, next)) = lex(text, position) {
        if token.kind == TokenType::Comment {
            lemma_skip_comments_placed(text, next);
        }
    }
}

/// `FROM table` lies where it was read.
pub proof fn lemma_from_clause_placed(text: Seq<char>, position: int)
    requires
        parsable(text, position),
    ensures
        failure_fits(text, from_clause(text, position)),
        from_clause(text, position) matches Ok((value, next)) ==> {
            &&& position <= next <= text.len()
            &&& placed(text, position, next, value.range)
            &&& spans(text, position, next, value.range)
            &&& placed(text, position, next, value.span())
            &&& spans(text, position, next, value.span())
            &&& value.fits(byte_length(text) as int)
        },
{
    lemma_offsets_ordered(text);
    lemma_tokens_placed(text, position, TokenType::From);
    if let Ok((_, after1)) = expect(text, position, TokenType::From) {
        lemma_tokens_placed(text, after1, TokenType::Identifier);
    }
}

/// A join lies where it was read.
pub proof fn lemma_join_clause_placed(text: Seq<char>, position: int)
    requires
        parsable(text, position),
    ensures
        failure_fits(text, join_clause(text, position)),
        join_clause(text, position) matches Ok((value, next)) ==> {
            &&& position <= next <= text.len()
            &&& placed(text, position, next, value.range)
            &&& spans(text, position, next, value.range)
            &&& value.fits(byte_length(text) as int)
        },
{
    lemma_offsets_ordered(text);
    lemma_tokens_placed(text, position, TokenType::Join);
    if let Ok((_, after1)) = expect(text, position, TokenType::Join) {
        lemma_tokens_placed(text, after1, TokenType::Identifier);
        if let Ok((_, after2)) = expect(text, after1, TokenType::Identifier) {
            lemma_tokens_placed(text, after2, TokenType::On);
            if let Ok((_, after3)) = expect(text, after2, TokenType::On) {
                lemma_column_placed(text, after3);
                if let Ok((_, after4)) = column(text, after3) {
                    lemma_symbols_placed(text, after4);
                    if let Ok((_, after5)) = operator(text, after4) {
                        lemma_column_placed(text, after5);
                    }
                }
            }
        }
    }
}

/// Whether the items that were read behind the first `kept` of a list
/// lie between two positions, with every range in them ordered and inside
/// the text.
pub open spec fn expressions_placed(
    text: Seq<char>,
    from: int,
    to: int,
    items: Seq<ExpressionView>,
    kept: int,
) -> bool {
    forall|i: int|
        kept <= i < items.len() ==> placed(text, from, to, (#[trigger] items[i]).range())
            && items[i].fits(byte_length(text) as int)
}

/// The columns of a `GROUP BY` lie where they were read.
pub proof fn lemma_group_columns_placed(
    text: Seq<char>,
    start: int,
    position: int,
    columns: Seq<ExpressionView>,
)
    requires
        parsable(text, position),
        0 <= start <= position,
        expressions_placed(text, start, position, columns, 0),
    ensures
        failure_fits(text, group_columns(text, position, columns)),
        group_columns(text, position, columns) matches Ok((found, next)) ==> {
            &&& position <= next <= text.len()
            &&& expressions_placed(text, start, next, found, 0)
        },
    decreases text.len() - position,
{
    lemma_offsets_ordered(text);
    lemma_tokens_placed(text, position, TokenType::EOF);
    if let Ok((token, _)) = lex(text, position) {
        if !(token.kind == TokenType::Order || token.kind == TokenType::Limit || token.kind
            == TokenType::EOF) {
            lemma_column_placed(text, position);
            lemma_column_advances(text, position);
            if let Ok((found, after1)) = column(text, position) {
                lemma_tokens_placed(text, after1, TokenType::Comma);
                lemma_lex_advances(text, after1);
                let longer = columns.push(ExpressionView::Column(found));
                assert(expressions_placed(text, start, after1, longer, 0)) by {
                    assert forall|i: int| 0 <= i < longer.len() implies placed(
                        text,
                        start,
                        after1,
                        (#[trigger] longer[i]).range(),
                    ) && longer[i].fits(byte_length(text) as int) by {
                        if i < columns.len() {
                            assert(longer[i] == columns[i]);
                        }
                    }
                }
                if let Ok((Some(_), after2)) = accept(text, after1, TokenType::Comma) {
                    assert(expressions_placed(text, start, after2, longer, 0));
                    lemma_group_columns_placed(text, start, after2, longer);
                }
            }
        }
    }
}

/// A `GROUP BY` lies where it was read.
pub proof fn lemma_group_by_clause_placed(text: Seq<char>, position: int)
    requires
        parsable(text, position),
    ensures
        failure_fits(text, group_by_clause(text, position)),
        group_by_clause(text, position) matches Ok((value, next)) ==> {
            &&& position <= next <= text.len()
            &&& placed(text, position, next, value.range)
            &&& spans(text, position, next, value.range)
            &&& value.fits(byte_length(text) as int)
        },
{
    lemma_offsets_ordered(text);
    lemma_tokens_placed(text, position, TokenType::Group);
    if let Ok((_, after1)) = expect(text, position, TokenType::Group) {
        lemma_tokens_placed(text, after1, TokenType::By);
        if let Ok((_, after2)) = expect(text, after1, TokenType::By) {
            lemma_group_columns_placed(text, after2, after2, Seq::empty());
        }
    }
}

/// A column to order by lies where it was read.
pub proof fn lemma_order_column_placed(text: Seq<char>, position: int)
    requires
        parsable(text, position),
    ensures
        failure_fits(text, order_column(text, position)),
        order_column(text, position) matches Ok((value, next)) ==> {
            &&& position <= next <= text.len()
            &&& placed(text, position, next, value.column.range())
            &&& value.fits(byte_length(text) as int)
        },
{
    lemma_offsets_ordered(text);
    lemma_column_placed(text, position);
    if let Ok((_, after1)) = column(text, position) {
        lemma_tokens_placed(text, after1, TokenType::Desc);
        lemma_tokens_placed(text, after1, TokenType::Asc);
    }
}

/// As `expressions_placed`, for columns to order by.
pub open spec fn order_columns_placed(
    text: Seq<char>,
    from: int,
    to: int,
    items: Seq<OrderColumnView>,
) -> bool {
    forall|i: int|
        0 <= i < items.len() ==> placed(text, from, to, (#[trigger] items[i]).column.range())
            && items[i].fits(byte_length(text) as int)
}

/// The columns of an `ORDER BY` lie where they were read.
pub proof fn lemma_order_columns_placed(
    text: Seq<char>,
    start: int,
    position: int,
    columns: Seq<OrderColumnView>,
)
    requires
        parsable(text, position),
        0 <= start <= position,
        order_columns_placed(text, start, position, columns),
    ensures
        failure_fits(text, order_columns(text, position, columns)),
        order_columns(text, position, columns) matches Ok((found, next)) ==> {
            &&& position <= next <= text.len()
            &&& order_columns_placed(text, start, next, found)
        },
    decreases text.len() - position,
{
    lemma_offsets_ordered(text);
    lemma_tokens_placed(text, position, TokenType::EOF);
    if let Ok((token, _)) = lex(text, position) {
        if !(token.kind == TokenType::Limit || token.kind == TokenType::EOF) {
            lemma_order_column_placed(text, position);
            lemma_order_column_advances(text, position);
            if let Ok((found, after1)) = order_column(text, position) {
                lemma_tokens_placed(text, after1, TokenType::Comma);
                lemma_lex_advances(text, after1);
                let longer = columns.push(found);
                assert(order_columns_placed(text, start, after1, longer)) by {
                    assert forall|i: int| 0 <= i < longer.len() implies placed(
                        text,
                        start,
                        after1,
                        (#[trigger] longer[i]).column.range(),
                    ) && longer[i].fits(byte_length(text) as int) by {
                        if i < columns.len() {
                            assert(longer[i] == columns[i]);
                        }
                    }
                }
                if let Ok((Some(_), after2)) = accept(text, after1, TokenType::Comma) {
                    assert(order_columns_placed(text, start, after2, longer));
                    lemma_order_columns_placed(text, start, after2, longer);
                }
            }
        }
    }
}

/// An `ORDER BY` lies where it was read.
pub proof fn lemma_order_clause_placed(text: Seq<char>, position: int)
    requires
        parsable(text, position),
    ensures
        failure_fits(text, order_clause(text, position)),
        order_clause(text, position) matches Ok((value, next)) ==> {
            &&& position <= next <= text.len()
            &&& placed(text, position, next, value.range)
            &&& spans(text, position, next, value.range)
            &&& value.fits(byte_length(text) as int)
        },
{
    lemma_offsets_ordered(text);
    lemma_tokens_placed(text, position, TokenType::Order);
    if let Ok((_, after1)) = expect(text, position, TokenType::Order) {
        lemma_tokens_placed(text, after1, TokenType::By);
        if let Ok((_, after2)) = expect(text, after1, TokenType::By) {
            lemma_order_columns_placed(text, after2, after2, Seq::empty());
        }
    }
}

/// A `LIMIT` lies where it was read.
pub proof fn lemma_limit_clause_placed(text: Seq<char>, position: int)
    requires
        parsable(text, position),
    ensures
        failure_fits(text, limit_clause(text, position)),
        limit_clause(text, position) matches Ok((value, next)) ==> {
            &&& position <= next <= text.len()
            &&& placed(text, position, next, value.range)
            &&& spans(text, position, next, value.range)
            &&& value.fits(byte_length(text) as int)
        },
{
    lemma_offsets_ordered(text);
    lemma_tokens_placed(text, position, TokenType::Limit);
    if let Ok((_, after1)) = expect(text, position, TokenType::Limit) {
        lemma_literals_placed(text, after1);
        if let Ok((_, after2)) = number_literal(text, after1) {
            lemma_tokens_placed(text, after2, TokenType::Comma);
            if let Ok((Some(_), after3)) = accept(text, after2, TokenType::Comma) {
                lemma_literals_placed(text, after3);
            }
        }
    }
}

/// As `expressions_placed`, for the items of a select list.
pub open spec fn select_items_placed(
    text: Seq<char>,
    from: int,
    to: int,
    items: Seq<SelectExpressionView>,
) -> bool {
    forall|i: int|
        0 <= i < items.len() ==> placed(text, from, to, (#[trigger] items[i]).range)
            && items[i].fits(byte_length(text) as int)
}

/// An expression lies where it was read, and every range in it is ordered
/// and inside the text.
pub proof fn lemma_expression_placed(text: Seq<char>, position: int)
    requires
        parsable(text, position),
    ensures
        expression_placed(text, position, expression(text, position)),
    decreases text.len() - position, 4nat,
{
    lemma_offsets_ordered(text);
    lemma_tokens_placed(text, position, TokenType::EOF);
    lemma_literals_placed(text, position);
    if let Ok((token, _)) = lex(text, position) {
        match token.kind {
            TokenType::Identifier => lemma_column_or_function_call_placed(text, position),
            TokenType::LeftParen => lemma_subquery_placed(text, position),
            _ => {},
        }
    }
}

/// A column or a call lies where it was read.
pub proof fn lemma_column_or_function_call_placed(text: Seq<char>, position: int)
    requires
        parsable(text, position),
    ensures
        expression_placed(text, position, column_or_function_call(text, position)),
    decreases text.len() - position, 3nat,
{
    lemma_offsets_ordered(text);
    lemma_tokens_placed(text, position, TokenType::Identifier);
    lemma_lex_advances(text, position);
    if let Ok((name, after1)) = expect(text, position, TokenType::Identifier) {
        lemma_tokens_placed(text, after1, TokenType::LeftParen);
        lemma_lex_advances(text, after1);
        match accept(text, after1, TokenType::LeftParen) {
            Ok((None, _)) => lemma_qualified_placed(text, position, after1, name),
            Ok((Some(_), after2)) => {
                lemma_arguments_placed(text, after2, after2, Seq::empty());
                if let Ok((_, after3)) = arguments(text, after2, Seq::empty()) {
                    lemma_tokens_placed(text, after3, TokenType::RightParen);
                }
            },
            Err(_) => {},
        }
    }
}

/// The arguments of a call lie where they were read.
pub proof fn lemma_arguments_placed(
    text: Seq<char>,
    start: int,
    position: int,
    items: Seq<ExpressionView>,
)
    requires
        parsable(text, position),
        0 <= start <= position,
        expressions_placed(text, start, position, items, 0),
    ensures
        failure_fits(text, arguments(text, position, items)),
        arguments(text, position, items) matches Ok((found, next)) ==> {
            &&& position <= next <= text.len()
            &&& expressions_placed(text, start, next, found, 0)
        },
    decreases text.len() - position, 6nat,
{
    lemma_offsets_ordered(text);
    lemma_tokens_placed(text, position, TokenType::EOF);
    if let Ok((token, _)) = lex(text, position) {
        if !(token.kind == TokenType::RightParen || token.kind == TokenType::EOF) {
            lemma_expression_placed(text, position);
            lemma_expression_advances(text, position);
            if let Ok((found, after1)) = expression(text, position) {
                lemma_tokens_placed(text, after1, TokenType::Comma);
                let longer = items.push(found);
                if let Ok((_, after2)) = accept(text, after1, TokenType::Comma) {
                    assert(expressions_placed(text, start, after2, longer, 0)) by {
                        assert forall|i: int| 0 <= i < longer.len() implies placed(
                            text,
                            start,
                            after2,
                            (#[trigger] longer[i]).range(),
                        ) && longer[i].fits(byte_length(text) as int) by {
                            if i < items.len() {
                                assert(longer[i] == items[i]);
                            }
                        }
                    }
                    lemma_arguments_placed(text, start, after2, longer);
                }
            }
        }
    }
}

/// A subquery lies where it was read.
pub proof fn lemma_subquery_placed(text: Seq<char>, position: int)
    requires
        parsable(text, position),
    ensures
        expression_placed(text, position, subquery(text, position)),
    decreases text.len() - position, 3nat,
{
    lemma_offsets_ordered(text);
    lemma_tokens_placed(text, position, TokenType::LeftParen);
    lemma_lex_advances(text, position);
    if let Ok((_, after1)) = expect(text, position, TokenType::LeftParen) {
        lemma_statement_placed(text, after1);
        if let Ok((_, after2)) = statement(text, after1) {
            lemma_tokens_placed(text, after2, TokenType::RightParen);
        }
    }
}

/// Whether a statement that was parsed runs from the start of its first
/// token, behind the comments that stand before it, to the end of its
/// last, with every range in it ordered and inside the text.
pub open spec fn whole_statement_placed(
    text: Seq<char>,
    position: int,
    parsed: Parsed<StatementView>,
) -> bool {
    &&& failure_fits(text, parsed)
    &&& parsed matches Ok((value, next)) ==> {
        &&& position <= next <= text.len()
        &&& placed(text, position, next, value.range())
        &&& skip_comments(text, position) matches Ok(start) && spans(
            text,
            start,
            next,
            value.range(),
        )
        &&& value.fits(byte_length(text) as int)
    }
}

/// A statement runs from the start of its first token to the end of its
/// last, and every range in it is ordered and inside the text.
pub proof fn lemma_statement_placed(text: Seq<char>, position: int)
    requires
        parsable(text, position),
    ensures
        whole_statement_placed(text, position, statement(text, position)),
    decreases text.len() - position, 9nat,
{
    lemma_offsets_ordered(text);
    lemma_skip_comments_placed(text, position);
    if let Ok(start) = skip_comments(text, position) {
        lemma_stage_placed(text, start);
        lemma_stage_advances(text, start);
        if let Ok((first, next)) = stage(text, start) {
            lemma_pipes_placed(text, start, next, first);
        }
    }
}

/// The stages piped onto a statement lie where they were read.
pub proof fn lemma_pipes_placed(text: Seq<char>, start: int, position: int, left: StatementView)
    requires
        parsable(text, position),
        0 <= start <= position,
        placed(text, start, position, left.range()),
        left.range().end == byte_offset(text, position),
        left.fits(byte_length(text) as int),
    ensures
        failure_fits(text, pipes(text, position, left)),
        pipes(text, position, left) matches Ok((value, next)) ==> {
            &&& position <= next <= text.len()
            &&& placed(text, start, next, value.range())
            &&& value.range().start == left.range().start
            &&& value.range().end == byte_offset(text, next)
            &&& value.fits(byte_length(text) as int)
        },
    decreases text.len() - position, 10nat,
{
    lemma_offsets_ordered(text);
    lemma_tokens_placed(text, position, TokenType::Pipe);
    lemma_lex_advances(text, position);
    if let Ok((Some(_), after1)) = accept(text, position, TokenType::Pipe) {
        lemma_stage_placed(text, after1);
        lemma_stage_advances(text, after1);
        if let Ok((right, next)) = stage(text, after1) {
            let joined = StatementView::Pipe(
                PipeStatementView { left: Box::new(left), right: Box::new(right) },
            );
            assert(joined.fits(byte_length(text) as int));
            lemma_pipes_placed(text, start, next, joined);
        }
    }
}

/// A stage lies where it was read.
pub proof fn lemma_stage_placed(text: Seq<char>, position: int)
    requires
        parsable(text, position),
    ensures
        statement_placed(text, position, stage(text, position)),
    decreases text.len() - position, 8nat,
{
    lemma_offsets_ordered(text);
    lemma_tokens_placed(text, position, TokenType::EOF);
    if let Ok((token, _)) = lex(text, position) {
        match token.kind {
            TokenType::Select => lemma_select_statement_placed(text, position),
            TokenType::From => lemma_from_clause_placed(text, position),
            TokenType::Join => lemma_join_clause_placed(text, position),
            TokenType::Where => lemma_where_clause_placed(text, position),
            TokenType::Group => lemma_group_by_clause_placed(text, position),
            TokenType::Order => lemma_order_clause_placed(text, position),
            TokenType::Limit => lemma_limit_clause_placed(text, position),
            TokenType::Aggregate => lemma_aggregate_clause_placed(text, position),
            _ => {},
        }
    }
}

/// An aggregate lies where it was read.
pub proof fn lemma_aggregate_clause_placed(text: Seq<char>, position: int)
    requires
        parsable(text, position),
    ensures
        failure_fits(text, aggregate_clause(text, position)),
        aggregate_clause(text, position) matches Ok((value, next)) ==> {
            &&& position <= next <= text.len()
            &&& placed(text, position, next, value.range)
            &&& spans(text, position, next, value.range)
            &&& value.fits(byte_length(text) as int)
        },
    decreases text.len() - position, 7nat,
{
    lemma_offsets_ordered(text);
    lemma_tokens_placed(text, position, TokenType::Aggregate);
    lemma_lex_advances(text, position);
    if let Ok((_, after1)) = expect(text, position, TokenType::Aggregate) {
        lemma_symbols_placed(text, after1);
        if let Ok((_, after2)) = aggregate_function(text, after1) {
            lemma_tokens_placed(text, after2, TokenType::LeftParen);
            if let Ok((_, after3)) = expect(text, after2, TokenType::LeftParen) {
                lemma_expression_placed(text, after3);
                if let Ok((_, after4)) = expression(text, after3) {
                    lemma_tokens_placed(text, after4, TokenType::RightParen);
                    if let Ok((_, after5)) = expect(text, after4, TokenType::RightParen) {
                        lemma_alias_placed(text, after5);
                    }
                }
            }
        }
    }
}

/// The items of a select list lie where they were read.
pub proof fn lemma_select_items_placed(
    text: Seq<char>,
    start: int,
    position: int,
    items: Seq<SelectExpressionView>,
)
    requires
        parsable(text, position),
        0 <= start <= position,
        select_items_placed(text, start, position, items),
    ensures
        failure_fits(text, select_items(text, position, items)),
        select_items(text, position, items) matches Ok((found, next)) ==> {
            &&& position <= next <= text.len()
            &&& select_items_placed(text, start, next, found)
        },
    decreases text.len() - position, 6nat,
{
    lemma_offsets_ordered(text);
    lemma_tokens_placed(text, position, TokenType::EOF);
    if let Ok((token, _)) = lex(text, position) {
        if !(token.kind == TokenType::From || token.kind == TokenType::EOF) {
            lemma_select_expression_placed(text, position);
            lemma_select_expression_advances(text, position);
            if let Ok((found, after1)) = select_expression(text, position) {
                lemma_tokens_placed(text, after1, TokenType::Comma);
                let longer = items.push(found);
                if let Ok((_, after2)) = accept(text, after1, TokenType::Comma) {
                    assert(select_items_placed(text, start, after2, longer)) by {
                        assert forall|i: int| 0 <= i < longer.len() implies placed(
                            text,
                            start,
                            after2,
                            (#[trigger] longer[i]).range,
                        ) && longer[i].fits(byte_length(text) as int) by {
                            if i < items.len() {
                                assert(longer[i] == items[i]);
                            }
                        }
                    }
                    lemma_select_items_placed(text, start, after2, longer);
                }
            }
        }
    }
}

/// A select lies where it was read.
pub proof fn lemma_select_statement_placed(text: Seq<char>, position: int)
    requires
        parsable(text, position),
    ensures
        failure_fits(text, select_statement(text, position)),
        select_statement(text, position) matches Ok((value, next)) ==> {
            &&& position <= next <= text.len()
            &&& placed(text, position, next, value.range)
            &&& spans(text, position, next, value.range)
            &&& value.fits(byte_length(text) as int)
        },
    decreases text.len() - position, 7nat,
{
    lemma_offsets_ordered(text);
    lemma_tokens_placed(text, position, TokenType::Select);
    lemma_lex_advances(text, position);
    if let Ok((_, after1)) = expect(text, position, TokenType::Select) {
        lemma_tokens_placed(text, after1, TokenType::Distinct);
        if let Ok((_, after2)) = accept(text, after1, TokenType::Distinct) {
            lemma_select_items_placed(text, after2, after2, Seq::empty());
            if let Ok((_, after3)) = select_items(text, after2, Seq::empty()) {
                lemma_tokens_placed(text, after3, TokenType::From);
                lemma_from_clause_placed(text, after3);
            }
        }
    }
}

/// An item of a select list lies where it was read.
pub proof fn lemma_select_expression_placed(text: Seq<char>, position: int)
    requires
        parsable(text, position),
    ensures
        failure_fits(text, select_expression(text, position)),
        select_expression(text, position) matches Ok((value, next)) ==> {
            &&& position <= next <= text.len()
            &&& placed(text, position, next, value.range)
            &&& spans(text, position, next, value.range)
            &&& value.fits(byte_length(text) as int)
        },
    decreases text.len() - position, 5nat,
{
    lemma_offsets_ordered(text);
    lemma_expression_placed(text, position);
    if let Ok((_, after1)) = expression(text, position) {
        lemma_alias_placed(text, after1);
    }
}

/// A `WHERE` lies where it was read.
pub proof fn lemma_where_clause_placed(text: Seq<char>, position: int)
    requires
        parsable(text, position),
    ensures
        failure_fits(text, where_clause(text, position)),
        where_clause(text, position) matches Ok((value, next)) ==> {
            &&& position <= next <= text.len()
            &&& placed(text, position, next, value.range)
            &&& spans(text, position, next, value.range)
            &&& value.fits(byte_length(text) as int)
        },
    decreases text.len() - position, 7nat,
{
    lemma_offsets_ordered(text);
    lemma_tokens_placed(text, position, TokenType::Where);
    lemma_lex_advances(text, position);
    if let Ok((_, after1)) = expect(text, position, TokenType::Where) {
        lemma_condition_placed(text, after1);
    }
}

/// A condition lies where it was read.
pub proof fn lemma_condition_placed(text: Seq<char>, position: int)
    requires
        parsable(text, position),
    ensures
        expression_placed(text, position, condition(text, position)),
    decreases text.len() - position, 6nat,
{
    lemma_offsets_ordered(text);
    lemma_expression_placed(text, position);
    lemma_expression_advances(text, position);
    if let Ok((_, after1)) = expression(text, position) {
        lemma_symbols_placed(text, after1);
        lemma_lex_advances(text, after1);
        if let Ok((_, after2)) = operator(text, after1) {
            lemma_expression_placed(text, after2);
        }
    }
}

/// Whether every range in each statement of a sequence is ordered and
/// inside the text.
pub open spec fn statements_fit(text: Seq<char>, items: Seq<StatementView>) -> bool {
    forall|i: int| 0 <= i < items.len() ==> (#[trigger] items[i]).fits(byte_length(text) as int)
}

/// The statements of a program have their ranges ordered and inside the text.
pub proof fn lemma_statements_fit(text: Seq<char>, position: int, read: Seq<StatementView>)
    requires
        parsable(text, position),
        statements_fit(text, read),
    ensures
        statements(text, position, read) matches Ok(found) ==> statements_fit(text, found),
        statements(text, position, read) matches Err(diagnostic) ==> fits(
            diagnostic.range,
            byte_length(text) as int,
        ),
    decreases text.len() - position,
{
    lemma_tokens_placed(text, position, TokenType::EOF);
    if let Ok(false) = at_kind(text, position, TokenType::EOF) {
        lemma_statement_placed(text, position);
        lemma_statement_advances(text, position);
        if let Ok((found, after1)) = statement(text, position) {
            lemma_tokens_placed(text, after1, TokenType::Semicolon);
            let longer = read.push(found);
            assert(statements_fit(text, longer)) by {
                assert forall|i: int| 0 <= i < longer.len() implies (#[trigger] longer[i]).fits(
                    byte_length(text) as int,
                ) by {
                    if i < read.len() {
                        assert(longer[i] == read[i]);
                    }
                }
            }
            if let Ok((_, after2)) = accept(text, after1, TokenType::Semicolon) {
                lemma_statements_fit(text, after2, longer);
            }
        }
    }
}

/// Every range of a program that was parsed is ordered and lies inside the
/// text, and so does the range of the failure where the text does not parse.
pub proof fn lemma_program_fits(text: Seq<char>)
    requires
        byte_length(text) <= usize::MAX,
    ensures
        program(text) matches Ok(parsed) ==> parsed.fits(byte_length(text) as int),
        program(text) matches Err(diagnostic) ==> fits(diagnostic.range, byte_length(text) as int),
{
    lemma_statements_fit(text, 0, Seq::empty());
}

} // verus!
