//! Every construct of the grammar takes at least one token.

use crate::lexer::scan::{lemma_lex_advances, lex};
use crate::lexer::token::{TokenType, TokenView};
use crate::parser::ast::{
    ExpressionView, OrderColumnView, PipeStatementView, SelectExpressionView, StatementView,
};
use crate::parser::grammar::{
    accept, advancing, aggregate_clause, aggregate_function, alias, arguments, column,
    column_or_function_call, condition, expect, expression, from_clause, group_by_clause,
    group_columns, join_clause, lemma_column_advances, lemma_order_column_advances,
    lemma_skip_comments, limit_clause, number_literal, operator, order_clause, order_column,
    order_columns, pipes, qualified, select_expression, select_items, select_statement,
    skip_comments, stage, statement, subquery, where_clause, Parsed,
};
use vstd::prelude::*;

verus! {

/// Whether what was parsed at `position` ends behind it and inside the text.
pub open spec fn advances<T>(text: Seq<char>, position: int, parsed: Parsed<T>) -> bool {
    parsed matches Ok((_, next)) ==> position < next <= text.len()
}

/// Whether what was parsed at `position` ends at or behind it and inside the text.
pub open spec fn holds_ground<T>(text: Seq<char>, position: int, parsed: Parsed<T>) -> bool {
    parsed matches Ok((_, next)) ==> position <= next <= text.len()
}

/// A token that is expected takes a token; one that is accepted takes one or none.
pub proof fn lemma_tokens_advance(text: Seq<char>, position: int, kind: TokenType)
    requires
        0 <= position <= text.len(),
    ensures
        kind != TokenType::EOF ==> advances(text, position, expect(text, position, kind)),
        holds_ground(text, position, expect(text, position, kind)),
        holds_ground(text, position, accept(text, position, kind)),
        accept(text, position, kind) matches Ok((Some(_), next)) ==> (kind != TokenType::EOF
            ==> position < next),
{
    lemma_lex_advances(text, position);
}

/// An alias takes no token or two.
pub proof fn lemma_alias_holds_ground(text: Seq<char>, position: int)
    requires
        0 <= position <= text.len(),
    ensures
        holds_ground(text, position, alias(text, position)),
{
    lemma_tokens_advance(text, position, TokenType::As);
    match accept(text, position, TokenType::As) {
        Ok((Some(_), after_keyword)) => {
            lemma_tokens_advance(text, after_keyword, TokenType::Identifier);
        },
        _ => {},
    }
}

/// What follows the name of a column takes no token or two.
pub proof fn lemma_qualified_holds_ground(text: Seq<char>, position: int, name: TokenView)
    requires
        0 <= position <= text.len(),
    ensures
        holds_ground(text, position, qualified(text, position, name)),
{
    lemma_tokens_advance(text, position, TokenType::Dot);
    match accept(text, position, TokenType::Dot) {
        Ok((Some(_), after_dot)) => {
            lemma_tokens_advance(text, after_dot, TokenType::Identifier);
        },
        _ => {},
    }
}

/// An expression takes at least one token.
pub proof fn lemma_expression_advances(text: Seq<char>, position: int)
    requires
        0 <= position <= text.len(),
    ensures
        advances(text, position, expression(text, position)),
        advancing(text, position, expression(text, position)) == expression(text, position),
    decreases text.len() - position, 4nat,
{
    lemma_lex_advances(text, position);
    match lex(text, position) {
        Ok((token, _)) => {
            match token.kind {
                TokenType::Identifier => lemma_column_or_function_call_advances(text, position),
                TokenType::LeftParen => lemma_subquery_advances(text, position),
                TokenType::Number => lemma_tokens_advance(text, position, TokenType::Number),
                TokenType::String => lemma_tokens_advance(text, position, TokenType::String),
                TokenType::Boolean => lemma_tokens_advance(text, position, TokenType::Boolean),
                _ => {},
            }
        },
        Err(_) => {},
    }
}

/// A column or a call takes at least one token.
pub proof fn lemma_column_or_function_call_advances(text: Seq<char>, position: int)
    requires
        0 <= position <= text.len(),
    ensures
        advances(text, position, column_or_function_call(text, position)),
    decreases text.len() - position, 3nat,
{
    lemma_tokens_advance(text, position, TokenType::Identifier);
    match expect(text, position, TokenType::Identifier) {
        Ok((name, after1)) => {
            lemma_tokens_advance(text, after1, TokenType::LeftParen);
            match accept(text, after1, TokenType::LeftParen) {
                Ok((None, _)) => lemma_qualified_holds_ground(text, after1, name),
                Ok((Some(_), after2)) => {
                    lemma_arguments_hold_ground(text, after2, Seq::empty());
                    match arguments(text, after2, Seq::empty()) {
                        Ok((_, after3)) => {
                            lemma_tokens_advance(text, after3, TokenType::RightParen);
                        },
                        Err(_) => {},
                    }
                },
                Err(_) => {},
            }
        },
        Err(_) => {},
    }
}

/// The arguments of a call end at or behind the place where they start.
pub proof fn lemma_arguments_hold_ground(
    text: Seq<char>,
    position: int,
    items: Seq<ExpressionView>,
)
    requires
        0 <= position <= text.len(),
    ensures
        holds_ground(text, position, arguments(text, position, items)),
    decreases text.len() - position, 6nat,
{
    lemma_lex_advances(text, position);
    match lex(text, position) {
        Ok((token, _)) => {
            if !(token.kind == TokenType::RightParen || token.kind == TokenType::EOF) {
                lemma_expression_advances(text, position);
                match expression(text, position) {
                    Ok((item, after1)) => {
                        lemma_tokens_advance(text, after1, TokenType::Comma);
                        match accept(text, after1, TokenType::Comma) {
                            Ok((_, after2)) => lemma_arguments_hold_ground(
                                text,
                                after2,
                                items.push(item),
                            ),
                            Err(_) => {},
                        }
                    },
                    Err(_) => {},
                }
            }
        },
        Err(_) => {},
    }
}

/// A subquery takes at least one token.
pub proof fn lemma_subquery_advances(text: Seq<char>, position: int)
    requires
        0 <= position <= text.len(),
    ensures
        advances(text, position, subquery(text, position)),
    decreases text.len() - position, 3nat,
{
    lemma_tokens_advance(text, position, TokenType::LeftParen);
    match expect(text, position, TokenType::LeftParen) {
        Ok((_, after1)) => {
            lemma_statement_advances(text, after1);
            match statement(text, after1) {
                Ok((_, after2)) => lemma_tokens_advance(text, after2, TokenType::RightParen),
                Err(_) => {},
            }
        },
        Err(_) => {},
    }
}

/// A statement takes at least one token.
pub proof fn lemma_statement_advances(text: Seq<char>, position: int)
    requires
        0 <= position <= text.len(),
    ensures
        advances(text, position, statement(text, position)),
        advancing(text, position, statement(text, position)) == statement(text, position),
    decreases text.len() - position, 9nat,
{
    lemma_skip_comments(text, position);
    match skip_comments(text, position) {
        Ok(start) => {
            lemma_stage_advances(text, start);
            match stage(text, start) {
                Ok((first, next)) => lemma_pipes_hold_ground(text, next, first),
                Err(_) => {},
            }
        },
        Err(_) => {},
    }
}

/// The stages piped onto a statement end at or behind the place where they start.
pub proof fn lemma_pipes_hold_ground(text: Seq<char>, position: int, left: StatementView)
    requires
        0 <= position <= text.len(),
    ensures
        holds_ground(text, position, pipes(text, position, left)),
    decreases text.len() - position, 10nat,
{
    lemma_tokens_advance(text, position, TokenType::Pipe);
    match accept(text, position, TokenType::Pipe) {
        Ok((Some(_), after1)) => {
            lemma_stage_advances(text, after1);
            match stage(text, after1) {
                Ok((right, next)) => lemma_pipes_hold_ground(
                    text,
                    next,
                    StatementView::Pipe(
                        PipeStatementView {
                            left: Box::new(left),
                            right: Box::new(right),
                        },
                    ),
                ),
                Err(_) => {},
            }
        },
        _ => {},
    }
}

/// A stage takes at least one token.
pub proof fn lemma_stage_advances(text: Seq<char>, position: int)
    requires
        0 <= position <= text.len(),
    ensures
        advances(text, position, stage(text, position)),
        advancing(text, position, stage(text, position)) == stage(text, position),
    decreases text.len() - position, 8nat,
{
    lemma_lex_advances(text, position);
    match lex(text, position) {
        Ok((token, _)) => {
            match token.kind {
                TokenType::Select => lemma_select_statement_advances(text, position),
                TokenType::From => lemma_from_clause_advances(text, position),
                TokenType::Join => lemma_join_clause_advances(text, position),
                TokenType::Where => lemma_where_clause_advances(text, position),
                TokenType::Group => lemma_group_by_clause_advances(text, position),
                TokenType::Order => lemma_order_clause_advances(text, position),
                TokenType::Limit => lemma_limit_clause_advances(text, position),
                TokenType::Aggregate => lemma_aggregate_clause_advances(text, position),
                _ => {},
            }
        },
        Err(_) => {},
    }
}

/// `FROM table` takes two tokens.
pub proof fn lemma_from_clause_advances(text: Seq<char>, position: int)
    requires
        0 <= position <= text.len(),
    ensures
        advances(text, position, from_clause(text, position)),
{
    lemma_tokens_advance(text, position, TokenType::From);
    match expect(text, position, TokenType::From) {
        Ok((_, after1)) => lemma_tokens_advance(text, after1, TokenType::Identifier),
        Err(_) => {},
    }
}

/// A join takes at least one token.
pub proof fn lemma_join_clause_advances(text: Seq<char>, position: int)
    requires
        0 <= position <= text.len(),
    ensures
        advances(text, position, join_clause(text, position)),
{
    lemma_tokens_advance(text, position, TokenType::Join);
    match expect(text, position, TokenType::Join) {
        Ok((_, after1)) => {
            lemma_tokens_advance(text, after1, TokenType::Identifier);
            match expect(text, after1, TokenType::Identifier) {
                Ok((_, after2)) => {
                    lemma_tokens_advance(text, after2, TokenType::On);
                    match expect(text, after2, TokenType::On) {
                        Ok((_, after3)) => {
                            lemma_column_advances(text, after3);
                            match column(text, after3) {
                                Ok((_, after4)) => {
                                    lemma_lex_advances(text, after4);
                                    match operator(text, after4) {
                                        Ok((_, after5)) => lemma_column_advances(text, after5),
                                        Err(_) => {},
                                    }
                                },
                                Err(_) => {},
                            }
                        },
                        Err(_) => {},
                    }
                },
                Err(_) => {},
            }
        },
        Err(_) => {},
    }
}

/// The columns of a `GROUP BY` end at or behind the place where they start.
pub proof fn lemma_group_columns_hold_ground(
    text: Seq<char>,
    position: int,
    columns: Seq<ExpressionView>,
)
    requires
        0 <= position <= text.len(),
    ensures
        holds_ground(
            text,
            position,
            group_columns(text, position, columns),
        ),
    decreases text.len() - position,
{
    lemma_lex_advances(text, position);
    match lex(text, position) {
        Ok((token, _)) => {
            if !(token.kind == TokenType::Order || token.kind == TokenType::Limit || token.kind
                == TokenType::EOF) {
                lemma_column_advances(text, position);
                match column(text, position) {
                    Ok((found, after1)) => {
                        lemma_tokens_advance(text, after1, TokenType::Comma);
                        match accept(text, after1, TokenType::Comma) {
                            Ok((Some(_), after2)) => lemma_group_columns_hold_ground(
                                text,
                                after2,
                                columns.push(ExpressionView::Column(found)),
                            ),
                            _ => {},
                        }
                    },
                    Err(_) => {},
                }
            }
        },
        Err(_) => {},
    }
}

/// A `GROUP BY` takes at least two tokens.
pub proof fn lemma_group_by_clause_advances(text: Seq<char>, position: int)
    requires
        0 <= position <= text.len(),
    ensures
        advances(text, position, group_by_clause(text, position)),
{
    lemma_tokens_advance(text, position, TokenType::Group);
    match expect(text, position, TokenType::Group) {
        Ok((_, after1)) => {
            lemma_tokens_advance(text, after1, TokenType::By);
            match expect(text, after1, TokenType::By) {
                Ok((_, after2)) => lemma_group_columns_hold_ground(text, after2, Seq::empty()),
                Err(_) => {},
            }
        },
        Err(_) => {},
    }
}

/// The columns of an `ORDER BY` end at or behind the place where they start.
pub proof fn lemma_order_columns_hold_ground(
    text: Seq<char>,
    position: int,
    columns: Seq<OrderColumnView>,
)
    requires
        0 <= position <= text.len(),
    ensures
        holds_ground(
            text,
            position,
            order_columns(text, position, columns),
        ),
    decreases text.len() - position,
{
    lemma_lex_advances(text, position);
    match lex(text, position) {
        Ok((token, _)) => {
            if !(token.kind == TokenType::Limit || token.kind == TokenType::EOF) {
                lemma_order_column_advances(text, position);
                match order_column(text, position) {
                    Ok((found, after1)) => {
                        lemma_tokens_advance(text, after1, TokenType::Comma);
                        match accept(text, after1, TokenType::Comma) {
                            Ok((Some(_), after2)) => lemma_order_columns_hold_ground(
                                text,
                                after2,
                                columns.push(found),
                            ),
                            _ => {},
                        }
                    },
                    Err(_) => {},
                }
            }
        },
        Err(_) => {},
    }
}

/// An `ORDER BY` takes at least two tokens.
pub proof fn lemma_order_clause_advances(text: Seq<char>, position: int)
    requires
        0 <= position <= text.len(),
    ensures
        advances(text, position, order_clause(text, position)),
{
    lemma_tokens_advance(text, position, TokenType::Order);
    match expect(text, position, TokenType::Order) {
        Ok((_, after1)) => {
            lemma_tokens_advance(text, after1, TokenType::By);
            match expect(text, after1, TokenType::By) {
                Ok((_, after2)) => lemma_order_columns_hold_ground(text, after2, Seq::empty()),
                Err(_) => {},
            }
        },
        Err(_) => {},
    }
}

/// A `LIMIT` takes at least two tokens.
pub proof fn lemma_limit_clause_advances(text: Seq<char>, position: int)
    requires
        0 <= position <= text.len(),
    ensures
        advances(text, position, limit_clause(text, position)),
{
    lemma_tokens_advance(text, position, TokenType::Limit);
    match expect(text, position, TokenType::Limit) {
        Ok((_, after1)) => {
            lemma_tokens_advance(text, after1, TokenType::Number);
            match number_literal(text, after1) {
                Ok((_, after2)) => {
                    lemma_tokens_advance(text, after2, TokenType::Comma);
                    match accept(text, after2, TokenType::Comma) {
                        Ok((Some(_), after3)) => {
                            lemma_tokens_advance(text, after3, TokenType::Number);
                        },
                        _ => {},
                    }
                },
                Err(_) => {},
            }
        },
        Err(_) => {},
    }
}

/// An aggregate takes at least one token.
pub proof fn lemma_aggregate_clause_advances(text: Seq<char>, position: int)
    requires
        0 <= position <= text.len(),
    ensures
        advances(text, position, aggregate_clause(text, position)),
    decreases text.len() - position, 7nat,
{
    lemma_tokens_advance(text, position, TokenType::Aggregate);
    match expect(text, position, TokenType::Aggregate) {
        Ok((_, after1)) => {
            lemma_lex_advances(text, after1);
            match aggregate_function(text, after1) {
                Ok((_, after2)) => {
                    lemma_tokens_advance(text, after2, TokenType::LeftParen);
                    match expect(text, after2, TokenType::LeftParen) {
                        Ok((_, after3)) => {
                            lemma_expression_advances(text, after3);
                            match expression(text, after3) {
                                Ok((_, after4)) => {
                                    lemma_tokens_advance(text, after4, TokenType::RightParen);
                                    match expect(text, after4, TokenType::RightParen) {
                                        Ok((_, after5)) => lemma_alias_holds_ground(text, after5),
                                        Err(_) => {},
                                    }
                                },
                                Err(_) => {},
                            }
                        },
                        Err(_) => {},
                    }
                },
                Err(_) => {},
            }
        },
        Err(_) => {},
    }
}

/// The items of a select list end at or behind the place where they start.
pub proof fn lemma_select_items_hold_ground(
    text: Seq<char>,
    position: int,
    items: Seq<SelectExpressionView>,
)
    requires
        0 <= position <= text.len(),
    ensures
        holds_ground(text, position, select_items(text, position, items)),
    decreases text.len() - position, 6nat,
{
    lemma_lex_advances(text, position);
    match lex(text, position) {
        Ok((token, _)) => {
            if !(token.kind == TokenType::From || token.kind == TokenType::EOF) {
                lemma_select_expression_advances(text, position);
                match select_expression(text, position) {
                    Ok((item, after1)) => {
                        lemma_tokens_advance(text, after1, TokenType::Comma);
                        match accept(text, after1, TokenType::Comma) {
                            Ok((_, after2)) => lemma_select_items_hold_ground(
                                text,
                                after2,
                                items.push(item),
                            ),
                            Err(_) => {},
                        }
                    },
                    Err(_) => {},
                }
            }
        },
        Err(_) => {},
    }
}

/// A select takes at least one token.
pub proof fn lemma_select_statement_advances(text: Seq<char>, position: int)
    requires
        0 <= position <= text.len(),
    ensures
        advances(text, position, select_statement(text, position)),
    decreases text.len() - position, 7nat,
{
    lemma_tokens_advance(text, position, TokenType::Select);
    match expect(text, position, TokenType::Select) {
        Ok((_, after1)) => {
            lemma_tokens_advance(text, after1, TokenType::Distinct);
            match accept(text, after1, TokenType::Distinct) {
                Ok((_, after2)) => {
                    lemma_select_items_hold_ground(text, after2, Seq::empty());
                    match select_items(text, after2, Seq::empty()) {
                        Ok((_, after3)) => {
                            lemma_lex_advances(text, after3);
                            lemma_from_clause_advances(text, after3);
                        },
                        Err(_) => {},
                    }
                },
                Err(_) => {},
            }
        },
        Err(_) => {},
    }
}

/// An item of a select list takes at least one token.
pub proof fn lemma_select_expression_advances(text: Seq<char>, position: int)
    requires
        0 <= position <= text.len(),
    ensures
        advances(text, position, select_expression(text, position)),
        advancing(text, position, select_expression(text, position)) == select_expression(
            text,
            position,
        ),
    decreases text.len() - position, 5nat,
{
    lemma_expression_advances(text, position);
    match expression(text, position) {
        Ok((_, after1)) => lemma_alias_holds_ground(text, after1),
        Err(_) => {},
    }
}

/// A `WHERE` takes at least one token.
pub proof fn lemma_where_clause_advances(text: Seq<char>, position: int)
    requires
        0 <= position <= text.len(),
    ensures
        advances(text, position, where_clause(text, position)),
    decreases text.len() - position, 7nat,
{
    lemma_tokens_advance(text, position, TokenType::Where);
    match expect(text, position, TokenType::Where) {
        Ok((_, after1)) => lemma_condition_advances(text, after1),
        Err(_) => {},
    }
}

/// A condition takes at least one token.
pub proof fn lemma_condition_advances(text: Seq<char>, position: int)
    requires
        0 <= position <= text.len(),
    ensures
        advances(text, position, condition(text, position)),
    decreases text.len() - position, 6nat,
{
    lemma_expression_advances(text, position);
    match expression(text, position) {
        Ok((_, after1)) => {
            lemma_lex_advances(text, after1);
            match operator(text, after1) {
                Ok((_, after2)) => lemma_expression_advances(text, after2),
                Err(_) => {},
            }
        },
        Err(_) => {},
    }
}

} // verus!
