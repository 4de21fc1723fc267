use hoshi::diagnostics::maneger::{Diagnostic, Severity};
use hoshi::lexer::{Lexer, Token, TokenType};
use hoshi::parser::ast::{
    AggregateFn, BooleanLiteral, ColumnExpression, ConditionExpression, Expression, FromClause,
    Literal, NumberLiteral, Operator, OrderDirection, Program, SelectExpression, SelectStatement,
    Statement, StringLiteral,
};
use hoshi::parser::Parser;
use hoshi::utils::range::Range;
use hoshi::utils::source::Source;

fn parse(raw: &str) -> Result<Program, Diagnostic> {
    let source = Source::new("query.hoshi", raw);
    let mut lexer = Lexer::new(&source);
    let mut parser = Parser::new(&mut lexer);
    parser.parse()
}

fn program(raw: &str) -> Program {
    parse(raw).expect("the text parses")
}

fn render(raw: &str) -> String {
    program(raw).to_sql()
}

fn failure(raw: &str) -> Diagnostic {
    parse(raw).expect_err("the text does not parse")
}

fn identifier(text: &str, start: usize) -> Token {
    Token::new(TokenType::Identifier, Some(text.to_string()), Range::new(start, start + text.len()))
}

fn column(text: &str, start: usize) -> Expression {
    let range = Range::new(start, start + text.len());
    Expression::Column(ColumnExpression::new(None, identifier(text, start), range))
}

#[test]
fn select_from_renders_as_written() {
    assert_eq!(render("SELECT name FROM users"), "SELECT name FROM users");
}

#[test]
fn a_piped_where_is_appended() {
    assert_eq!(
        render("SELECT name FROM users |> WHERE age > 18"),
        "SELECT name FROM users WHERE age > 18"
    );
}

#[test]
fn an_aggregate_piped_onto_from_becomes_a_select() {
    assert_eq!(render("FROM users |> AGGREGATE COUNT(id)"), "SELECT COUNT(id) FROM users");
}

#[test]
fn an_aggregate_piped_onto_another_base_gets_from_in_front() {
    assert_eq!(
        render("SELECT id FROM users |> AGGREGATE SUM(id) AS total"),
        "SELECT SUM(id) AS total FROM SELECT id FROM users"
    );
}

#[test]
fn the_empty_text_is_the_empty_program() {
    assert_eq!(program(""), Program::new(vec![]));
    assert_eq!(program("  \n "), Program::new(vec![]));
    assert_eq!(render(""), "");
}

#[test]
fn select_from_builds_a_select_with_its_from_clause() {
    let mut select = SelectStatement::new(
        false,
        vec![SelectExpression::new(column("name", 7), None, Range::new(7, 11))],
        Range::new(0, 11),
    );
    select.with_from_clause(FromClause::new(identifier("users", 17), Range::new(12, 22)));
    assert_eq!(select.range, Range { start: 0, end: 22 });
    assert_eq!(program("SELECT name FROM users"), Program::new(vec![Statement::Select(select)]));
}

#[test]
fn pipes_nest_to_the_left() {
    let parsed = program("FROM a |> WHERE x = 1 |> LIMIT 5");
    assert_eq!(parsed.statements.len(), 1);
    let Statement::Pipe(outer) = &parsed.statements[0] else {
        panic!("a pipe");
    };
    assert!(matches!(&*outer.right, Statement::Limit(_)));
    let Statement::Pipe(inner) = &*outer.left else {
        panic!("a pipe on the left");
    };
    assert!(matches!(&*inner.left, Statement::From(_)));
    assert!(matches!(&*inner.right, Statement::Where(_)));
    assert_eq!(parsed.statements[0].get_range(), Range { start: 0, end: 32 });
    assert_eq!(outer.get_range(), Range { start: 0, end: 32 });
    assert_eq!(inner.get_range(), Range { start: 0, end: 21 });
    assert_eq!(parsed.to_sql(), "FROM a WHERE x = 1 LIMIT 5");
}

#[test]
fn statements_without_a_pipe_between_them_are_separate() {
    let parsed = program("FROM a; FROM b FROM c;");
    assert_eq!(parsed.statements.len(), 3);
    assert_eq!(parsed.to_sql(), "FROM a FROM b FROM c");
    assert_eq!(
        parsed.statements[1],
        Statement::create_from(identifier("b", 13), Range::new(8, 14))
    );
}

#[test]
fn comments_before_a_statement_are_passed_over() {
    let parsed = program("-- first\n-- second\nFROM a; -- third\nFROM b");
    assert_eq!(parsed.statements.len(), 2);
    assert_eq!(parsed.to_sql(), "FROM a FROM b");
    assert_eq!(parsed.statements[0].get_range(), Range { start: 19, end: 25 });
    assert_eq!(render("SELECT (-- inside\nFROM t)"), "SELECT (FROM t)");
}

#[test]
fn a_comment_must_be_followed_by_a_statement() {
    let error = failure("FROM a -- last");
    assert_eq!(error.message, "unexpected token `end of input`");
    assert_eq!(error.range, Range { start: 14, end: 14 });
    let error = failure("-- only a comment");
    assert_eq!(error.message, "unexpected token `end of input`");
}

#[test]
fn a_comment_inside_a_statement_is_unexpected() {
    let error = failure("SELECT a, -- note\n b FROM t");
    assert_eq!(error.message, "unexpected token `comment`");
    assert_eq!(error.range, Range { start: 10, end: 17 });
    let error = failure("FROM t |> -- note\n WHERE a = 1");
    assert_eq!(error.message, "unexpected token `comment`");
}

#[test]
fn distinct_is_part_of_the_select() {
    let parsed = program("SELECT DISTINCT a, b FROM t");
    let Statement::Select(select) = &parsed.statements[0] else {
        panic!("a select");
    };
    assert!(select.distinct);
    assert_eq!(select.expressions.len(), 2);
    assert_eq!(parsed.to_sql(), "SELECT DISTINCT a, b FROM t");
}

#[test]
fn the_commas_of_a_select_list_may_be_left_out() {
    assert_eq!(render("SELECT a b, c, FROM t"), "SELECT a, b, c FROM t");
}

#[test]
fn a_select_list_runs_up_to_from_or_the_end_of_input() {
    let error = failure("SELECT a |> WHERE a = 1");
    assert_eq!(error.message, "unexpected token `|>`");
    assert_eq!(error.range, Range { start: 9, end: 11 });
    let error = failure("SELECT a; FROM t");
    assert_eq!(error.message, "unexpected token `;`");
    assert_eq!(render("SELECT a FROM t; FROM u"), "SELECT a FROM t FROM u");
}

#[test]
fn a_clause_spans_from_its_first_token_to_its_last() {
    let parsed = program("  SELECT DISTINCT  ");
    assert_eq!(parsed.statements[0].get_range(), Range { start: 2, end: 17 });
    let parsed = program("SELECT a, b,  ");
    assert_eq!(parsed.statements[0].get_range(), Range { start: 0, end: 12 });
    let parsed = program("GROUP BY a,  LIMIT 1");
    assert_eq!(parsed.statements[0].get_range(), Range { start: 0, end: 11 });
    let parsed = program("ORDER BY a DESC ; LIMIT 1");
    assert_eq!(parsed.statements[0].get_range(), Range { start: 0, end: 15 });
    let parsed = program("FROM t |> AGGREGATE MAX ( x ) |> LIMIT 1");
    let Statement::Pipe(outer) = &parsed.statements[0] else {
        panic!("a pipe");
    };
    let Statement::Pipe(inner) = &*outer.left else {
        panic!("a pipe");
    };
    assert_eq!(inner.right.get_range(), Range { start: 10, end: 29 });
    let parsed = program("WHERE a = f( 1 )  ");
    assert_eq!(parsed.statements[0].get_range(), Range { start: 0, end: 16 });
    let parsed = program("JOIN t ON a.b = c.d  ");
    assert_eq!(parsed.statements[0].get_range(), Range { start: 0, end: 19 });
    let parsed = program("LIMIT 1 , 2  ");
    assert_eq!(parsed.statements[0].get_range(), Range { start: 0, end: 11 });
}

#[test]
fn a_select_list_may_be_empty() {
    let parsed = program("SELECT FROM t");
    let Statement::Select(select) = &parsed.statements[0] else {
        panic!("a select");
    };
    assert!(select.expressions.is_empty());
    assert_eq!(select.range, Range { start: 0, end: 13 });
    assert_eq!(parsed.to_sql(), "SELECT  FROM t");
    let parsed = program("SELECT");
    assert_eq!(parsed.statements[0].get_range(), Range { start: 0, end: 6 });
    assert_eq!(parsed.to_sql(), "SELECT ");
}

#[test]
fn an_alias_extends_the_range_of_its_expression() {
    let parsed = program("SELECT a AS b");
    let Statement::Select(select) = &parsed.statements[0] else {
        panic!("a select");
    };
    let item = &select.expressions[0];
    assert_eq!(item.alias, Some(identifier("b", 12)));
    assert_eq!(item.range, Range { start: 7, end: 13 });
    assert_eq!(item.get_range(), Range { start: 7, end: 13 });
    assert_eq!(item.expression.get_range(), Range { start: 7, end: 8 });
    assert_eq!(select.get_range(), Range { start: 0, end: 13 });
    assert_eq!(parsed.to_sql(), "SELECT a AS b");
}

#[test]
fn literals_are_expressions() {
    let parsed = program("SELECT 1.5, 'x', \"y\", true, false");
    let Statement::Select(select) = &parsed.statements[0] else {
        panic!("a select");
    };
    let found: Vec<&Expression> = select.expressions.iter().map(|e| &e.expression).collect();
    assert_eq!(
        found,
        vec![
            &Expression::Literal(Literal::Number(NumberLiteral::new("1.5".to_string(), Range::new(7, 10)))),
            &Expression::Literal(Literal::String(StringLiteral::new("x".to_string(), Range::new(12, 15)))),
            &Expression::Literal(Literal::String(StringLiteral::new("y".to_string(), Range::new(17, 20)))),
            &Expression::Literal(Literal::Boolean(BooleanLiteral::new(true, Range::new(22, 26)))),
            &Expression::Literal(Literal::Boolean(BooleanLiteral::new(false, Range::new(28, 33)))),
        ]
    );
    assert_eq!(parsed.to_sql(), "SELECT 1.5, 'x', 'y', true, false");
}

#[test]
fn a_qualified_column_keeps_the_order_in_which_it_was_written() {
    let parsed = program("SELECT users.name");
    let Statement::Select(select) = &parsed.statements[0] else {
        panic!("a select");
    };
    let Expression::Column(column) = &select.expressions[0].expression else {
        panic!("a column");
    };
    assert_eq!(column.column, identifier("users", 7));
    assert_eq!(column.table, Some(identifier("name", 13)));
    assert_eq!(column.range, Range { start: 7, end: 17 });
    assert_eq!(column.get_range(), Range { start: 7, end: 17 });
    assert_eq!(parsed.to_sql(), "SELECT users.name");
}

#[test]
fn a_call_spans_from_its_name_to_its_closing_parenthesis() {
    let parsed = program("SELECT now(), f(a, 1 'x')");
    let Statement::Select(select) = &parsed.statements[0] else {
        panic!("a select");
    };
    let Expression::FunctionCall(now) = &select.expressions[0].expression else {
        panic!("a call");
    };
    assert_eq!(now.function_name, identifier("now", 7));
    assert!(now.arguments.is_empty());
    assert_eq!(now.get_range(), Range { start: 7, end: 12 });
    let Expression::FunctionCall(call) = &select.expressions[1].expression else {
        panic!("a call");
    };
    assert_eq!(call.arguments.len(), 3);
    assert_eq!(call.get_range(), Range { start: 14, end: 25 });
    assert_eq!(parsed.to_sql(), "SELECT now(), f(a, 1, 'x')");
}

#[test]
fn a_subquery_is_a_statement_in_parentheses() {
    let parsed = program("SELECT (FROM t |> AGGREGATE MAX(x)) AS top FROM u");
    let Statement::Select(select) = &parsed.statements[0] else {
        panic!("a select");
    };
    let Expression::Subquery(subquery) = &select.expressions[0].expression else {
        panic!("a subquery");
    };
    assert!(matches!(&*subquery.stmt, Statement::Pipe(_)));
    assert_eq!(subquery.get_range(), Range { start: 7, end: 35 });
    assert_eq!(parsed.to_sql(), "SELECT (SELECT MAX(x) FROM t) AS top FROM u");
}

#[test]
fn a_join_has_a_table_and_a_condition_on_columns() {
    let parsed = program("FROM a |> JOIN b ON a.id = b.a_id");
    let Statement::Pipe(pipe) = &parsed.statements[0] else {
        panic!("a pipe");
    };
    let Statement::Join(join) = &*pipe.right else {
        panic!("a join");
    };
    assert_eq!(join.table, identifier("b", 15));
    assert_eq!(join.on.operator, Operator::Equal);
    assert_eq!(join.range, Range { start: 10, end: 33 });
    assert_eq!(join.get_range(), Range { start: 10, end: 33 });
    assert_eq!(join.on.get_range(), Range { start: 20, end: 33 });
    assert_eq!(parsed.to_sql(), "FROM a JOIN b ON a.id = b.a_id");
    let error = failure("JOIN b ON 1 = 2");
    assert_eq!(error.message, "expected `identifier` but found `number`");
    assert_eq!(error.range, Range { start: 10, end: 11 });
}

#[test]
fn every_operator_of_a_condition() {
    let table = [
        ("=", Operator::Equal),
        ("!=", Operator::NotEqual),
        ("<", Operator::LessThan),
        (">", Operator::GreaterThan),
        ("<=", Operator::LessThanOrEqual),
        (">=", Operator::GreaterThanOrEqual),
        ("AND", Operator::And),
        ("OR", Operator::Or),
    ];
    for (symbol, operator) in table {
        let text = format!("WHERE a {symbol} 1");
        let parsed = program(&text);
        let Statement::Where(filter) = &parsed.statements[0] else {
            panic!("a where");
        };
        let Expression::Condition(condition) = &filter.condition else {
            panic!("a condition");
        };
        assert_eq!(condition.operator, operator);
        assert_eq!(filter.range, Range { start: 0, end: text.len() });
        assert_eq!(parsed.to_sql(), text);
    }
}

#[test]
fn a_condition_has_exactly_one_operator() {
    let error = failure("WHERE a");
    assert_eq!(error.message, "unexpected token `end of input`");
    assert_eq!(error.range, Range { start: 7, end: 7 });
    let error = failure("WHERE a + 1");
    assert_eq!(error.message, "unexpected token `+`");
    assert_eq!(error.range, Range { start: 8, end: 9 });
    let error = failure("WHERE a = 1 AND b = 2");
    assert_eq!(error.message, "unexpected token `AND`");
    assert_eq!(error.range, Range { start: 12, end: 15 });
}

#[test]
fn group_by_takes_columns_separated_by_commas() {
    let parsed = program("GROUP BY a, b.c");
    let Statement::GroupBy(group_by) = &parsed.statements[0] else {
        panic!("a group by");
    };
    assert_eq!(group_by.columns.len(), 2);
    assert_eq!(group_by.columns[0], column("a", 9));
    assert_eq!(group_by.range, Range { start: 0, end: 15 });
    assert_eq!(parsed.to_sql(), "GROUP BY a, b.c");
}

#[test]
fn group_by_may_be_empty_before_order_limit_and_the_end() {
    for text in ["GROUP BY", "GROUP BY ORDER BY a", "GROUP BY LIMIT 1"] {
        let parsed = program(text);
        let Statement::GroupBy(group_by) = &parsed.statements[0] else {
            panic!("a group by");
        };
        assert!(group_by.columns.is_empty(), "{text}");
        assert_eq!(group_by.range, Range { start: 0, end: 8 });
    }
    let error = failure("GROUP BY |> LIMIT 1");
    assert_eq!(error.message, "expected `identifier` but found `|>`");
}

#[test]
fn order_by_takes_columns_with_a_direction() {
    let parsed = program("ORDER BY a, b DESC, c ASC");
    let Statement::Order(order) = &parsed.statements[0] else {
        panic!("an order by");
    };
    let found: Vec<OrderDirection> = order.columns.iter().map(|c| c.direction).collect();
    assert_eq!(found, vec![OrderDirection::Asc, OrderDirection::Desc, OrderDirection::Asc]);
    assert_eq!(order.columns[1].get_range(), Range { start: 12, end: 13 });
    assert_eq!(order.range, Range { start: 0, end: 25 });
    assert_eq!(parsed.to_sql(), "ORDER BY a ASC, b DESC, c ASC");
    let parsed = program("ORDER BY LIMIT 3");
    assert_eq!(parsed.statements[0].get_range(), Range { start: 0, end: 8 });
    assert_eq!(parsed.to_sql(), "ORDER BY  LIMIT 3");
}

#[test]
fn limit_takes_a_count_and_an_offset() {
    let parsed = program("LIMIT 10");
    let Statement::Limit(limit) = &parsed.statements[0] else {
        panic!("a limit");
    };
    assert_eq!(limit.count, NumberLiteral::new("10".to_string(), Range::new(6, 8)));
    assert_eq!(limit.offset, None);
    assert_eq!(limit.range, Range { start: 0, end: 8 });
    let parsed = program("LIMIT 10, 20");
    let Statement::Limit(limit) = &parsed.statements[0] else {
        panic!("a limit");
    };
    assert_eq!(limit.offset, Some(NumberLiteral::new("20".to_string(), Range::new(10, 12))));
    assert_eq!(limit.get_range(), Range { start: 0, end: 12 });
    assert_eq!(parsed.to_sql(), "LIMIT 10, 20");
    let error = failure("LIMIT x");
    assert_eq!(error.message, "expected `number` but found `identifier`");
    assert_eq!(error.range, Range { start: 6, end: 7 });
}

#[test]
fn an_aggregate_has_a_function_an_argument_and_an_alias() {
    let parsed = program("AGGREGATE SUM(price) AS total");
    let Statement::Aggregate(aggregate) = &parsed.statements[0] else {
        panic!("an aggregate");
    };
    assert_eq!(aggregate.function, AggregateFn::Sum);
    assert_eq!(aggregate.argument, column("price", 14));
    assert_eq!(aggregate.alias, Some(identifier("total", 24)));
    assert_eq!(aggregate.range, Range { start: 0, end: 29 });
    assert_eq!(parsed.to_sql(), "SUM(price) AS total");
    let parsed = program("AGGREGATE COUNT(id)  ");
    assert_eq!(parsed.statements[0].get_range(), Range { start: 0, end: 19 });
}

#[test]
fn the_functions_that_aggregate_accepts() {
    let accepted = [
        ("COUNT", AggregateFn::Count),
        ("SUM", AggregateFn::Sum),
        ("AVG", AggregateFn::Avg),
        ("MIN", AggregateFn::Min),
        ("MAX", AggregateFn::Max),
        ("STDDEV", AggregateFn::StdDev),
        ("STDDEV_POP", AggregateFn::StdDevPop),
        ("STDDEV_SAMP", AggregateFn::StdDevSamp),
        ("VAR_POP", AggregateFn::VarPop),
        ("VAR_SAMP", AggregateFn::VarSamp),
        ("VARIANCE", AggregateFn::Variance),
        ("FIRST", AggregateFn::First),
        ("LAST", AggregateFn::Last),
        ("STRING_AGG", AggregateFn::StringAgg),
        ("MEDIAN", AggregateFn::Median),
        ("MODE", AggregateFn::Mode),
        ("ARRAY_AGG", AggregateFn::ArrayAgg),
        ("JSON_AGG", AggregateFn::JsonAgg),
        ("BIT_AND", AggregateFn::BitAnd),
        ("BIT_OR", AggregateFn::BitOr),
        ("BOOL_AND", AggregateFn::BoolAnd),
        ("BOOL_OR", AggregateFn::BoolOr),
    ];
    for (name, function) in accepted {
        let text = format!("FROM t |> AGGREGATE {name}(x)");
        let parsed = program(&text);
        let Statement::Pipe(pipe) = &parsed.statements[0] else {
            panic!("a pipe");
        };
        let Statement::Aggregate(aggregate) = &*pipe.right else {
            panic!("an aggregate");
        };
        assert_eq!(aggregate.function, function);
        assert_eq!(parsed.to_sql(), format!("SELECT {name}(x) FROM t"));
    }
    for name in ["GROUP_CONCAT", "JSON_OBJECT_AGG", "total", "SELECT"] {
        let error = failure(&format!("AGGREGATE {name}(x)"));
        assert!(error.message.starts_with("unexpected token `"), "{}", error.message);
        assert_eq!(error.range, Range { start: 10, end: 10 + name.len() });
    }
}

#[test]
fn a_statement_starts_with_the_keyword_of_a_stage() {
    let error = failure("users");
    assert_eq!(error.message, "unexpected token `identifier`");
    assert_eq!(error.range, Range { start: 0, end: 5 });
    assert_eq!(error.severity, Severity::Error);
    assert_eq!(error.hint, None);
    let error = failure("FROM t |>");
    assert_eq!(error.message, "unexpected token `end of input`");
    assert_eq!(error.range, Range { start: 9, end: 9 });
    let error = failure("FROM t )");
    assert_eq!(error.message, "unexpected token `)`");
}

#[test]
fn a_missing_token_is_named_with_what_was_found() {
    let error = failure("FROM");
    assert_eq!(error.message, "expected `identifier` but found `end of input`");
    assert_eq!(error.range, Range { start: 4, end: 4 });
    let error = failure("FROM SELECT");
    assert_eq!(error.message, "expected `identifier` but found `SELECT`");
    assert_eq!(error.range, Range { start: 5, end: 11 });
    let error = failure("SELECT f(a");
    assert_eq!(error.message, "expected `)` but found `end of input`");
    assert_eq!(error.range, Range { start: 10, end: 10 });
    let error = failure("SELECT f(a FROM t");
    assert_eq!(error.message, "unexpected token `FROM`");
    let error = failure("GROUP a");
    assert_eq!(error.message, "expected `BY` but found `identifier`");
    let error = failure("SELECT a AS 1");
    assert_eq!(error.message, "expected `identifier` but found `number`");
    let error = failure("AGGREGATE COUNT x");
    assert_eq!(error.message, "expected `(` but found `identifier`");
    let error = failure("SELECT a.1");
    assert_eq!(error.message, "expected `identifier` but found `number`");
}

#[test]
fn the_first_failure_in_the_order_of_the_text_is_reported() {
    let error = failure("FROM 'open");
    assert_eq!(error.message, "unterminated string literal");
    assert_eq!(error.range, Range { start: 5, end: 10 });
    let error = failure("FROM FROM #");
    assert_eq!(error.message, "expected `identifier` but found `FROM`");
    let error = failure("FROM t # FROM");
    assert_eq!(error.message, "unexpected character '#'");
    assert_eq!(error.range, Range { start: 7, end: 7 });
}

#[test]
fn a_condition_is_built_from_its_sides() {
    let parsed = program("WHERE age >= 18");
    let expected = Statement::create_where(
        Expression::create_condition(
            column("age", 6),
            Operator::GreaterThanOrEqual,
            Expression::create_literal(Literal::create_number("18".to_string(), Range::new(13, 15))),
        ),
        Range::new(0, 15),
    );
    assert_eq!(parsed, Program::new(vec![expected]));
    let Statement::Where(filter) = &parsed.statements[0] else {
        panic!("a where");
    };
    assert_eq!(filter.condition.get_range(), Range { start: 6, end: 15 });
    let condition = ConditionExpression::new(column("a", 0), Operator::Or, column("b", 5));
    assert_eq!(condition.get_range(), Range { start: 0, end: 6 });
}

#[test]
fn a_program_can_be_copied() {
    let parsed = program(
        "SELECT DISTINCT a AS x, f(1, 'two', true), (FROM t |> AGGREGATE COUNT(id) AS n) FROM u \
         |> JOIN v ON u.id = v.id |> WHERE a != b |> GROUP BY a, b |> ORDER BY a DESC |> LIMIT 1, 2",
    );
    let copy = parsed.clone();
    assert_eq!(copy, parsed);
    assert_eq!(copy.to_sql(), parsed.to_sql());
    assert_eq!(copy.statements[0].clone(), parsed.statements[0]);
    let Statement::Pipe(pipe) = &parsed.statements[0] else {
        panic!("a pipe");
    };
    assert_eq!(&pipe.clone(), pipe);
    assert_eq!(pipe.right.clone(), pipe.right);
}

#[test]
fn the_parser_hands_out_the_source_of_its_lexer() {
    let source = Source::new("dir/query.hoshi", "FROM t");
    let mut lexer = Lexer::new(&source);
    let parser = Parser::new(&mut lexer);
    assert_eq!(parser.get_source().path, "dir/query.hoshi");
    assert_eq!(parser.get_source().raw, "FROM t");
}

#[test]
fn parsing_goes_on_where_the_lexer_stands() {
    let source = Source::new("query.hoshi", "FROM a FROM b");
    let mut lexer = Lexer::new(&source);
    lexer.next_token().unwrap();
    lexer.next_token().unwrap();
    lexer.peek_token().unwrap();
    let mut parser = Parser::new(&mut lexer);
    assert_eq!(parser.parse().unwrap().to_sql(), "FROM b");
}
