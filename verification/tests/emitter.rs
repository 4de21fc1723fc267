use hoshi::emiter::{join_strings, starts_with_from};
use hoshi::lexer::{Token, TokenType};
use hoshi::parser::ast::{
    AggregateClause, AggregateFn, BooleanLiteral, ColumnExpression, ConditionExpression,
    Expression, FromClause, FunctionCallExpression, GroupByClause, JoinClause, LimitClause,
    Literal, NumberLiteral, Operator, OrderClause, OrderColumn, OrderDirection, PipeStatement,
    Program, SelectExpression, SelectStatement, Statement, StringLiteral, SubqueryExpression,
    WhereClause,
};
use hoshi::utils::range::Range;

fn at() -> Range {
    Range::new(0, 0)
}

fn identifier(text: &str) -> Token {
    Token::new(TokenType::Identifier, Some(text.to_string()), at())
}

fn column(text: &str) -> Expression {
    Expression::create_column(None, identifier(text))
}

fn number(text: &str) -> NumberLiteral {
    NumberLiteral::new(text.to_string(), at())
}

fn from(table: &str) -> Statement {
    Statement::create_from(identifier(table), at())
}

fn count_of(name: &str, alias: Option<&str>) -> AggregateClause {
    AggregateClause::new(AggregateFn::Count, column(name), alias.map(identifier), at())
}

#[test]
fn a_program_joins_its_statements_with_one_space() {
    assert_eq!(Program::new(vec![]).to_sql(), "");
    assert_eq!(Program::new(vec![from("a")]).to_sql(), "FROM a");
    assert_eq!(Program::new(vec![from("a"), from("b"), from("c")]).to_sql(), "FROM a FROM b FROM c");
}

#[test]
fn a_pipe_appends_its_right_side_after_one_space() {
    let filter = Statement::create_where(
        Expression::create_condition(
            column("age"),
            Operator::GreaterThan,
            Expression::create_literal(Literal::create_number("18".to_string(), at())),
        ),
        at(),
    );
    assert_eq!(Statement::create_pipe(from("users"), filter).to_sql(), "FROM users WHERE age > 18");
    let select = Statement::create_select(false, vec![SelectExpression::new(column("a"), None, at())], at());
    assert_eq!(Statement::create_pipe(from("t"), select).to_sql(), "FROM t SELECT a");
    assert_eq!(PipeStatement::new(from("a"), from("b")).to_sql(), "FROM a FROM b");
}

#[test]
fn an_aggregate_wraps_a_base_that_starts_with_from() {
    let aggregate = count_of("id", None);
    assert_eq!(aggregate.emit(), "COUNT(id)");
    assert_eq!(aggregate.emit_with_base("FROM users".to_string()), "SELECT COUNT(id) FROM users");
    assert_eq!(
        aggregate.emit_with_base("FROM a JOIN b ON x = y".to_string()),
        "SELECT COUNT(id) FROM a JOIN b ON x = y"
    );
    assert_eq!(aggregate.emit_with_base("FROMAGE".to_string()), "SELECT COUNT(id) FROMAGE");
}

#[test]
fn an_aggregate_puts_from_before_any_other_base() {
    let aggregate = count_of("id", Some("n"));
    assert_eq!(aggregate.emit(), "COUNT(id) AS n");
    assert_eq!(aggregate.emit_with_base("users".to_string()), "SELECT COUNT(id) AS n FROM users");
    assert_eq!(aggregate.emit_with_base("".to_string()), "SELECT COUNT(id) AS n FROM ");
    assert_eq!(aggregate.emit_with_base("from t".to_string()), "SELECT COUNT(id) AS n FROM from t");
    assert_eq!(aggregate.emit_with_base(" FROM t".to_string()), "SELECT COUNT(id) AS n FROM  FROM t");
    assert_eq!(aggregate.emit_with_base("FRO".to_string()), "SELECT COUNT(id) AS n FROM FRO");
}

#[test]
fn a_piped_aggregate_uses_the_rendered_left_side_as_its_base() {
    let piped = Statement::create_pipe(from("users"), Statement::Aggregate(count_of("id", None)));
    assert_eq!(piped.to_sql(), "SELECT COUNT(id) FROM users");
    let twice = Statement::create_pipe(piped, Statement::Aggregate(count_of("n", None)));
    assert_eq!(twice.to_sql(), "SELECT COUNT(n) FROM SELECT COUNT(id) FROM users");
    assert_eq!(Statement::Aggregate(count_of("id", None)).to_sql(), "COUNT(id)");
}

#[test]
fn the_prefix_test_looks_at_the_first_four_characters() {
    assert!(starts_with_from("FROM"));
    assert!(starts_with_from("FROM t"));
    assert!(starts_with_from("FROMé"));
    assert!(!starts_with_from(""));
    assert!(!starts_with_from("FRO"));
    assert!(!starts_with_from(" FROM"));
    assert!(!starts_with_from("fROM t"));
    assert!(!starts_with_from("éFROM"));
}

#[test]
fn every_aggregate_function_has_its_name() {
    let table = [
        (AggregateFn::Count, "COUNT"),
        (AggregateFn::Sum, "SUM"),
        (AggregateFn::Avg, "AVG"),
        (AggregateFn::Min, "MIN"),
        (AggregateFn::Max, "MAX"),
        (AggregateFn::StdDev, "STDDEV"),
        (AggregateFn::StdDevPop, "STDDEV_POP"),
        (AggregateFn::StdDevSamp, "STDDEV_SAMP"),
        (AggregateFn::VarPop, "VAR_POP"),
        (AggregateFn::VarSamp, "VAR_SAMP"),
        (AggregateFn::Variance, "VARIANCE"),
        (AggregateFn::First, "FIRST"),
        (AggregateFn::Last, "LAST"),
        (AggregateFn::GroupConcat, "GROUP_CONCAT"),
        (AggregateFn::StringAgg, "STRING_AGG"),
        (AggregateFn::Median, "MEDIAN"),
        (AggregateFn::Mode, "MODE"),
        (AggregateFn::ArrayAgg, "ARRAY_AGG"),
        (AggregateFn::JsonAgg, "JSON_AGG"),
        (AggregateFn::JsonObjectAgg, "JSON_OBJECT_AGG"),
        (AggregateFn::BitAnd, "BIT_AND"),
        (AggregateFn::BitOr, "BIT_OR"),
        (AggregateFn::BoolAnd, "BOOL_AND"),
        (AggregateFn::BoolOr, "BOOL_OR"),
    ];
    for (function, name) in table {
        assert_eq!(function.emit(), name);
    }
}

#[test]
fn every_operator_has_its_symbol() {
    let table = [
        (Operator::Equal, "="),
        (Operator::NotEqual, "!="),
        (Operator::LessThan, "<"),
        (Operator::GreaterThan, ">"),
        (Operator::LessThanOrEqual, "<="),
        (Operator::GreaterThanOrEqual, ">="),
        (Operator::And, "AND"),
        (Operator::Or, "OR"),
    ];
    for (operator, symbol) in table {
        assert_eq!(operator.emit(), symbol);
        let condition = ConditionExpression::new(column("a"), operator, column("b"));
        assert_eq!(condition.emit(), format!("a {symbol} b"));
    }
    assert_eq!(OrderDirection::Asc.emit(), "ASC");
    assert_eq!(OrderDirection::Desc.emit(), "DESC");
}

#[test]
fn a_select_lists_its_expressions() {
    let items = vec![
        SelectExpression::new(column("a"), None, at()),
        SelectExpression::new(column("b"), Some(identifier("c")), at()),
    ];
    assert_eq!(SelectStatement::new(false, items, at()).emit(), "SELECT a, b AS c");
    let one = vec![SelectExpression::new(column("a"), None, at())];
    let mut select = SelectStatement::new(true, one, at());
    assert_eq!(select.emit(), "SELECT DISTINCT a");
    select.with_from_clause(FromClause::new(identifier("t"), at()));
    assert_eq!(select.emit(), "SELECT DISTINCT a FROM t");
    assert_eq!(SelectStatement::new(false, vec![], at()).emit(), "SELECT ");
    assert_eq!(SelectExpression::new(column("x"), Some(identifier("y")), at()).emit(), "x AS y");
}

#[test]
fn a_qualified_column_renders_the_column_before_the_qualifier() {
    let qualified = ColumnExpression::new(Some(identifier("users")), identifier("name"), at());
    assert_eq!(qualified.emit(), "name.users");
    assert_eq!(ColumnExpression::new(None, identifier("name"), at()).emit(), "name");
    assert_eq!(Expression::create_column(Some(identifier("t")), identifier("c")).emit(), "c.t");
}

#[test]
fn a_token_without_text_renders_as_nothing() {
    let keyword = Token::create_simple_token(TokenType::Select, at());
    assert_eq!(FromClause::new(keyword.clone(), at()).emit(), "FROM ");
    assert_eq!(ColumnExpression::new(None, keyword, at()).emit(), "");
}

#[test]
fn literals_render_their_values() {
    assert_eq!(StringLiteral::new("it".to_string(), at()).emit(), "'it'");
    assert_eq!(StringLiteral::new("".to_string(), at()).emit(), "''");
    assert_eq!(number("3.50").emit(), "3.50");
    assert_eq!(BooleanLiteral::new(true, at()).emit(), "true");
    assert_eq!(BooleanLiteral::new(false, at()).emit(), "false");
    assert_eq!(Literal::create_string("a b".to_string(), at()).emit(), "'a b'");
    assert_eq!(Literal::create_number("7".to_string(), at()).emit(), "7");
    assert_eq!(Literal::create_boolean(true, at()).emit(), "true");
    let literal = Literal::create_boolean(false, Range::new(2, 7));
    assert_eq!(literal.get_range(), Range { start: 2, end: 7 });
}

#[test]
fn clauses_render_their_keyword_first() {
    let condition = ConditionExpression::new(column("a"), Operator::Equal, column("b"));
    assert_eq!(JoinClause::new(identifier("t"), condition, at()).emit(), "JOIN t ON a = b");
    assert_eq!(WhereClause::new(column("flag"), at()).emit(), "WHERE flag");
    assert_eq!(GroupByClause::new(vec![column("a"), column("b")], at()).emit(), "GROUP BY a, b");
    assert_eq!(GroupByClause::new(vec![], at()).emit(), "GROUP BY ");
    let order = vec![
        OrderColumn::new(column("a"), OrderDirection::Asc),
        OrderColumn::new(column("b"), OrderDirection::Desc),
    ];
    assert_eq!(OrderClause::new(order, at()).emit(), "ORDER BY a ASC, b DESC");
    assert_eq!(OrderColumn::new(column("z"), OrderDirection::Desc).emit(), "z DESC");
    assert_eq!(LimitClause::new(number("10"), None, at()).emit(), "LIMIT 10");
    assert_eq!(LimitClause::new(number("10"), Some(number("5")), at()).emit(), "LIMIT 10, 5");
    assert_eq!(FromClause::new(identifier("users"), at()).emit(), "FROM users");
}

#[test]
fn calls_and_subqueries_render_in_parentheses() {
    let call = FunctionCallExpression::new(identifier("f"), vec![column("a"), column("b")], at());
    assert_eq!(call.emit(), "f(a, b)");
    assert_eq!(FunctionCallExpression::new(identifier("now"), vec![], at()).emit(), "now()");
    assert_eq!(SubqueryExpression::new(from("t"), at()).emit(), "(FROM t)");
    let nested = Expression::create_subquery(
        Statement::create_pipe(from("t"), Statement::Aggregate(count_of("x", None))),
        at(),
    );
    assert_eq!(nested.emit(), "(SELECT COUNT(x) FROM t)");
    let call = Expression::create_function_call(identifier("g"), vec![nested], Range::new(1, 9));
    assert_eq!(call.emit(), "g((SELECT COUNT(x) FROM t))");
    assert_eq!(call.get_range(), Range { start: 1, end: 9 });
    assert_eq!(Statement::Expression(column("a")).to_sql(), "a");
}

#[test]
fn every_kind_of_statement_renders_through_to_sql() {
    let group = Statement::create_group_by(vec![column("a")], at());
    let order = Statement::create_order(vec![OrderColumn::new(column("a"), OrderDirection::Asc)], at());
    let limit = Statement::create_limit(number("1"), None, at());
    let condition = ConditionExpression::new(column("a"), Operator::Equal, column("b"));
    let join = Statement::create_join(identifier("t"), condition, at());
    assert_eq!(group.to_sql(), "GROUP BY a");
    assert_eq!(order.to_sql(), "ORDER BY a ASC");
    assert_eq!(limit.to_sql(), "LIMIT 1");
    assert_eq!(join.to_sql(), "JOIN t ON a = b");
    let chain = Statement::create_pipe(
        Statement::create_pipe(Statement::create_pipe(from("x"), join), group),
        Statement::create_pipe(order, limit),
    );
    assert_eq!(chain.to_sql(), "FROM x JOIN t ON a = b GROUP BY a ORDER BY a ASC LIMIT 1");
}

#[test]
fn parts_are_joined_with_the_separator_between_them() {
    let parts = vec!["a".to_string(), "".to_string(), "c".to_string()];
    assert_eq!(join_strings(&parts, ", "), "a, , c");
    assert_eq!(join_strings(&parts, ""), "ac");
    assert_eq!(join_strings(&vec![], ", "), "");
    assert_eq!(join_strings(&vec!["only".to_string()], ", "), "only");
}

#[test]
fn ranges_of_hand_built_nodes() {
    let table = Token::new(TokenType::Identifier, Some("t".to_string()), Range::new(5, 6));
    let clause = FromClause::new(table.clone(), Range::new(0, 6));
    assert_eq!(clause.get_range(), Range { start: 0, end: 6 });
    assert_eq!(Statement::From(clause).get_range(), Range { start: 0, end: 6 });
    let qualifier = Token::new(TokenType::Identifier, Some("q".to_string()), Range::new(2, 3));
    let built = Expression::create_column(Some(qualifier), table);
    assert_eq!(built.get_range(), Range { start: 2, end: 6 });
    let pipe = PipeStatement::new(
        Statement::create_limit(number("1"), None, Range::new(0, 7)),
        Statement::create_limit(number("2"), None, Range::new(11, 18)),
    );
    assert_eq!(pipe.get_range(), Range { start: 0, end: 18 });
    let ordered = OrderColumn::new(Expression::create_column(None, identifier("a")), OrderDirection::Asc);
    assert_eq!(ordered.get_range(), Range { start: 0, end: 0 });
    assert_eq!(AggregateClause::new(AggregateFn::Min, column("a"), None, Range::new(1, 2)).get_range(), Range { start: 1, end: 2 });
    assert_eq!(WhereClause::new(column("a"), Range::new(3, 4)).get_range(), Range { start: 3, end: 4 });
    assert_eq!(GroupByClause::new(vec![], Range::new(5, 6)).get_range(), Range { start: 5, end: 6 });
    assert_eq!(OrderClause::new(vec![], Range::new(7, 8)).get_range(), Range { start: 7, end: 8 });
    assert_eq!(SubqueryExpression::new(from("t"), Range::new(9, 10)).get_range(), Range { start: 9, end: 10 });
}
