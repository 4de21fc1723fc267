use hoshi::checker::{contains_name, contains_text, Checker};
use hoshi::diagnostics::maneger::{Diagnostic, Severity};
use hoshi::lexer::Lexer;
use hoshi::parser::ast::Program;
use hoshi::parser::Parser;
use hoshi::utils::range::Range;
use hoshi::utils::source::Source;

fn program(raw: &str) -> Program {
    let source = Source::new("query.hoshi", raw);
    let mut lexer = Lexer::new(&source);
    let mut parser = Parser::new(&mut lexer);
    parser.parse().expect("the text parses")
}

fn check(raw: &str) -> Checker {
    let mut checker = Checker::new();
    checker.check(&program(raw));
    checker
}

fn found(raw: &str) -> Vec<(String, Severity, Range)> {
    check(raw).get_diagnostics().into_iter().map(|d| (d.message, d.severity, d.range)).collect()
}

fn messages(raw: &str) -> Vec<String> {
    found(raw).into_iter().map(|d| d.0).collect()
}

#[test]
fn a_fresh_checker_has_found_nothing() {
    let checker = Checker::new();
    assert!(checker.get_diagnostics().is_empty());
    assert!(!checker.contains_error());
}

#[test]
fn a_sound_query_raises_nothing() {
    assert!(found("SELECT name FROM users |> WHERE age > 18").is_empty());
    assert!(found("FROM users |> AGGREGATE COUNT(id)").is_empty());
    assert!(found("").is_empty());
    assert!(found("ORDER BY a; LIMIT 1; FROM t |> JOIN t ON a = b").is_empty());
}

#[test]
fn a_column_selected_twice_is_a_duplicate_across_the_whole_program() {
    let diagnostics = found("SELECT id FROM a; SELECT id FROM b");
    assert_eq!(
        diagnostics,
        vec![("duplicate column".to_string(), Severity::Warning, Range { start: 25, end: 27 })]
    );
    assert!(!check("SELECT id FROM a; SELECT id FROM b").contains_error());
    let diagnostics = check("SELECT id FROM a; SELECT id FROM b").get_diagnostics();
    assert_eq!(diagnostics[0].hint.as_deref(), Some("remove or rename the duplicate column"));
}

#[test]
fn a_column_named_twice_in_one_list_is_a_duplicate() {
    assert_eq!(
        found("SELECT a, b, a, a"),
        vec![
            ("duplicate column".to_string(), Severity::Warning, Range { start: 13, end: 14 }),
            ("duplicate column".to_string(), Severity::Warning, Range { start: 16, end: 17 }),
        ]
    );
}

#[test]
fn only_plain_columns_count_as_duplicates() {
    assert!(found("SELECT a, f(a), (FROM a), 1, 1, 'a', 'a'").is_empty());
    assert_eq!(messages("SELECT a.x, a.y"), vec!["duplicate column"]);
    assert_eq!(found("SELECT a.x, a.y")[0].2, Range { start: 12, end: 15 });
    assert!(found("SELECT x.a, y.a").is_empty());
    assert_eq!(messages("SELECT a AS x, a AS y"), vec!["duplicate column"]);
}

#[test]
fn columns_of_both_sides_of_a_pipe_are_seen() {
    assert_eq!(messages("SELECT id FROM t |> SELECT id"), vec!["duplicate column"]);
    assert_eq!(messages("SELECT id FROM t |> WHERE a = 1 |> SELECT id"), vec!["duplicate column"]);
    assert_eq!(messages("FROM t |> FROM u |> FROM t"), vec!["duplicate column"]);
}

#[test]
fn a_select_in_a_subquery_is_not_visited() {
    assert!(found("SELECT id, (SELECT id FROM t)").is_empty());
    assert!(found("FROM t; SELECT (FROM t)").is_empty());
}

#[test]
fn an_empty_select_list_is_an_error() {
    let diagnostics = found("SELECT FROM t");
    assert_eq!(
        diagnostics,
        vec![("missing `SELECT` clause".to_string(), Severity::Error, Range { start: 0, end: 13 })]
    );
    assert!(check("SELECT FROM t").contains_error());
    let diagnostics = check("SELECT").get_diagnostics();
    assert_eq!(diagnostics[0].hint.as_deref(), Some("ensure the query starts with `SELECT`"));
}

#[test]
fn the_inline_from_of_a_select_is_not_a_from_stage() {
    assert!(found("SELECT a FROM t; SELECT b FROM t").is_empty());
    assert_eq!(messages("SELECT a FROM t |> JOIN t ON a = b"), vec!["missing index on join"]);
}

#[test]
fn a_table_introduced_twice_is_reported_as_a_duplicate() {
    assert_eq!(
        found("FROM t; FROM u; FROM t"),
        vec![("duplicate column".to_string(), Severity::Warning, Range { start: 16, end: 22 })]
    );
    assert_eq!(messages("FROM t |> FROM t |> FROM t").len(), 2);
    let diagnostics = check("FROM t; FROM t").get_diagnostics();
    assert_eq!(diagnostics[0].hint.as_deref(), Some("remove or rename the duplicate column"));
    assert!(!check("FROM t; FROM t").contains_error());
}

#[test]
fn joining_a_table_that_was_not_introduced_gets_a_warning() {
    assert_eq!(
        found("FROM a |> JOIN b ON a.id = b.id"),
        vec![("missing index on join".to_string(), Severity::Warning, Range { start: 10, end: 31 })]
    );
    assert!(found("FROM b; FROM a |> JOIN b ON a.id = b.id").is_empty());
    assert_eq!(messages("JOIN b ON x = y; FROM b"), vec!["missing index on join"]);
    let diagnostics = check("JOIN b ON x = y").get_diagnostics();
    assert_eq!(
        diagnostics[0].hint.as_deref(),
        Some("consider adding an index to improve performance")
    );
    assert!(!check("JOIN b ON x = y").contains_error());
}

#[test]
fn a_condition_with_or_is_an_error() {
    assert_eq!(
        found("FROM t |> WHERE a OR b"),
        vec![("unsupported operator".to_string(), Severity::Error, Range { start: 10, end: 22 })]
    );
    assert!(check("WHERE a OR b").contains_error());
    assert!(found("WHERE a AND b").is_empty());
    assert!(found("WHERE ORDERS = FLOOR").is_empty());
    let diagnostics = check("WHERE a OR b").get_diagnostics();
    assert_eq!(diagnostics[0].hint.as_deref(), Some("use supported operators like `=`, `<`, `>`"));
}

#[test]
fn a_string_that_holds_or_between_spaces_raises_the_or_error() {
    assert_eq!(messages("WHERE status = \"this OR that\""), vec!["unsupported operator"]);
    assert_eq!(messages("WHERE status = ' OR '"), vec!["unsupported operator"]);
    assert_eq!(messages("WHERE f(' OR ') = 1"), vec!["unsupported operator"]);
    assert_eq!(messages("WHERE (WHERE a OR b) = 1"), vec!["unsupported operator"]);
}

#[test]
fn a_string_that_is_just_or_renders_between_quotes_and_raises_nothing() {
    assert_eq!(program("WHERE status = \"OR\"").to_sql(), "WHERE status = 'OR'");
    assert!(found("WHERE status = \"OR\"").is_empty());
    assert!(found("WHERE status = 'OR '").is_empty());
    assert!(found("WHERE status = ' or '").is_empty());
}

#[test]
fn grouping_by_nothing_is_an_error() {
    assert_eq!(
        found("FROM t |> GROUP BY"),
        vec![("missing `GROUP BY` clause".to_string(), Severity::Error, Range { start: 10, end: 18 })]
    );
    assert!(found("GROUP BY a").is_empty());
    let diagnostics = check("GROUP BY").get_diagnostics();
    assert_eq!(diagnostics[0].hint.as_deref(), Some("add `GROUP BY` to group results correctly"));
}

#[test]
fn aggregating_over_a_subquery_gets_a_warning() {
    assert_eq!(
        found("FROM t |> AGGREGATE COUNT((FROM u))"),
        vec![("redundant subquery".to_string(), Severity::Warning, Range { start: 10, end: 35 })]
    );
    assert!(found("AGGREGATE COUNT(f((FROM u)))").is_empty());
    let diagnostics = check("AGGREGATE SUM((FROM u))").get_diagnostics();
    assert_eq!(diagnostics[0].hint.as_deref(), Some("optimize by refactoring the subquery"));
}

#[test]
fn every_statement_is_visited_and_every_finding_is_kept_in_order() {
    let messages = messages(
        "SELECT FROM t; FROM t |> FROM t |> WHERE a OR b; GROUP BY LIMIT 1; JOIN u ON a = b; SELECT a, a",
    );
    assert_eq!(
        messages,
        vec![
            "missing `SELECT` clause",
            "duplicate column",
            "unsupported operator",
            "missing `GROUP BY` clause",
            "missing index on join",
            "duplicate column",
        ]
    );
}

#[test]
fn there_is_an_error_exactly_when_a_diagnostic_is_an_error() {
    for text in [
        "",
        "FROM t",
        "SELECT a, a",
        "JOIN u ON a = b",
        "SELECT a, a FROM t; GROUP BY",
        "WHERE a OR b; SELECT a, a",
        "SELECT FROM t",
        "AGGREGATE COUNT((FROM u))",
    ] {
        let checker = check(text);
        let expected = checker.get_diagnostics().iter().any(|d| d.severity == Severity::Error);
        assert_eq!(checker.contains_error(), expected, "{text}");
    }
    assert!(!check("SELECT a, a").contains_error());
    assert!(check("SELECT a, a FROM t; GROUP BY").contains_error());
}

#[test]
fn a_checker_keeps_what_it_saw_between_calls() {
    let mut checker = Checker::new();
    checker.check(&program("SELECT id FROM a"));
    assert!(checker.get_diagnostics().is_empty());
    checker.check(&program("SELECT id FROM b"));
    let diagnostics: Vec<Diagnostic> = checker.get_diagnostics();
    assert_eq!(diagnostics.len(), 1);
    assert_eq!(diagnostics[0].message, "duplicate column");
    assert_eq!(diagnostics[0].range, Range { start: 7, end: 9 });
    let statement = program("FROM t");
    checker.check_statement(&statement.statements[0]);
    checker.check_statement(&statement.statements[0]);
    assert_eq!(checker.get_diagnostics().len(), 2);
}

#[test]
fn a_text_is_found_wherever_it_stands() {
    assert!(contains_text("a OR b", " OR "));
    assert!(contains_text(" OR ", " OR "));
    assert!(contains_text("x OR", " OR"));
    assert!(contains_text("é OR é", " OR "));
    assert!(contains_text("abc", ""));
    assert!(contains_text("", ""));
    assert!(!contains_text("a OR", " OR "));
    assert!(!contains_text("OR", " OR "));
    assert!(!contains_text("", " OR "));
    assert!(!contains_text("a or b", " OR "));
    assert!(!contains_text("a O R b", " OR "));
}

#[test]
fn a_name_is_found_among_names() {
    let names = vec!["a".to_string(), "users".to_string()];
    assert!(contains_name(&names, "users"));
    assert!(contains_name(&names, "a"));
    assert!(!contains_name(&names, "user"));
    assert!(!contains_name(&names, "Users"));
    assert!(!contains_name(&vec![], "a"));
}
