use hoshi::compile::{compile, Compiled};
use hoshi::diagnostics::maneger::Severity;
use hoshi::utils::range::Range;
use hoshi::utils::source::Source;

fn run(raw: &str) -> Compiled {
    compile(&Source::new("query.hoshi", raw))
}

fn checked(raw: &str) -> (Vec<(String, Severity)>, Option<String>) {
    match run(raw) {
        Compiled::Checked { diagnostics, sql } => {
            (diagnostics.into_iter().map(|d| (d.message, d.severity)).collect(), sql)
        }
        Compiled::Rejected(diagnostic) => panic!("rejected: {}", diagnostic.message),
    }
}

#[test]
fn a_sound_query_compiles_to_sql() {
    assert_eq!(checked("FROM users |> AGGREGATE COUNT(id)"), (vec![], Some("SELECT COUNT(id) FROM users".to_string())));
    assert_eq!(checked(""), (vec![], Some("".to_string())));
}

#[test]
fn warnings_do_not_stand_in_the_way_of_sql() {
    let (diagnostics, sql) = checked("SELECT id, id FROM t");
    assert_eq!(diagnostics, vec![("duplicate column".to_string(), Severity::Warning)]);
    assert_eq!(sql.as_deref(), Some("SELECT id, id FROM t"));
}

#[test]
fn an_error_of_the_check_leaves_no_sql() {
    let (diagnostics, sql) = checked("SELECT id, id FROM t |> WHERE a OR b");
    assert_eq!(
        diagnostics,
        vec![
            ("duplicate column".to_string(), Severity::Warning),
            ("unsupported operator".to_string(), Severity::Error),
        ]
    );
    assert_eq!(sql, None);
}

#[test]
fn sql_is_emitted_exactly_when_no_diagnostic_is_an_error() {
    for text in ["FROM t", "SELECT a, a", "GROUP BY", "SELECT FROM t", "JOIN t ON a = b", "WHERE a OR b"] {
        let (diagnostics, sql) = checked(text);
        let error = diagnostics.iter().any(|d| d.1 == Severity::Error);
        assert_eq!(sql.is_some(), !error, "{text}");
    }
}

#[test]
fn a_text_that_does_not_parse_is_rejected_with_one_diagnostic() {
    let Compiled::Rejected(diagnostic) = run("FROM") else {
        panic!("rejected");
    };
    assert_eq!(diagnostic.message, "expected `identifier` but found `end of input`");
    assert_eq!(diagnostic.range, Range { start: 4, end: 4 });
    assert_eq!(diagnostic.severity, Severity::Error);
    let Compiled::Rejected(diagnostic) = run("SELECT 'abc") else {
        panic!("rejected");
    };
    assert_eq!(diagnostic.message, "unterminated string literal");
    assert_eq!(diagnostic.range, Range { start: 7, end: 11 });
}
