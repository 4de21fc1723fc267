use hoshi::diagnostics::maneger::{Diagnostic, DiagnosticsManager, Severity, TypeError};
use hoshi::diagnostics::report::{can_excerpt, report_error, report_text};
use hoshi::utils::range::Range;
use hoshi::utils::source::Source;

fn diagnostic(message: &str, severity: Severity, range: Range) -> Diagnostic {
    Diagnostic { message: message.to_string(), hint: None, range, severity }
}

#[test]
fn every_problem_has_its_message_severity_and_hint() {
    let range = Range::new(3, 8);
    let table = [
        (
            TypeError::MissingIndexOnJoin { range },
            "missing index on join",
            Severity::Warning,
            "consider adding an index to improve performance",
        ),
        (
            TypeError::PipeWithoutFrom { range },
            "pipe missing `FROM` clause",
            Severity::Error,
            "ensure `FROM` clause is present after aggregate",
        ),
        (
            TypeError::RedundantSubQuery { range },
            "redundant subquery",
            Severity::Warning,
            "optimize by refactoring the subquery",
        ),
        (TypeError::UnexpectedToken { range }, "unexpected token", Severity::Error, "check the SQL syntax"),
        (
            TypeError::MissingSelectClause { range },
            "missing `SELECT` clause",
            Severity::Error,
            "ensure the query starts with `SELECT`",
        ),
        (
            TypeError::DuplicateColumn { range },
            "duplicate column",
            Severity::Warning,
            "remove or rename the duplicate column",
        ),
        (
            TypeError::DuplicateTable { range },
            "duplicate column",
            Severity::Warning,
            "remove or rename the duplicate column",
        ),
        (
            TypeError::UnsupportedOperator { range },
            "unsupported operator",
            Severity::Error,
            "use supported operators like `=`, `<`, `>`",
        ),
        (
            TypeError::MissingGroupBy { range },
            "missing `GROUP BY` clause",
            Severity::Error,
            "add `GROUP BY` to group results correctly",
        ),
        (
            TypeError::AmbiguousColumn { range },
            "ambiguous column reference",
            Severity::Error,
            "qualify column names with table names",
        ),
        (
            TypeError::FunctionArgumentMismatch { range },
            "function argument mismatch",
            Severity::Error,
            "check the number and types of arguments",
        ),
    ];
    for (error, message, severity, hint) in table {
        let converted = Diagnostic::from(error);
        assert_eq!(converted.message, message);
        assert_eq!(converted.severity, severity);
        assert_eq!(converted.hint.as_deref(), Some(hint));
        assert_eq!(converted.range, range);
    }
    let converted: Diagnostic = TypeError::DuplicateColumn { range: Range::new(0, 1) }.into();
    assert_eq!(converted.range, Range { start: 0, end: 1 });
}

#[test]
fn a_fatal_diagnostic_is_an_error_without_a_hint() {
    let fatal = Diagnostic::fatal("unexpected character '#'".to_string(), Range::new(2, 2));
    assert_eq!(fatal, diagnostic("unexpected character '#'", Severity::Error, Range::new(2, 2)));
    assert_eq!(fatal.clone(), fatal);
}

#[test]
fn a_manager_keeps_diagnostics_in_the_order_in_which_they_were_added() {
    let mut manager = DiagnosticsManager::new();
    assert!(manager.get_diagnostics().is_empty());
    let first = diagnostic("first", Severity::Warning, Range::new(0, 1));
    let second = diagnostic("second", Severity::Error, Range::new(1, 2));
    manager.add(first.clone());
    manager.add(second.clone());
    manager.add(first.clone());
    assert_eq!(manager.get_diagnostics(), vec![first.clone(), second, first]);
    assert_eq!(manager.diagnostics.len(), 3);
}

#[test]
fn a_manager_has_an_error_exactly_when_one_was_added() {
    let mut manager = DiagnosticsManager::new();
    assert!(!manager.contains_error());
    manager.add(diagnostic("w", Severity::Warning, Range::new(0, 1)));
    manager.add(diagnostic("w", Severity::Warning, Range::new(0, 1)));
    assert!(!manager.contains_error());
    manager.add(diagnostic("e", Severity::Error, Range::new(0, 1)));
    assert!(manager.contains_error());
    manager.add(diagnostic("w", Severity::Warning, Range::new(0, 1)));
    assert!(manager.contains_error());
    let mut only_error = DiagnosticsManager::new();
    only_error.add(diagnostic("e", Severity::Error, Range::new(0, 1)));
    assert!(only_error.contains_error());
}

#[test]
fn a_report_is_laid_out_around_its_excerpt() {
    let text = report_text("bad thing", &None, "q.hoshi", "EXCERPT", false);
    assert_eq!(
        text,
        "\n\x1b[31mERROR >>>\x1b[0m \x1b[97mbad thing\x1b[0m\n\x1b[36mq.hoshi\x1b[0m\n\nEXCERPT\n\n"
    );
    let text = report_text("odd thing", &Some("try this".to_string()), "q.hoshi", "EXCERPT", true);
    assert_eq!(
        text,
        "\n\x1b[33mWARNING >>>\x1b[0m \x1b[97modd thing\x1b[0m\n\x1b[36mq.hoshi\x1b[0m\n\nEXCERPT\n\n\x1b[32mHELP:\x1b[0m \x1b[97mtry this\x1b[0m\n\n"
    );
}

#[test]
fn the_excerpt_of_an_error_numbers_the_line_and_underlines_in_red() {
    let source = Source::new("q.hoshi", "FROM t\nWHERE a OR b");
    let range = Range::new(7, 19);
    assert!(can_excerpt(&range, source.raw));
    let text = report_error("unsupported operator", &None, &range, &source, false);
    let excerpt = "2 | \x1b[4m\x1b[31mWHERE a OR b\x1b[0m\n";
    assert_eq!(excerpt, code_highlighter::highlight_error(7, 19, source.raw));
    assert_eq!(text, report_text("unsupported operator", &None, "q.hoshi", excerpt, false));
    assert!(text.contains("\n2 | \x1b[4m\x1b[31mWHERE a OR b\x1b[0m\n\n"));
}

#[test]
fn the_excerpt_of_a_warning_underlines_in_yellow() {
    let source = Source::new("q.hoshi", "SELECT a, a");
    let range = Range::new(10, 11);
    let hint = Some("remove or rename the duplicate column".to_string());
    let text = report_error("duplicate column", &hint, &range, &source, true);
    let excerpt = "1 | SELECT a, \x1b[4m\x1b[33ma\x1b[0m\n";
    assert_eq!(excerpt, code_highlighter::highlight_warning(10, 11, source.raw));
    assert_eq!(text, report_text("duplicate column", &hint, "q.hoshi", excerpt, true));
}

#[test]
fn a_diagnostic_reports_itself_by_its_severity() {
    let source = Source::new("q.hoshi", "SELECT a, a");
    let warning: Diagnostic = TypeError::DuplicateColumn { range: Range::new(10, 11) }.into();
    assert!(warning.can_report(&source));
    assert_eq!(
        warning.report(&source),
        report_error(&warning.message, &warning.hint, &warning.range, &source, true)
    );
    let error = Diagnostic::fatal("unexpected token `a`".to_string(), Range::new(7, 8));
    assert_eq!(error.report(&source), report_error(&error.message, &None, &error.range, &source, false));
    assert!(error.report(&source).contains("ERROR >>>"));
    assert!(warning.report(&source).contains("WARNING >>>"));
}

#[test]
fn a_manager_reports_every_diagnostic_in_order() {
    let source = Source::new("q.hoshi", "SELECT a, a\nGROUP BY");
    let mut manager = DiagnosticsManager::new();
    assert!(manager.can_report(&source));
    assert_eq!(manager.report(&source), "");
    let first: Diagnostic = TypeError::DuplicateColumn { range: Range::new(10, 11) }.into();
    let second: Diagnostic = TypeError::MissingGroupBy { range: Range::new(12, 17) }.into();
    manager.add(first.clone());
    manager.add(second.clone());
    manager.add(first.clone());
    assert!(manager.can_report(&source));
    let expected = format!("{}{}{}", first.report(&source), second.report(&source), first.report(&source));
    assert_eq!(manager.report(&source), expected);
    manager.add(Diagnostic::fatal("beyond".to_string(), Range::new(10, 99)));
    assert!(!manager.can_report(&source));
}

#[test]
fn an_excerpt_needs_an_ordered_interval_inside_the_text() {
    assert!(can_excerpt(&Range::new(0, 0), "a"));
    assert!(can_excerpt(&Range::new(0, 1), "a"));
    assert!(can_excerpt(&Range::new(1, 1), "a"));
    assert!(can_excerpt(&Range::new(0, 2), "é"));
    assert!(!can_excerpt(&Range::new(1, 0), "ab"));
    assert!(!can_excerpt(&Range::new(0, 3), "ab"));
    assert!(!can_excerpt(&Range::new(3, 3), "ab"));
}

#[test]
fn an_excerpt_at_the_end_needs_a_last_line() {
    assert!(!can_excerpt(&Range::new(0, 0), ""));
    assert!(!can_excerpt(&Range::new(2, 2), "a\n"));
    assert!(can_excerpt(&Range::new(1, 2), "a\n"));
    assert!(can_excerpt(&Range::new(1, 1), "a\n"));
    assert!(can_excerpt(&Range::new(3, 3), "a\nb"));
    assert_eq!(code_highlighter::highlight_error(3, 3, "a\nb"), "2 | b\n");
}

#[test]
fn every_interval_that_is_admitted_has_an_excerpt() {
    let alphabet = ['a', ' ', '\n', '\r', 'é', '😀'];
    let mut texts = vec![String::new()];
    let mut last = vec![String::new()];
    for _ in 0..4 {
        let mut longer = Vec::new();
        for text in &last {
            for c in alphabet {
                let mut next = text.clone();
                next.push(c);
                longer.push(next);
            }
        }
        texts.extend(longer.iter().cloned());
        last = longer;
    }
    let mut admitted = 0;
    for text in &texts {
        let source = Source::new("q.hoshi", text);
        for start in 0..=text.len() + 1 {
            for end in 0..=text.len() + 1 {
                let range = Range::new(start, end);
                if can_excerpt(&range, text) {
                    admitted += 1;
                    let error = report_error("m", &None, &range, &source, false);
                    let warning = report_error("m", &None, &range, &source, true);
                    assert!(error.contains(" | "));
                    assert!(warning.contains(" | "));
                }
            }
        }
    }
    assert!(admitted > 1000);
}

#[test]
fn an_excerpt_of_a_text_with_carriage_returns_needs_ascii() {
    assert!(can_excerpt(&Range::new(0, 1), "a\r\nb"));
    assert!(can_excerpt(&Range::new(0, 1), "é\nb"));
    assert!(!can_excerpt(&Range::new(0, 1), "é\r\nb"));
    assert!(!can_excerpt(&Range::new(0, 1), "a\r\né"));
}
