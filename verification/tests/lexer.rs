use hoshi::lexer::lexer::len_utf8;
use hoshi::lexer::scan::CharClass;
use hoshi::diagnostics::maneger::{Diagnostic, Severity};
use hoshi::lexer::{Lexer, Token, TokenType};
use hoshi::utils::range::Range;
use hoshi::utils::source::Source;

fn lex_all(raw: &str) -> Vec<Token> {
    let source = Source::new("query.hoshi", raw);
    let mut lexer = Lexer::new(&source);
    let mut tokens = Vec::new();
    loop {
        let token = lexer.next_token().expect("the text lexes");
        let done = token.is_eof();
        tokens.push(token);
        if done {
            return tokens;
        }
    }
}

fn first_error(raw: &str) -> Diagnostic {
    let source = Source::new("query.hoshi", raw);
    let mut lexer = Lexer::new(&source);
    loop {
        match lexer.next_token() {
            Ok(token) => assert!(!token.is_eof(), "the text lexes"),
            Err(diagnostic) => return diagnostic,
        }
    }
}

fn kinds(raw: &str) -> Vec<(TokenType, Option<String>)> {
    lex_all(raw).into_iter().map(|t| (t.kind, t.lexeme)).collect()
}

fn name(text: &str) -> Option<String> {
    Some(text.to_string())
}

#[test]
fn lexes_a_select_with_two_columns() {
    assert_eq!(
        kinds("SELECT a, b FROM t"),
        vec![
            (TokenType::Select, None),
            (TokenType::Identifier, name("a")),
            (TokenType::Comma, None),
            (TokenType::Identifier, name("b")),
            (TokenType::From, None),
            (TokenType::Identifier, name("t")),
            (TokenType::EOF, None),
        ]
    );
}

#[test]
fn token_ranges_cover_exactly_the_token() {
    let tokens = lex_all("  SELECT   a");
    assert_eq!(tokens[0].range, Range { start: 2, end: 8 });
    assert_eq!(tokens[1].range, Range { start: 11, end: 12 });
    assert_eq!(tokens[2].range, Range { start: 12, end: 12 });
}

#[test]
fn the_empty_text_is_the_end_of_input() {
    let tokens = lex_all("");
    assert_eq!(tokens.len(), 1);
    assert_eq!(tokens[0].kind, TokenType::EOF);
    assert_eq!(tokens[0].range, Range { start: 0, end: 0 });
    let tokens = lex_all(" \t\r\n ");
    assert_eq!(tokens.len(), 1);
    assert_eq!(tokens[0].range, Range { start: 5, end: 5 });
}

#[test]
fn the_end_of_input_is_delivered_again_and_again() {
    let source = Source::new("query.hoshi", "a");
    let mut lexer = Lexer::new(&source);
    assert_eq!(lexer.next_token().unwrap().kind, TokenType::Identifier);
    for _ in 0..3 {
        let token = lexer.next_token().unwrap();
        assert_eq!(token.kind, TokenType::EOF);
        assert_eq!(token.range, Range { start: 1, end: 1 });
    }
}

#[test]
fn unterminated_string_fails_from_the_opening_quote() {
    let error = first_error("'abc");
    assert_eq!(error.message, "unterminated string literal");
    assert_eq!(error.range, Range { start: 0, end: 4 });
    assert_eq!(error.severity, Severity::Error);
    assert_eq!(error.hint, None);
}

#[test]
fn a_string_does_not_run_over_the_end_of_the_line() {
    let error = first_error("x = \"abc\ndef\"");
    assert_eq!(error.message, "unterminated string literal");
    assert_eq!(error.range, Range { start: 4, end: 8 });
}

#[test]
fn a_string_ends_at_its_own_kind_of_quote() {
    assert_eq!(
        kinds("\"it's\" 'say \"hi\"' ''"),
        vec![
            (TokenType::String, name("it's")),
            (TokenType::String, name("say \"hi\"")),
            (TokenType::String, name("")),
            (TokenType::EOF, None),
        ]
    );
    let tokens = lex_all("\"it's\"");
    assert_eq!(tokens[0].range, Range { start: 0, end: 6 });
}

#[test]
fn ranges_count_bytes_not_characters() {
    let tokens = lex_all("'é' x");
    assert_eq!(tokens[0].kind, TokenType::String);
    assert_eq!(tokens[0].lexeme, name("é"));
    assert_eq!(tokens[0].range, Range { start: 0, end: 4 });
    assert_eq!(tokens[1].range, Range { start: 5, end: 6 });
    let tokens = lex_all("'日本語😀'\u{3000}y");
    assert_eq!(tokens[0].lexeme, name("日本語😀"));
    assert_eq!(tokens[0].range, Range { start: 0, end: 15 });
    assert_eq!(tokens[1].lexeme, name("y"));
    assert_eq!(tokens[1].range, Range { start: 18, end: 19 });
}

#[test]
fn unicode_whitespace_separates_tokens() {
    assert_eq!(
        kinds("a\u{a0}b\u{2003}c\u{85}d\u{2028}e"),
        vec![
            (TokenType::Identifier, name("a")),
            (TokenType::Identifier, name("b")),
            (TokenType::Identifier, name("c")),
            (TokenType::Identifier, name("d")),
            (TokenType::Identifier, name("e")),
            (TokenType::EOF, None),
        ]
    );
}

#[test]
fn single_character_tokens() {
    assert_eq!(
        kinds("[ ] + * / % = ( ) , ; . -"),
        vec![
            (TokenType::LeftBracket, None),
            (TokenType::RightBracket, None),
            (TokenType::Plus, None),
            (TokenType::Asterisk, None),
            (TokenType::Slash, None),
            (TokenType::Percent, None),
            (TokenType::Equal, None),
            (TokenType::LeftParen, None),
            (TokenType::RightParen, None),
            (TokenType::Comma, None),
            (TokenType::Semicolon, None),
            (TokenType::Dot, None),
            (TokenType::Minus, None),
            (TokenType::EOF, None),
        ]
    );
}

#[test]
fn comparisons_look_one_character_ahead() {
    assert_eq!(
        kinds("< <= > >= != =< |>"),
        vec![
            (TokenType::LessThan, None),
            (TokenType::LessThanOrEqual, None),
            (TokenType::GreaterThan, None),
            (TokenType::GreaterThanOrEqual, None),
            (TokenType::NotEqual, None),
            (TokenType::Equal, None),
            (TokenType::LessThan, None),
            (TokenType::Pipe, None),
            (TokenType::EOF, None),
        ]
    );
    let tokens = lex_all("a<=b");
    assert_eq!(tokens[1].range, Range { start: 1, end: 3 });
    let tokens = lex_all("<");
    assert_eq!(tokens[0].kind, TokenType::LessThan);
    assert_eq!(tokens[0].range, Range { start: 0, end: 1 });
}

#[test]
fn a_bang_must_be_followed_by_an_equals_sign() {
    let error = first_error("a !b");
    assert_eq!(error.message, "expected `!=` but got `!b`");
    assert_eq!(error.range, Range { start: 2, end: 2 });
    assert_eq!(error.severity, Severity::Error);
    let error = first_error("!");
    assert_eq!(error.message, "expected `!=` but got `!`");
    assert_eq!(error.range, Range { start: 0, end: 0 });
}

#[test]
fn a_bar_must_be_followed_by_a_greater_than_sign() {
    let error = first_error("FROM t | WHERE");
    assert_eq!(error.message, "expected `|>` but got `| `");
    assert_eq!(error.range, Range { start: 7, end: 7 });
    let error = first_error("|");
    assert_eq!(error.message, "expected `|>` but got `|`");
}

#[test]
fn other_characters_are_unexpected() {
    let error = first_error("a # b");
    assert_eq!(error.message, "unexpected character '#'");
    assert_eq!(error.range, Range { start: 2, end: 2 });
    assert_eq!(error.hint, None);
    let error = first_error("é");
    assert_eq!(error.message, "unexpected character 'é'");
    let error = first_error("$a");
    assert_eq!(error.message, "unexpected character '$'");
}

#[test]
fn a_failure_is_reported_again() {
    let source = Source::new("query.hoshi", "a #");
    let mut lexer = Lexer::new(&source);
    assert_eq!(lexer.next_token().unwrap().kind, TokenType::Identifier);
    let first = lexer.peek_token().unwrap_err();
    let second = lexer.next_token().unwrap_err();
    let third = lexer.next_token().unwrap_err();
    assert_eq!(first, second);
    assert_eq!(second, third);
    assert_eq!(first.range, Range { start: 2, end: 2 });
}

#[test]
fn two_dashes_start_a_comment_that_is_a_token() {
    let tokens = lex_all("a -- the rest\nb - c --");
    assert_eq!(
        tokens.iter().map(|t| (t.kind, t.lexeme.clone())).collect::<Vec<_>>(),
        vec![
            (TokenType::Identifier, name("a")),
            (TokenType::Comment, None),
            (TokenType::Identifier, name("b")),
            (TokenType::Minus, None),
            (TokenType::Identifier, name("c")),
            (TokenType::Comment, None),
            (TokenType::EOF, None),
        ]
    );
    assert_eq!(tokens[1].range, Range { start: 2, end: 13 });
    assert!(tokens[1].is_comment());
}

#[test]
fn a_number_is_digits_with_at_most_one_dot() {
    assert_eq!(
        kinds("12 3.14 7. 1.2.3 1..2"),
        vec![
            (TokenType::Number, name("12")),
            (TokenType::Number, name("3.14")),
            (TokenType::Number, name("7.")),
            (TokenType::Number, name("1.2")),
            (TokenType::Dot, None),
            (TokenType::Number, name("3")),
            (TokenType::Number, name("1.")),
            (TokenType::Dot, None),
            (TokenType::Number, name("2")),
            (TokenType::EOF, None),
        ]
    );
    assert_eq!(kinds(".5"), vec![(TokenType::Dot, None), (TokenType::Number, name("5")), (TokenType::EOF, None)]);
}

#[test]
fn words_hold_letters_digits_underscores_and_dollars() {
    assert_eq!(
        kinds("_a1 b$c d_e9$ x1y"),
        vec![
            (TokenType::Identifier, name("_a1")),
            (TokenType::Identifier, name("b$c")),
            (TokenType::Identifier, name("d_e9$")),
            (TokenType::Identifier, name("x1y")),
            (TokenType::EOF, None),
        ]
    );
    assert_eq!(
        kinds("1a"),
        vec![(TokenType::Number, name("1")), (TokenType::Identifier, name("a")), (TokenType::EOF, None)]
    );
}

#[test]
fn keywords_and_booleans_in_a_text() {
    assert_eq!(
        kinds("SELECT DISTINCT true, AVG FROM t |> AGGREGATE COUNT(x) AS n"),
        vec![
            (TokenType::Select, None),
            (TokenType::Distinct, None),
            (TokenType::Boolean, name("true")),
            (TokenType::Comma, None),
            (TokenType::Avg, None),
            (TokenType::From, None),
            (TokenType::Identifier, name("t")),
            (TokenType::Pipe, None),
            (TokenType::Aggregate, None),
            (TokenType::Count, None),
            (TokenType::LeftParen, None),
            (TokenType::Identifier, name("x")),
            (TokenType::RightParen, None),
            (TokenType::As, None),
            (TokenType::Identifier, name("n")),
            (TokenType::EOF, None),
        ]
    );
}

#[test]
fn peeking_does_not_take_the_token() {
    let source = Source::new("query.hoshi", "FROM users");
    let mut lexer = Lexer::new(&source);
    let peeked = lexer.peek_token().unwrap();
    assert_eq!(peeked.kind, TokenType::From);
    assert_eq!(lexer.peek_token().unwrap(), peeked);
    assert_eq!(lexer.next_token().unwrap(), peeked);
    let table = lexer.next_token().unwrap();
    assert_eq!(table.lexeme, name("users"));
    assert_eq!(table.range, Range { start: 5, end: 10 });
    assert!(lexer.next_token().unwrap().is_eof());
}

#[test]
fn the_end_is_reached_when_all_has_been_read() {
    let source = Source::new("query.hoshi", "a b");
    let mut lexer = Lexer::new(&source);
    assert!(!lexer.is_end());
    lexer.next_token().unwrap();
    assert!(!lexer.is_end());
    lexer.peek_token().unwrap();
    assert!(lexer.is_end());
    lexer.next_token().unwrap();
    assert!(lexer.is_end());
    let empty = Source::new("query.hoshi", "");
    assert!(Lexer::new(&empty).is_end());
}

#[test]
fn the_lexer_hands_out_its_source() {
    let source = Source::new("dir/query.hoshi", "FROM t");
    let lexer = Lexer::new(&source);
    assert_eq!(lexer.get_source().path, "dir/query.hoshi");
    assert_eq!(lexer.get_source().raw, "FROM t");
}

#[test]
fn whitespace_is_what_unicode_calls_white_space() {
    for code in 0..=0x10FFFFu32 {
        if let Some(c) = char::from_u32(code) {
            assert_eq!(CharClass::Whitespace.contains(c), c.is_whitespace(), "U+{code:04X}");
        }
    }
}

#[test]
fn the_other_classes_of_characters() {
    for code in 0..=0x10FFFFu32 {
        if let Some(c) = char::from_u32(code) {
            let word = c.is_ascii_alphanumeric() || c == '_' || c == '$';
            assert_eq!(CharClass::Word.contains(c), word, "U+{code:04X}");
            assert_eq!(CharClass::Digit.contains(c), c.is_ascii_digit(), "U+{code:04X}");
            assert_eq!(CharClass::Line.contains(c), c != '\n');
            assert_eq!(CharClass::Quoted('"').contains(c), c != '"' && c != '\n');
        }
    }
}

#[test]
fn the_width_of_a_character_is_its_length_in_utf8() {
    for code in 0..=0x10FFFFu32 {
        if let Some(c) = char::from_u32(code) {
            assert_eq!(len_utf8(c), c.len_utf8(), "U+{code:04X}");
        }
    }
}
