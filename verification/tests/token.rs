use hoshi::lexer::{Token, TokenType};
use hoshi::utils::range::Range;

fn word(text: &str) -> Token {
    Token::create_identifier(Range::new(0, text.len()), text.to_string())
}

#[test]
fn keywords_resolve_to_their_kinds_without_a_lexeme() {
    let table = [
        ("SELECT", TokenType::Select),
        ("FROM", TokenType::From),
        ("WHERE", TokenType::Where),
        ("ORDER", TokenType::Order),
        ("BY", TokenType::By),
        ("ASC", TokenType::Asc),
        ("DESC", TokenType::Desc),
        ("LIMIT", TokenType::Limit),
        ("OFFSET", TokenType::Offset),
        ("JOIN", TokenType::Join),
        ("ON", TokenType::On),
        ("GROUP", TokenType::Group),
        ("HAVING", TokenType::Having),
        ("AS", TokenType::As),
        ("UNION", TokenType::Union),
        ("WITH", TokenType::With),
        ("CASE", TokenType::Case),
        ("END", TokenType::End),
        ("AGGREGATE", TokenType::Aggregate),
        ("AND", TokenType::And),
        ("OR", TokenType::Or),
        ("DISTINCT", TokenType::Distinct),
        ("COUNT", TokenType::Count),
        ("SUM", TokenType::Sum),
        ("AVG", TokenType::Avg),
        ("MIN", TokenType::Min),
        ("MAX", TokenType::Max),
        ("STDDEV", TokenType::StdDev),
        ("STDDEV_POP", TokenType::StdDevPop),
        ("STDDEV_SAMP", TokenType::StdDevSamp),
        ("VAR_POP", TokenType::VarPop),
        ("VAR_SAMP", TokenType::VarSamp),
        ("VARIANCE", TokenType::Variance),
        ("FIRST", TokenType::First),
        ("LAST", TokenType::Last),
        ("GROUP_CONCAT", TokenType::GroupConcat),
        ("STRING_AGG", TokenType::StringAgg),
        ("MEDIAN", TokenType::Median),
        ("MODE", TokenType::Mode),
        ("ARRAY_AGG", TokenType::ArrayAgg),
        ("JSON_AGG", TokenType::JsonAgg),
        ("JSON_OBJECT_AGG", TokenType::JsonObjectAgg),
        ("BIT_AND", TokenType::BitAnd),
        ("BIT_OR", TokenType::BitOr),
        ("BOOL_AND", TokenType::BoolAnd),
        ("BOOL_OR", TokenType::BoolOr),
    ];
    for (text, kind) in table {
        let token = word(text);
        assert_eq!(token.kind, kind, "{text}");
        assert_eq!(token.lexeme, None, "{text}");
        assert_eq!(token.range, Range::new(0, text.len()));
        assert_eq!(kind.to_string(), text);
    }
}

#[test]
fn keywords_are_case_sensitive() {
    for text in ["select", "Select", "from", "count", "distinct", "TRUE", "False"] {
        let token = word(text);
        assert_eq!(token.kind, TokenType::Identifier, "{text}");
        assert_eq!(token.lexeme.as_deref(), Some(text));
    }
}

#[test]
fn true_and_false_are_booleans_with_their_text() {
    for text in ["true", "false"] {
        let token = word(text);
        assert_eq!(token.kind, TokenType::Boolean);
        assert_eq!(token.lexeme.as_deref(), Some(text));
    }
}

#[test]
fn other_words_are_identifiers_with_their_text() {
    for text in ["users", "_x", "a$b", "SELECTED", "NOT", "NULL", "IN"] {
        let token = word(text);
        assert_eq!(token.kind, TokenType::Identifier, "{text}");
        assert_eq!(token.lexeme.as_deref(), Some(text));
    }
}

#[test]
fn operators_and_punctuation_are_told_apart() {
    let at = Range::new(0, 1);
    let operators = [
        TokenType::Plus,
        TokenType::Minus,
        TokenType::Asterisk,
        TokenType::Slash,
        TokenType::Percent,
        TokenType::Equal,
        TokenType::NotEqual,
        TokenType::LessThan,
        TokenType::GreaterThan,
        TokenType::LessThanOrEqual,
        TokenType::GreaterThanOrEqual,
        TokenType::And,
        TokenType::Or,
    ];
    let punctuation = [
        TokenType::Comma,
        TokenType::Semicolon,
        TokenType::LeftParen,
        TokenType::RightParen,
        TokenType::LeftBracket,
        TokenType::RightBracket,
        TokenType::Dot,
    ];
    for kind in operators {
        let token = Token::create_simple_token(kind, at);
        assert!(token.is_operator());
        assert!(!token.is_punctuation());
    }
    for kind in punctuation {
        let token = Token::create_simple_token(kind, at);
        assert!(token.is_punctuation());
        assert!(!token.is_operator());
    }
    for kind in [TokenType::Pipe, TokenType::Select, TokenType::Identifier, TokenType::EOF] {
        let token = Token::create_simple_token(kind, at);
        assert!(!token.is_operator());
        assert!(!token.is_punctuation());
    }
}

#[test]
fn end_of_input_and_comments_are_recognised() {
    let at = Range::new(4, 4);
    assert!(Token::create_simple_token(TokenType::EOF, at).is_eof());
    assert!(!Token::create_simple_token(TokenType::Comment, at).is_eof());
    assert!(Token::create_simple_token(TokenType::Comment, at).is_comment());
    assert!(!Token::create_simple_token(TokenType::Minus, at).is_comment());
}

#[test]
fn a_token_is_built_from_its_parts() {
    let token = Token::new(TokenType::Number, Some("12".to_string()), Range::new(3, 5));
    assert_eq!(token.kind, TokenType::Number);
    assert_eq!(token.lexeme.as_deref(), Some("12"));
    assert_eq!(token.range, Range { start: 3, end: 5 });
    assert_eq!(token.clone(), token);
    assert_eq!(token.name(), "12");
    assert_eq!(Token::create_simple_token(TokenType::Comma, Range::new(0, 1)).name(), "");
}

#[test]
fn kinds_are_written_as_in_the_source() {
    assert_eq!(TokenType::Identifier.to_string(), "identifier");
    assert_eq!(TokenType::String.to_string(), "string");
    assert_eq!(TokenType::Number.to_string(), "number");
    assert_eq!(TokenType::Boolean.to_string(), "boolean");
    assert_eq!(TokenType::Pipe.to_string(), "|>");
    assert_eq!(TokenType::NotEqual.to_string(), "!=");
    assert_eq!(TokenType::LessThanOrEqual.to_string(), "<=");
    assert_eq!(TokenType::LeftParen.to_string(), "(");
    assert_eq!(TokenType::EOF.to_string(), "end of input");
    assert_eq!(TokenType::Comment.to_string(), "comment");
    assert_eq!(TokenType::SetKeyword.to_string(), "SET");
}
