//! What lexing is: the token that stands at a position of a text, as a
//! mathematical function of the text, and what holds of it.

use crate::diagnostics::maneger::{fatal, DiagnosticView};
use crate::lexer::token::{word_kind, word_token, TokenType, TokenView};
use crate::utils::range::Range;
use vstd::prelude::*;
use vstd::utf8::*;

verus! {

/// The characters that separate tokens: those with the Unicode property
/// `White_Space`.
pub open spec fn is_whitespace(c: char) -> bool {
    ||| c == ' '
    ||| '\t' <= c <= '\r'
    ||| c == '\u{85}'
    ||| c == '\u{a0}'
    ||| c == '\u{1680}'
    ||| '\u{2000}' <= c <= '\u{200a}'
    ||| c == '\u{2028}'
    ||| c == '\u{2029}'
    ||| c == '\u{202f}'
    ||| c == '\u{205f}'
    ||| c == '\u{3000}'
}

/// An ASCII digit.
pub open spec fn is_digit(c: char) -> bool {
    '0' <= c <= '9'
}

/// A word starts with an ASCII letter or an underscore.
pub open spec fn is_word_start(c: char) -> bool {
    ('a' <= c <= 'z') || ('A' <= c <= 'Z') || c == '_'
}

/// A word goes on with ASCII letters, digits, underscores and dollar signs.
pub open spec fn is_word_char(c: char) -> bool {
    is_word_start(c) || is_digit(c) || c == '$'
}

/// The sets of characters that the lexer reads runs of.
#[derive(Clone, Copy)]
pub enum CharClass {
    /// Characters between tokens.
    Whitespace,
    /// Characters of a word after its first.
    Word,
    /// ASCII digits.
    Digit,
    /// The rest of a line.
    Line,
    /// What may stand inside a string quoted with the given character.
    Quoted(char),
}

impl CharClass {
    /// Whether `c` belongs to the class.
    pub open spec fn admits(self, c: char) -> bool {
        match self {
            CharClass::Whitespace => is_whitespace(c),
            CharClass::Word => is_word_char(c),
            CharClass::Digit => is_digit(c),
            CharClass::Line => c != '\n',
            CharClass::Quoted(quote) => c != quote && c != '\n',
        }
    }
}

/// Where the longest run of characters of `class` that starts at `from` ends.
pub open spec fn run_end(text: Seq<char>, from: int, class: CharClass) -> int
    decreases text.len() - from,
{
    if 0 <= from < text.len() && class.admits(text[from]) {
        run_end(text, from + 1, class)
    } else {
        from
    }
}

/// The number of bytes that a character takes in UTF-8.
pub open spec fn utf8_width(c: char) -> nat {
    if c as u32 <= 0x7F {
        1
    } else if c as u32 <= 0x7FF {
        2
    } else if c as u32 <= 0xFFFF {
        3
    } else {
        4
    }
}

/// The byte offset, in the UTF-8 encoding of `text`, of its character `index`.
pub open spec fn byte_offset(text: Seq<char>, index: int) -> nat {
    encode_utf8(text.take(index)).len()
}

/// The bytes between two characters of the text.
pub open spec fn span(text: Seq<char>, from: int, to: int) -> Range {
    Range { start: byte_offset(text, from) as usize, end: byte_offset(text, to) as usize }
}

/// What lexing one token gives: the token and the index of the character
/// after it, or the diagnostic of the failure.
pub type Lexed = Result<(TokenView, int), DiagnosticView>;

/// A token without text, `width` characters wide.
pub open spec fn lex_simple(text: Seq<char>, at: int, kind: TokenType, width: int) -> Lexed {
    Ok((TokenView { kind, lexeme: None, range: span(text, at, at + width) }, at + width))
}

/// Whether the text goes on with the two given characters.
pub open spec fn starts_with_pair(text: Seq<char>, at: int, first: char, second: char) -> bool {
    &&& 0 <= at
    &&& at + 1 < text.len()
    &&& text[at] == first
    &&& text[at + 1] == second
}

/// At most `count` characters of the text, starting at `at`.
pub open spec fn peeked(text: Seq<char>, at: int, count: int) -> Seq<char> {
    text.subrange(at, if at + count <= text.len() { at + count } else { text.len() as int })
}

/// A two-character operator whose first character cannot stand alone:
/// `written` is how the operator is spelled.
pub open spec fn lex_pair(
    text: Seq<char>,
    at: int,
    second: char,
    kind: TokenType,
    written: Seq<char>,
) -> Lexed {
    if starts_with_pair(text, at, text[at], second) {
        lex_simple(text, at, kind, 2)
    } else {
        Err(
            fatal(
                "expected `"@ + written + "` but got `"@ + peeked(text, at, 2) + "`"@,
                span(text, at, at),
            ),
        )
    }
}

/// `<` or `>`, alone or followed by `=`.
pub open spec fn lex_comparison(
    text: Seq<char>,
    at: int,
    single: TokenType,
    double: TokenType,
) -> Lexed {
    if starts_with_pair(text, at, text[at], '=') {
        lex_simple(text, at, double, 2)
    } else {
        lex_simple(text, at, single, 1)
    }
}

/// `--` starts a comment, which runs to the end of the line and is a
/// token without text; a single `-` is the minus operator.
pub open spec fn lex_minus(text: Seq<char>, at: int) -> Lexed {
    if starts_with_pair(text, at, '-', '-') {
        let end = run_end(text, at + 2, CharClass::Line);
        Ok((TokenView { kind: TokenType::Comment, lexeme: None, range: span(text, at, end) }, end))
    } else {
        lex_simple(text, at, TokenType::Minus, 1)
    }
}

/// Where the number that starts at `at` ends: after its digits, one dot if
/// there is one, and the digits behind that dot.
pub open spec fn number_end(text: Seq<char>, at: int) -> int {
    let whole = run_end(text, at, CharClass::Digit);
    if 0 <= whole < text.len() && text[whole] == '.' {
        run_end(text, whole + 1, CharClass::Digit)
    } else {
        whole
    }
}

/// A number, with the text it was written as.
pub open spec fn lex_number(text: Seq<char>, at: int) -> Lexed {
    let end = number_end(text, at);
    Ok(
        (
            TokenView {
                kind: TokenType::Number,
                lexeme: Some(text.subrange(at, end)),
                range: span(text, at, end),
            },
            end,
        ),
    )
}

/// A string runs from its quote to the next occurrence of the same quote on
/// the same line, and its lexeme is what stands between the two.
pub open spec fn lex_string(text: Seq<char>, at: int) -> Lexed {
    let quote = text[at];
    let end = run_end(text, at + 1, CharClass::Quoted(quote));
    if 0 <= end < text.len() && text[end] == quote {
        Ok(
            (
                TokenView {
                    kind: TokenType::String,
                    lexeme: Some(text.subrange(at + 1, end)),
                    range: span(text, at, end + 1),
                },
                end + 1,
            ),
        )
    } else {
        Err(fatal("unterminated string literal"@, span(text, at, end)))
    }
}

/// A word: the longest run of word characters, resolved to a keyword, a
/// boolean or an identifier.
pub open spec fn lex_word(text: Seq<char>, at: int) -> Lexed {
    let end = run_end(text, at, CharClass::Word);
    Ok((word_token(text.subrange(at, end), span(text, at, end)), end))
}

/// The token that starts at the character `at`, which is not whitespace.
pub open spec fn lex_token(text: Seq<char>, at: int) -> Lexed {
    let c = text[at];
    if c == '[' {
        lex_simple(text, at, TokenType::LeftBracket, 1)
    } else if c == ']' {
        lex_simple(text, at, TokenType::RightBracket, 1)
    } else if c == '+' {
        lex_simple(text, at, TokenType::Plus, 1)
    } else if c == '-' {
        lex_minus(text, at)
    } else if c == '*' {
        lex_simple(text, at, TokenType::Asterisk, 1)
    } else if c == '/' {
        lex_simple(text, at, TokenType::Slash, 1)
    } else if c == '%' {
        lex_simple(text, at, TokenType::Percent, 1)
    } else if c == '=' {
        lex_simple(text, at, TokenType::Equal, 1)
    } else if c == '(' {
        lex_simple(text, at, TokenType::LeftParen, 1)
    } else if c == ')' {
        lex_simple(text, at, TokenType::RightParen, 1)
    } else if c == ',' {
        lex_simple(text, at, TokenType::Comma, 1)
    } else if c == ';' {
        lex_simple(text, at, TokenType::Semicolon, 1)
    } else if c == '.' {
        lex_simple(text, at, TokenType::Dot, 1)
    } else if c == '<' {
        lex_comparison(text, at, TokenType::LessThan, TokenType::LessThanOrEqual)
    } else if c == '>' {
        lex_comparison(text, at, TokenType::GreaterThan, TokenType::GreaterThanOrEqual)
    } else if is_digit(c) {
        lex_number(text, at)
    } else if c == '"' || c == '\'' {
        lex_string(text, at)
    } else if c == '!' {
        lex_pair(text, at, '=', TokenType::NotEqual, "!="@)
    } else if c == '|' {
        lex_pair(text, at, '>', TokenType::Pipe, "|>"@)
    } else if is_word_start(c) {
        lex_word(text, at)
    } else {
        Err(fatal("unexpected character '"@ + seq![c] + "'"@, span(text, at, at)))
    }
}

/// Where the token that is read at `position` starts: after the whitespace
/// that stands there.
pub open spec fn token_start(text: Seq<char>, position: int) -> int {
    run_end(text, position, CharClass::Whitespace)
}

/// The end-of-input token of a text.
pub open spec fn end_of_input(text: Seq<char>) -> TokenView {
    TokenView {
        kind: TokenType::EOF,
        lexeme: None,
        range: span(text, text.len() as int, text.len() as int),
    }
}

/// The next token of `text` for a lexer that has read up to `position`:
/// whitespace is passed over, and the end of the text gives the end-of-input
/// token, whose range is empty.
#[verifier::opaque]
pub open spec fn lex(text: Seq<char>, position: int) -> Lexed {
    let at = token_start(text, position);
    if at < 0 || at >= text.len() {
        Ok((end_of_input(text), text.len() as int))
    } else {
        lex_token(text, at)
    }
}

/// A run ends inside the text, at or after the place where it starts, holds
/// only characters of its class and is not followed by one.
pub proof fn lemma_run_end(text: Seq<char>, from: int, class: CharClass)
    requires
        0 <= from <= text.len(),
    ensures
        from <= run_end(text, from, class) <= text.len(),
        forall|i: int| from <= i < run_end(text, from, class) ==> class.admits(#[trigger] text[i]),
        run_end(text, from, class) < text.len() ==> !class.admits(
            text[run_end(text, from, class)],
        ),
    decreases text.len() - from,
{
    if from < text.len() && class.admits(text[from]) {
        lemma_run_end(text, from + 1, class);
    }
}

/// Encoding a text with one more character appends that character's bytes.
pub proof fn lemma_encode_push(text: Seq<char>, c: char)
    ensures
        encode_utf8(text.push(c)) == encode_utf8(text) + encode_scalar(c as u32),
        encode_scalar(c as u32).len() == utf8_width(c),
    decreases text.len(),
{
    if text.len() == 0 {
        assert(text.push(c).drop_first() =~= Seq::<char>::empty());
        assert(encode_utf8(text.push(c)) =~= encode_scalar(c as u32) + encode_utf8(
            Seq::<char>::empty(),
        ));
        assert(encode_utf8(text.push(c)) =~= encode_utf8(text) + encode_scalar(c as u32));
    } else {
        lemma_encode_push(text.drop_first(), c);
        assert(text.push(c).drop_first() =~= text.drop_first().push(c));
        assert(text.push(c)[0] == text[0]);
        assert(encode_utf8(text.push(c)) =~= encode_utf8(text) + encode_scalar(c as u32));
    }
}

/// Encoding two texts one after the other is encoding them as one.
pub proof fn lemma_encode_concat(first: Seq<char>, second: Seq<char>)
    ensures
        encode_utf8(first + second) == encode_utf8(first) + encode_utf8(second),
    decreases second.len(),
{
    if second.len() == 0 {
        assert(first + second =~= first);
        assert(encode_utf8(first) + encode_utf8(second) =~= encode_utf8(first));
    } else {
        let front = second.drop_last();
        lemma_encode_concat(first, front);
        lemma_encode_push(first + front, second.last());
        lemma_encode_push(front, second.last());
        assert((first + front).push(second.last()) =~= first + second);
        assert(front.push(second.last()) =~= second);
        assert(encode_utf8(first + second) =~= encode_utf8(first) + encode_utf8(second));
    }
}

/// The byte offset of a character of a text is a character boundary of
/// the encoded text.
pub proof fn lemma_offset_is_boundary(text: Seq<char>, index: int)
    requires
        0 <= index <= text.len(),
    ensures
        is_char_boundary(encode_utf8(text), byte_offset(text, index) as int),
    decreases index,
{
    let bytes = encode_utf8(text);
    encode_utf8_valid_utf8(text);
    if index == 0 {
        assert(text.take(0) =~= Seq::<char>::empty());
    } else {
        let rest = text.drop_first();
        encode_utf8_first_scalar(text);
        assert(pop_first_scalar(bytes) =~= encode_utf8(rest));
        lemma_offset_is_boundary(rest, index - 1);
        assert(text.take(index) =~= seq![text[0]] + rest.take(index - 1));
        lemma_encode_concat(seq![text[0]], rest.take(index - 1));
        lemma_encode_push(Seq::empty(), text[0]);
        assert(Seq::<char>::empty().push(text[0]) =~= seq![text[0]]);
        assert(encode_utf8(Seq::<char>::empty()) =~= Seq::<u8>::empty());
        assert(encode_utf8(seq![text[0]]) =~= encode_scalar(text[0] as u32));
        assert(byte_offset(text, index) == length_of_first_scalar(bytes) + byte_offset(
            rest,
            index - 1,
        ));
    }
}

/// The bytes of a text up to the offset of a character encode the
/// characters before it, and the bytes from that offset on encode the
/// characters from it on.
pub proof fn lemma_encode_split(text: Seq<char>, index: int)
    requires
        0 <= index <= text.len(),
    ensures
        encode_utf8(text).subrange(0, byte_offset(text, index) as int) == encode_utf8(
            text.take(index),
        ),
        encode_utf8(text).subrange(
            byte_offset(text, index) as int,
            encode_utf8(text).len() as int,
        ) == encode_utf8(text.skip(index)),
{
    lemma_encode_concat(text.take(index), text.skip(index));
    assert(text.take(index) + text.skip(index) =~= text);
    let head = encode_utf8(text.take(index));
    let tail = encode_utf8(text.skip(index));
    assert((head + tail).subrange(0, head.len() as int) =~= head);
    assert((head + tail).subrange(head.len() as int, (head + tail).len() as int) =~= tail);
}

/// Byte offsets start at zero and grow by the width of each character.
pub proof fn lemma_byte_offset_step(text: Seq<char>, index: int)
    requires
        0 <= index < text.len(),
    ensures
        byte_offset(text, 0) == 0,
        byte_offset(text, index + 1) == byte_offset(text, index) + utf8_width(text[index]),
{
    assert(text.take(0) =~= Seq::<char>::empty());
    assert(text.take(index + 1) =~= text.take(index).push(text[index]));
    lemma_encode_push(text.take(index), text[index]);
}

/// Byte offsets do not decrease along the text.
pub proof fn lemma_byte_offset_monotonic(text: Seq<char>, from: int, to: int)
    requires
        0 <= from <= to <= text.len(),
    ensures
        byte_offset(text, from) <= byte_offset(text, to),
    decreases to - from,
{
    if from < to {
        lemma_byte_offset_monotonic(text, from, to - 1);
        lemma_byte_offset_step(text, to - 1);
    }
}

/// A token other than the end of input ends after the position it was read
/// at, and no token ends outside the text.
pub proof fn lemma_lex_advances(text: Seq<char>, position: int)
    ensures
        lex(text, position) matches Ok((token, next)) ==> {
            &&& next <= text.len()
            &&& 0 <= position <= text.len() ==> position <= next
            &&& token.kind != TokenType::EOF ==> 0 <= position < next
            &&& token.kind == TokenType::EOF ==> next == text.len()
        },
{
    reveal(lex);
    let at = token_start(text, position);
    if 0 <= position <= text.len() {
        lemma_run_end(text, position, CharClass::Whitespace);
    }
    if 0 <= position && at < text.len() {
        if at + 2 <= text.len() {
            lemma_run_end(text, at + 2, CharClass::Line);
        }
        lemma_run_end(text, at, CharClass::Digit);
        let whole = run_end(text, at, CharClass::Digit);
        if whole < text.len() {
            lemma_run_end(text, whole + 1, CharClass::Digit);
        }
        lemma_run_end(text, at + 1, CharClass::Quoted(text[at]));
        lemma_run_end(text, at, CharClass::Word);
        lemma_word_kind_not_eof(text.subrange(at, run_end(text, at, CharClass::Word)));
    }
}

/// Whether `range` is ordered and ends at or before the byte `limit`.
pub open spec fn fits(range: Range, limit: int) -> bool {
    range.start <= range.end <= limit
}

/// Whether `range` is ordered and lies between the characters `from` and
/// `to` of the text.
pub open spec fn placed(text: Seq<char>, from: int, to: int, range: Range) -> bool {
    byte_offset(text, from) <= range.start <= range.end <= byte_offset(text, to)
}

/// Whether `range` runs from the start of the first token at or behind the
/// position `from` to the character `to`.
pub open spec fn spans(text: Seq<char>, from: int, to: int, range: Range) -> bool {
    range.start == byte_offset(text, token_start(text, from)) && range.end == byte_offset(
        text,
        to,
    )
}

/// The number of bytes of a text in UTF-8.
pub open spec fn byte_length(text: Seq<char>) -> nat {
    encode_utf8(text).len()
}

/// The length of a text in bytes is the byte offset of its end.
pub proof fn lemma_byte_length(text: Seq<char>)
    ensures
        byte_length(text) == byte_offset(text, text.len() as int),
{
    assert(text.take(text.len() as int) =~= text);
}

/// Byte offsets do not decrease along the text, whichever two characters
/// are compared, and the offset of the end is the length in bytes.
pub proof fn lemma_offsets_ordered(text: Seq<char>)
    ensures
        forall|i: int, j: int|
            0 <= i <= j <= text.len() ==> #[trigger] byte_offset(text, i) <= #[trigger] byte_offset(
                text,
                j,
            ),
        byte_offset(text, text.len() as int) == byte_length(text),
{
    lemma_byte_length(text);
    assert forall|i: int, j: int| 0 <= i <= j <= text.len() implies #[trigger] byte_offset(
        text,
        i,
    ) <= #[trigger] byte_offset(text, j) by {
        lemma_byte_offset_monotonic(text, i, j);
    }
}

/// The span of two characters of a text whose bytes can be counted in a
/// `usize` is ordered, starts and ends at the offsets of the two
/// characters, and lies inside the text.
pub proof fn lemma_span(text: Seq<char>, from: int, to: int)
    requires
        0 <= from <= to <= text.len(),
        byte_length(text) <= usize::MAX,
    ensures
        span(text, from, to).start == byte_offset(text, from),
        span(text, from, to).end == byte_offset(text, to),
        placed(text, from, to, span(text, from, to)),
        fits(span(text, from, to), byte_length(text) as int),
{
    lemma_byte_length(text);
    lemma_byte_offset_monotonic(text, from, to);
    lemma_byte_offset_monotonic(text, to, text.len() as int);
}

/// The range of a token starts where the token starts, behind the
/// whitespace at the position at which it was read, and ends at the position
/// behind the token. The range of a failure lies inside the text.
pub proof fn lemma_lex_ranges(text: Seq<char>, position: int)
    requires
        0 <= position <= text.len(),
        byte_length(text) <= usize::MAX,
    ensures
        match lex(text, position) {
            Ok((token, next)) => {
                &&& position <= next <= text.len()
                &&& placed(text, position, next, token.range)
                &&& spans(text, position, next, token.range)
            },
            Err(diagnostic) => fits(diagnostic.range, byte_length(text) as int),
        },
        position <= token_start(text, position) <= text.len(),
{
    reveal(lex);
    lemma_lex_advances(text, position);
    let at = token_start(text, position);
    lemma_run_end(text, position, CharClass::Whitespace);
    lemma_byte_offset_monotonic(text, position, at);
    if at >= text.len() {
        lemma_span(text, text.len() as int, text.len() as int);
    } else {
        lemma_span(text, at, at);
        lemma_span(text, at, at + 1);
        if at + 2 <= text.len() {
            lemma_span(text, at, at + 2);
            lemma_run_end(text, at + 2, CharClass::Line);
            lemma_span(text, at, run_end(text, at + 2, CharClass::Line));
        }
        lemma_run_end(text, at, CharClass::Digit);
        let whole = run_end(text, at, CharClass::Digit);
        if whole < text.len() {
            lemma_run_end(text, whole + 1, CharClass::Digit);
        }
        lemma_span(text, at, number_end(text, at));
        lemma_run_end(text, at + 1, CharClass::Quoted(text[at]));
        let close = run_end(text, at + 1, CharClass::Quoted(text[at]));
        lemma_span(text, at, close);
        if close < text.len() {
            lemma_span(text, at, close + 1);
        }
        lemma_run_end(text, at, CharClass::Word);
        lemma_span(text, at, run_end(text, at, CharClass::Word));
    }
}

/// No word resolves to the end of input.
pub proof fn lemma_word_kind_not_eof(word: Seq<char>)
    ensures
        word_kind(word) != TokenType::EOF,
{
}

} // verus!
