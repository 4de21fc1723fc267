//! The lexer, which reads the tokens that `scan` defines.

use crate::diagnostics::maneger::{Diagnostic, DiagnosticView};
use crate::lexer::scan::{
    byte_length, byte_offset, lemma_byte_length, lemma_byte_offset_monotonic,
    lemma_byte_offset_step, lemma_encode_split, lemma_lex_advances, lemma_offset_is_boundary, lex,
    lex_comparison, lex_minus, lex_number, lex_pair, lex_simple, lex_string, lex_word, peeked,
    run_end, starts_with_pair, token_start, utf8_width, CharClass, Lexed,
};
use crate::lexer::token::{Token, TokenType};
use crate::utils::{decode, lemma_encode_injective};
use crate::utils::range::Range;
use crate::utils::source::Source;
use vstd::prelude::*;
use vstd::string::*;
use vstd::utf8::*;

verus! {

impl CharClass {
    /// Whether `c` belongs to the class.
    pub fn contains(&self, c: char) -> (b: bool)
        ensures
            b == self.admits(c),
    {
        match self {
            CharClass::Whitespace => {
                c == ' ' || (c >= '\t' && c <= '\r') || c == '\u{85}' || c == '\u{a0}' || c
                    == '\u{1680}' || (c >= '\u{2000}' && c <= '\u{200a}') || c == '\u{2028}' || c
                    == '\u{2029}' || c == '\u{202f}' || c == '\u{205f}' || c == '\u{3000}'
            },
            CharClass::Word => {
                (c >= 'a' && c <= 'z') || (c >= 'A' && c <= 'Z') || c == '_' || (c >= '0' && c
                    <= '9') || c == '$'
            },
            CharClass::Digit => c >= '0' && c <= '9',
            CharClass::Line => c != '\n',
            CharClass::Quoted(quote) => c != *quote && c != '\n',
        }
    }
}

/// The number of bytes that `c` takes in UTF-8.
pub fn len_utf8(c: char) -> (width: usize)
    ensures
        width == utf8_width(c),
{
    let code: u32 = c as u32;
    if code <= 0x7F {
        1
    } else if code <= 0x7FF {
        2
    } else if code <= 0xFFFF {
        3
    } else {
        4
    }
}

/// A place in the text: the index of a character and its byte offset.
#[derive(Clone, Copy)]
struct Mark {
    index: usize,
    offset: usize,
}

/// Whether `mark` is a place of `text`.
spec fn marks(text: Seq<char>, mark: Mark) -> bool {
    mark.index <= text.len() && mark.offset == byte_offset(text, mark.index as int)
}

/// Whether a call returned what lexing gives: the token, or the diagnostic.
pub open spec fn delivers(lexed: Lexed, result: Result<Token, Diagnostic>) -> bool {
    match lexed {
        Ok((token, _)) => result matches Ok(read) && read@ == token,
        Err(diagnostic) => result matches Err(raised) && raised@ == diagnostic,
    }
}

/// Reads the tokens of a source one by one, with one token of lookahead.
///
/// A lexer stands at a position of the text, the index of the first
/// character that no delivered token covers. Peeking does not move it; a
/// failure does not move it either, so that it is reported again.
pub struct Lexer<'a> {
    source: &'a Source<'a>,
    chars: Vec<char>,
    at: Mark,
    cached: Option<(Token, Mark)>,
}

impl<'a> Lexer<'a> {
    #[verifier::type_invariant]
    spec fn well_formed(self) -> bool {
        &&& self.chars@ == self.source.raw@
        &&& byte_offset(self.chars@, self.chars@.len() as int) <= usize::MAX
        &&& marks(self.chars@, self.at)
        &&& match self.cached {
            Some((token, next)) => {
                &&& lex(self.chars@, self.at.index as int) == Ok::<_, DiagnosticView>(
                    (token@, next.index as int),
                )
                &&& marks(self.chars@, next)
            },
            None => true,
        }
    }

    /// The source that is read.
    pub closed spec fn source(&self) -> &'a Source<'a> {
        self.source
    }

    /// The characters of the source.
    pub closed spec fn text(&self) -> Seq<char> {
        self.chars@
    }

    /// The index of the first character that no delivered token covers.
    pub closed spec fn position(&self) -> int {
        self.at.index as int
    }

    /// The index of the first character that has not been read: behind the
    /// token that was peeked at, if there is one.
    pub closed spec fn scanned(&self) -> int {
        match self.cached {
            Some((_, next)) => next.index as int,
            None => self.at.index as int,
        }
    }

    /// Whether a token has been peeked at and not yet taken.
    pub closed spec fn holds_token(&self) -> bool {
        self.cached is Some
    }

    /// A lexer at the start of `source`.
    pub fn new(source: &'a Source<'a>) -> (lexer: Self)
        ensures
            lexer.source() == source,
            lexer.text() == source.raw@,
            lexer.position() == 0,
            lexer.scanned() == 0,
            !lexer.holds_token(),
            byte_length(source.raw@) <= usize::MAX,
    {
        let chars = decode(source.raw);
        // The length of the text in bytes is a `usize`, and so is every offset into it.
        let _ = source.raw.as_bytes().len();
        proof {
            lemma_byte_length(chars@);
            assert(chars@.take(0) =~= Seq::<char>::empty());
        }
        Self { source, chars, at: Mark { index: 0, offset: 0 }, cached: None }
    }

    /// The next token, which stays the next token. It is read once and kept
    /// until it is taken.
    pub fn peek_token(&mut self) -> (result: Result<Token, Diagnostic>)
        ensures
            final(self).source() == old(self).source(),
            final(self).text() == old(self).text(),
            final(self).position() == old(self).position(),
            0 <= final(self).position() <= final(self).scanned() <= final(self).text().len(),
            delivers(lex(old(self).text(), old(self).position()), result),
    {
        proof {
            use_type_invariant(&*self);
            lemma_lex_advances(self.chars@, self.at.index as int);
        }
        match &self.cached {
            Some((token, _)) => Ok(token.clone()),
            None => {
                match self.read_next_token(self.at) {
                    Ok((token, next)) => {
                        let copy = token.clone();
                        self.cached = Some((token, next));
                        Ok(copy)
                    },
                    Err(diagnostic) => Err(diagnostic),
                }
            },
        }
    }

    /// Takes the next token. At the end of the text every call gives the
    /// end-of-input token; after a failure every call gives the same failure.
    pub fn next_token(&mut self) -> (result: Result<Token, Diagnostic>)
        ensures
            final(self).source() == old(self).source(),
            final(self).text() == old(self).text(),
            !final(self).holds_token(),
            final(self).scanned() == final(self).position(),
            0 <= old(self).position() <= final(self).position() <= final(self).text().len(),
            delivers(lex(old(self).text(), old(self).position()), result),
            final(self).position() == match lex(old(self).text(), old(self).position()) {
                Ok((_, next)) => next,
                Err(_) => old(self).position(),
            },
    {
        proof {
            use_type_invariant(&*self);
            lemma_lex_advances(self.chars@, self.at.index as int);
        }
        let taken = match &self.cached {
            Some((token, next)) => Some((token.clone(), *next)),
            None => None,
        };
        match taken {
            Some((token, next)) => {
                self.cached = None;
                self.at = next;
                Ok(token)
            },
            None => {
                match self.read_next_token(self.at) {
                    Ok((token, next)) => {
                        self.at = next;
                        Ok(token)
                    },
                    Err(diagnostic) => Err(diagnostic),
                }
            },
        }
    }

    /// The source that is read.
    pub fn get_source(&self) -> (source: &Source<'a>)
        ensures
            source == self.source(),
    {
        self.source
    }

    /// The byte offset of the position: where the token that was taken
    /// last ends, or the start of the text where none was taken.
    pub fn offset(&self) -> (offset: usize)
        ensures
            offset == byte_offset(self.text(), self.position()),
    {
        proof {
            use_type_invariant(self);
        }
        self.at.offset
    }

    /// Whether the whole text has been read, be it for a token that was only
    /// peeked at.
    pub fn is_end(&self) -> (b: bool)
        ensures
            b == (self.scanned() >= self.text().len()),
    {
        match &self.cached {
            Some((_, next)) => next.index >= self.chars.len(),
            None => self.at.index >= self.chars.len(),
        }
    }

    fn read_next_token(&self, from: Mark) -> (result: Result<(Token, Mark), Diagnostic>)
        requires
            marks(self.text(), from),
        ensures
            match lex(self.text(), from.index as int) {
                Ok((token, next)) => result matches Ok((read, mark)) && read@ == token
                    && mark.index == next && marks(self.text(), mark),
                Err(diagnostic) => result matches Err(raised) && raised@ == diagnostic,
            },
    {
        proof {
            reveal(lex);
        }
        let at = self.skip_whitespace(from);
        if at.index >= self.chars.len() {
            return Ok((Token::create_simple_token(TokenType::EOF, Self::create_range(at, at)), at));
        }
        let current_char = self.peek_one(at);
        match current_char {
            '[' => Ok(self.read_simple_token(at, TokenType::LeftBracket)),
            ']' => Ok(self.read_simple_token(at, TokenType::RightBracket)),
            '+' => Ok(self.read_simple_token(at, TokenType::Plus)),
            '-' => Ok(self.read_line_comment(at)),
            '*' => Ok(self.read_simple_token(at, TokenType::Asterisk)),
            '/' => Ok(self.read_simple_token(at, TokenType::Slash)),
            '%' => Ok(self.read_simple_token(at, TokenType::Percent)),
            '=' => Ok(self.read_simple_token(at, TokenType::Equal)),
            '(' => Ok(self.read_simple_token(at, TokenType::LeftParen)),
            ')' => Ok(self.read_simple_token(at, TokenType::RightParen)),
            ',' => Ok(self.read_simple_token(at, TokenType::Comma)),
            ';' => Ok(self.read_simple_token(at, TokenType::Semicolon)),
            '.' => Ok(self.read_simple_token(at, TokenType::Dot)),
            '<' => Ok(self.read_check_ahead(at, TokenType::LessThan, TokenType::LessThanOrEqual)),
            '>' => Ok(
                self.read_check_ahead(at, TokenType::GreaterThan, TokenType::GreaterThanOrEqual),
            ),
            '0'..='9' => Ok(self.read_number(at)),
            '"' => self.read_string_with_double_quote(at),
            '\'' => self.read_string_with_single_quote(at),
            '!' => self.read_bang(at),
            '|' => self.read_pipe(at),
            'a'..='z' | 'A'..='Z' | '_' => Ok(self.read_identifier(at)),
            _ => {
                let mut message = String::from_str("unexpected character '");
                message.append(self.text_between(at, self.advance_one(at)).as_str());
                message.append("'");
                proof {
                    assert(self.text().subrange(at.index as int, at.index + 1) =~= seq![
                        current_char,
                    ]);
                }
                Err(Diagnostic::fatal(message, Self::create_range(at, at)))
            },
        }
    }

    /// A two-character operator whose first character cannot stand alone.
    fn read_pair(&self, at: Mark, second: char, kind: TokenType, written: &str) -> (result: Result<
        (Token, Mark),
        Diagnostic,
    >)
        requires
            marks(self.text(), at),
            at.index < self.text().len(),
        ensures
            match lex_pair(self.text(), at.index as int, second, kind, written@) {
                Ok((token, next)) => result matches Ok((read, mark)) && read@ == token
                    && mark.index == next && marks(self.text(), mark),
                Err(diagnostic) => result matches Err(raised) && raised@ == diagnostic,
            },
    {
        if self.starts_with(at, self.peek_one(at), second) {
            let end = self.advance_many(at, 2);
            Ok((Token::new(kind, None, Self::create_range(at, end)), end))
        } else {
            let mut message = String::from_str("expected `");
            message.append(written);
            message.append("` but got `");
            message.append(self.peek_many(at, 2).as_str());
            message.append("`");
            Err(Diagnostic::fatal(message, Self::create_range(at, at)))
        }
    }

    fn read_bang(&self, at: Mark) -> (result: Result<(Token, Mark), Diagnostic>)
        requires
            marks(self.text(), at),
            at.index < self.text().len(),
        ensures
            match lex_pair(self.text(), at.index as int, '=', TokenType::NotEqual, "!="@) {
                Ok((token, next)) => result matches Ok((read, mark)) && read@ == token
                    && mark.index == next && marks(self.text(), mark),
                Err(diagnostic) => result matches Err(raised) && raised@ == diagnostic,
            },
    {
        self.read_pair(at, '=', TokenType::NotEqual, "!=")
    }

    fn read_pipe(&self, at: Mark) -> (result: Result<(Token, Mark), Diagnostic>)
        requires
            marks(self.text(), at),
            at.index < self.text().len(),
        ensures
            match lex_pair(self.text(), at.index as int, '>', TokenType::Pipe, "|>"@) {
                Ok((token, next)) => result matches Ok((read, mark)) && read@ == token
                    && mark.index == next && marks(self.text(), mark),
                Err(diagnostic) => result matches Err(raised) && raised@ == diagnostic,
            },
    {
        self.read_pair(at, '>', TokenType::Pipe, "|>")
    }

    fn read_simple_token(&self, at: Mark, kind: TokenType) -> (read: (Token, Mark))
        requires
            marks(self.text(), at),
            at.index < self.text().len(),
        ensures
            lex_simple(self.text(), at.index as int, kind, 1) == Ok::<_, DiagnosticView>(
                (read.0@, read.1.index as int),
            ),
            marks(self.text(), read.1),
    {
        let end = self.advance_one(at);
        (Token::create_simple_token(kind, Self::create_range(at, end)), end)
    }

    fn read_check_ahead(&self, at: Mark, single_kind: TokenType, double_kind: TokenType) -> (read: (
        Token,
        Mark,
    ))
        requires
            marks(self.text(), at),
            at.index < self.text().len(),
        ensures
            lex_comparison(self.text(), at.index as int, single_kind, double_kind) == Ok::<
                _,
                DiagnosticView,
            >((read.0@, read.1.index as int)),
            marks(self.text(), read.1),
    {
        if self.starts_with(at, self.peek_one(at), '=') {
            let end = self.advance_many(at, 2);
            (Token::create_simple_token(double_kind, Self::create_range(at, end)), end)
        } else {
            self.read_simple_token(at, single_kind)
        }
    }

    fn read_line_comment(&self, at: Mark) -> (read: (Token, Mark))
        requires
            marks(self.text(), at),
            at.index < self.text().len(),
        ensures
            lex_minus(self.text(), at.index as int) == Ok::<_, DiagnosticView>(
                (read.0@, read.1.index as int),
            ),
            marks(self.text(), read.1),
    {
        if self.starts_with(at, '-', '-') {
            let begin = self.advance_many(at, 2);
            let end = self.read_while(begin, CharClass::Line);
            (Token::new(TokenType::Comment, None, Self::create_range(at, end)), end)
        } else {
            self.read_simple_token(at, TokenType::Minus)
        }
    }

    fn read_identifier(&self, at: Mark) -> (read: (Token, Mark))
        requires
            marks(self.text(), at),
            at.index < self.text().len(),
        ensures
            lex_word(self.text(), at.index as int) == Ok::<_, DiagnosticView>(
                (read.0@, read.1.index as int),
            ),
            marks(self.text(), read.1),
    {
        let end = self.read_while(at, CharClass::Word);
        let text = self.text_between(at, end);
        (Token::create_identifier(Self::create_range(at, end), text), end)
    }

    fn read_number(&self, at: Mark) -> (read: (Token, Mark))
        requires
            marks(self.text(), at),
            at.index < self.text().len(),
        ensures
            lex_number(self.text(), at.index as int) == Ok::<_, DiagnosticView>(
                (read.0@, read.1.index as int),
            ),
            marks(self.text(), read.1),
    {
        let whole = self.read_while(at, CharClass::Digit);
        let end = if whole.index < self.chars.len() && self.peek_one(whole) == '.' {
            self.read_while(self.advance_one(whole), CharClass::Digit)
        } else {
            whole
        };
        let number = self.text_between(at, end);
        (Token::new(TokenType::Number, Some(number), Self::create_range(at, end)), end)
    }

    /// A string quoted with the character at `at`.
    fn read_string(&self, at: Mark) -> (result: Result<(Token, Mark), Diagnostic>)
        requires
            marks(self.text(), at),
            at.index < self.text().len(),
        ensures
            match lex_string(self.text(), at.index as int) {
                Ok((token, next)) => result matches Ok((read, mark)) && read@ == token
                    && mark.index == next && marks(self.text(), mark),
                Err(diagnostic) => result matches Err(raised) && raised@ == diagnostic,
            },
    {
        let quote = self.peek_one(at);
        let begin = self.advance_one(at);
        let close = self.read_while(begin, CharClass::Quoted(quote));
        if close.index < self.chars.len() && self.peek_one(close) == quote {
            let string = self.text_between(begin, close);
            let end = self.advance_one(close);
            Ok((Token::new(TokenType::String, Some(string), Self::create_range(at, end)), end))
        } else {
            Err(
                Diagnostic::fatal(
                    String::from_str("unterminated string literal"),
                    Self::create_range(at, close),
                ),
            )
        }
    }

    fn read_string_with_double_quote(&self, at: Mark) -> (result: Result<(Token, Mark), Diagnostic>)
        requires
            marks(self.text(), at),
            at.index < self.text().len(),
        ensures
            match lex_string(self.text(), at.index as int) {
                Ok((token, next)) => result matches Ok((read, mark)) && read@ == token
                    && mark.index == next && marks(self.text(), mark),
                Err(diagnostic) => result matches Err(raised) && raised@ == diagnostic,
            },
    {
        self.read_string(at)
    }

    fn read_string_with_single_quote(&self, at: Mark) -> (result: Result<(Token, Mark), Diagnostic>)
        requires
            marks(self.text(), at),
            at.index < self.text().len(),
        ensures
            match lex_string(self.text(), at.index as int) {
                Ok((token, next)) => result matches Ok((read, mark)) && read@ == token
                    && mark.index == next && marks(self.text(), mark),
                Err(diagnostic) => result matches Err(raised) && raised@ == diagnostic,
            },
    {
        self.read_string(at)
    }

    fn read_while(&self, from: Mark, class: CharClass) -> (end: Mark)
        requires
            marks(self.text(), from),
        ensures
            end.index == run_end(self.text(), from.index as int, class),
            marks(self.text(), end),
            from.index <= end.index,
    {
        let mut at = from;
        while at.index < self.chars.len() && class.contains(self.peek_one(at))
            invariant
                marks(self.text(), at),
                from.index <= at.index,
                run_end(self.text(), at.index as int, class) == run_end(
                    self.text(),
                    from.index as int,
                    class,
                ),
            decreases self.text().len() - at.index,
        {
            at = self.advance_one(at);
        }
        at
    }

    /// The text between two places, as an owned string.
    fn text_between(&self, from: Mark, to: Mark) -> (text: String)
        requires
            marks(self.text(), from),
            marks(self.text(), to),
            from.index <= to.index,
        ensures
            text@ == self.text().subrange(from.index as int, to.index as int),
    {
        proof {
            use_type_invariant(self);
            let whole = self.chars@;
            let front = whole.take(to.index as int);
            lemma_offset_is_boundary(whole, to.index as int);
            lemma_encode_split(whole, to.index as int);
            lemma_byte_offset_monotonic(whole, from.index as int, to.index as int);
            assert(front.take(from.index as int) =~= whole.take(from.index as int));
            lemma_offset_is_boundary(front, from.index as int);
            lemma_encode_split(front, from.index as int);
            assert(front.skip(from.index as int) =~= whole.subrange(
                from.index as int,
                to.index as int,
            ));
            assert(front.take(front.len() as int) =~= front);
        }
        let (head, _) = self.source.raw.split_at(to.offset);
        proof {
            lemma_encode_injective(head@, self.chars@.take(to.index as int));
        }
        let (_, text) = head.split_at(from.offset);
        proof {
            lemma_encode_injective(
                text@,
                self.chars@.subrange(from.index as int, to.index as int),
            );
        }
        String::from_str(text)
    }

    fn advance_one(&self, at: Mark) -> (next: Mark)
        requires
            marks(self.text(), at),
            at.index < self.text().len(),
        ensures
            next.index == at.index + 1,
            marks(self.text(), next),
    {
        proof {
            use_type_invariant(self);
            lemma_byte_offset_step(self.chars@, at.index as int);
            lemma_byte_offset_monotonic(self.chars@, at.index + 1, self.chars@.len() as int);
            assert(at.index < self.chars.len());
        }
        Mark { index: at.index + 1, offset: at.offset + len_utf8(self.chars[at.index]) }
    }

    fn create_range(start: Mark, end: Mark) -> (range: Range)
        ensures
            range == (Range { start: start.offset, end: end.offset }),
    {
        Range { start: start.offset, end: end.offset }
    }

    fn peek_one(&self, at: Mark) -> (c: char)
        ensures
            at.index < self.text().len() ==> c == self.text()[at.index as int],
            at.index >= self.text().len() ==> c == '\0',
    {
        if at.index < self.chars.len() {
            self.chars[at.index]
        } else {
            '\0'
        }
    }

    fn peek_many(&self, at: Mark, count: usize) -> (text: String)
        requires
            marks(self.text(), at),
        ensures
            text@ == peeked(self.text(), at.index as int, count as int),
    {
        let end = if self.chars.len() - at.index >= count {
            self.advance_many(at, count)
        } else {
            self.advance_many(at, self.chars.len() - at.index)
        };
        self.text_between(at, end)
    }

    fn advance_many(&self, at: Mark, count: usize) -> (next: Mark)
        requires
            marks(self.text(), at),
            at.index + count <= self.text().len(),
        ensures
            next.index == at.index + count,
            marks(self.text(), next),
    {
        let mut next = at;
        let mut done: usize = 0;
        while done < count
            invariant
                done <= count,
                next.index == at.index + done,
                marks(self.text(), next),
                at.index + count <= self.text().len(),
            decreases count - done,
        {
            next = self.advance_one(next);
            done = done + 1;
        }
        next
    }

    fn starts_with(&self, at: Mark, first: char, second: char) -> (b: bool)
        ensures
            b == starts_with_pair(self.text(), at.index as int, first, second),
    {
        at.index < self.chars.len() && self.chars.len() - at.index >= 2 && self.chars[at.index]
            == first && self.chars[at.index + 1] == second
    }

    fn skip_whitespace(&self, from: Mark) -> (at: Mark)
        requires
            marks(self.text(), from),
        ensures
            at.index == token_start(self.text(), from.index as int),
            marks(self.text(), at),
    {
        self.read_while(from, CharClass::Whitespace)
    }
}

} // verus!
