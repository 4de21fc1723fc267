//! Tokens, their kinds, and the words that are keywords.

use crate::utils::range::Range;
use crate::utils::same_text;
use vstd::prelude::*;
use vstd::string::*;

verus! {

/// The class of a lexeme.
#[derive(Debug, Clone, Copy, PartialEq, Eq, Structural)]
pub enum TokenType {
    // Keywords
    Select,
    From,
    Where,
    Order,
    By,
    Asc,
    Desc,
    Limit,
    Offset,
    Join,
    On,
    Group,
    Having,
    As,
    Union,
    With,
    Case,
    End,
    And,
    Or,
    Not,
    Insert,
    Into,
    Values,
    Update,
    SetKeyword,
    Delete,
    Create,
    Table,
    Alter,
    Drop,
    Distinct,
    Null,
    Is,
    Like,
    In,
    Exists,
    Between,
    Aggregate,
    // Aggregate functions
    Count,
    Sum,
    Avg,
    Min,
    Max,
    StdDev,
    StdDevPop,
    StdDevSamp,
    VarPop,
    VarSamp,
    Variance,
    First,
    Last,
    GroupConcat,
    StringAgg,
    Median,
    Mode,
    ArrayAgg,
    JsonAgg,
    JsonObjectAgg,
    BitAnd,
    BitOr,
    BoolAnd,
    BoolOr,
    // Literals
    Identifier,
    String,
    Boolean,
    Number,
    // Operators
    Plus,
    Minus,
    Asterisk,
    Slash,
    Percent,
    Equal,
    NotEqual,
    LessThan,
    GreaterThan,
    LessThanOrEqual,
    GreaterThanOrEqual,
    AndOperator,
    OrOperator,
    NotOperator,
    LikeOperator,
    InOperator,
    IsOperator,
    // Punctuation
    Comma,
    Semicolon,
    LeftParen,
    RightParen,
    LeftBracket,
    RightBracket,
    Dot,
    Pipe,
    // Comments
    Comment,
    // End of input
    EOF,
}

impl TokenType {
    /// How a kind is written in messages: the keyword or symbol itself, or the
    /// name of the class for literals, comments and the end of input.
    pub open spec fn text(self) -> Seq<char> {
        match self {
            TokenType::Select => "SELECT"@,
            TokenType::From => "FROM"@,
            TokenType::Where => "WHERE"@,
            TokenType::Order => "ORDER"@,
            TokenType::By => "BY"@,
            TokenType::Asc => "ASC"@,
            TokenType::Desc => "DESC"@,
            TokenType::Limit => "LIMIT"@,
            TokenType::Offset => "OFFSET"@,
            TokenType::Join => "JOIN"@,
            TokenType::On => "ON"@,
            TokenType::Group => "GROUP"@,
            TokenType::Having => "HAVING"@,
            TokenType::As => "AS"@,
            TokenType::Union => "UNION"@,
            TokenType::With => "WITH"@,
            TokenType::Case => "CASE"@,
            TokenType::End => "END"@,
            TokenType::And => "AND"@,
            TokenType::Or => "OR"@,
            TokenType::Not => "NOT"@,
            TokenType::Insert => "INSERT"@,
            TokenType::Into => "INTO"@,
            TokenType::Values => "VALUES"@,
            TokenType::Update => "UPDATE"@,
            TokenType::SetKeyword => "SET"@,
            TokenType::Delete => "DELETE"@,
            TokenType::Create => "CREATE"@,
            TokenType::Table => "TABLE"@,
            TokenType::Alter => "ALTER"@,
            TokenType::Drop => "DROP"@,
            TokenType::Distinct => "DISTINCT"@,
            TokenType::Null => "NULL"@,
            TokenType::Is => "IS"@,
            TokenType::Like => "LIKE"@,
            TokenType::In => "IN"@,
            TokenType::Exists => "EXISTS"@,
            TokenType::Between => "BETWEEN"@,
            TokenType::Aggregate => "AGGREGATE"@,
            TokenType::Count => "COUNT"@,
            TokenType::Sum => "SUM"@,
            TokenType::Avg => "AVG"@,
            TokenType::Min => "MIN"@,
            TokenType::Max => "MAX"@,
            TokenType::StdDev => "STDDEV"@,
            TokenType::StdDevPop => "STDDEV_POP"@,
            TokenType::StdDevSamp => "STDDEV_SAMP"@,
            TokenType::VarPop => "VAR_POP"@,
            TokenType::VarSamp => "VAR_SAMP"@,
            TokenType::Variance => "VARIANCE"@,
            TokenType::First => "FIRST"@,
            TokenType::Last => "LAST"@,
            TokenType::GroupConcat => "GROUP_CONCAT"@,
            TokenType::StringAgg => "STRING_AGG"@,
            TokenType::Median => "MEDIAN"@,
            TokenType::Mode => "MODE"@,
            TokenType::ArrayAgg => "ARRAY_AGG"@,
            TokenType::JsonAgg => "JSON_AGG"@,
            TokenType::JsonObjectAgg => "JSON_OBJECT_AGG"@,
            TokenType::BitAnd => "BIT_AND"@,
            TokenType::BitOr => "BIT_OR"@,
            TokenType::BoolAnd => "BOOL_AND"@,
            TokenType::BoolOr => "BOOL_OR"@,
            TokenType::Identifier => "identifier"@,
            TokenType::String => "string"@,
            TokenType::Boolean => "boolean"@,
            TokenType::Number => "number"@,
            TokenType::Plus => "+"@,
            TokenType::Minus => "-"@,
            TokenType::Asterisk => "*"@,
            TokenType::Slash => "/"@,
            TokenType::Percent => "%"@,
            TokenType::Equal => "="@,
            TokenType::NotEqual => "!="@,
            TokenType::LessThan => "<"@,
            TokenType::GreaterThan => ">"@,
            TokenType::LessThanOrEqual => "<="@,
            TokenType::GreaterThanOrEqual => ">="@,
            TokenType::AndOperator => "AND"@,
            TokenType::OrOperator => "OR"@,
            TokenType::NotOperator => "NOT"@,
            TokenType::LikeOperator => "LIKE"@,
            TokenType::InOperator => "IN"@,
            TokenType::IsOperator => "IS"@,
            TokenType::Comma => ","@,
            TokenType::Semicolon => ";"@,
            TokenType::LeftParen => "("@,
            TokenType::RightParen => ")"@,
            TokenType::LeftBracket => "["@,
            TokenType::RightBracket => "]"@,
            TokenType::Dot => "."@,
            TokenType::Pipe => "|>"@,
            TokenType::Comment => "comment"@,
            TokenType::EOF => "end of input"@,
        }
    }

    /// How the kind is written in messages.
    pub fn to_string(&self) -> (s: String)
        ensures
            s@ == self.text(),
    {
        match self {
            TokenType::Select => String::from_str("SELECT"),
            TokenType::From => String::from_str("FROM"),
            TokenType::Where => String::from_str("WHERE"),
            TokenType::Order => String::from_str("ORDER"),
            TokenType::By => String::from_str("BY"),
            TokenType::Asc => String::from_str("ASC"),
            TokenType::Desc => String::from_str("DESC"),
            TokenType::Limit => String::from_str("LIMIT"),
            TokenType::Offset => String::from_str("OFFSET"),
            TokenType::Join => String::from_str("JOIN"),
            TokenType::On => String::from_str("ON"),
            TokenType::Group => String::from_str("GROUP"),
            TokenType::Having => String::from_str("HAVING"),
            TokenType::As => String::from_str("AS"),
            TokenType::Union => String::from_str("UNION"),
            TokenType::With => String::from_str("WITH"),
            TokenType::Case => String::from_str("CASE"),
            TokenType::End => String::from_str("END"),
            TokenType::And => String::from_str("AND"),
            TokenType::Or => String::from_str("OR"),
            TokenType::Not => String::from_str("NOT"),
            TokenType::Insert => String::from_str("INSERT"),
            TokenType::Into => String::from_str("INTO"),
            TokenType::Values => String::from_str("VALUES"),
            TokenType::Update => String::from_str("UPDATE"),
            TokenType::SetKeyword => String::from_str("SET"),
            TokenType::Delete => String::from_str("DELETE"),
            TokenType::Create => String::from_str("CREATE"),
            TokenType::Table => String::from_str("TABLE"),
            TokenType::Alter => String::from_str("ALTER"),
            TokenType::Drop => String::from_str("DROP"),
            TokenType::Distinct => String::from_str("DISTINCT"),
            TokenType::Null => String::from_str("NULL"),
            TokenType::Is => String::from_str("IS"),
            TokenType::Like => String::from_str("LIKE"),
            TokenType::In => String::from_str("IN"),
            TokenType::Exists => String::from_str("EXISTS"),
            TokenType::Between => String::from_str("BETWEEN"),
            TokenType::Aggregate => String::from_str("AGGREGATE"),
            TokenType::Count => String::from_str("COUNT"),
            TokenType::Sum => String::from_str("SUM"),
            TokenType::Avg => String::from_str("AVG"),
            TokenType::Min => String::from_str("MIN"),
            TokenType::Max => String::from_str("MAX"),
            TokenType::StdDev => String::from_str("STDDEV"),
            TokenType::StdDevPop => String::from_str("STDDEV_POP"),
            TokenType::StdDevSamp => String::from_str("STDDEV_SAMP"),
            TokenType::VarPop => String::from_str("VAR_POP"),
            TokenType::VarSamp => String::from_str("VAR_SAMP"),
            TokenType::Variance => String::from_str("VARIANCE"),
            TokenType::First => String::from_str("FIRST"),
            TokenType::Last => String::from_str("LAST"),
            TokenType::GroupConcat => String::from_str("GROUP_CONCAT"),
            TokenType::StringAgg => String::from_str("STRING_AGG"),
            TokenType::Median => String::from_str("MEDIAN"),
            TokenType::Mode => String::from_str("MODE"),
            TokenType::ArrayAgg => String::from_str("ARRAY_AGG"),
            TokenType::JsonAgg => String::from_str("JSON_AGG"),
            TokenType::JsonObjectAgg => String::from_str("JSON_OBJECT_AGG"),
            TokenType::BitAnd => String::from_str("BIT_AND"),
            TokenType::BitOr => String::from_str("BIT_OR"),
            TokenType::BoolAnd => String::from_str("BOOL_AND"),
            TokenType::BoolOr => String::from_str("BOOL_OR"),
            TokenType::Identifier => String::from_str("identifier"),
            TokenType::String => String::from_str("string"),
            TokenType::Boolean => String::from_str("boolean"),
            TokenType::Number => String::from_str("number"),
            TokenType::Plus => String::from_str("+"),
            TokenType::Minus => String::from_str("-"),
            TokenType::Asterisk => String::from_str("*"),
            TokenType::Slash => String::from_str("/"),
            TokenType::Percent => String::from_str("%"),
            TokenType::Equal => String::from_str("="),
            TokenType::NotEqual => String::from_str("!="),
            TokenType::LessThan => String::from_str("<"),
            TokenType::GreaterThan => String::from_str(">"),
            TokenType::LessThanOrEqual => String::from_str("<="),
            TokenType::GreaterThanOrEqual => String::from_str(">="),
            TokenType::AndOperator => String::from_str("AND"),
            TokenType::OrOperator => String::from_str("OR"),
            TokenType::NotOperator => String::from_str("NOT"),
            TokenType::LikeOperator => String::from_str("LIKE"),
            TokenType::InOperator => String::from_str("IN"),
            TokenType::IsOperator => String::from_str("IS"),
            TokenType::Comma => String::from_str(","),
            TokenType::Semicolon => String::from_str(";"),
            TokenType::LeftParen => String::from_str("("),
            TokenType::RightParen => String::from_str(")"),
            TokenType::LeftBracket => String::from_str("["),
            TokenType::RightBracket => String::from_str("]"),
            TokenType::Dot => String::from_str("."),
            TokenType::Pipe => String::from_str("|>"),
            TokenType::Comment => String::from_str("comment"),
            TokenType::EOF => String::from_str("end of input"),
        }
    }

    /// Arithmetic, comparison and logical operators.
    pub open spec fn operator(self) -> bool {
        matches!(
            self,
            TokenType::Plus | TokenType::Minus | TokenType::Asterisk | TokenType::Slash
                | TokenType::Percent | TokenType::Equal | TokenType::NotEqual | TokenType::LessThan
                | TokenType::GreaterThan | TokenType::LessThanOrEqual
                | TokenType::GreaterThanOrEqual | TokenType::And | TokenType::Or
        )
    }

    /// Separators and brackets; the pipe marker is not one of them.
    pub open spec fn punctuation(self) -> bool {
        matches!(
            self,
            TokenType::Comma | TokenType::Semicolon | TokenType::LeftParen | TokenType::RightParen
                | TokenType::LeftBracket | TokenType::RightBracket | TokenType::Dot
        )
    }
}

/// The kind that a word resolves to: a keyword or an aggregate function name
/// where the word is spelled exactly like one, a boolean for `true` and
/// `false`, and an identifier otherwise.
pub open spec fn word_kind(word: Seq<char>) -> TokenType {
    if word == "SELECT"@ {
        TokenType::Select
    } else if word == "FROM"@ {
        TokenType::From
    } else if word == "WHERE"@ {
        TokenType::Where
    } else if word == "ORDER"@ {
        TokenType::Order
    } else if word == "BY"@ {
        TokenType::By
    } else if word == "ASC"@ {
        TokenType::Asc
    } else if word == "DESC"@ {
        TokenType::Desc
    } else if word == "LIMIT"@ {
        TokenType::Limit
    } else if word == "OFFSET"@ {
        TokenType::Offset
    } else if word == "JOIN"@ {
        TokenType::Join
    } else if word == "ON"@ {
        TokenType::On
    } else if word == "GROUP"@ {
        TokenType::Group
    } else if word == "HAVING"@ {
        TokenType::Having
    } else if word == "AS"@ {
        TokenType::As
    } else if word == "UNION"@ {
        TokenType::Union
    } else if word == "WITH"@ {
        TokenType::With
    } else if word == "CASE"@ {
        TokenType::Case
    } else if word == "END"@ {
        TokenType::End
    } else if word == "AGGREGATE"@ {
        TokenType::Aggregate
    } else if word == "AND"@ {
        TokenType::And
    } else if word == "OR"@ {
        TokenType::Or
    } else if word == "DISTINCT"@ {
        TokenType::Distinct
    } else if word == "COUNT"@ {
        TokenType::Count
    } else if word == "SUM"@ {
        TokenType::Sum
    } else if word == "AVG"@ {
        TokenType::Avg
    } else if word == "MIN"@ {
        TokenType::Min
    } else if word == "MAX"@ {
        TokenType::Max
    } else if word == "STDDEV"@ {
        TokenType::StdDev
    } else if word == "STDDEV_POP"@ {
        TokenType::StdDevPop
    } else if word == "STDDEV_SAMP"@ {
        TokenType::StdDevSamp
    } else if word == "VAR_POP"@ {
        TokenType::VarPop
    } else if word == "VAR_SAMP"@ {
        TokenType::VarSamp
    } else if word == "VARIANCE"@ {
        TokenType::Variance
    } else if word == "FIRST"@ {
        TokenType::First
    } else if word == "LAST"@ {
        TokenType::Last
    } else if word == "GROUP_CONCAT"@ {
        TokenType::GroupConcat
    } else if word == "STRING_AGG"@ {
        TokenType::StringAgg
    } else if word == "MEDIAN"@ {
        TokenType::Median
    } else if word == "MODE"@ {
        TokenType::Mode
    } else if word == "ARRAY_AGG"@ {
        TokenType::ArrayAgg
    } else if word == "JSON_AGG"@ {
        TokenType::JsonAgg
    } else if word == "JSON_OBJECT_AGG"@ {
        TokenType::JsonObjectAgg
    } else if word == "BIT_AND"@ {
        TokenType::BitAnd
    } else if word == "BIT_OR"@ {
        TokenType::BitOr
    } else if word == "BOOL_AND"@ {
        TokenType::BoolAnd
    } else if word == "BOOL_OR"@ {
        TokenType::BoolOr
    } else if word == "true"@ || word == "false"@ {
        TokenType::Boolean
    } else {
        TokenType::Identifier
    }
}

/// A classified lexeme with the interval of the source it was read from.
///
/// Only identifiers, strings, numbers and booleans carry their text.
#[derive(Debug, PartialEq, Eq)]
pub struct Token {
    pub kind: TokenType,
    pub lexeme: Option<String>,
    pub range: Range,
}

/// What a token is, with its text as a sequence of characters.
pub struct TokenView {
    pub kind: TokenType,
    pub lexeme: Option<Seq<char>>,
    pub range: Range,
}

impl TokenView {
    /// The text that a token stands for when it names something: its
    /// lexeme, or nothing where it carries none.
    pub open spec fn name(self) -> Seq<char> {
        match self.lexeme {
            Some(text) => text,
            None => Seq::empty(),
        }
    }
}

/// The token that a word becomes.
pub open spec fn word_token(word: Seq<char>, range: Range) -> TokenView {
    let kind = word_kind(word);
    TokenView {
        kind,
        lexeme: if kind == TokenType::Identifier || kind == TokenType::Boolean {
            Some(word)
        } else {
            None
        },
        range,
    }
}

impl View for Token {
    type V = TokenView;

    open spec fn view(&self) -> TokenView {
        TokenView {
            kind: self.kind,
            lexeme: match self.lexeme {
                Some(text) => Some(text@),
                None => None,
            },
            range: self.range,
        }
    }
}

impl Clone for Token {
    fn clone(&self) -> (token: Token)
        ensures
            token == *self,
    {
        Token { kind: self.kind, lexeme: self.lexeme.clone(), range: self.range }
    }
}

impl Token {
    /// A token with the given parts.
    pub fn new(kind: TokenType, lexeme: Option<String>, range: Range) -> (token: Token)
        ensures
            token == (Token { kind, lexeme, range }),
    {
        Token { kind, lexeme, range }
    }

    /// A token without text.
    pub fn create_simple_token(kind: TokenType, range: Range) -> (token: Token)
        ensures
            token == (Token { kind, lexeme: None, range }),
    {
        Token { kind, lexeme: None, range }
    }

    /// Whether the token is an arithmetic, comparison or logical operator.
    pub fn is_operator(&self) -> (b: bool)
        ensures
            b == self.kind.operator(),
    {
        matches!(
            self.kind,
            TokenType::Plus | TokenType::Minus | TokenType::Asterisk | TokenType::Slash
                | TokenType::Percent | TokenType::Equal | TokenType::NotEqual | TokenType::LessThan
                | TokenType::GreaterThan | TokenType::LessThanOrEqual
                | TokenType::GreaterThanOrEqual | TokenType::And | TokenType::Or
        )
    }

    /// Whether the token is a separator or a bracket.
    pub fn is_punctuation(&self) -> (b: bool)
        ensures
            b == self.kind.punctuation(),
    {
        matches!(
            self.kind,
            TokenType::Comma | TokenType::Semicolon | TokenType::LeftParen | TokenType::RightParen
                | TokenType::LeftBracket | TokenType::RightBracket | TokenType::Dot
        )
    }

    /// Whether the token marks the end of input.
    pub fn is_eof(&self) -> (b: bool)
        ensures
            b == (self.kind == TokenType::EOF),
    {
        matches!(self.kind, TokenType::EOF)
    }

    /// Whether the token is a comment.
    pub fn is_comment(&self) -> (b: bool)
        ensures
            b == (self.kind == TokenType::Comment),
    {
        matches!(self.kind, TokenType::Comment)
    }

    /// The text of a token that names something, empty where it carries none.
    pub fn name(&self) -> (text: &str)
        ensures
            text@ == self@.name(),
    {
        match &self.lexeme {
            Some(text) => text.as_str(),
            None => {
                proof {
                    reveal_strlit("");
                    assert(""@ =~= Seq::<char>::empty());
                }
                ""
            },
        }
    }

    /// The token that the word `text` becomes: a keyword or the name of an
    /// aggregate function without text, or a boolean or an identifier with
    /// the word as its text.
    pub fn create_identifier(range: Range, text: String) -> (token: Token)
        ensures
            token@ == word_token(text@, range),
    {
        let word = text.as_str();
        if same_text(word, "SELECT") {
            Token::new(TokenType::Select, None, range)
        } else if same_text(word, "FROM") {
            Token::new(TokenType::From, None, range)
        } else if same_text(word, "WHERE") {
            Token::new(TokenType::Where, None, range)
        } else if same_text(word, "ORDER") {
            Token::new(TokenType::Order, None, range)
        } else if same_text(word, "BY") {
            Token::new(TokenType::By, None, range)
        } else if same_text(word, "ASC") {
            Token::new(TokenType::Asc, None, range)
        } else if same_text(word, "DESC") {
            Token::new(TokenType::Desc, None, range)
        } else if same_text(word, "LIMIT") {
            Token::new(TokenType::Limit, None, range)
        } else if same_text(word, "OFFSET") {
            Token::new(TokenType::Offset, None, range)
        } else if same_text(word, "JOIN") {
            Token::new(TokenType::Join, None, range)
        } else if same_text(word, "ON") {
            Token::new(TokenType::On, None, range)
        } else if same_text(word, "GROUP") {
            Token::new(TokenType::Group, None, range)
        } else if same_text(word, "HAVING") {
            Token::new(TokenType::Having, None, range)
        } else if same_text(word, "AS") {
            Token::new(TokenType::As, None, range)
        } else if same_text(word, "UNION") {
            Token::new(TokenType::Union, None, range)
        } else if same_text(word, "WITH") {
            Token::new(TokenType::With, None, range)
        } else if same_text(word, "CASE") {
            Token::new(TokenType::Case, None, range)
        } else if same_text(word, "END") {
            Token::new(TokenType::End, None, range)
        } else if same_text(word, "AGGREGATE") {
            Token::new(TokenType::Aggregate, None, range)
        } else if same_text(word, "AND") {
            Token::new(TokenType::And, None, range)
        } else if same_text(word, "OR") {
            Token::new(TokenType::Or, None, range)
        } else if same_text(word, "DISTINCT") {
            Token::new(TokenType::Distinct, None, range)
        } else if same_text(word, "COUNT") {
            Token::new(TokenType::Count, None, range)
        } else if same_text(word, "SUM") {
            Token::new(TokenType::Sum, None, range)
        } else if same_text(word, "AVG") {
            Token::new(TokenType::Avg, None, range)
        } else if same_text(word, "MIN") {
            Token::new(TokenType::Min, None, range)
        } else if same_text(word, "MAX") {
            Token::new(TokenType::Max, None, range)
        } else if same_text(word, "STDDEV") {
            Token::new(TokenType::StdDev, None, range)
        } else if same_text(word, "STDDEV_POP") {
            Token::new(TokenType::StdDevPop, None, range)
        } else if same_text(word, "STDDEV_SAMP") {
            Token::new(TokenType::StdDevSamp, None, range)
        } else if same_text(word, "VAR_POP") {
            Token::new(TokenType::VarPop, None, range)
        } else if same_text(word, "VAR_SAMP") {
            Token::new(TokenType::VarSamp, None, range)
        } else if same_text(word, "VARIANCE") {
            Token::new(TokenType::Variance, None, range)
        } else if same_text(word, "FIRST") {
            Token::new(TokenType::First, None, range)
        } else if same_text(word, "LAST") {
            Token::new(TokenType::Last, None, range)
        } else if same_text(word, "GROUP_CONCAT") {
            Token::new(TokenType::GroupConcat, None, range)
        } else if same_text(word, "STRING_AGG") {
            Token::new(TokenType::StringAgg, None, range)
        } else if same_text(word, "MEDIAN") {
            Token::new(TokenType::Median, None, range)
        } else if same_text(word, "MODE") {
            Token::new(TokenType::Mode, None, range)
        } else if same_text(word, "ARRAY_AGG") {
            Token::new(TokenType::ArrayAgg, None, range)
        } else if same_text(word, "JSON_AGG") {
            Token::new(TokenType::JsonAgg, None, range)
        } else if same_text(word, "JSON_OBJECT_AGG") {
            Token::new(TokenType::JsonObjectAgg, None, range)
        } else if same_text(word, "BIT_AND") {
            Token::new(TokenType::BitAnd, None, range)
        } else if same_text(word, "BIT_OR") {
            Token::new(TokenType::BitOr, None, range)
        } else if same_text(word, "BOOL_AND") {
            Token::new(TokenType::BoolAnd, None, range)
        } else if same_text(word, "BOOL_OR") {
            Token::new(TokenType::BoolOr, None, range)
        } else if same_text(word, "true") || same_text(word, "false") {
            Token::new(TokenType::Boolean, Some(text), range)
        } else {
            Token::new(TokenType::Identifier, Some(text), range)
        }
    }
}

} // verus!
