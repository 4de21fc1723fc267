//! From a source to its tokens.

pub mod lexer;
pub mod scan;
pub mod token;

pub use lexer::Lexer;
pub use token::Token;
pub use token::TokenType;
