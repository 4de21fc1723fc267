//! Compiler front end for a pipe-oriented SQL dialect: lexing, parsing,
//! checking and rendering of `stage |> stage` queries, with every function
//! verified against a mathematical model of its behaviour.

pub mod utils;
pub mod lexer;
pub mod diagnostics;
pub mod parser;
pub mod emiter;
pub mod checker;
pub mod compile;
