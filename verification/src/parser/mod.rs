//! From tokens to a program.

pub mod ast;
pub mod copy;
pub mod grammar;
pub mod parser;
pub mod placement;
pub mod progress;
pub mod spans;

pub use parser::Parser;
