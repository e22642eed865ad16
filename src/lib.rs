//! Lexical front-end of a small scripting language: a byte cursor with
//! line and column tracking, and a pull-based tokenizer over it.

pub mod iterator;
pub mod source;
pub mod token;
pub mod util;
pub mod lexer;
