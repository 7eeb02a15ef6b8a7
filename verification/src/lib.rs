//! A lexer for a small query language that selects configuration objects
//! (routes, services, global scopes) by attribute predicates, for example
//! `SELECT SERVICE WHERE port = 443 AND protocol CONTAINS get`.
//!
//! The input is cut into whitespace-delimited elements, and each element is
//! classified on its own by an ordered rule table: the first rule whose
//! pattern accepts the whole element decides the token, and an element that
//! no rule accepts becomes an `InvalidSyntax` token that carries its text.
//! Tokenizing never fails; a caller finds the elements that were not
//! accepted among the tokens, each at its position.
//!
//! Everything here is verified but for what is taken from outside: that
//! the `regex` crate matches the patterns of the rule table as `pattern`
//! states, which characters std counts as white space, and that pushing a
//! character lengthens a string by it.

pub mod chars;
pub mod lexer;
pub mod pattern;
pub mod report;
pub mod rules;
pub mod token;

pub use crate::lexer::tokenize;
pub use crate::rules::attempt_token;
pub use crate::report::{invalid_positions, report_line};
pub use crate::token::{ConfigLevel, TokenType};
