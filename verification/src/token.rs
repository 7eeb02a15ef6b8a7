//! Tokens and their mathematical values.

use vstd::prelude::*;

verus! {

/// The kind of configuration object that a query addresses.
#[derive(Debug, Clone, Copy, PartialEq, Eq, Structural)]
pub enum ConfigLevel {
    Service,
    Route,
    Global,
    All,
}

/// The mathematical value of a token: what a `TokenType` stands for, with
/// each payload as a sequence of characters.
pub enum Token {
    Level(ConfigLevel),
    StringValue(Seq<char>),
    And,
    Contains,
    Equals,
    Select,
    Where,
    InvalidSyntax(Seq<char>),
}

/// One classified element of a query.
///
/// `StringValue` and `InvalidSyntax` carry the text of the element that
/// produced them, unchanged.
#[derive(Debug)]
pub enum TokenType {
    Level(ConfigLevel),
    StringValue(String),
    And,
    Contains,
    Equals,
    Select,
    Where,
    InvalidSyntax(String),
}

impl View for TokenType {
    type V = Token;

    open spec fn view(&self) -> Token {
        match self {
            TokenType::Level(level) => Token::Level(*level),
            TokenType::StringValue(text) => Token::StringValue(text@),
            TokenType::And => Token::And,
            TokenType::Contains => Token::Contains,
            TokenType::Equals => Token::Equals,
            TokenType::Select => Token::Select,
            TokenType::Where => Token::Where,
            TokenType::InvalidSyntax(text) => Token::InvalidSyntax(text@),
        }
    }
}

/// The values of a sequence of tokens, in the same order.
pub open spec fn token_values(tokens: Seq<TokenType>) -> Seq<Token> {
    Seq::new(tokens.len(), |i: int| tokens[i]@)
}

impl PartialEq for TokenType {
    fn eq(&self, other: &Self) -> (equal: bool) {
        match (self, other) {
            (TokenType::Level(a), TokenType::Level(b)) => *a == *b,
            (TokenType::StringValue(a), TokenType::StringValue(b)) => *a == *b,
            (TokenType::And, TokenType::And) => true,
            (TokenType::Contains, TokenType::Contains) => true,
            (TokenType::Equals, TokenType::Equals) => true,
            (TokenType::Select, TokenType::Select) => true,
            (TokenType::Where, TokenType::Where) => true,
            (TokenType::InvalidSyntax(a), TokenType::InvalidSyntax(b)) => *a == *b,
            _ => false,
        }
    }
}

/// Two tokens are equal where their values are: the same variant, with the
/// same scope or the same text.
impl vstd::std_specs::cmp::PartialEqSpecImpl for TokenType {
    open spec fn obeys_eq_spec() -> bool {
        true
    }

    open spec fn eq_spec(&self, other: &Self) -> bool {
        self@ == other@
    }
}

impl Clone for TokenType {
    fn clone(&self) -> (copy: Self)
        ensures
            copy@ == self@,
    {
        match self {
            TokenType::Level(level) => TokenType::Level(*level),
            TokenType::StringValue(text) => TokenType::StringValue(text.clone()),
            TokenType::And => TokenType::And,
            TokenType::Contains => TokenType::Contains,
            TokenType::Equals => TokenType::Equals,
            TokenType::Select => TokenType::Select,
            TokenType::Where => TokenType::Where,
            TokenType::InvalidSyntax(text) => TokenType::InvalidSyntax(text.clone()),
        }
    }
}

impl TokenType {
    /// Whether this token reports an element that no rule accepted.
    pub fn is_invalid(&self) -> (b: bool)
        ensures
            b == (self@ is InvalidSyntax),
    {
        match self {
            TokenType::InvalidSyntax(_) => true,
            _ => false,
        }
    }
}

} // verus!
