//! What a caller reports of a token sequence: where the elements stand
//! that no rule accepted, and the line that tells of each.

use vstd::prelude::*;
use crate::token::{Token, TokenType};

verus! {

/// Whether `position` is that of an `InvalidSyntax` token among `tokens`.
pub open spec fn is_invalid_at(tokens: Seq<TokenType>, position: int) -> bool {
    0 <= position < tokens.len() && tokens[position]@ is InvalidSyntax
}

/// Finds the elements that no rule accepted: the positions, counted from
/// zero, of the `InvalidSyntax` tokens among `tokens`, each once and in
/// increasing order. A caller reports each with the text that the token at
/// that position carries.
pub fn invalid_positions(tokens: &Vec<TokenType>) -> (positions: Vec<usize>)
    ensures
        forall|k: int|
            0 <= k < positions@.len() ==> is_invalid_at(tokens@, (#[trigger] positions@[k]) as int),
        forall|j: int, k: int|
            0 <= j < k < positions@.len() ==> positions@[j] < positions@[k],
        forall|p: int| #[trigger]
            is_invalid_at(tokens@, p) ==> positions@.contains(p as usize),
{
    let mut positions: Vec<usize> = Vec::new();
    let mut i: usize = 0;
    while i < tokens.len()
        invariant
            i <= tokens@.len(),
            forall|k: int|
                0 <= k < positions@.len() ==> positions@[k] < i && is_invalid_at(
                    tokens@,
                    (#[trigger] positions@[k]) as int,
                ),
            forall|j: int, k: int|
                0 <= j < k < positions@.len() ==> positions@[j] < positions@[k],
            forall|p: int| #[trigger]
                is_invalid_at(tokens@, p) && p < i ==> positions@.contains(p as usize),
        decreases tokens@.len() - i,
    {
        if tokens[i].is_invalid() {
            let ghost before = positions@;
            positions.push(i);
            proof {
                assert(positions@[before.len() as int] == i);
                assert forall|p: int| #[trigger]
                    is_invalid_at(tokens@, p) && p < i + 1 implies positions@.contains(
                    p as usize,
                ) by {
                    if p < i {
                        let k = choose|k: int| 0 <= k < before.len() && before[k] == p as usize;
                        assert(positions@[k] == p as usize);
                    }
                }
            }
        }
        i += 1;
    }
    positions
}

/// The character of one decimal digit.
pub open spec fn digit(d: nat) -> char {
    if d == 0 {
        '0'
    } else if d == 1 {
        '1'
    } else if d == 2 {
        '2'
    } else if d == 3 {
        '3'
    } else if d == 4 {
        '4'
    } else if d == 5 {
        '5'
    } else if d == 6 {
        '6'
    } else if d == 7 {
        '7'
    } else if d == 8 {
        '8'
    } else {
        '9'
    }
}

/// The decimal numeral of `n`, without leading zeros.
pub open spec fn decimal(n: nat) -> Seq<char>
    decreases n,
{
    if n < 10 {
        seq![digit(n)]
    } else {
        decimal(n / 10).push(digit(n % 10))
    }
}

fn digit_char(d: usize) -> (c: char)
    requires
        d < 10,
    ensures
        c == digit(d as nat),
{
    if d == 0 {
        '0'
    } else if d == 1 {
        '1'
    } else if d == 2 {
        '2'
    } else if d == 3 {
        '3'
    } else if d == 4 {
        '4'
    } else if d == 5 {
        '5'
    } else if d == 6 {
        '6'
    } else if d == 7 {
        '7'
    } else if d == 8 {
        '8'
    } else {
        '9'
    }
}

/// Writes `n` as a decimal numeral.
pub fn decimal_string(n: usize) -> (numeral: String)
    ensures
        numeral@ == decimal(n as nat),
    decreases n,
{
    if n < 10 {
        let mut numeral = String::new();
        numeral.push(digit_char(n));
        numeral
    } else {
        let mut numeral = decimal_string(n / 10);
        numeral.push(digit_char(n % 10));
        numeral
    }
}

/// The line that reports the element `text` at `position`, counted from
/// zero, as one that no rule accepted.
pub open spec fn invalid_message(text: Seq<char>, position: nat) -> Seq<char> {
    "Invalid syntax \""@ + text + "\" at token position "@ + decimal(position) + "."@
}

/// The line that reports `token`, which stands at `position`, if it is an
/// `InvalidSyntax` token; `None` for every other token.
pub fn report_line(token: &TokenType, position: usize) -> (line: Option<String>)
    ensures
        match token@ {
            Token::InvalidSyntax(text) => line matches Some(message) && message@
                == invalid_message(text, position as nat),
            _ => line is None,
        },
{
    match token {
        TokenType::InvalidSyntax(text) => {
            let mut message = String::from_str("Invalid syntax \"");
            message.append(text.as_str());
            message.append("\" at token position ");
            message.append(decimal_string(position).as_str());
            message.append(".");
            Some(message)
        },
        _ => None,
    }
}

} // verus!
