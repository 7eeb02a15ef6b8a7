//! The lexer: cuts the input into whitespace-delimited elements and
//! classifies each of them.

use vstd::prelude::*;
use crate::chars::is_white_space;
use crate::rules::{
    classify, classify_element, lemma_payload_is_element, rule_table, rule_table_spec, rule_values,
};
use crate::token::{token_values, Token, TokenType};

verus! {

/// The length of the word that `s` begins with: of its longest prefix
/// without white space.
pub open spec fn word_len(s: Seq<char>) -> nat
    decreases s.len(),
{
    if s.len() == 0 || is_white_space(s[0]) {
        0
    } else {
        1 + word_len(s.drop_first())
    }
}

/// A word is no longer than the text that it begins, it holds no white
/// space, and it ends where the text ends or white space follows.
pub proof fn lemma_word_len(s: Seq<char>)
    ensures
        word_len(s) <= s.len(),
        forall|i: int| 0 <= i < word_len(s) ==> !is_white_space(#[trigger] s[i]),
        word_len(s) < s.len() ==> is_white_space(s[word_len(s) as int]),
    decreases s.len(),
{
    if s.len() > 0 && !is_white_space(s[0]) {
        let rest = s.drop_first();
        lemma_word_len(rest);
        assert forall|i: int| 0 <= i < word_len(s) implies !is_white_space(#[trigger] s[i]) by {
            if i > 0 {
                assert(s[i] == rest[i - 1]);
            }
        }
    }
}

/// The whitespace-delimited elements of `s`, in order: its maximal runs of
/// characters that are not white space.
pub open spec fn elements(s: Seq<char>) -> Seq<Seq<char>>
    decreases s.len(),
    via elements_decreases
{
    if s.len() == 0 {
        Seq::empty()
    } else if is_white_space(s[0]) {
        elements(s.drop_first())
    } else {
        seq![s.take(word_len(s) as int)] + elements(s.skip(word_len(s) as int))
    }
}

#[via_fn]
proof fn elements_decreases(s: Seq<char>) {
    lemma_word_len(s);
}

/// The texts of a sequence of strings, in the same order.
pub open spec fn texts(strings: Seq<String>) -> Seq<Seq<char>> {
    Seq::new(strings.len(), |i: int| strings[i]@)
}

/// Cuts `input` into its whitespace-delimited elements, in one pass from
/// left to right. Any run of white space separates two elements, and white
/// space at either end of the input makes no element.
pub fn split_elements(input: &str) -> (found: Vec<String>)
    ensures
        texts(found@) == elements(input@),
{
    let ghost s = input@;
    let ghost mut start: int = 0;
    let mut found: Vec<String> = Vec::new();
    let mut word = String::new();
    proof {
        assert(s.skip(0) =~= s);
    }
    for c in it: input.chars()
        invariant
            it.seq() == s,
            0 <= start <= it.index() <= s.len(),
            word@ == s.subrange(start, it.index()),
            word_len(s.skip(start)) == (it.index() - start) + word_len(s.skip(it.index())),
            texts(found@) + elements(s.skip(start)) == elements(s),
    {
        let ghost i = it.index();
        proof {
            assert(s.skip(i).drop_first() =~= s.skip(i + 1));
        }
        if c.is_whitespace() {
            if !word.as_str().is_empty() {
                proof {
                    // The word that began at `start` ends here.
                    lemma_first_element(s.skip(start));
                    assert(s.skip(start).take(i - start) =~= word@);
                    assert(s.skip(start).skip(i - start) =~= s.skip(i));
                    lemma_push_text(found@, word, elements(s.skip(i + 1)));
                }
                found.push(word);
                word = String::new();
            }
            proof {
                start = i + 1;
            }
        } else {
            word.push(c);
        }
    }
    if !word.as_str().is_empty() {
        proof {
            // The last word ends with the input.
            lemma_first_element(s.skip(start));
            assert(s.skip(start).take(s.len() - start) =~= word@);
            lemma_push_text(found@, word, Seq::empty());
        }
        found.push(word);
    }
    found
}

/// Where `s` begins with a word, that word is its first element, and the
/// other elements are those of what follows the word.
proof fn lemma_first_element(s: Seq<char>)
    requires
        word_len(s) > 0,
    ensures
        elements(s) == seq![s.take(word_len(s) as int)] + elements(s.skip(word_len(s) as int)),
{
}

/// Pushing a string appends its text to the texts.
proof fn lemma_push_text(strings: Seq<String>, last: String, rest: Seq<Seq<char>>)
    ensures
        texts(strings.push(last)) + rest == texts(strings) + (seq![last@] + rest),
{
}

/// The tokens of `s`: the token of each of its elements, in order.
pub open spec fn tokens_of(s: Seq<char>) -> Seq<Token> {
    Seq::new(elements(s).len(), |i: int| classify(elements(s)[i]))
}

/// Cuts `input` into whitespace-delimited elements and classifies each of
/// them under the rule table. The result holds one token for each element,
/// in the order of the input.
pub fn tokenize(input: &str) -> (tokens: Vec<TokenType>)
    ensures
        token_values(tokens@) == tokens_of(input@),
        tokens@.len() == elements(input@).len(),
{
    let table = rule_table();
    let found = split_elements(input);
    let mut tokens: Vec<TokenType> = Vec::new();
    let mut i: usize = 0;
    while i < found.len()
        invariant
            i <= found.len(),
            tokens@.len() == i,
            texts(found@) == elements(input@),
            rule_values(table@) == rule_table_spec(),
            forall|j: int| 0 <= j < i ==> (#[trigger] tokens@[j])@ == classify(found@[j]@),
        decreases found.len() - i,
    {
        let token = classify_element(&table, found[i].as_str());
        tokens.push(token);
        i += 1;
    }
    tokens
}

/// A text that is not empty and holds no white space.
pub open spec fn is_word(text: Seq<char>) -> bool {
    &&& text.len() > 0
    &&& forall|j: int| 0 <= j < text.len() ==> !is_white_space(#[trigger] text[j])
}

/// Every element is a word: it is not empty and holds no white space.
pub proof fn lemma_elements_are_words(s: Seq<char>)
    ensures
        forall|i: int| 0 <= i < elements(s).len() ==> is_word(#[trigger] elements(s)[i]),
    decreases s.len(),
{
    if s.len() == 0 {
    } else if is_white_space(s[0]) {
        lemma_elements_are_words(s.drop_first());
        assert(elements(s) == elements(s.drop_first()));
    } else {
        let n = word_len(s) as int;
        let first = s.take(n);
        let others = elements(s.skip(n));
        lemma_word_len(s);
        lemma_elements_are_words(s.skip(n));
        assert(is_word(first));
        assert forall|i: int| 0 <= i < elements(s).len() implies is_word(
            #[trigger] elements(s)[i],
        ) by {
            if i > 0 {
                assert(elements(s)[i] == others[i - 1]);
            }
        }
    }
}

/// An input that is empty or holds white space only has no elements.
pub proof fn lemma_blank_has_no_elements(s: Seq<char>)
    requires
        forall|i: int| 0 <= i < s.len() ==> is_white_space(#[trigger] s[i]),
    ensures
        elements(s).len() == 0,
        tokens_of(s).len() == 0,
    decreases s.len(),
{
    if s.len() > 0 {
        lemma_blank_has_no_elements(s.drop_first());
    }
}

/// A nonempty text without white space is its own single element.
pub proof fn lemma_word_is_one_element(word: Seq<char>)
    requires
        is_word(word),
    ensures
        elements(word) == seq![word],
{
    lemma_whole_word(word);
    assert(word.take(word.len() as int) =~= word);
    assert(elements(word.skip(word.len() as int)).len() == 0);
}

/// A text without white space is one word from end to end.
proof fn lemma_whole_word(word: Seq<char>)
    requires
        forall|i: int| 0 <= i < word.len() ==> !is_white_space(#[trigger] word[i]),
    ensures
        word_len(word) == word.len(),
    decreases word.len(),
{
    if word.len() > 0 {
        lemma_whole_word(word.drop_first());
    }
}

/// The word that `a + b` begins with: the word of `a` where that ends
/// inside `a`, and otherwise all of `a` and the word of `b`.
proof fn lemma_word_len_concat(a: Seq<char>, b: Seq<char>)
    ensures
        word_len(a) < a.len() ==> word_len(a + b) == word_len(a),
        word_len(a) >= a.len() ==> word_len(a + b) == a.len() + word_len(b),
    decreases a.len(),
{
    if a.len() > 0 && !is_white_space(a[0]) {
        assert((a + b).drop_first() =~= a.drop_first() + b);
        lemma_word_len_concat(a.drop_first(), b);
    }
}

/// Elements do not reach across white space: where `a` ends with white
/// space or `b` begins with it, or one of them is empty, the elements of
/// `a + b` are those of `a` followed by those of `b`.
pub proof fn lemma_elements_concat(a: Seq<char>, b: Seq<char>)
    requires
        a.len() == 0 || b.len() == 0 || is_white_space(a.last()) || is_white_space(b[0]),
    ensures
        elements(a + b) == elements(a) + elements(b),
    decreases a.len(),
{
    if a.len() == 0 {
    } else if is_white_space(a[0]) {
        let rest = a.drop_first();
        assert((a + b).drop_first() =~= rest + b);
        lemma_elements_concat(rest, b);
    } else {
        let n = word_len(a) as int;
        lemma_word_len(a);
        lemma_word_len_concat(a, b);
        if n < a.len() {
            let rest = a.skip(n);
            assert((a + b).take(n) =~= a.take(n));
            assert((a + b).skip(n) =~= rest + b);
            lemma_elements_concat(rest, b);
        } else {
            assert((a + b).take(n) =~= a.take(n));
            assert((a + b).skip(n) =~= b);
            assert(elements(a.skip(n)).len() == 0);
        }
    }
}

/// Tokens do not reach across white space either: under the condition of
/// `lemma_elements_concat`, the tokens of `a + b` are those of `a` followed
/// by those of `b`.
pub proof fn lemma_tokens_concat(a: Seq<char>, b: Seq<char>)
    requires
        a.len() == 0 || b.len() == 0 || is_white_space(a.last()) || is_white_space(b[0]),
    ensures
        tokens_of(a + b) == tokens_of(a) + tokens_of(b),
{
    lemma_elements_concat(a, b);
}

/// A token depends on its own element alone, not on its position nor on
/// its neighbours: equal elements, of one input or of two, have equal
/// tokens.
pub proof fn lemma_token_depends_on_element(s: Seq<char>, i: int, t: Seq<char>, j: int)
    requires
        0 <= i < elements(s).len(),
        0 <= j < elements(t).len(),
        elements(s)[i] == elements(t)[j],
    ensures
        tokens_of(s)[i] == tokens_of(t)[j],
{
}

/// The tokens of an input keep the texts of its elements: a `StringValue`
/// or an `InvalidSyntax` at a position carries the element at that
/// position, unchanged.
pub proof fn lemma_tokens_keep_text(s: Seq<char>, position: int)
    requires
        0 <= position < tokens_of(s).len(),
    ensures
        tokens_of(s)[position] matches Token::StringValue(text) ==> text == elements(s)[position],
        tokens_of(s)[position] matches Token::InvalidSyntax(text) ==> text == elements(s)[position],
{
    lemma_payload_is_element(rule_table_spec(), elements(s)[position]);
}

/// Tokenizing is a function of the input: two results for the same input
/// hold the same tokens in the same order.
pub proof fn lemma_tokenize_is_deterministic(
    input: Seq<char>,
    first: Seq<TokenType>,
    second: Seq<TokenType>,
)
    requires
        token_values(first) == tokens_of(input),
        token_values(second) == tokens_of(input),
    ensures
        token_values(first) == token_values(second),
{
}

} // verus!
