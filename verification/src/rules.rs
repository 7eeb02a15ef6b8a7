//! The rule table and the classifier that it drives.
//!
//! A rule pairs a pattern with the kind of token that an accepted element
//! becomes. The table is ordered: where more than one pattern accepts an
//! element, the earlier rule decides.

use vstd::prelude::*;
use crate::pattern::{
    exact_word, is_supported_pattern, is_value, is_value_char, pattern_accepts, regex_match,
};
use crate::token::{ConfigLevel, Token, TokenType};

verus! {

/// What a rule makes of an element that its pattern accepts.
#[derive(Debug, Clone, Copy, PartialEq, Eq, Structural)]
pub enum TokenKind {
    Select,
    Where,
    And,
    Contains,
    Equals,
    Level(ConfigLevel),
    /// A free-form value, which keeps the element's text.
    StringValue,
}

impl TokenKind {
    /// The value of the token that this kind makes of `element`.
    pub open spec fn token_of(self, element: Seq<char>) -> Token {
        match self {
            TokenKind::Select => Token::Select,
            TokenKind::Where => Token::Where,
            TokenKind::And => Token::And,
            TokenKind::Contains => Token::Contains,
            TokenKind::Equals => Token::Equals,
            TokenKind::Level(level) => Token::Level(level),
            TokenKind::StringValue => Token::StringValue(element),
        }
    }

    /// Makes the token of this kind for `element`.
    pub fn token(self, element: &str) -> (t: TokenType)
        ensures
            t@ == self.token_of(element@),
    {
        match self {
            TokenKind::Select => TokenType::Select,
            TokenKind::Where => TokenType::Where,
            TokenKind::And => TokenType::And,
            TokenKind::Contains => TokenType::Contains,
            TokenKind::Equals => TokenType::Equals,
            TokenKind::Level(level) => TokenType::Level(level),
            TokenKind::StringValue => TokenType::StringValue(String::from_str(element)),
        }
    }
}

/// The value of a rule: the text of its pattern, and its kind.
pub struct RuleSpec {
    pub pattern: Seq<char>,
    pub kind: TokenKind,
}

/// One entry of the rule table. Its pattern is always a supported one.
pub struct Rule {
    pattern: &'static str,
    kind: TokenKind,
}

impl View for Rule {
    type V = RuleSpec;

    closed spec fn view(&self) -> RuleSpec {
        RuleSpec { pattern: self.pattern@, kind: self.kind }
    }
}

impl Rule {
    /// Every rule is written in a supported pattern.
    #[verifier::type_invariant]
    spec fn supported(self) -> bool {
        is_supported_pattern(self.pattern@)
    }

    /// The text of the rule's pattern.
    pub fn pattern(&self) -> (p: &'static str)
        ensures
            p@ == self@.pattern,
            is_supported_pattern(p@),
    {
        proof {
            use_type_invariant(self);
        }
        self.pattern
    }

    /// The kind of token that the rule makes.
    pub fn kind(&self) -> (k: TokenKind)
        ensures
            k == self@.kind,
    {
        self.kind
    }

    /// Whether the rule's pattern accepts the whole of `element`.
    pub fn accepts(&self, element: &str) -> (b: bool)
        ensures
            b == pattern_accepts(self@.pattern, element@),
    {
        proof {
            use_type_invariant(self);
        }
        match regex_match(self.pattern, element) {
            Ok(found) => found,
            // Not reached: a supported pattern compiles.
            Err(_) => false,
        }
    }
}

/// The values of a sequence of rules, in the same order.
pub open spec fn rule_values(rules: Seq<Rule>) -> Seq<RuleSpec> {
    Seq::new(rules.len(), |i: int| rules[i]@)
}

/// The rule table, in priority order: the keywords and the operator, the
/// four scopes, and last the pattern of free-form values.
pub open spec fn rule_table_spec() -> Seq<RuleSpec> {
    seq![
        RuleSpec { pattern: "^SELECT$"@, kind: TokenKind::Select },
        RuleSpec { pattern: "^WHERE$"@, kind: TokenKind::Where },
        RuleSpec { pattern: "^AND$"@, kind: TokenKind::And },
        RuleSpec { pattern: "^CONTAINS$"@, kind: TokenKind::Contains },
        RuleSpec { pattern: "^=$"@, kind: TokenKind::Equals },
        RuleSpec { pattern: "^ROUTE$"@, kind: TokenKind::Level(ConfigLevel::Route) },
        RuleSpec { pattern: "^SERVICE$"@, kind: TokenKind::Level(ConfigLevel::Service) },
        RuleSpec { pattern: "^GLOBAL$"@, kind: TokenKind::Level(ConfigLevel::Global) },
        RuleSpec { pattern: "^ALL$"@, kind: TokenKind::Level(ConfigLevel::All) },
        RuleSpec { pattern: "^[a-z0-9]+$"@, kind: TokenKind::StringValue },
    ]
}

/// The token that `table` makes of `element`: that of the first rule whose
/// pattern accepts the element, and `InvalidSyntax` with the element's text
/// where no rule does.
pub open spec fn classify_with(table: Seq<RuleSpec>, element: Seq<char>) -> Token
    decreases table.len(),
{
    if table.len() == 0 {
        Token::InvalidSyntax(element)
    } else if pattern_accepts(table[0].pattern, element) {
        table[0].kind.token_of(element)
    } else {
        classify_with(table.drop_first(), element)
    }
}

/// The token of `element` under the rule table.
pub open spec fn classify(element: Seq<char>) -> Token {
    classify_with(rule_table_spec(), element)
}

/// Builds the rule table, in priority order.
pub fn rule_table() -> (table: Vec<Rule>)
    ensures
        rule_values(table@) == rule_table_spec(),
{
    proof {
        reveal_strlit("^SELECT$");
        reveal_strlit("^WHERE$");
        reveal_strlit("^AND$");
        reveal_strlit("^CONTAINS$");
        reveal_strlit("^=$");
        reveal_strlit("^ROUTE$");
        reveal_strlit("^SERVICE$");
        reveal_strlit("^GLOBAL$");
        reveal_strlit("^ALL$");
    }
    let mut table: Vec<Rule> = Vec::new();
    table.push(Rule { pattern: "^SELECT$", kind: TokenKind::Select });
    table.push(Rule { pattern: "^WHERE$", kind: TokenKind::Where });
    table.push(Rule { pattern: "^AND$", kind: TokenKind::And });
    table.push(Rule { pattern: "^CONTAINS$", kind: TokenKind::Contains });
    table.push(Rule { pattern: "^=$", kind: TokenKind::Equals });
    table.push(Rule { pattern: "^ROUTE$", kind: TokenKind::Level(ConfigLevel::Route) });
    table.push(Rule { pattern: "^SERVICE$", kind: TokenKind::Level(ConfigLevel::Service) });
    table.push(Rule { pattern: "^GLOBAL$", kind: TokenKind::Level(ConfigLevel::Global) });
    table.push(Rule { pattern: "^ALL$", kind: TokenKind::Level(ConfigLevel::All) });
    table.push(Rule { pattern: "^[a-z0-9]+$", kind: TokenKind::StringValue });
    table
}

/// Classifies one element by `table`: the rules are tried in order, and the
/// first whose pattern accepts the element decides.
pub fn classify_element(table: &Vec<Rule>, element: &str) -> (t: TokenType)
    ensures
        t@ == classify_with(rule_values(table@), element@),
        t@ matches Token::StringValue(text) ==> text == element@,
        t@ matches Token::InvalidSyntax(text) ==> text == element@,
{
    let ghost rules = rule_values(table@);
    let mut i: usize = 0;
    assert(rules.skip(0) =~= rules);
    while i < table.len()
        invariant
            i <= table.len(),
            rules == rule_values(table@),
            classify_with(rules, element@) == classify_with(rules.skip(i as int), element@),
        decreases table.len() - i,
    {
        let rule = &table[i];
        proof {
            assert(rules.skip(i as int).drop_first() =~= rules.skip(i + 1));
        }
        if rule.accepts(element) {
            return rule.kind().token(element);
        }
        i += 1;
    }
    TokenType::InvalidSyntax(String::from_str(element))
}

/// Classifies one element under the rule table. Every input has exactly
/// one token: a fixed word its keyword, operator or scope, a nonempty text
/// of lowercase letters and digits a `StringValue`, and anything else an
/// `InvalidSyntax`; the last two carry the input unchanged.
pub fn attempt_token(input: &str) -> (t: TokenType)
    ensures
        t@ == classify(input@),
        t@ == classify_by_cases(input@),
        t@ matches Token::StringValue(text) ==> text == input@,
        t@ matches Token::InvalidSyntax(text) ==> text == input@,
{
    proof {
        lemma_classify_by_cases(input@);
    }
    let table = rule_table();
    classify_element(&table, input)
}

/// First match wins: where the rule at `index` accepts `element` and no
/// earlier rule does, that rule decides the token.
pub proof fn lemma_first_match_decides(table: Seq<RuleSpec>, element: Seq<char>, index: int)
    requires
        0 <= index < table.len(),
        pattern_accepts(table[index].pattern, element),
        forall|j: int| 0 <= j < index ==> !pattern_accepts(#[trigger] table[j].pattern, element),
    ensures
        classify_with(table, element) == table[index].kind.token_of(element),
    decreases table.len(),
{
    if index > 0 {
        lemma_first_match_decides(table.drop_first(), element, index - 1);
    }
}

/// An element that no rule accepts becomes `InvalidSyntax` with its text.
pub proof fn lemma_no_match_is_invalid(table: Seq<RuleSpec>, element: Seq<char>)
    requires
        forall|j: int| 0 <= j < table.len() ==> !pattern_accepts(#[trigger] table[j].pattern, element),
    ensures
        classify_with(table, element) == Token::InvalidSyntax(element),
    decreases table.len(),
{
    if table.len() > 0 {
        lemma_no_match_is_invalid(table.drop_first(), element);
    }
}

/// Whatever the table, a token that carries text carries the text of the
/// element that it was made of, unchanged.
pub proof fn lemma_payload_is_element(table: Seq<RuleSpec>, element: Seq<char>)
    ensures
        classify_with(table, element) matches Token::StringValue(text) ==> text == element,
        classify_with(table, element) matches Token::InvalidSyntax(text) ==> text == element,
    decreases table.len(),
{
    if table.len() > 0 && !pattern_accepts(table[0].pattern, element) {
        lemma_payload_is_element(table.drop_first(), element);
    }
}

/// What each pattern of the rule table accepts: a keyword pattern its
/// keyword in upper case and nothing else, the operator pattern the equals
/// sign, and the value pattern the nonempty texts of lowercase letters and
/// digits.
pub proof fn lemma_table_patterns(element: Seq<char>)
    ensures
        pattern_accepts("^SELECT$"@, element) <==> element == "SELECT"@,
        pattern_accepts("^WHERE$"@, element) <==> element == "WHERE"@,
        pattern_accepts("^AND$"@, element) <==> element == "AND"@,
        pattern_accepts("^CONTAINS$"@, element) <==> element == "CONTAINS"@,
        pattern_accepts("^=$"@, element) <==> element == "="@,
        pattern_accepts("^ROUTE$"@, element) <==> element == "ROUTE"@,
        pattern_accepts("^SERVICE$"@, element) <==> element == "SERVICE"@,
        pattern_accepts("^GLOBAL$"@, element) <==> element == "GLOBAL"@,
        pattern_accepts("^ALL$"@, element) <==> element == "ALL"@,
        pattern_accepts("^[a-z0-9]+$"@, element) <==> is_value(element),
{
    reveal_strlit("^[a-z0-9]+$");
    reveal_strlit("^SELECT$");
    reveal_strlit("SELECT");
    assert(exact_word("^SELECT$"@) =~= "SELECT"@);
    reveal_strlit("^WHERE$");
    reveal_strlit("WHERE");
    assert(exact_word("^WHERE$"@) =~= "WHERE"@);
    reveal_strlit("^AND$");
    reveal_strlit("AND");
    assert(exact_word("^AND$"@) =~= "AND"@);
    reveal_strlit("^CONTAINS$");
    reveal_strlit("CONTAINS");
    assert(exact_word("^CONTAINS$"@) =~= "CONTAINS"@);
    reveal_strlit("^=$");
    reveal_strlit("=");
    assert(exact_word("^=$"@) =~= "="@);
    reveal_strlit("^ROUTE$");
    reveal_strlit("ROUTE");
    assert(exact_word("^ROUTE$"@) =~= "ROUTE"@);
    reveal_strlit("^SERVICE$");
    reveal_strlit("SERVICE");
    assert(exact_word("^SERVICE$"@) =~= "SERVICE"@);
    reveal_strlit("^GLOBAL$");
    reveal_strlit("GLOBAL");
    assert(exact_word("^GLOBAL$"@) =~= "GLOBAL"@);
    reveal_strlit("^ALL$");
    reveal_strlit("ALL");
    assert(exact_word("^ALL$"@) =~= "ALL"@);
}

/// The rule table, read out: an element that is one of the nine fixed
/// words, spelled exactly so, is that keyword, operator or scope; any other
/// nonempty text of lowercase letters and digits is a `StringValue` with
/// that text; and everything else is `InvalidSyntax` with that text.
pub open spec fn classify_by_cases(element: Seq<char>) -> Token {
    if element == "SELECT"@ {
        Token::Select
    } else if element == "WHERE"@ {
        Token::Where
    } else if element == "AND"@ {
        Token::And
    } else if element == "CONTAINS"@ {
        Token::Contains
    } else if element == "="@ {
        Token::Equals
    } else if element == "ROUTE"@ {
        Token::Level(ConfigLevel::Route)
    } else if element == "SERVICE"@ {
        Token::Level(ConfigLevel::Service)
    } else if element == "GLOBAL"@ {
        Token::Level(ConfigLevel::Global)
    } else if element == "ALL"@ {
        Token::Level(ConfigLevel::All)
    } else if is_value(element) {
        Token::StringValue(element)
    } else {
        Token::InvalidSyntax(element)
    }
}

/// Classifying by the rule table, first match first, gives the token that
/// `classify_by_cases` reads out.
pub proof fn lemma_classify_by_cases(element: Seq<char>)
    ensures
        classify(element) == classify_by_cases(element),
{
    let table = rule_table_spec();
    lemma_table_patterns(element);
    if element == "SELECT"@ {
        lemma_first_match_decides(table, element, 0);
    } else if element == "WHERE"@ {
        lemma_first_match_decides(table, element, 1);
    } else if element == "AND"@ {
        lemma_first_match_decides(table, element, 2);
    } else if element == "CONTAINS"@ {
        lemma_first_match_decides(table, element, 3);
    } else if element == "="@ {
        lemma_first_match_decides(table, element, 4);
    } else if element == "ROUTE"@ {
        lemma_first_match_decides(table, element, 5);
    } else if element == "SERVICE"@ {
        lemma_first_match_decides(table, element, 6);
    } else if element == "GLOBAL"@ {
        lemma_first_match_decides(table, element, 7);
    } else if element == "ALL"@ {
        lemma_first_match_decides(table, element, 8);
    } else if is_value(element) {
        lemma_first_match_decides(table, element, 9);
    } else {
        lemma_no_match_is_invalid(table, element);
    }
}

/// One of the nine fixed words of the language, spelled exactly so.
pub open spec fn is_fixed_word(element: Seq<char>) -> bool {
    ||| element == "SELECT"@
    ||| element == "WHERE"@
    ||| element == "AND"@
    ||| element == "CONTAINS"@
    ||| element == "="@
    ||| element == "ROUTE"@
    ||| element == "SERVICE"@
    ||| element == "GLOBAL"@
    ||| element == "ALL"@
}

/// A fixed word is not empty and is made of upper-case ASCII letters and
/// the equals sign only.
pub proof fn lemma_fixed_word_chars(element: Seq<char>)
    requires
        is_fixed_word(element),
    ensures
        element.len() > 0,
        forall|i: int|
            0 <= i < element.len() ==> ('A' <= #[trigger] element[i] && element[i] <= 'Z')
                || element[i] == '=',
{
    reveal_strlit("SELECT");
    reveal_strlit("WHERE");
    reveal_strlit("AND");
    reveal_strlit("CONTAINS");
    reveal_strlit("=");
    reveal_strlit("ROUTE");
    reveal_strlit("SERVICE");
    reveal_strlit("GLOBAL");
    reveal_strlit("ALL");
}

/// Each fixed word is classified as its own keyword, operator or scope.
pub proof fn lemma_fixed_words()
    ensures
        classify("SELECT"@) == Token::Select,
        classify("WHERE"@) == Token::Where,
        classify("AND"@) == Token::And,
        classify("CONTAINS"@) == Token::Contains,
        classify("="@) == Token::Equals,
        classify("ROUTE"@) == Token::Level(ConfigLevel::Route),
        classify("SERVICE"@) == Token::Level(ConfigLevel::Service),
        classify("GLOBAL"@) == Token::Level(ConfigLevel::Global),
        classify("ALL"@) == Token::Level(ConfigLevel::All),
{
    lemma_classify_by_cases("SELECT"@);
    lemma_classify_by_cases("WHERE"@);
    lemma_classify_by_cases("AND"@);
    lemma_classify_by_cases("CONTAINS"@);
    lemma_classify_by_cases("="@);
    lemma_classify_by_cases("ROUTE"@);
    lemma_classify_by_cases("SERVICE"@);
    lemma_classify_by_cases("GLOBAL"@);
    lemma_classify_by_cases("ALL"@);
    reveal_strlit("SELECT");
    reveal_strlit("WHERE");
    reveal_strlit("AND");
    reveal_strlit("CONTAINS");
    reveal_strlit("=");
    reveal_strlit("ROUTE");
    reveal_strlit("SERVICE");
    reveal_strlit("GLOBAL");
    reveal_strlit("ALL");
    // No two of the words are equal: they differ in length or in one of
    // their first two characters.
    assert("SELECT"@.len() == 6 && "SELECT"@[0] == 'S');
    assert("WHERE"@.len() == 5 && "WHERE"@[0] == 'W');
    assert("AND"@.len() == 3 && "AND"@[1] == 'N');
    assert("CONTAINS"@.len() == 8);
    assert("="@.len() == 1);
    assert("ROUTE"@.len() == 5 && "ROUTE"@[0] == 'R');
    assert("SERVICE"@.len() == 7);
    assert("GLOBAL"@.len() == 6 && "GLOBAL"@[0] == 'G');
    assert("ALL"@.len() == 3 && "ALL"@[1] == 'L');
}

/// An element is `InvalidSyntax` exactly when it is neither a fixed word
/// nor a nonempty text of lowercase letters and digits.
pub proof fn lemma_invalid_iff(element: Seq<char>)
    ensures
        classify(element) is InvalidSyntax <==> !is_fixed_word(element) && !is_value(element),
        classify(element) is InvalidSyntax ==> classify(element) == Token::InvalidSyntax(element),
{
    lemma_classify_by_cases(element);
}

/// No keyword, operator or scope is spelled in lowercase letters and digits
/// alone, so every such nonempty text is a `StringValue`: the kinds of the
/// table do not overlap, and a keyword in lower case is a plain value.
pub proof fn lemma_value_is_string_value(element: Seq<char>)
    requires
        is_value(element),
    ensures
        classify(element) == Token::StringValue(element),
{
    lemma_classify_by_cases(element);
    if is_fixed_word(element) {
        lemma_fixed_word_chars(element);
        assert(is_value_char(element[0]));
    }
}

} // verus!
