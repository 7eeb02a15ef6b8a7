use query_lexer::{attempt_token, tokenize, ConfigLevel, TokenType};

fn value(text: &str) -> TokenType {
    TokenType::StringValue(String::from(text))
}

fn invalid(text: &str) -> TokenType {
    TokenType::InvalidSyntax(String::from(text))
}

#[test]
fn test_tokenizer() {
    let tokens = tokenize("SELECT SERVICE WHERE port = 443 AND protocol CONTAINS get post");
    let exp_tokens = vec![
        TokenType::Select,
        TokenType::Level(ConfigLevel::Service),
        TokenType::Where,
        TokenType::StringValue(String::from("port")),
        TokenType::Equals,
        TokenType::StringValue(String::from("443")),
        TokenType::And,
        TokenType::StringValue(String::from("protocol")),
        TokenType::Contains,
        TokenType::StringValue(String::from("get")),
        TokenType::StringValue(String::from("post")),
    ];
    assert_eq!(tokens, exp_tokens)
}

#[test]
fn test_attempt_token() {
    match attempt_token("443") {
        TokenType::InvalidSyntax(_) => println!("No matching token"),
        token => println!("{:?}", token),
    }
}

#[test]
fn number_is_a_string_value() {
    assert_eq!(attempt_token("443"), value("443"));
}

#[test]
fn select_service_where_port_is_443() {
    let tokens = tokenize("SELECT SERVICE WHERE port = 443");
    assert_eq!(
        tokens,
        vec![
            TokenType::Select,
            TokenType::Level(ConfigLevel::Service),
            TokenType::Where,
            value("port"),
            TokenType::Equals,
            value("443"),
        ]
    );
}

#[test]
fn mixed_case_scope_is_invalid() {
    assert_eq!(tokenize("SELECT Service"), vec![TokenType::Select, invalid("Service")]);
}

#[test]
fn empty_input_has_no_tokens() {
    assert_eq!(tokenize(""), Vec::<TokenType>::new());
}

#[test]
fn blank_input_has_no_tokens() {
    assert_eq!(tokenize("   "), Vec::<TokenType>::new());
    assert_eq!(tokenize(" \t\r\n "), Vec::<TokenType>::new());
    assert_eq!(tokenize("\u{a0}\u{2003}\u{3000}"), Vec::<TokenType>::new());
}

#[test]
fn scopes_in_a_row() {
    assert_eq!(
        tokenize("GLOBAL ALL ROUTE"),
        vec![
            TokenType::Level(ConfigLevel::Global),
            TokenType::Level(ConfigLevel::All),
            TokenType::Level(ConfigLevel::Route),
        ]
    );
}

#[test]
fn lowercase_keyword_is_a_string_value() {
    assert_eq!(tokenize("select"), vec![value("select")]);
    assert_eq!(tokenize("where and contains"), vec![value("where"), value("and"), value("contains")]);
    assert_eq!(tokenize("route service global all"), vec![
        value("route"),
        value("service"),
        value("global"),
        value("all"),
    ]);
}

#[test]
fn every_fixed_word_has_its_token() {
    assert_eq!(attempt_token("SELECT"), TokenType::Select);
    assert_eq!(attempt_token("WHERE"), TokenType::Where);
    assert_eq!(attempt_token("AND"), TokenType::And);
    assert_eq!(attempt_token("CONTAINS"), TokenType::Contains);
    assert_eq!(attempt_token("="), TokenType::Equals);
    assert_eq!(attempt_token("ROUTE"), TokenType::Level(ConfigLevel::Route));
    assert_eq!(attempt_token("SERVICE"), TokenType::Level(ConfigLevel::Service));
    assert_eq!(attempt_token("GLOBAL"), TokenType::Level(ConfigLevel::Global));
    assert_eq!(attempt_token("ALL"), TokenType::Level(ConfigLevel::All));
}

#[test]
fn a_pattern_must_accept_the_whole_element() {
    assert_eq!(attempt_token("SELECTED"), invalid("SELECTED"));
    assert_eq!(attempt_token("XSELECT"), invalid("XSELECT"));
    assert_eq!(attempt_token("SELEC"), invalid("SELEC"));
    assert_eq!(attempt_token("=="), invalid("=="));
    assert_eq!(attempt_token("a=b"), invalid("a=b"));
    assert_eq!(attempt_token("port:443"), invalid("port:443"));
    assert_eq!(attempt_token("ab-cd"), invalid("ab-cd"));
    assert_eq!(attempt_token("abC"), invalid("abC"));
    assert_eq!(attempt_token("Abc"), invalid("Abc"));
}

#[test]
fn an_element_with_white_space_is_invalid() {
    assert_eq!(attempt_token("SELECT\n"), invalid("SELECT\n"));
    assert_eq!(attempt_token("\nSELECT"), invalid("\nSELECT"));
    assert_eq!(attempt_token("abc\n"), invalid("abc\n"));
    assert_eq!(attempt_token("abc\ndef"), invalid("abc\ndef"));
    assert_eq!(attempt_token("get post"), invalid("get post"));
    assert_eq!(attempt_token(" "), invalid(" "));
}

#[test]
fn the_empty_element_is_invalid() {
    assert_eq!(attempt_token(""), invalid(""));
}

#[test]
fn text_beyond_ascii_is_invalid() {
    assert_eq!(attempt_token("caf\u{e9}"), invalid("caf\u{e9}"));
    assert_eq!(attempt_token("\u{ff41}"), invalid("\u{ff41}"));
    assert_eq!(attempt_token("\u{661}"), invalid("\u{661}"));
    assert_eq!(attempt_token("\u{17f}elect"), invalid("\u{17f}elect"));
    assert_eq!(tokenize("port = \u{4e16}\u{754c}"), vec![
        value("port"),
        TokenType::Equals,
        invalid("\u{4e16}\u{754c}"),
    ]);
}

#[test]
fn values_keep_digits_and_letters() {
    assert_eq!(attempt_token("a"), value("a"));
    assert_eq!(attempt_token("z"), value("z"));
    assert_eq!(attempt_token("0"), value("0"));
    assert_eq!(attempt_token("9"), value("9"));
    assert_eq!(attempt_token("007"), value("007"));
    assert_eq!(attempt_token("az09za90"), value("az09za90"));
}

#[test]
fn payload_is_the_element() {
    for element in ["port", "443", "x1y2", "Port", "4.4.3", "SELECT!", "\u{df}"] {
        match attempt_token(element) {
            TokenType::StringValue(text) => assert_eq!(text, element),
            TokenType::InvalidSyntax(text) => assert_eq!(text, element),
            other => panic!("{:?} carries no text", other),
        }
    }
}

#[test]
fn any_run_of_white_space_separates() {
    let expected = vec![TokenType::Select, TokenType::Level(ConfigLevel::Route)];
    assert_eq!(tokenize("SELECT ROUTE"), expected);
    assert_eq!(tokenize("  SELECT   ROUTE  "), expected);
    assert_eq!(tokenize("\tSELECT\nROUTE\r\n"), expected);
    assert_eq!(tokenize("SELECT\u{a0}ROUTE"), expected);
    assert_eq!(tokenize("\u{2028}SELECT \u{3000} ROUTE\u{85}"), expected);
}

#[test]
fn one_token_for_each_element() {
    let inputs = [
        "",
        " ",
        "SELECT",
        "SELECT SERVICE WHERE port = 443",
        "  a  B  c1  =  ==  ",
        "x\ty\nz\u{a0}w",
        "\u{4e16} \u{754c}",
    ];
    for input in inputs {
        let tokens = tokenize(input);
        assert_eq!(tokens.len(), input.split_whitespace().count());
        for (token, element) in tokens.iter().zip(input.split_whitespace()) {
            assert_eq!(*token, attempt_token(element));
        }
    }
}

#[test]
fn tokenizing_twice_gives_the_same() {
    let input = "SELECT Service WHERE port = 443 and x CONTAINS y!";
    assert_eq!(tokenize(input), tokenize(input));
    assert_eq!(attempt_token("GLOBAL"), attempt_token("GLOBAL"));
    assert_eq!(attempt_token("Global"), attempt_token("Global"));
}

#[test]
fn invalid_elements_do_not_stop_the_lexer() {
    assert_eq!(
        tokenize("select * FROM route WHERE Port = 80"),
        vec![
            value("select"),
            invalid("*"),
            invalid("FROM"),
            value("route"),
            TokenType::Where,
            invalid("Port"),
            TokenType::Equals,
            value("80"),
        ]
    );
}

fn reference_token(element: &str) -> TokenType {
    match element {
        "SELECT" => TokenType::Select,
        "WHERE" => TokenType::Where,
        "AND" => TokenType::And,
        "CONTAINS" => TokenType::Contains,
        "=" => TokenType::Equals,
        "ROUTE" => TokenType::Level(ConfigLevel::Route),
        "SERVICE" => TokenType::Level(ConfigLevel::Service),
        "GLOBAL" => TokenType::Level(ConfigLevel::Global),
        "ALL" => TokenType::Level(ConfigLevel::All),
        _ => {
            let lower = !element.is_empty()
                && element.chars().all(|c| matches!(c, 'a'..='z' | '0'..='9'));
            if lower {
                value(element)
            } else {
                invalid(element)
            }
        }
    }
}

#[test]
fn short_elements_follow_the_table() {
    let alphabet = [
        'a', 'z', '0', '9', 'A', 'L', 'N', 'D', 'Z', '=', '^', '$', '+', '[', ']', '-', '.', '_',
        ' ', '\n', '`', '{', '/', ':', '@', '\u{e9}', '\u{0}',
    ];
    let mut checked = 0usize;
    for first in alphabet {
        assert_eq!(attempt_token(&String::from(first)), reference_token(&String::from(first)));
        checked += 1;
        for second in alphabet {
            let two: String = [first, second].iter().collect();
            assert_eq!(attempt_token(&two), reference_token(&two));
            checked += 1;
        }
    }
    for word in ["AND", "ALL", "ANd", "aLL", "ALLL", "AN", "A=D", "and", "all", "a1l"] {
        assert_eq!(attempt_token(word), reference_token(word));
        checked += 1;
    }
    assert_eq!(checked, 27 + 27 * 27 + 10);
}

#[test]
fn tokens_print_in_debug_form() {
    assert_eq!(
        format!("{:?}", tokenize("SELECT SERVICE WHERE port = 443")),
        "[Select, Level(Service), Where, StringValue(\"port\"), Equals, StringValue(\"443\")]"
    );
    assert_eq!(format!("{:?}", attempt_token("Port")), "InvalidSyntax(\"Port\")");
    assert_eq!(
        format!("{:?}", tokenize("AND CONTAINS GLOBAL ALL ROUTE")),
        "[And, Contains, Level(Global), Level(All), Level(Route)]"
    );
}
