use compiler_frontend::syntatic_analyzer::terminals;
use compiler_frontend::syntatic_analyzer::token_stream;
use compiler_frontend::text::parse_numeral;
use compiler_frontend::token::{Token, TokenStream};

#[test]
fn numerals_have_their_value() {
    assert_eq!(parse_numeral("0"), Some(0));
    assert_eq!(parse_numeral("7"), Some(7));
    assert_eq!(parse_numeral("123"), Some(123));
    assert_eq!(parse_numeral("007"), Some(7));
    assert_eq!(parse_numeral("2147483647"), Some(2147483647));
    assert_eq!(parse_numeral("2147483648"), None);
    assert_eq!(parse_numeral("99999999999999999999"), None);
    assert_eq!(parse_numeral(""), None);
    assert_eq!(parse_numeral("12.5"), None);
    assert_eq!(parse_numeral("-1"), None);
    assert_eq!(parse_numeral("+1"), None);
    assert_eq!(parse_numeral("1a"), None);
    assert_eq!(parse_numeral("١٢"), None);
}

#[test]
fn white_space_separates_and_lines_are_counted() {
    let program = String::from(" \t\n  a\u{a0}\n\nb");
    let mut t_stream = TokenStream::new(program.chars());
    assert_eq!(t_stream.line(), 1);
    assert_eq!(t_stream.next(), Some(Token::ID("a")));
    assert_eq!(t_stream.line(), 2);
    assert_eq!(t_stream.next(), Some(Token::ID("b")));
    assert_eq!(t_stream.line(), 4);
    assert_eq!(t_stream.next(), Some(Token::DOLLAR));
    assert_eq!(t_stream.next(), Some(Token::DOLLAR));
    assert_eq!(t_stream.line(), 4);
}

#[test]
fn words_are_runs_of_letters_and_numbers() {
    let program = String::from("abc1 x9y é1 whiles If");
    let mut t_stream = TokenStream::new(program.chars());
    assert_eq!(t_stream.next(), Some(Token::ID("abc1")));
    assert_eq!(t_stream.next(), Some(Token::ID("x9y")));
    assert_eq!(t_stream.next(), Some(Token::UNKNOWN("é1 whiles If")));
    assert_eq!(t_stream.next(), Some(Token::UNKNOWN("é1 whiles If")));
}

#[test]
fn words_may_hold_letters_of_any_script() {
    let program = String::from("aé٣ b");
    let mut t_stream = TokenStream::new(program.chars());
    assert_eq!(t_stream.next(), Some(Token::ID("aé٣")));
    assert_eq!(t_stream.next(), Some(Token::ID("b")));
    assert_eq!(t_stream.next(), Some(Token::DOLLAR));
}

#[test]
fn reserved_words_are_exact() {
    let program = String::from("whiles If return while");
    let mut t_stream = TokenStream::new(program.chars());
    assert_eq!(t_stream.next(), Some(Token::ID("whiles")));
    assert_eq!(t_stream.next(), Some(Token::ID("If")));
    assert_eq!(t_stream.next(), Some(Token::ID("return")));
    assert_eq!(t_stream.next(), Some(Token::WHILE));
    assert_eq!(t_stream.next(), Some(Token::DOLLAR));
}

#[test]
fn underscore_begins_an_empty_word() {
    let program = String::from("a_b");
    let mut t_stream = TokenStream::new(program.chars());
    assert_eq!(t_stream.next(), Some(Token::ID("a")));
    assert_eq!(t_stream.next(), Some(Token::ID("")));
    assert_eq!(t_stream.next(), Some(Token::ID("")));
}

#[test]
fn numerals_may_have_a_fraction() {
    let program = String::from("12 3.5 4. 6.7.8 ٣");
    let mut t_stream = TokenStream::new(program.chars());
    assert_eq!(t_stream.next(), Some(Token::NUMERAL("12")));
    assert_eq!(t_stream.next(), Some(Token::NUMERAL("3.5")));
    assert_eq!(t_stream.next(), Some(Token::NUMERAL("4.")));
    assert_eq!(t_stream.next(), Some(Token::NUMERAL("6.7")));
    assert_eq!(t_stream.next(), Some(Token::DOT));
    assert_eq!(t_stream.next(), Some(Token::NUMERAL("8")));
    assert_eq!(t_stream.next(), Some(Token::UNKNOWN("٣")));
}

#[test]
fn string_literal_ends_at_the_last_quote() {
    let program = String::from("x = \"a\nb\"; y = \"c\" ;\n");
    let mut t_stream = TokenStream::new(program.chars());
    assert_eq!(t_stream.next(), Some(Token::ID("x")));
    assert_eq!(t_stream.next(), Some(Token::EQUAL));
    assert_eq!(t_stream.next(), Some(Token::STRINGVAL("a\nb\"; y = \"c")));
    assert_eq!(t_stream.line(), 3);
    assert_eq!(t_stream.next(), Some(Token::DOLLAR));
}

#[test]
fn string_literal_without_end_is_unknown() {
    let program = String::from("\"abc");
    let mut t_stream = TokenStream::new(program.chars());
    assert_eq!(t_stream.next(), Some(Token::UNKNOWN("AAAAAAAA")));
    assert_eq!(t_stream.next(), Some(Token::DOLLAR));
    let program = String::from("\"\"");
    let mut t_stream = TokenStream::new(program.chars());
    assert_eq!(t_stream.next(), Some(Token::STRINGVAL("")));
    assert_eq!(t_stream.next(), Some(Token::DOLLAR));
}

#[test]
fn character_literal_holds_one_character() {
    let program = String::from("'a' '\n' 'bc' 'd");
    let mut t_stream = TokenStream::new(program.chars());
    assert_eq!(t_stream.next(), Some(Token::CHARACTER('a')));
    assert_eq!(t_stream.next(), Some(Token::CHARACTER('\n')));
    assert_eq!(t_stream.line(), 1);
    assert_eq!(t_stream.next(), Some(Token::UNKNOWN("'")));
    assert_eq!(t_stream.next(), Some(Token::CHARACTER(' ')));
    assert_eq!(t_stream.next(), Some(Token::ID("d")));
    assert_eq!(t_stream.next(), Some(Token::DOLLAR));
    let program = String::from("'d");
    let mut t_stream = TokenStream::new(program.chars());
    assert_eq!(t_stream.next(), Some(Token::UNKNOWN("'")));
    assert_eq!(t_stream.next(), Some(Token::DOLLAR));
}

#[test]
fn symbols_are_the_longest_that_fit() {
    let program = String::from("===<=<>=>!=!+++---$&&&||x");
    let mut t_stream = TokenStream::new(program.chars());
    let expected = [
        Token::EQUALEQUAL,
        Token::EQUAL,
        Token::LESSOREQUAL,
        Token::LESSTHAN,
        Token::GREATEROREQUAL,
        Token::GREATERTHAN,
        Token::NOTEQUAL,
        Token::NOT,
        Token::PLUSPLUS,
        Token::PLUS,
        Token::MINUSMINUS,
        Token::MINUS,
        Token::DOLLAR,
        Token::AND,
        Token::UNKNOWN("&"),
        Token::UNKNOWN("|"),
        Token::DOLLAR,
    ];
    for token in expected {
        assert_eq!(t_stream.next(), Some(token));
    }
}

#[test]
fn unknown_text_stops_the_scanner() {
    let program = String::from("a # b");
    let mut t_stream = TokenStream::new(program.chars());
    assert_eq!(t_stream.next(), Some(Token::ID("a")));
    assert_eq!(t_stream.next(), Some(Token::UNKNOWN("# b")));
    assert_eq!(t_stream.next(), Some(Token::UNKNOWN("# b")));
}

#[test]
fn scanner_starts_where_the_iterator_stands() {
    let program = String::from("ab:c");
    let mut it = program.chars();
    it.next();
    let mut t_stream = TokenStream::new(it);
    assert_eq!(t_stream.next(), Some(Token::ID("b")));
    assert_eq!(t_stream.next(), Some(Token::COLON));
    assert_eq!(t_stream.next(), Some(Token::ID("c")));
    assert_eq!(t_stream.next(), Some(Token::DOLLAR));
}

#[test]
fn tokens_have_their_columns() {
    assert_eq!(usize::from(Token::ARRAY), 30);
    assert_eq!(usize::from(Token::WHILE), 47);
    assert_eq!(usize::from(Token::COLON), 48);
    assert_eq!(usize::from(Token::NOT), 73);
    assert_eq!(usize::from(Token::CHARACTER('x')), 74);
    assert_eq!(usize::from(Token::NUMERAL("1")), 75);
    assert_eq!(usize::from(Token::STRINGVAL("s")), 76);
    assert_eq!(usize::from(Token::ID("a")), 77);
    assert_eq!(usize::from(Token::ID("b")), 77);
    assert_eq!(usize::from(Token::DOLLAR), 78);
    assert_eq!(usize::from(Token::UNKNOWN("#")), 1000);
}

#[test]
fn terminals_have_their_columns() {
    assert_eq!(usize::from(terminals::Token::ARRAY), 36);
    assert_eq!(usize::from(terminals::Token::OF), 47);
    assert_eq!(usize::from(terminals::Token::RETURN), 48);
    assert_eq!(usize::from(terminals::Token::STRING), 49);
    assert_eq!(usize::from(terminals::Token::WHILE), 54);
    assert_eq!(usize::from(terminals::Token::COLON), 55);
    assert_eq!(usize::from(terminals::Token::NOT), 80);
    assert_eq!(usize::from(terminals::Token::CHARACTER('x')), 81);
    assert_eq!(usize::from(terminals::Token::NUMERAL("1")), 82);
    assert_eq!(usize::from(terminals::Token::STRINGVAL("s")), 83);
    assert_eq!(usize::from(terminals::Token::ID("a")), 84);
    assert_eq!(usize::from(terminals::Token::DOLLAR), 85);
    assert_eq!(usize::from(terminals::Token::UNKNOWN("#")), 1000);
}

#[test]
fn terminals_carry_the_text_of_literals() {
    assert_eq!(terminals::Token::ID("name").text(), Some(String::from("name")));
    assert_eq!(terminals::Token::CHARACTER('c').text(), Some(String::from("c")));
    assert_eq!(terminals::Token::STRINGVAL("a b").text(), Some(String::from("a b")));
    assert_eq!(terminals::Token::NUMERAL("12").text(), Some(String::from("12")));
    assert_eq!(terminals::Token::UNKNOWN("#").text(), None);
    assert_eq!(terminals::Token::WHILE.text(), None);
    assert_eq!(terminals::Token::from_token(Token::WHILE), terminals::Token::WHILE);
    assert_eq!(terminals::Token::from_token(Token::ID("a")), terminals::Token::ID("a"));
    assert_eq!(terminals::Token::from_token(Token::CHARACTER('a')), terminals::Token::CHARACTER('a'));
    assert_eq!(terminals::Token::from_token(Token::UNKNOWN("&")), terminals::Token::UNKNOWN("&"));
}

#[test]
fn terminal_stream_gives_the_scanner_tokens() {
    let program = String::from("return x;\n'c' 1");
    let mut t_stream = token_stream::TokenStream::new(program.chars());
    assert_eq!(t_stream.next(), Some(terminals::Token::ID("return")));
    assert_eq!(t_stream.next(), Some(terminals::Token::ID("x")));
    assert_eq!(t_stream.next(), Some(terminals::Token::SEMICOLON));
    assert_eq!(t_stream.next(), Some(terminals::Token::CHARACTER('c')));
    assert_eq!(t_stream.next(), Some(terminals::Token::NUMERAL("1")));
    assert_eq!(t_stream.next(), Some(terminals::Token::DOLLAR));
    assert_eq!(t_stream.next(), Some(terminals::Token::DOLLAR));
}
