use lox_rs::tokenize as tokenize_string;
use lox_rs::tokenizer::Token;

fn tokenize(source: &str) -> Result<Vec<Token>, String> {
    tokenize_string(String::from(source))
}

#[test]
fn empty_input_yields_only_eof() {
    assert_eq!(tokenize("").unwrap(), vec![Token::Eof]);
}

#[test]
fn eof_is_last_and_unique() {
    let toks = tokenize("var x = 1; print x + 2.5 / (3 - 4);").unwrap();
    assert_eq!(toks.last(), Some(&Token::Eof));
    assert_eq!(toks.iter().filter(|t| **t == Token::Eof).count(), 1);
}

#[test]
fn scanning_twice_is_deterministic() {
    let source = "fun add(a, b) { return a + b; } // sum\nprint add(1.5, 2);";
    let first = tokenize(source);
    let second = tokenize(source);
    assert_eq!(first, second);
}

#[test]
fn keywords_and_identifiers_partition() {
    let toks = tokenize(
        "and class else false fun for if nil or print return super this true var while andy classes whilex",
    )
    .unwrap();
    assert_eq!(
        toks,
        vec![
            Token::And,
            Token::Class,
            Token::Else,
            Token::False,
            Token::Fun,
            Token::For,
            Token::If,
            Token::Nil,
            Token::Or,
            Token::Print,
            Token::Return,
            Token::Super,
            Token::This,
            Token::True,
            Token::Var,
            Token::While,
            Token::Identifier(String::from("andy")),
            Token::Identifier(String::from("classes")),
            Token::Identifier(String::from("whilex")),
            Token::Eof
        ]
    );
}

#[test]
fn maximal_munch_bang_equal() {
    assert_eq!(tokenize("!=").unwrap(), vec![Token::BangEqual, Token::Eof]);
    assert_eq!(
        tokenize("!!x").unwrap(),
        vec![Token::Bang, Token::Bang, Token::Identifier(String::from("x")), Token::Eof]
    );
}

#[test]
fn comment_content_contributes_no_tokens() {
    let with_junk = tokenize("x // @#`~\u{7f} anything at all\ny").unwrap();
    let with_text = tokenize("x // a calm comment\ny").unwrap();
    assert_eq!(with_junk, with_text);
    assert_eq!(
        with_junk,
        vec![
            Token::Identifier(String::from("x")),
            Token::Identifier(String::from("y")),
            Token::Eof
        ]
    );
    let comment_to_end = tokenize("x // runs to end of input @").unwrap();
    assert_eq!(comment_to_end, vec![Token::Identifier(String::from("x")), Token::Eof]);
}

#[test]
fn slash_versus_comment() {
    let toks = tokenize("1 / 2").unwrap();
    assert_eq!(
        toks,
        vec![
            Token::Number(String::from("1")),
            Token::Slash,
            Token::Number(String::from("2")),
            Token::Eof
        ]
    );
    assert_eq!(
        tokenize("1 // 2").unwrap(),
        vec![Token::Number(String::from("1")), Token::Eof]
    );
}

#[test]
fn escaped_characters_are_taken_literally() {
    assert_eq!(
        tokenize("\"a\\bc\"").unwrap(),
        vec![Token::String(String::from("abc")), Token::Eof]
    );
    assert_eq!(
        tokenize("\"a\\\"b\"").unwrap(),
        vec![Token::String(String::from("a\"b")), Token::Eof]
    );
    assert_eq!(
        tokenize("\"a\" \"b\"").unwrap(),
        vec![
            Token::String(String::from("a")),
            Token::String(String::from("b")),
            Token::Eof
        ]
    );
}

#[test]
fn trailing_number_is_closed_at_end_of_input() {
    assert_eq!(
        tokenize("123").unwrap(),
        vec![Token::Number(String::from("123")), Token::Eof]
    );
    assert_eq!(
        tokenize("abc").unwrap(),
        vec![Token::Identifier(String::from("abc")), Token::Eof]
    );
}

#[test]
fn invalid_token_reports_line_and_column() {
    let err = tokenize("@").unwrap_err();
    assert_eq!(err, "[1:1] Error: Invalid token '@'");
}

#[test]
fn invalid_number_is_reported() {
    let err = tokenize("1.2.3").unwrap_err();
    assert_eq!(err, "[1:1] Error: Invalid number '1.2.3'");
}

#[test]
fn unterminated_string_is_reported() {
    let err = tokenize("\"unterminated").unwrap_err();
    assert_eq!(err, "[1:1] Error: Unterminated string unterminated ");
}

#[test]
fn errors_are_joined_in_discovery_order() {
    let err = tokenize("@\n#").unwrap_err();
    assert_eq!(
        err,
        "[1:1] Error: Invalid token '@'\n[2:1] Error: Invalid token '#'"
    );
}

#[test]
fn wide_columns_render_in_decimal() {
    let err = tokenize("         @").unwrap_err();
    assert_eq!(err, "[1:10] Error: Invalid token '@'");
}

#[test]
fn errors_suppress_the_token_sequence() {
    let result = tokenize("print 1; @");
    assert!(result.is_err());
}
