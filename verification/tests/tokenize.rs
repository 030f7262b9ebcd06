use lox_rs::tokenize as tokenize_string;
use lox_rs::tokenizer::Token;

fn tokenize(source: &str) -> Result<Vec<Token>, String> {
    tokenize_string(String::from(source))
}

fn num(t: &Token) -> f64 {
    match t {
        Token::Number(s) => s.parse().unwrap(),
        _ => panic!("expected a number token"),
    }
}

#[test]
fn test_hello_world() {
    let source = "\n\t\tprint \"Hello, World!\";\n\t\t";
    assert_eq!(
        tokenize(source).unwrap(),
        vec![
            Token::Print,
            Token::String(String::from("Hello, World!")),
            Token::Semicolon,
            Token::Eof
        ]
    )
}

#[test]
fn test_comments() {
    let source = "\n\t\t// !@#$%^&*()_+abcdefghijklmnop.,1234567890\n\t\tprint \"Hello, World!\"; // !@#$%^&*()_+abcdefghijklmnop.,1234567890\n\t\t// !@#$%^&*()_+abcdefghijklmnop.,1234567890\n\t\t";
    assert_eq!(
        tokenize(source).unwrap(),
        vec![
            Token::Print,
            Token::String(String::from("Hello, World!")),
            Token::Semicolon,
            Token::Eof
        ]
    )
}

#[test]
fn test_numbers() {
    let source = "\n\t\tprint 1.2;\n\t\tprint 1.0;\n\t\tprint 0.1;\n\t\tprint 1;\n\t\t";
    let toks = tokenize(source).unwrap();
    assert_eq!(toks.len(), 13);
    assert_eq!(toks[0], Token::Print);
    assert_eq!(num(&toks[1]), 1.2);
    assert_eq!(toks[2], Token::Semicolon);
    assert_eq!(toks[3], Token::Print);
    assert_eq!(num(&toks[4]), 1.0);
    assert_eq!(toks[5], Token::Semicolon);
    assert_eq!(toks[6], Token::Print);
    assert_eq!(num(&toks[7]), 0.1);
    assert_eq!(toks[8], Token::Semicolon);
    assert_eq!(toks[9], Token::Print);
    assert_eq!(num(&toks[10]), 1.0);
    assert_eq!(toks[11], Token::Semicolon);
    assert_eq!(toks[12], Token::Eof);
}

#[test]
fn test_strings() {
    let source = "\n\t\tprint \"Hi\";\n\t\tprint \"\\\"Escapes\\\"\";\n\t\tprint \"Self escapes \\\\\";\n\t\t";
    assert_eq!(
        tokenize(source).unwrap(),
        vec![
            Token::Print,
            Token::String(String::from("Hi")),
            Token::Semicolon,
            Token::Print,
            Token::String(String::from("\"Escapes\"")),
            Token::Semicolon,
            Token::Print,
            Token::String(String::from("Self escapes \\")),
            Token::Semicolon,
            Token::Eof
        ]
    )
}

#[test]
fn test_operators() {
    let source = "\n\t\tprint 1 == 2;\n\t\tprint 1 != 2;\n\t\tprint 1 > 2;\n\t\tprint 1 <= 2;\n\t\tprint 1 < 1;\n\t\tprint !true;\n\t\tprint !!true;\n\t\tprint !!!true;\n\t\t";
    let toks = tokenize(source).unwrap();
    let mut k = 0;
    let mut expect = |t: Token| {
        assert_eq!(toks[k], t);
        k += 1;
    };
    expect(Token::Print);
    expect(Token::Number(String::from("1")));
    expect(Token::EqualEqual);
    expect(Token::Number(String::from("2")));
    expect(Token::Semicolon);
    expect(Token::Print);
    expect(Token::Number(String::from("1")));
    expect(Token::BangEqual);
    expect(Token::Number(String::from("2")));
    expect(Token::Semicolon);
    expect(Token::Print);
    expect(Token::Number(String::from("1")));
    expect(Token::Greater);
    expect(Token::Number(String::from("2")));
    expect(Token::Semicolon);
    expect(Token::Print);
    expect(Token::Number(String::from("1")));
    expect(Token::LessEqual);
    expect(Token::Number(String::from("2")));
    expect(Token::Semicolon);
    expect(Token::Print);
    expect(Token::Number(String::from("1")));
    expect(Token::Less);
    expect(Token::Number(String::from("1")));
    expect(Token::Semicolon);
    expect(Token::Print);
    expect(Token::Bang);
    expect(Token::True);
    expect(Token::Semicolon);
    expect(Token::Print);
    expect(Token::Bang);
    expect(Token::Bang);
    expect(Token::True);
    expect(Token::Semicolon);
    expect(Token::Print);
    expect(Token::Bang);
    expect(Token::Bang);
    expect(Token::Bang);
    expect(Token::True);
    expect(Token::Semicolon);
    expect(Token::Eof);
    assert_eq!(toks.len(), k);
}

#[test]
fn test_division() {
    let source = "\n\t\tprint 1 / 2;\n\t\tprint 1 / 2 / 2;\n\t\tprint 1 / 2 // 2\n\t\t;\n\t\t";
    let toks = tokenize(source).unwrap();
    assert_eq!(toks.len(), 18);
    assert_eq!(toks[0], Token::Print);
    assert_eq!(num(&toks[1]), 1.0);
    assert_eq!(toks[2], Token::Slash);
    assert_eq!(num(&toks[3]), 2.0);
    assert_eq!(toks[4], Token::Semicolon);
    assert_eq!(toks[5], Token::Print);
    assert_eq!(num(&toks[6]), 1.0);
    assert_eq!(toks[7], Token::Slash);
    assert_eq!(num(&toks[8]), 2.0);
    assert_eq!(toks[9], Token::Slash);
    assert_eq!(num(&toks[10]), 2.0);
    assert_eq!(toks[11], Token::Semicolon);
    assert_eq!(toks[12], Token::Print);
    assert_eq!(num(&toks[13]), 1.0);
    assert_eq!(toks[14], Token::Slash);
    assert_eq!(num(&toks[15]), 2.0);
    assert_eq!(toks[16], Token::Semicolon);
    assert_eq!(toks[17], Token::Eof);
}

#[test]
fn test_variables() {
    let source = "\n\t\tvar a123 = false;\n\t\tvar x = 1;\n\t\tvar y = 2;\n\t\tprint a123;\n\t\tprint x + y;\n\t\t";
    assert_eq!(
        tokenize(source).unwrap(),
        vec![
            Token::Var,
            Token::Identifier(String::from("a123")),
            Token::Equal,
            Token::False,
            Token::Semicolon,
            Token::Var,
            Token::Identifier(String::from("x")),
            Token::Equal,
            Token::Number(String::from("1")),
            Token::Semicolon,
            Token::Var,
            Token::Identifier(String::from("y")),
            Token::Equal,
            Token::Number(String::from("2")),
            Token::Semicolon,
            Token::Print,
            Token::Identifier(String::from("a123")),
            Token::Semicolon,
            Token::Print,
            Token::Identifier(String::from("x")),
            Token::Plus,
            Token::Identifier(String::from("y")),
            Token::Semicolon,
            Token::Eof
        ]
    )
}
