//! The executable scanner: the `Token` type, the `Tokenizer` that owns a
//! source buffer, and its single one-shot scanning operation, proved to
//! produce exactly the tokens and errors of the model in `scan`.
use vstd::prelude::*;

use crate::report::{ErrRec, build_report, chars_to_string};
use crate::scan::{
    ErrV, Mode, ScanState, TokenV, err_offset, ident_token, init_state, is_alnum, is_alpha, is_digit,
    is_space, num_dots, punct_token, scan_errs, scan_from, scan_full, scan_tokens, step,
};

verus! {

/// One classified lexical unit. String and identifier tokens carry their
/// decoded text; a number token carries its exact lexeme (digits with at
/// most one dot), which any consumer may convert to a numeric value.
#[derive(Debug)]
pub enum Token {
    LeftParen,
    RightParen,
    LeftBrace,
    RightBrace,
    Comma,
    Dot,
    Minus,
    Plus,
    Semicolon,
    Slash,
    Star,
    Bang,
    BangEqual,
    Equal,
    EqualEqual,
    Greater,
    GreatEqual,
    Less,
    LessEqual,
    Identifier(String),
    String(String),
    Number(String),
    And,
    Class,
    Else,
    False,
    Fun,
    For,
    If,
    Nil,
    Or,
    Print,
    Return,
    Super,
    This,
    True,
    Var,
    While,
    Eof,
}

impl View for Token {
    type V = TokenV;

    open spec fn view(&self) -> TokenV {
        match self {
            Token::LeftParen => TokenV::LeftParen,
            Token::RightParen => TokenV::RightParen,
            Token::LeftBrace => TokenV::LeftBrace,
            Token::RightBrace => TokenV::RightBrace,
            Token::Comma => TokenV::Comma,
            Token::Dot => TokenV::Dot,
            Token::Minus => TokenV::Minus,
            Token::Plus => TokenV::Plus,
            Token::Semicolon => TokenV::Semicolon,
            Token::Slash => TokenV::Slash,
            Token::Star => TokenV::Star,
            Token::Bang => TokenV::Bang,
            Token::BangEqual => TokenV::BangEqual,
            Token::Equal => TokenV::Equal,
            Token::EqualEqual => TokenV::EqualEqual,
            Token::Greater => TokenV::Greater,
            Token::GreatEqual => TokenV::GreatEqual,
            Token::Less => TokenV::Less,
            Token::LessEqual => TokenV::LessEqual,
            Token::Identifier(s) => TokenV::Identifier(s@),
            Token::String(s) => TokenV::StrLit(s@),
            Token::Number(s) => TokenV::NumberLit(s@),
            Token::And => TokenV::And,
            Token::Class => TokenV::Class,
            Token::Else => TokenV::Else,
            Token::False => TokenV::False,
            Token::Fun => TokenV::Fun,
            Token::For => TokenV::For,
            Token::If => TokenV::If,
            Token::Nil => TokenV::Nil,
            Token::Or => TokenV::Or,
            Token::Print => TokenV::Print,
            Token::Return => TokenV::Return,
            Token::Super => TokenV::Super,
            Token::This => TokenV::This,
            Token::True => TokenV::True,
            Token::Var => TokenV::Var,
            Token::While => TokenV::While,
            Token::Eof => TokenV::Eof,
        }
    }
}

impl DeepView for Token {
    type V = TokenV;

    open spec fn deep_view(&self) -> TokenV {
        self.view()
    }
}

impl PartialEq for Token {
    #[verifier::rlimit(100)]
    fn eq(&self, other: &Token) -> (r: bool) {
        match (self, other) {
            (Token::LeftParen, Token::LeftParen) => true,
            (Token::RightParen, Token::RightParen) => true,
            (Token::LeftBrace, Token::LeftBrace) => true,
            (Token::RightBrace, Token::RightBrace) => true,
            (Token::Comma, Token::Comma) => true,
            (Token::Dot, Token::Dot) => true,
            (Token::Minus, Token::Minus) => true,
            (Token::Plus, Token::Plus) => true,
            (Token::Semicolon, Token::Semicolon) => true,
            (Token::Slash, Token::Slash) => true,
            (Token::Star, Token::Star) => true,
            (Token::Bang, Token::Bang) => true,
            (Token::BangEqual, Token::BangEqual) => true,
            (Token::Equal, Token::Equal) => true,
            (Token::EqualEqual, Token::EqualEqual) => true,
            (Token::Greater, Token::Greater) => true,
            (Token::GreatEqual, Token::GreatEqual) => true,
            (Token::Less, Token::Less) => true,
            (Token::LessEqual, Token::LessEqual) => true,
            (Token::Identifier(a), Token::Identifier(b)) => *a == *b,
            (Token::String(a), Token::String(b)) => *a == *b,
            (Token::Number(a), Token::Number(b)) => *a == *b,
            (Token::And, Token::And) => true,
            (Token::Class, Token::Class) => true,
            (Token::Else, Token::Else) => true,
            (Token::False, Token::False) => true,
            (Token::Fun, Token::Fun) => true,
            (Token::For, Token::For) => true,
            (Token::If, Token::If) => true,
            (Token::Nil, Token::Nil) => true,
            (Token::Or, Token::Or) => true,
            (Token::Print, Token::Print) => true,
            (Token::Return, Token::Return) => true,
            (Token::Super, Token::Super) => true,
            (Token::This, Token::This) => true,
            (Token::True, Token::True) => true,
            (Token::Var, Token::Var) => true,
            (Token::While, Token::While) => true,
            (Token::Eof, Token::Eof) => true,
            _ => false,
        }
    }
}

impl vstd::std_specs::cmp::PartialEqSpecImpl for Token {
    open spec fn obeys_eq_spec() -> bool {
        true
    }

    open spec fn eq_spec(&self, other: &Token) -> bool {
        self@ == other@
    }
}

/// The token for a closed identifier lexeme: the matching reserved word,
/// or a generic identifier carrying the spelling.
fn keyword_or_ident(lex: &Vec<char>) -> (t: Token)
    ensures
        t@ == ident_token(lex@),
{
    let s = chars_to_string(lex);
    if s == String::from_str("and") {
        Token::And
    } else if s == String::from_str("class") {
        Token::Class
    } else if s == String::from_str("else") {
        Token::Else
    } else if s == String::from_str("false") {
        Token::False
    } else if s == String::from_str("fun") {
        Token::Fun
    } else if s == String::from_str("for") {
        Token::For
    } else if s == String::from_str("if") {
        Token::If
    } else if s == String::from_str("nil") {
        Token::Nil
    } else if s == String::from_str("or") {
        Token::Or
    } else if s == String::from_str("print") {
        Token::Print
    } else if s == String::from_str("return") {
        Token::Return
    } else if s == String::from_str("super") {
        Token::Super
    } else if s == String::from_str("this") {
        Token::This
    } else if s == String::from_str("true") {
        Token::True
    } else if s == String::from_str("var") {
        Token::Var
    } else if s == String::from_str("while") {
        Token::While
    } else {
        Token::Identifier(s)
    }
}

/// Counts the dots in a number lexeme.
fn count_dots(v: &Vec<char>) -> (n: usize)
    requires
        v@.len() < usize::MAX,
    ensures
        n as nat == num_dots(v@),
{
    let mut n: usize = 0;
    let mut k: usize = 0;
    while k < v.len()
        invariant
            k <= v@.len() < usize::MAX,
            n as nat == num_dots(v@.subrange(0, k as int)),
            n <= k,
        decreases v.len() - k,
    {
        if v[k] == '.' {
            n = n + 1;
        }
        k = k + 1;
        proof {
            assert(v@.subrange(0, k as int).drop_last() =~= v@.subrange(0, k as int - 1));
        }
    }
    proof {
        assert(v@.subrange(0, v@.len() as int) =~= v@);
    }
    n
}

/// Decimal digit test.
fn is_digit_e(c: char) -> (b: bool)
    ensures
        b == is_digit(c),
{
    let u = c as u32;
    48 <= u && u <= 57
}

/// Latin letter test.
fn is_alpha_e(c: char) -> (b: bool)
    ensures
        b == is_alpha(c),
{
    let u = c as u32;
    (65 <= u && u <= 90) || (97 <= u && u <= 122)
}

/// Letter-or-digit test.
fn is_alnum_e(c: char) -> (b: bool)
    ensures
        b == is_alnum(c),
{
    is_digit_e(c) || is_alpha_e(c)
}

/// Whitespace test.
fn is_space_e(c: char) -> (b: bool)
    ensures
        b == is_space(c),
{
    c == ' ' || c == '\t' || c == '\n' || c == '\r' || c as u32 == 11 || c as u32 == 12
}

/// The single-character punctuation token for `c`, if there is one.
fn punct_exec(c: char) -> (r: Option<Token>)
    ensures
        (match r {
            Some(t) => punct_token(c) == Some(t@),
            None => punct_token(c) is None,
        }),
{
    if c == '(' {
        Some(Token::LeftParen)
    } else if c == ')' {
        Some(Token::RightParen)
    } else if c == '{' {
        Some(Token::LeftBrace)
    } else if c == '}' {
        Some(Token::RightBrace)
    } else if c == ',' {
        Some(Token::Comma)
    } else if c == '.' {
        Some(Token::Dot)
    } else if c == '-' {
        Some(Token::Minus)
    } else if c == '+' {
        Some(Token::Plus)
    } else if c == ';' {
        Some(Token::Semicolon)
    } else if c == '*' {
        Some(Token::Star)
    } else {
        None
    }
}

/// The two-character operator beginning with `c`.
fn operator_two_exec(c: char) -> (t: Token)
    ensures
        t@ == crate::scan::operator_two(c),
{
    if c == '!' {
        Token::BangEqual
    } else if c == '=' {
        Token::EqualEqual
    } else if c == '<' {
        Token::LessEqual
    } else {
        Token::GreatEqual
    }
}

/// The one-character operator `c`.
fn operator_one_exec(c: char) -> (t: Token)
    ensures
        t@ == crate::scan::operator_one(c),
{
    if c == '!' {
        Token::Bang
    } else if c == '=' {
        Token::Equal
    } else if c == '<' {
        Token::Less
    } else {
        Token::Greater
    }
}

/// The scanner: it owns the source buffer it was built for and scans it
/// in one forward pass. Its view is the source text it will scan.
pub struct Tokenizer {
    source: String,
}

impl View for Tokenizer {
    type V = Seq<char>;

    closed spec fn view(&self) -> Seq<char> {
        self.source@
    }
}

impl Tokenizer {
    /// Builds a scanner that owns the given source text. Any text is
    /// accepted, the empty one included.
    pub fn new(source: String) -> (t: Tokenizer)
        ensures
            t@ == source@,
    {
        Tokenizer { source }
    }

    /// Scans the whole source in one forward pass. On success the
    /// complete token sequence, terminated by the end-of-input marker;
    /// on failure the newline-joined report of every lexical error
    /// found, in discovery order, and the tokens are discarded. The
    /// result is exactly what the model in `scan` says; failure happens
    /// if and only if the model records at least one error.
    pub fn tokenize(&mut self) -> (r: Result<Vec<Token>, String>)
        requires
            old(self)@.len() < usize::MAX,
        ensures
            final(self)@ == old(self)@,
            (match r {
                Ok(toks) => scan_errs(old(self)@).len() == 0 && toks.deep_view() == scan_tokens(old(self)@),
                Err(msg) => scan_errs(old(self)@).len() > 0 && msg@ == crate::report::reports(
                    old(self)@,
                    scan_errs(old(self)@),
                ),
            }),
    {
        let ghost src = self.source@;
        let ghost ext = src.push(' ');
        let n = self.source.as_str().unicode_len();

        let mut i: usize = 0;
        let mut mode = Mode::Idle;
        let mut buf: Vec<char> = Vec::new();
        let mut start: usize = 0;
        let mut tokens: Vec<Token> = Vec::new();
        let mut errors: Vec<ErrRec> = Vec::new();

        proof {
            assert(tokens.deep_view() =~= Seq::<TokenV>::empty());
            assert(errors.deep_view() =~= Seq::<ErrV>::empty());
            assert((ScanState {
                mode: mode,
                start: start as int,
                buf: buf@,
                toks: tokens.deep_view(),
                errs: errors.deep_view(),
            }) == init_state());
        }
        while i <= n
            invariant
                self@ == src,
                self.source@ == src,
                ext == src.push(' '),
                n == src.len(),
                n < usize::MAX,
                i <= n + 1,
                buf@.len() <= i,
                (mode is Idle || mode is InComment) ==> buf@.len() == 0,
                (mode is InString || mode is InNumber || mode is InIdentifier) ==> start < n,
                forall|k: int|
                    0 <= k < errors@.len() ==> 0 <= err_offset(#[trigger] errors@[k]@) < n,
                scan_from(
                    ext,
                    i as int,
                    (ScanState {
                        mode: mode,
                        start: start as int,
                        buf: buf@,
                        toks: tokens.deep_view(),
                        errs: errors.deep_view(),
                    }),
                ) == scan_from(ext, 0, init_state()),
            decreases n + 1 - i, crate::scan::mode_rank(mode),
        {
            let ghost pre = ScanState {
                mode: mode,
                start: start as int,
                buf: buf@,
                toks: tokens.deep_view(),
                errs: errors.deep_view(),
            };
            let ghost i0 = i as int;
            let c = if i < n {
                self.source.as_str().get_char(i)
            } else {
                ' '
            };
            proof {
                assert(c == ext[i0]);
            }
            match mode {
                Mode::InString { escape } => {
                    if escape {
                        buf.push(c);
                        mode = Mode::InString { escape: false };
                        i = i + 1;
                    } else if c == '"' {
                        let lex = buf;
                        buf = Vec::new();
                        let s = chars_to_string(&lex);
                        tokens.push(Token::String(s));
                        proof {
                            assert(tokens.deep_view() =~= pre.toks.push(TokenV::StrLit(pre.buf)));
                        }
                        mode = Mode::Idle;
                        i = i + 1;
                    } else if c == '\\' {
                        mode = Mode::InString { escape: true };
                        i = i + 1;
                    } else {
                        buf.push(c);
                        i = i + 1;
                    }
                },
                Mode::InNumber => {
                    if is_digit_e(c) || c == '.' {
                        buf.push(c);
                        i = i + 1;
                    } else {
                        let lex = buf;
                        buf = Vec::new();
                        let dots = count_dots(&lex);
                        if dots <= 1 {
                            let s = chars_to_string(&lex);
                            tokens.push(Token::Number(s));
                            proof {
                                assert(tokens.deep_view() =~= pre.toks.push(TokenV::NumberLit(pre.buf)));
                            }
                        } else {
                            errors.push(ErrRec::InvalidNumber { lexeme: lex, offset: start });
                            proof {
                                assert(errors.deep_view() =~= pre.errs.push(
                                    ErrV::InvalidNumber { lexeme: pre.buf, offset: start as int },
                                ));
                            }
                        }
                        mode = Mode::Idle;
                    }
                },
                Mode::InIdentifier => {
                    if is_alnum_e(c) {
                        buf.push(c);
                        i = i + 1;
                    } else {
                        let lex = buf;
                        buf = Vec::new();
                        let t = keyword_or_ident(&lex);
                        tokens.push(t);
                        proof {
                            assert(tokens.deep_view() =~= pre.toks.push(ident_token(pre.buf)));
                        }
                        mode = Mode::Idle;
                    }
                },
                Mode::InComment => {
                    if c == '\n' {
                        mode = Mode::Idle;
                    }
                    i = i + 1;
                },
                Mode::Idle => {
                    if is_space_e(c) {
                        i = i + 1;
                    } else if let Some(t) = punct_exec(c) {
                        tokens.push(t);
                        proof {
                            assert(tokens.deep_view() =~= pre.toks.push(t@));
                        }
                        i = i + 1;
                    } else if c == '"' {
                        mode = Mode::InString { escape: false };
                        start = i;
                        i = i + 1;
                    } else if is_digit_e(c) {
                        mode = Mode::InNumber;
                        start = i;
                        buf.push(c);
                        proof {
                            assert(buf@ =~= seq![c]);
                        }
                        i = i + 1;
                    } else if is_alpha_e(c) {
                        mode = Mode::InIdentifier;
                        start = i;
                        buf.push(c);
                        proof {
                            assert(buf@ =~= seq![c]);
                        }
                        i = i + 1;
                    } else if c == '!' || c == '=' || c == '<' || c == '>' {
                        let next = if i + 1 < n {
                            self.source.as_str().get_char(i + 1)
                        } else {
                            ' '
                        };
                        proof {
                            assert(i0 + 1 < ext.len() ==> next == ext[i0 + 1]);
                        }
                        if next == '=' {
                            let t = operator_two_exec(c);
                            tokens.push(t);
                            proof {
                                assert(tokens.deep_view() =~= pre.toks.push(t@));
                            }
                            i = i + 2;
                        } else {
                            let t = operator_one_exec(c);
                            tokens.push(t);
                            proof {
                                assert(tokens.deep_view() =~= pre.toks.push(t@));
                            }
                            i = i + 1;
                        }
                    } else if c == '/' {
                        let next = if i + 1 < n {
                            self.source.as_str().get_char(i + 1)
                        } else {
                            ' '
                        };
                        proof {
                            assert(i0 + 1 < ext.len() ==> next == ext[i0 + 1]);
                        }
                        if next == '/' {
                            mode = Mode::InComment;
                            i = i + 2;
                        } else {
                            tokens.push(Token::Slash);
                            proof {
                                assert(tokens.deep_view() =~= pre.toks.push(TokenV::Slash));
                            }
                            i = i + 1;
                        }
                    } else {
                        errors.push(ErrRec::InvalidToken { c: c, offset: i });
                        proof {
                            assert(errors.deep_view() =~= pre.errs.push(
                                ErrV::InvalidToken { c: c, offset: i0 },
                            ));
                        }
                        i = i + 1;
                    }
                },
            }
            proof {
                let post = ScanState {
                    mode: mode,
                    start: start as int,
                    buf: buf@,
                    toks: tokens.deep_view(),
                    errs: errors.deep_view(),
                };
                assert(step(ext, i0, pre).0 == i as int);
                assert(step(ext, i0, pre).1 == post);
                assert(scan_from(ext, i0, pre) == scan_from(ext, i as int, post));
            }
        }

        let ghost run = scan_from(ext, 0, init_state());
        proof {
            assert(run == (ScanState {
                mode: mode,
                start: start as int,
                buf: buf@,
                toks: tokens.deep_view(),
                errs: errors.deep_view(),
            }));
        }
        if let Mode::InString { .. } = mode {
            let partial = buf;
            errors.push(ErrRec::UnterminatedString { partial, offset: start });
            proof {
                assert(errors.deep_view() =~= run.errs.push(
                    ErrV::UnterminatedString { partial: run.buf, offset: run.start },
                ));
            }
        }
        tokens.push(Token::Eof);
        proof {
            assert(tokens.deep_view() =~= scan_full(src).toks);
            assert(errors.deep_view() =~= scan_full(src).errs);
        }
        if errors.len() > 0 {
            let msg = build_report(self.source.as_str(), &errors);
            Err(msg)
        } else {
            proof {
                assert(tokens.deep_view() == scan_tokens(src));
            }
            Ok(tokens)
        }
    }
}

} // verus!
