//! The mathematical model of the scanner: a small-step state machine over
//! the source text extended with a trailing blank sentinel. The executable
//! scanner in `tokenizer` is proved to compute exactly what this model says.
use vstd::prelude::*;

verus! {

/// Spec-level token: the classification of one lexeme. Literal and
/// identifier tokens carry their text as a sequence of characters; a
/// number token carries its lexeme (digits and at most one dot) rather
/// than a binary floating value, so that its meaning stays exact.
pub enum TokenV {
    LeftParen,
    RightParen,
    LeftBrace,
    RightBrace,
    Comma,
    Dot,
    Minus,
    Plus,
    Semicolon,
    Slash,
    Star,
    Bang,
    BangEqual,
    Equal,
    EqualEqual,
    Greater,
    GreatEqual,
    Less,
    LessEqual,
    Identifier(Seq<char>),
    StrLit(Seq<char>),
    NumberLit(Seq<char>),
    And,
    Class,
    Else,
    False,
    Fun,
    For,
    If,
    Nil,
    Or,
    Print,
    Return,
    Super,
    This,
    True,
    Var,
    While,
    Eof,
}

/// Spec-level lexical error, anchored at an absolute character offset
/// into the original source text.
pub enum ErrV {
    InvalidToken { c: char, offset: int },
    InvalidNumber { lexeme: Seq<char>, offset: int },
    UnterminatedString { partial: Seq<char>, offset: int },
}

/// Which lexeme class is currently open. At most one is open at a time.
pub enum Mode {
    Idle,
    InString { escape: bool },
    InNumber,
    InIdentifier,
    InComment,
}

/// The full state of a scan in progress: the open lexeme class, the start
/// offset of the open lexeme, its accumulated characters, and the tokens
/// and errors produced so far.
pub struct ScanState {
    pub mode: Mode,
    pub start: int,
    pub buf: Seq<char>,
    pub toks: Seq<TokenV>,
    pub errs: Seq<ErrV>,
}

/// Decimal digit (the only characters that may start or extend the digits
/// of a number lexeme).
pub open spec fn is_digit(c: char) -> bool {
    48 <= c as u32 && c as u32 <= 57
}

/// Latin letter: starts an identifier lexeme.
pub open spec fn is_alpha(c: char) -> bool {
    (65 <= c as u32 && c as u32 <= 90) || (97 <= c as u32 && c as u32 <= 122)
}

/// Letter or digit: extends an identifier lexeme.
pub open spec fn is_alnum(c: char) -> bool {
    is_digit(c) || is_alpha(c)
}

/// Whitespace, skipped between lexemes.
pub open spec fn is_space(c: char) -> bool {
    c == ' ' || c == '\t' || c == '\n' || c == '\r' || c as u32 == 11 || c as u32 == 12
}

/// The fixed single-character punctuation tokens. The slash is not here:
/// it needs one character of lookahead to tell division from a comment.
pub open spec fn punct_token(c: char) -> Option<TokenV> {
    if c == '(' {
        Some(TokenV::LeftParen)
    } else if c == ')' {
        Some(TokenV::RightParen)
    } else if c == '{' {
        Some(TokenV::LeftBrace)
    } else if c == '}' {
        Some(TokenV::RightBrace)
    } else if c == ',' {
        Some(TokenV::Comma)
    } else if c == '.' {
        Some(TokenV::Dot)
    } else if c == '-' {
        Some(TokenV::Minus)
    } else if c == '+' {
        Some(TokenV::Plus)
    } else if c == ';' {
        Some(TokenV::Semicolon)
    } else if c == '*' {
        Some(TokenV::Star)
    } else {
        None
    }
}

/// The four characters that may begin a one- or two-character operator.
pub open spec fn is_operator(c: char) -> bool {
    c == '!' || c == '=' || c == '<' || c == '>'
}

/// The two-character operator formed by `c` followed by `=`.
pub open spec fn operator_two(c: char) -> TokenV {
    if c == '!' {
        TokenV::BangEqual
    } else if c == '=' {
        TokenV::EqualEqual
    } else if c == '<' {
        TokenV::LessEqual
    } else {
        TokenV::GreatEqual
    }
}

/// The one-character operator `c`.
pub open spec fn operator_one(c: char) -> TokenV {
    if c == '!' {
        TokenV::Bang
    } else if c == '=' {
        TokenV::Equal
    } else if c == '<' {
        TokenV::Less
    } else {
        TokenV::Greater
    }
}

/// How many dots a number lexeme holds.
pub open spec fn num_dots(s: Seq<char>) -> nat
    decreases s.len(),
{
    if s.len() == 0 {
        0
    } else {
        num_dots(s.drop_last()) + if s.last() == '.' {
            1nat
        } else {
            0nat
        }
    }
}

/// A number lexeme is well formed when it holds at most one dot (its
/// other characters are digits by construction, and it starts with one).
pub open spec fn valid_number(s: Seq<char>) -> bool {
    num_dots(s) <= 1
}

/// The token emitted for an accumulated identifier lexeme: the matching
/// reserved word if the text equals one of the sixteen keyword spellings,
/// otherwise a generic identifier carrying that exact text.
pub open spec fn ident_token(s: Seq<char>) -> TokenV {
    if s == "and"@ {
        TokenV::And
    } else if s == "class"@ {
        TokenV::Class
    } else if s == "else"@ {
        TokenV::Else
    } else if s == "false"@ {
        TokenV::False
    } else if s == "fun"@ {
        TokenV::Fun
    } else if s == "for"@ {
        TokenV::For
    } else if s == "if"@ {
        TokenV::If
    } else if s == "nil"@ {
        TokenV::Nil
    } else if s == "or"@ {
        TokenV::Or
    } else if s == "print"@ {
        TokenV::Print
    } else if s == "return"@ {
        TokenV::Return
    } else if s == "super"@ {
        TokenV::Super
    } else if s == "this"@ {
        TokenV::This
    } else if s == "true"@ {
        TokenV::True
    } else if s == "var"@ {
        TokenV::Var
    } else if s == "while"@ {
        TokenV::While
    } else {
        TokenV::Identifier(s)
    }
}

/// Whether `s` is one of the sixteen reserved spellings.
pub open spec fn is_keyword(s: Seq<char>) -> bool {
    !(ident_token(s) is Identifier)
}

/// Closing a number lexeme: a well-formed lexeme becomes a number token;
/// otherwise an invalid-number error anchored at the lexeme's start.
pub open spec fn close_number(st: ScanState) -> ScanState {
    if valid_number(st.buf) {
        ScanState { mode: Mode::Idle, buf: Seq::empty(), toks: st.toks.push(TokenV::NumberLit(st.buf)), ..st }
    } else {
        ScanState {
            mode: Mode::Idle,
            buf: Seq::empty(),
            errs: st.errs.push(ErrV::InvalidNumber { lexeme: st.buf, offset: st.start }),
            ..st
        }
    }
}

/// Closing an identifier lexeme: keyword lookup, then emit.
pub open spec fn close_identifier(st: ScanState) -> ScanState {
    ScanState { mode: Mode::Idle, buf: Seq::empty(), toks: st.toks.push(ident_token(st.buf)), ..st }
}

/// Dispatch on one character with no lexeme open. Returns the next cursor
/// position and the next state. Operators use one character of lookahead
/// (maximal munch); a slash followed by a slash opens a comment.
pub open spec fn idle_step(ext: Seq<char>, i: int, st: ScanState) -> (int, ScanState) {
    let c = ext[i];
    if is_space(c) {
        (i + 1, st)
    } else {
        match punct_token(c) {
            Some(t) => (i + 1, ScanState { toks: st.toks.push(t), ..st }),
            None => {
                if c == '"' {
                    (i + 1, ScanState { mode: Mode::InString { escape: false }, start: i, ..st })
                } else if is_digit(c) {
                    (i + 1, ScanState { mode: Mode::InNumber, start: i, buf: seq![c], ..st })
                } else if is_alpha(c) {
                    (i + 1, ScanState { mode: Mode::InIdentifier, start: i, buf: seq![c], ..st })
                } else if is_operator(c) {
                    if i + 1 < ext.len() && ext[i + 1] == '=' {
                        (i + 2, ScanState { toks: st.toks.push(operator_two(c)), ..st })
                    } else {
                        (i + 1, ScanState { toks: st.toks.push(operator_one(c)), ..st })
                    }
                } else if c == '/' {
                    if i + 1 < ext.len() && ext[i + 1] == '/' {
                        (i + 2, ScanState { mode: Mode::InComment, ..st })
                    } else {
                        (i + 1, ScanState { toks: st.toks.push(TokenV::Slash), ..st })
                    }
                } else {
                    (i + 1, ScanState { errs: st.errs.push(ErrV::InvalidToken { c: c, offset: i }), ..st })
                }
            },
        }
    }
}

/// One step of the scan at position `i`. Closing a number or identifier
/// does not consume the closing character: it is re-examined, idle, at
/// the same position (the cursor stays, the open class drops away).
pub open spec fn step(ext: Seq<char>, i: int, st: ScanState) -> (int, ScanState) {
    let c = ext[i];
    match st.mode {
        Mode::InString { escape } => {
            if escape {
                (i + 1, ScanState { mode: Mode::InString { escape: false }, buf: st.buf.push(c), ..st })
            } else if c == '"' {
                (
                    i + 1,
                    ScanState {
                        mode: Mode::Idle,
                        buf: Seq::empty(),
                        toks: st.toks.push(TokenV::StrLit(st.buf)),
                        ..st
                    },
                )
            } else if c == '\\' {
                (i + 1, ScanState { mode: Mode::InString { escape: true }, ..st })
            } else {
                (i + 1, ScanState { buf: st.buf.push(c), ..st })
            }
        },
        Mode::InNumber => {
            if is_digit(c) || c == '.' {
                (i + 1, ScanState { buf: st.buf.push(c), ..st })
            } else {
                (i, close_number(st))
            }
        },
        Mode::InIdentifier => {
            if is_alnum(c) {
                (i + 1, ScanState { buf: st.buf.push(c), ..st })
            } else {
                (i, close_identifier(st))
            }
        },
        Mode::InComment => {
            if c == '\n' {
                (i + 1, ScanState { mode: Mode::Idle, ..st })
            } else {
                (i + 1, st)
            }
        },
        Mode::Idle => idle_step(ext, i, st),
    }
}

/// Ranks the open-lexeme classes whose closing step keeps the cursor in
/// place, so that the scan's termination measure still drops.
pub open spec fn mode_rank(m: Mode) -> nat {
    match m {
        Mode::InNumber => 1,
        Mode::InIdentifier => 1,
        _ => 0,
    }
}

/// Runs the state machine from position `i` to the end of the extended
/// source and returns the final state.
pub open spec fn scan_from(ext: Seq<char>, i: int, st: ScanState) -> ScanState
    decreases ext.len() - i, mode_rank(st.mode),
{
    if 0 <= i < ext.len() {
        let (j, st2) = step(ext, i, st);
        scan_from(ext, j, st2)
    } else {
        st
    }
}

/// The state a scan begins in: no lexeme open, nothing produced.
pub open spec fn init_state() -> ScanState {
    ScanState { mode: Mode::Idle, start: 0, buf: Seq::empty(), toks: Seq::empty(), errs: Seq::empty() }
}

/// The complete scan of a source text: a blank sentinel is appended so a
/// trailing number or identifier still closes, the machine runs to the
/// end, a still-open string becomes an unterminated-string error, and the
/// end-of-input marker is appended last.
pub open spec fn scan_full(src: Seq<char>) -> ScanState {
    let ext = src.push(' ');
    let st = scan_from(ext, 0, init_state());
    let st1 = if st.mode is InString {
        ScanState { errs: st.errs.push(ErrV::UnterminatedString { partial: st.buf, offset: st.start }), ..st }
    } else {
        st
    };
    ScanState { toks: st1.toks.push(TokenV::Eof), ..st1 }
}

/// The token sequence a scan of `src` produces.
pub open spec fn scan_tokens(src: Seq<char>) -> Seq<TokenV> {
    scan_full(src).toks
}

/// The lexical errors a scan of `src` discovers, in discovery order.
pub open spec fn scan_errs(src: Seq<char>) -> Seq<ErrV> {
    scan_full(src).errs
}

/// The start offset an error is anchored at.
pub open spec fn err_offset(e: ErrV) -> int {
    match e {
        ErrV::InvalidToken { offset, .. } => offset,
        ErrV::InvalidNumber { offset, .. } => offset,
        ErrV::UnterminatedString { offset, .. } => offset,
    }
}

} // verus!
