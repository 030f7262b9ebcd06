//! The laws the scanner obeys, stated over the model in `scan` and
//! proved once for every input.
use vstd::prelude::*;

use crate::scan::{
    Mode, ScanState, TokenV, ident_token, init_state, is_keyword, is_operator, mode_rank,
    operator_one, operator_two, scan_from, scan_tokens, step,
};

verus! {

/// No element of the sequence is the end-of-input marker.
pub open spec fn no_eof(toks: Seq<TokenV>) -> bool {
    forall|k: int| 0 <= k < toks.len() ==> toks[k] != TokenV::Eof
}

/// The machine never emits the end-of-input marker while it runs: only
/// the final step of a whole scan appends it.
proof fn lemma_scan_from_no_eof(ext: Seq<char>, i: int, st: ScanState)
    requires
        no_eof(st.toks),
    ensures
        no_eof(scan_from(ext, i, st).toks),
    decreases ext.len() - i, mode_rank(st.mode),
{
    if 0 <= i < ext.len() {
        let (j, st2) = step(ext, i, st);
        assert forall|k: int| 0 <= k < st2.toks.len() implies st2.toks[k] != TokenV::Eof by {
            if k < st.toks.len() {
                assert(st.toks[k] != TokenV::Eof);
            }
        }
        lemma_scan_from_no_eof(ext, j, st2);
    }
}

/// Every scan's token sequence ends with the end-of-input marker, and no
/// earlier element equals it.
pub proof fn lemma_eof_terminal(src: Seq<char>)
    ensures
        scan_tokens(src).len() > 0,
        scan_tokens(src).last() == TokenV::Eof,
        forall|k: int| 0 <= k < scan_tokens(src).len() - 1 ==> scan_tokens(src)[k] != TokenV::Eof,
{
    let ext = src.push(' ');
    lemma_scan_from_no_eof(ext, 0, init_state());
}

/// Scanning is deterministic: two scans of identical input yield
/// identical token sequences.
pub proof fn lemma_scan_deterministic(src: Seq<char>, first: Seq<TokenV>, second: Seq<TokenV>)
    requires
        first == scan_tokens(src),
        second == scan_tokens(src),
    ensures
        first == second,
{
}

/// Keyword partition: accumulated identifier text that exactly matches
/// one of the sixteen reserved spellings becomes the corresponding
/// keyword token; any other text becomes a generic identifier token
/// carrying exactly that text.
pub proof fn lemma_keyword_partition(text: Seq<char>)
    ensures
        !is_keyword(text) ==> ident_token(text) == TokenV::Identifier(text),
        is_keyword(text) <==> (text == "and"@ || text == "class"@ || text == "else"@ || text == "false"@
            || text == "fun"@ || text == "for"@ || text == "if"@ || text == "nil"@ || text == "or"@
            || text == "print"@ || text == "return"@ || text == "super"@ || text == "this"@
            || text == "true"@ || text == "var"@ || text == "while"@),
        text == "and"@ ==> ident_token(text) == TokenV::And,
        text == "class"@ ==> ident_token(text) == TokenV::Class,
        text == "else"@ ==> ident_token(text) == TokenV::Else,
        text == "false"@ ==> ident_token(text) == TokenV::False,
        text == "fun"@ ==> ident_token(text) == TokenV::Fun,
        text == "for"@ ==> ident_token(text) == TokenV::For,
        text == "if"@ ==> ident_token(text) == TokenV::If,
        text == "nil"@ ==> ident_token(text) == TokenV::Nil,
        text == "or"@ ==> ident_token(text) == TokenV::Or,
        text == "print"@ ==> ident_token(text) == TokenV::Print,
        text == "return"@ ==> ident_token(text) == TokenV::Return,
        text == "super"@ ==> ident_token(text) == TokenV::Super,
        text == "this"@ ==> ident_token(text) == TokenV::This,
        text == "true"@ ==> ident_token(text) == TokenV::True,
        text == "var"@ ==> ident_token(text) == TokenV::Var,
        text == "while"@ ==> ident_token(text) == TokenV::While,
{
    broadcast use vstd::string::group_string_axioms;

    reveal_strlit("and");
    reveal_strlit("class");
    reveal_strlit("else");
    reveal_strlit("false");
    reveal_strlit("fun");
    reveal_strlit("for");
    reveal_strlit("if");
    reveal_strlit("nil");
    reveal_strlit("or");
    reveal_strlit("print");
    reveal_strlit("return");
    reveal_strlit("super");
    reveal_strlit("this");
    reveal_strlit("true");
    reveal_strlit("var");
    reveal_strlit("while");
    assert("and"@ =~= seq!['a', 'n', 'd']);
    assert("class"@ =~= seq!['c', 'l', 'a', 's', 's']);
    assert("else"@ =~= seq!['e', 'l', 's', 'e']);
    assert("false"@ =~= seq!['f', 'a', 'l', 's', 'e']);
    assert("fun"@ =~= seq!['f', 'u', 'n']);
    assert("for"@ =~= seq!['f', 'o', 'r']);
    assert("if"@ =~= seq!['i', 'f']);
    assert("nil"@ =~= seq!['n', 'i', 'l']);
    assert("or"@ =~= seq!['o', 'r']);
    assert("print"@ =~= seq!['p', 'r', 'i', 'n', 't']);
    assert("return"@ =~= seq!['r', 'e', 't', 'u', 'r', 'n']);
    assert("super"@ =~= seq!['s', 'u', 'p', 'e', 'r']);
    assert("this"@ =~= seq!['t', 'h', 'i', 's']);
    assert("true"@ =~= seq!['t', 'r', 'u', 'e']);
    assert("var"@ =~= seq!['v', 'a', 'r']);
    assert("while"@ =~= seq!['w', 'h', 'i', 'l', 'e']);
}

/// Maximal munch: at an operator character with no lexeme open, the
/// scanner takes the two-character operator whenever `=` follows, and
/// only otherwise emits the one-character operator. In particular a
/// bang before anything but `=` stays a lone bang token.
pub proof fn lemma_maximal_munch(ext: Seq<char>, i: int, st: ScanState)
    requires
        st.mode is Idle,
        0 <= i < ext.len(),
        is_operator(ext[i]),
    ensures
        (i + 1 < ext.len() && ext[i + 1] == '=') ==> scan_from(ext, i, st) == scan_from(
            ext,
            i + 2,
            (ScanState { toks: st.toks.push(operator_two(ext[i])), ..st }),
        ),
        !(i + 1 < ext.len() && ext[i + 1] == '=') ==> scan_from(ext, i, st) == scan_from(
            ext,
            i + 1,
            (ScanState { toks: st.toks.push(operator_one(ext[i])), ..st }),
        ),
{
}

/// The position one past the first newline at or after `j`, or the end
/// of the input when no newline follows: where scanning resumes after a
/// line comment.
pub open spec fn comment_end(ext: Seq<char>, j: int) -> int
    decreases ext.len() - j,
{
    if j < 0 || j >= ext.len() {
        j
    } else if ext[j] == '\n' {
        j + 1
    } else {
        comment_end(ext, j + 1)
    }
}

/// A running comment consumes characters up to and including the next
/// newline without changing what has been produced.
proof fn lemma_comment_runs(ext: Seq<char>, j: int, st: ScanState)
    requires
        0 <= j <= ext.len(),
        st.mode is InComment,
    ensures
        scan_from(ext, j, st).toks == scan_from(
            ext,
            comment_end(ext, j),
            (ScanState { mode: Mode::Idle, ..st }),
        ).toks,
        scan_from(ext, j, st).errs == scan_from(
            ext,
            comment_end(ext, j),
            (ScanState { mode: Mode::Idle, ..st }),
        ).errs,
    decreases ext.len() - j,
{
    if j < ext.len() && ext[j] != '\n' {
        lemma_comment_runs(ext, j + 1, st);
    }
}

/// Comment suppression: at `//` with no lexeme open, the rest of the
/// line — whatever characters it holds — contributes no tokens and no
/// errors; the scan continues past the line's end exactly as it stood
/// before the comment.
pub proof fn lemma_comment_suppression(ext: Seq<char>, i: int, st: ScanState)
    requires
        st.mode is Idle,
        0 <= i,
        i + 1 < ext.len(),
        ext[i] == '/',
        ext[i + 1] == '/',
    ensures
        scan_from(ext, i, st).toks == scan_from(ext, comment_end(ext, i + 2), st).toks,
        scan_from(ext, i, st).errs == scan_from(ext, comment_end(ext, i + 2), st).errs,
{
    let stc = ScanState { mode: Mode::InComment, ..st };
    assert(step(ext, i, st) == (i + 2, stc));
    lemma_comment_runs(ext, i + 2, stc);
    assert((ScanState { mode: Mode::Idle, ..stc }) == st);
}

/// Division disambiguation: a slash not followed by another slash is a
/// slash token; a slash followed by a slash starts a line comment that
/// produces nothing up to the end of the line.
pub proof fn lemma_division(ext: Seq<char>, i: int, st: ScanState)
    requires
        st.mode is Idle,
        0 <= i < ext.len(),
        ext[i] == '/',
    ensures
        !(i + 1 < ext.len() && ext[i + 1] == '/') ==> scan_from(ext, i, st) == scan_from(
            ext,
            i + 1,
            (ScanState { toks: st.toks.push(TokenV::Slash), ..st }),
        ),
        (i + 1 < ext.len() && ext[i + 1] == '/') ==> scan_from(ext, i, st).toks == scan_from(
            ext,
            comment_end(ext, i + 2),
            st,
        ).toks,
{
    if i + 1 < ext.len() && ext[i + 1] == '/' {
        lemma_comment_suppression(ext, i, st);
    }
}

/// Escaping inside a string: a backslash makes the next character — any
/// character — go into the decoded contents literally, and is itself not
/// stored; an unescaped double-quote closes the string into a string
/// token carrying the accumulated contents.
pub proof fn lemma_string_escape(ext: Seq<char>, i: int, st: ScanState)
    requires
        0 <= i < ext.len(),
    ensures
        st.mode == (Mode::InString { escape: true }) ==> scan_from(ext, i, st) == scan_from(
            ext,
            i + 1,
            (ScanState { mode: Mode::InString { escape: false }, buf: st.buf.push(ext[i]), ..st }),
        ),
        st.mode == (Mode::InString { escape: false }) && ext[i] == '\\' ==> scan_from(ext, i, st)
            == scan_from(ext, i + 1, (ScanState { mode: Mode::InString { escape: true }, ..st })),
        st.mode == (Mode::InString { escape: false }) && ext[i] == '"' ==> scan_from(ext, i, st)
            == scan_from(
            ext,
            i + 1,
            (ScanState {
                mode: Mode::Idle,
                buf: Seq::empty(),
                toks: st.toks.push(TokenV::StrLit(st.buf)),
                ..st
            }),
        ),
{
}

} // verus!
