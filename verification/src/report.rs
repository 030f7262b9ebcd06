//! Diagnostics: resolving an absolute offset to a 1-indexed line/column
//! pair, rendering numbers in decimal, and joining the formatted error
//! lines into the single report a failed scan returns.
use vstd::prelude::*;

use crate::scan::{ErrV, err_offset};

verus! {

/// The line/column pair for an absolute offset, found by walking the
/// source from its start. Both counts are 1-indexed: a newline starts
/// the next line, whose first character stands at column 1.
pub open spec fn line_col(src: Seq<char>, offset: int) -> (int, int)
    decreases offset,
{
    if offset <= 0 {
        (1, 1)
    } else {
        let prev = line_col(src, offset - 1);
        if src[offset - 1] == '\n' {
            (prev.0 + 1, 1)
        } else {
            (prev.0, prev.1 + 1)
        }
    }
}

/// The character for one decimal digit.
pub open spec fn digit_char(d: int) -> char {
    if d == 0 {
        '0'
    } else if d == 1 {
        '1'
    } else if d == 2 {
        '2'
    } else if d == 3 {
        '3'
    } else if d == 4 {
        '4'
    } else if d == 5 {
        '5'
    } else if d == 6 {
        '6'
    } else if d == 7 {
        '7'
    } else if d == 8 {
        '8'
    } else {
        '9'
    }
}

/// The decimal rendering of a non-negative number, most significant
/// digit first, with no leading zeros (except for zero itself).
pub open spec fn dec_str(n: int) -> Seq<char>
    decreases n,
{
    if n < 10 {
        seq![digit_char(n)]
    } else {
        dec_str(n / 10).push(digit_char(n % 10))
    }
}

/// The message text of one lexical error.
pub open spec fn err_message(e: ErrV) -> Seq<char> {
    match e {
        ErrV::InvalidToken { c, .. } => "Invalid token '"@ + seq![c] + "'"@,
        ErrV::InvalidNumber { lexeme, .. } => "Invalid number '"@ + lexeme + "'"@,
        ErrV::UnterminatedString { partial, .. } => "Unterminated string "@ + partial,
    }
}

/// One formatted diagnostic line: the bracketed line/column anchor, then
/// the message.
pub open spec fn report_line(src: Seq<char>, e: ErrV) -> Seq<char> {
    let lc = line_col(src, err_offset(e));
    "["@ + dec_str(lc.0) + ":"@ + dec_str(lc.1) + "] Error: "@ + err_message(e)
}

/// All diagnostics, one formatted line each, joined by newline, in
/// discovery order.
pub open spec fn reports(src: Seq<char>, errs: Seq<ErrV>) -> Seq<char>
    decreases errs.len(),
{
    if errs.len() == 0 {
        Seq::empty()
    } else if errs.len() == 1 {
        report_line(src, errs[0])
    } else {
        reports(src, errs.drop_last()) + "\n"@ + report_line(src, errs.last())
    }
}

/// One recorded lexical error, as the executable scanner accumulates
/// them: the error's data and the absolute offset it is anchored at.
pub enum ErrRec {
    InvalidToken { c: char, offset: usize },
    InvalidNumber { lexeme: Vec<char>, offset: usize },
    UnterminatedString { partial: Vec<char>, offset: usize },
}

impl View for ErrRec {
    type V = ErrV;

    open spec fn view(&self) -> ErrV {
        match self {
            ErrRec::InvalidToken { c, offset } => ErrV::InvalidToken { c: *c, offset: *offset as int },
            ErrRec::InvalidNumber { lexeme, offset } => ErrV::InvalidNumber {
                lexeme: lexeme@,
                offset: *offset as int,
            },
            ErrRec::UnterminatedString { partial, offset } => ErrV::UnterminatedString {
                partial: partial@,
                offset: *offset as int,
            },
        }
    }
}

impl DeepView for ErrRec {
    type V = ErrV;

    open spec fn deep_view(&self) -> ErrV {
        self.view()
    }
}

/// Relies on `String::push` of std: appends the given character to the
/// end of the string.
#[verifier::external_body]
pub(crate) fn push_char(s: &mut String, c: char)
    ensures
        final(s)@ == old(s)@.push(c),
{
    s.push(c);
}

/// Builds a fresh string holding exactly the given characters.
pub(crate) fn chars_to_string(v: &Vec<char>) -> (s: String)
    ensures
        s@ == v@,
{
    let mut s = String::new();
    let mut k: usize = 0;
    while k < v.len()
        invariant
            k <= v.len(),
            s@ == v@.subrange(0, k as int),
        decreases v.len() - k,
    {
        push_char(&mut s, v[k]);
        k = k + 1;
        proof {
            assert(s@ =~= v@.subrange(0, k as int));
        }
    }
    proof {
        assert(s@ =~= v@);
    }
    s
}

/// Appends the decimal rendering of `n` to the string.
pub(crate) fn push_dec(s: &mut String, n: usize)
    ensures
        final(s)@ == old(s)@ + dec_str(n as int),
    decreases n,
{
    if n >= 10 {
        push_dec(s, n / 10);
    }
    let d = n % 10;
    let c = if d == 0 {
        '0'
    } else if d == 1 {
        '1'
    } else if d == 2 {
        '2'
    } else if d == 3 {
        '3'
    } else if d == 4 {
        '4'
    } else if d == 5 {
        '5'
    } else if d == 6 {
        '6'
    } else if d == 7 {
        '7'
    } else if d == 8 {
        '8'
    } else {
        '9'
    };
    proof {
        assert(c == digit_char(n as int % 10));
        if n < 10 {
            assert(dec_str(n as int) =~= seq![digit_char(n as int)]);
        } else {
            assert(dec_str(n as int) == dec_str(n as int / 10).push(digit_char(n as int % 10)));
        }
    }
    push_char(s, c);
    proof {
        assert(final(s)@ =~= old(s)@ + dec_str(n as int));
    }
}

/// Resolves an absolute offset into the source to its 1-indexed line and
/// column, re-walking the text from the start.
pub(crate) fn line_col_exec(src: &str, offset: usize) -> (lc: (usize, usize))
    requires
        offset < src@.len(),
        offset < usize::MAX,
    ensures
        lc.0 as int == line_col(src@, offset as int).0,
        lc.1 as int == line_col(src@, offset as int).1,
{
    let mut line: usize = 1;
    let mut column: usize = 1;
    let mut j: usize = 0;
    while j < offset
        invariant
            j <= offset < src@.len(),
            offset < usize::MAX,
            line as int == line_col(src@, j as int).0,
            column as int == line_col(src@, j as int).1,
            line <= 1 + j,
            column <= 1 + j,
        decreases offset - j,
    {
        let c = src.get_char(j);
        if c == '\n' {
            line = line + 1;
            column = 1;
        } else {
            column = column + 1;
        }
        j = j + 1;
    }
    (line, column)
}

/// Appends one formatted diagnostic line to the string.
fn push_report_line(s: &mut String, src: &str, e: &ErrRec)
    requires
        0 <= err_offset(e@) < src@.len(),
        src@.len() <= usize::MAX,
    ensures
        final(s)@ == old(s)@ + report_line(src@, e@),
{
    let offset: usize = match e {
        ErrRec::InvalidToken { offset, .. } => *offset,
        ErrRec::InvalidNumber { offset, .. } => *offset,
        ErrRec::UnterminatedString { offset, .. } => *offset,
    };
    let lc = line_col_exec(src, offset);
    s.append("[");
    push_dec(s, lc.0);
    s.append(":");
    push_dec(s, lc.1);
    s.append("] Error: ");
    match e {
        ErrRec::InvalidToken { c, .. } => {
            s.append("Invalid token '");
            push_char(s, *c);
            s.append("'");
        },
        ErrRec::InvalidNumber { lexeme, .. } => {
            s.append("Invalid number '");
            let t = chars_to_string(lexeme);
            s.append(t.as_str());
            s.append("'");
        },
        ErrRec::UnterminatedString { partial, .. } => {
            s.append("Unterminated string ");
            let t = chars_to_string(partial);
            s.append(t.as_str());
        },
    }
    proof {
        assert(final(s)@ =~= old(s)@ + report_line(src@, e@));
    }
}

/// Builds the full failure report: one formatted line per recorded
/// error, joined by newline, in discovery order.
pub(crate) fn build_report(src: &str, errs: &Vec<ErrRec>) -> (s: String)
    requires
        forall|k: int| 0 <= k < errs@.len() ==> 0 <= err_offset(#[trigger] errs@[k]@) < src@.len(),
        src@.len() <= usize::MAX,
    ensures
        s@ == reports(src@, errs.deep_view()),
{
    let mut s = String::new();
    let mut k: usize = 0;
    while k < errs.len()
        invariant
            k <= errs.len(),
            forall|m: int| 0 <= m < errs@.len() ==> 0 <= err_offset(#[trigger] errs@[m]@) < src@.len(),
            src@.len() <= usize::MAX,
            s@ == reports(src@, errs.deep_view().subrange(0, k as int)),
        decreases errs.len() - k,
    {
        if k > 0 {
            s.append("\n");
        }
        let e = &errs[k];
        proof {
            assert(errs.deep_view()[k as int] == errs@[k as int]@);
        }
        push_report_line(&mut s, src, e);
        k = k + 1;
        proof {
            let dv = errs.deep_view();
            let pre = dv.subrange(0, k as int);
            assert(pre.drop_last() =~= dv.subrange(0, k as int - 1));
            assert(pre.last() == dv[k as int - 1]);
            if k == 1 {
                assert(s@ =~= reports(src@, pre));
            } else {
                assert(s@ =~= reports(src@, pre.drop_last()) + "\n"@ + report_line(src@, pre.last()));
                assert(s@ =~= reports(src@, pre));
            }
        }
    }
    proof {
        assert(errs.deep_view().subrange(0, errs@.len() as int) =~= errs.deep_view());
    }
    s
}

} // verus!
