//! Lexical scanner for a small dynamically-typed scripting language: it
//! turns source text into an ordered sequence of classified tokens, or a
//! newline-joined report of every lexical error found in one pass.
use vstd::prelude::*;

pub mod laws;
pub mod report;
pub mod scan;
pub mod tokenizer;

verus! {

use crate::report::reports;
use crate::scan::{scan_errs, scan_tokens};
use crate::tokenizer::{Token, Tokenizer};

/// Scans `source` in one pass. On success, the complete ordered token
/// sequence terminated by the end-of-input marker; on failure, one
/// newline-joined report holding every lexical error found, in discovery
/// order. Failure happens if and only if the scan records at least one
/// error.
pub fn tokenize(source: String) -> (r: Result<Vec<Token>, String>)
    requires
        source@.len() < usize::MAX,
    ensures
        (match r {
            Ok(toks) => scan_errs(source@).len() == 0 && toks.deep_view() == scan_tokens(source@),
            Err(msg) => scan_errs(source@).len() > 0 && msg@ == reports(source@, scan_errs(source@)),
        }),
{
    let mut tokenizer = Tokenizer::new(source);
    tokenizer.tokenize()
}

} // verus!
