//! Reading the answer of the local package database.
//!
//! The database is asked for one package and prints a line of the shape
//! `name version`. The version is the second word of the first line; any
//! other shape counts as "not installed".

use vstd::prelude::*;
use crate::text::{
    first_line, first_line_of, is_space, lemma_line_end_bounds, lemma_words_of_prefix, line_end,
    opt_text, texts, words, words_of,
};

verus! {

/// The installed version that a query reports: the second word of the first
/// line of what it printed, where the query succeeded and that line has two
/// words; otherwise none.
pub open spec fn installed_version(success: bool, stdout: Seq<char>) -> Option<Seq<char>> {
    let w = words(first_line(stdout));
    if success && w.len() >= 2 {
        Some(w[1])
    } else {
        None
    }
}

/// The first line of a text has no more words than the text.
pub proof fn lemma_first_line_words(s: Seq<char>)
    ensures
        words(first_line(s)).len() <= words(s).len(),
{
    lemma_line_end_bounds(s, 0);
    let end = line_end(s, 0);
    assert(end < s.len() ==> is_space(s[end]));
    lemma_words_of_prefix(s, 0, end);
}

/// Reads the installed version out of the result of a query: `success` says
/// whether the query exited successfully, `stdout` is what it printed.
///
/// A failed query, no output, or a first line of fewer than two words all
/// give `None`: the caller cannot tell them apart.
pub fn parse_installed_version(success: bool, stdout: &str) -> (version: Option<String>)
    ensures
        opt_text(version) == installed_version(success, stdout@),
        !success ==> version is None,
        words(stdout@).len() < 2 ==> version is None,
{
    proof {
        lemma_first_line_words(stdout@);
    }
    if !success {
        return None;
    }
    let line = first_line_of(stdout);
    let parts = words_of(line);
    if parts.len() >= 2 {
        assert(texts(parts@)[1] == parts@[1]@);
        Some(parts[1].clone())
    } else {
        None
    }
}

} // verus!
