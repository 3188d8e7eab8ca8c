//! Reading the error text of a failed build.
//!
//! A build that stops because a source signature cannot be checked names the
//! missing key in its error text. This module recognises that failure, finds
//! the key's identifier and words the advice for the user.

use vstd::prelude::*;
use crate::message::{join3, message_views, on_stderr, push_message, Message, MessageView};
use crate::text::{
    all_hex, char_is_hex_digit, chars_of, contains, contains_text, is_hex_digit, lines, lines_of,
    opt_text, texts, words, words_of,
};

verus! {

/// The phrase by which the build tool reports a signature that it could not
/// check.
pub open spec fn signature_marker() -> Seq<char> {
    "One or more PGP signatures could not be verified"@
}

/// What stands for the key in the advice where none was found.
pub open spec fn key_placeholder() -> Seq<char> {
    "<KEY>"@
}

/// Whether a line speaks of an unknown key: it holds both `key` and
/// `unknown`, in lower case, anywhere and in any order.
pub open spec fn mentions_unknown_key(line: Seq<char>) -> bool {
    contains(line, "key"@) && contains(line, "unknown"@)
}

/// The key identifier that a single word yields: the word itself where it is
/// sixteen or more hexadecimal digits; the word without its last character
/// where that is a closing parenthesis after sixteen or more hexadecimal
/// digits; otherwise none.
pub open spec fn key_of_word(word: Seq<char>) -> Option<Seq<char>> {
    if word.len() >= 16 && all_hex(word) {
        Some(word)
    } else if word.len() >= 17 && word.last() == ')' && all_hex(word.drop_last()) {
        Some(word.drop_last())
    } else {
        None
    }
}

/// The key of the first word, at index `from` or later, that yields one.
pub open spec fn key_in_words(ws: Seq<Seq<char>>, from: int) -> Option<Seq<char>>
    decreases ws.len() - from,
{
    if from < 0 || from >= ws.len() {
        None
    } else if key_of_word(ws[from]) is Some {
        key_of_word(ws[from])
    } else {
        key_in_words(ws, from + 1)
    }
}

/// The key that a line yields: that of its first word that yields one.
pub open spec fn key_in_line(line: Seq<char>) -> Option<Seq<char>> {
    key_in_words(words(line), 0)
}

/// The first line, at index `from` or later, that speaks of an unknown key.
pub open spec fn key_line_from(ls: Seq<Seq<char>>, from: int) -> Option<Seq<char>>
    decreases ls.len() - from,
{
    if from < 0 || from >= ls.len() {
        None
    } else if mentions_unknown_key(ls[from]) {
        Some(ls[from])
    } else {
        key_line_from(ls, from + 1)
    }
}

/// The first line of `text` that speaks of an unknown key.
pub open spec fn key_line(text: Seq<char>) -> Option<Seq<char>> {
    key_line_from(lines(text), 0)
}

/// The key identifier that an error text yields: that of its first line that
/// speaks of an unknown key. Later lines are not looked at.
pub open spec fn remediation_hint(text: Seq<char>) -> Option<Seq<char>> {
    match key_line(text) {
        Some(line) => key_in_line(line),
        None => None,
    }
}

/// A well-formed key identifier: sixteen or more hexadecimal digits.
pub open spec fn is_key_id(key: Seq<char>) -> bool {
    key.len() >= 16 && all_hex(key)
}

/// What a word yields is a well-formed key identifier.
pub proof fn lemma_key_of_word_is_key_id(word: Seq<char>)
    ensures
        key_of_word(word) is Some ==> is_key_id(key_of_word(word)->0),
{
}

/// What a run of words yields is a well-formed key identifier.
pub proof fn lemma_key_in_words_is_key_id(ws: Seq<Seq<char>>, from: int)
    ensures
        key_in_words(ws, from) is Some ==> is_key_id(key_in_words(ws, from)->0),
    decreases ws.len() - from,
{
    if 0 <= from < ws.len() && key_of_word(ws[from]) is None {
        lemma_key_in_words_is_key_id(ws, from + 1);
    }
}

/// Every key identifier taken from an error text is sixteen or more
/// hexadecimal digits.
pub proof fn lemma_hint_is_key_id(text: Seq<char>)
    ensures
        remediation_hint(text) is Some ==> is_key_id(remediation_hint(text)->0),
{
    if key_line(text) is Some {
        lemma_key_in_words_is_key_id(words(key_line(text)->0), 0);
    }
}

/// Tells whether the first `upto` characters of `v` are all hexadecimal
/// digits.
fn prefix_is_hex(v: &Vec<char>, upto: usize) -> (b: bool)
    requires
        upto <= v.len(),
    ensures
        b == all_hex(v@.subrange(0, upto as int)),
{
    let mut i: usize = 0;
    while i < upto
        invariant
            i <= upto <= v.len(),
            forall|k: int| 0 <= k < i ==> is_hex_digit(v@[k]),
        decreases upto - i,
    {
        if !char_is_hex_digit(v[i]) {
            assert(v@.subrange(0, upto as int)[i as int] == v@[i as int]);
            return false;
        }
        i += 1;
    }
    true
}

/// Takes the key identifier out of one word, if it holds one.
pub fn extract_key(word: &str) -> (key: Option<String>)
    ensures
        opt_text(key) == key_of_word(word@),
        key is Some ==> is_key_id(key->0@),
{
    let v = chars_of(word);
    let n: usize = v.len();
    assert(v@.subrange(0, n as int) =~= v@);
    if n >= 16 && prefix_is_hex(&v, n) {
        return Some(word.to_owned());
    }
    if n >= 17 && v[n - 1] == ')' && prefix_is_hex(&v, n - 1) {
        return Some(word.substring_char(0, n - 1).to_owned());
    }
    None
}

/// Takes the key identifier out of a line: the first word that holds one
/// wins, and the words after it are not looked at.
pub fn extract_key_from_line(line: &str) -> (key: Option<String>)
    ensures
        opt_text(key) == key_in_line(line@),
        key is Some ==> is_key_id(key->0@),
{
    let ws = words_of(line);
    let mut i: usize = 0;
    while i < ws.len()
        invariant
            i <= ws.len(),
            texts(ws@) == words(line@),
            key_in_words(words(line@), i as int) == key_in_line(line@),
        decreases ws.len() - i,
    {
        assert(texts(ws@)[i as int] == ws@[i as int]@);
        let found = extract_key(ws[i].as_str());
        if found.is_some() {
            return found;
        }
        i += 1;
    }
    None
}

/// Tells whether a line speaks of an unknown key.
pub fn line_mentions_unknown_key(line: &str) -> (b: bool)
    ensures
        b == mentions_unknown_key(line@),
{
    contains_text(line, "key") && contains_text(line, "unknown")
}

/// Finds the first line of `text` that speaks of an unknown key.
pub fn find_key_line(text: &str) -> (line: Option<String>)
    ensures
        opt_text(line) == key_line(text@),
{
    let ls = lines_of(text);
    let mut i: usize = 0;
    while i < ls.len()
        invariant
            i <= ls.len(),
            texts(ls@) == lines(text@),
            key_line_from(lines(text@), i as int) == key_line(text@),
        decreases ls.len() - i,
    {
        assert(texts(ls@)[i as int] == ls@[i as int]@);
        if line_mentions_unknown_key(ls[i].as_str()) {
            return Some(ls[i].clone());
        }
        i += 1;
    }
    None
}

/// Finds the identifier of the missing key in the error text of a build.
pub fn find_remediation_hint(text: &str) -> (key: Option<String>)
    ensures
        opt_text(key) == remediation_hint(text@),
        key is Some ==> is_key_id(key->0@),
{
    match find_key_line(text) {
        Some(line) => extract_key_from_line(line.as_str()),
        None => None,
    }
}

/// What the error text of a failed build says of the failure.
#[derive(Clone, Debug, PartialEq, Eq)]
pub enum Diagnosis {
    /// Nothing that this library recognises.
    Unexplained,
    /// A signature could not be checked. `key` identifies the missing key
    /// where the text names it.
    UnverifiedSignature { key: Option<String> },
}

/// The model of a [`Diagnosis`].
pub ghost enum DiagnosisView {
    Unexplained,
    UnverifiedSignature { key: Option<Seq<char>> },
}

impl View for Diagnosis {
    type V = DiagnosisView;

    open spec fn view(&self) -> DiagnosisView {
        match self {
            Diagnosis::Unexplained => DiagnosisView::Unexplained,
            Diagnosis::UnverifiedSignature { key } => DiagnosisView::UnverifiedSignature {
                key: opt_text(*key),
            },
        }
    }
}

/// What an error text says of the failure: an unverified signature exactly
/// where the text holds the marker phrase, letter for letter, and then the
/// key that the text yields.
pub open spec fn diagnosis(text: Seq<char>) -> DiagnosisView {
    if contains(text, signature_marker()) {
        DiagnosisView::UnverifiedSignature { key: remediation_hint(text) }
    } else {
        DiagnosisView::Unexplained
    }
}

/// The line that tells the user of a signature problem.
pub open spec fn signature_notice() -> Seq<char> {
    "PGP error! You might need to import the missing GPG key manually or skip PGP check"@
}

/// The two ways out that the user is offered: import the key `key`, or
/// install again without the signature check.
pub open spec fn suggestion(key: Seq<char>) -> Seq<char> {
    "Try running:\n    A. `gpg --recv-keys "@ + key
        + "`\n    B. `raur install --skip-pgp-check`"@
}

/// The lines of advice that follow a diagnosis: none where the failure is
/// unexplained; else the notice and the two ways out, with the key where it
/// is known and the placeholder where it is not.
pub open spec fn advice(d: DiagnosisView) -> Seq<MessageView> {
    match d {
        DiagnosisView::Unexplained => Seq::empty(),
        DiagnosisView::UnverifiedSignature { key } => seq![
            on_stderr(signature_notice()),
            on_stderr(
                suggestion(
                    match key {
                        Some(k) => k,
                        None => key_placeholder(),
                    },
                ),
            ),
        ],
    }
}

/// Words the two ways out for the key `key`.
pub fn suggestion_for(key: &str) -> (s: String)
    ensures
        s@ == suggestion(key@),
{
    join3(
        "Try running:\n    A. `gpg --recv-keys ",
        key,
        "`\n    B. `raur install --skip-pgp-check`",
    )
}

/// Reads the error text of a failed build.
pub fn diagnose(text: &str) -> (d: Diagnosis)
    ensures
        d@ == diagnosis(text@),
        d matches Diagnosis::UnverifiedSignature { key: Some(k) } ==> is_key_id(k@),
{
    if contains_text(text, "One or more PGP signatures could not be verified") {
        Diagnosis::UnverifiedSignature { key: find_remediation_hint(text) }
    } else {
        Diagnosis::Unexplained
    }
}

impl Diagnosis {
    /// Words the advice that follows this diagnosis.
    pub fn advice(&self) -> (lines: Vec<Message>)
        ensures
            message_views(lines@) == advice(self@),
    {
        let mut lines: Vec<Message> = Vec::new();
        assert(message_views(lines@) =~= Seq::empty());
        match self {
            Diagnosis::Unexplained => {},
            Diagnosis::UnverifiedSignature { key } => {
                push_message(
                    &mut lines,
                    Message::stderr(
                        "PGP error! You might need to import the missing GPG key manually or skip PGP check".to_owned(),
                    ),
                );
                let text = match key {
                    Some(k) => suggestion_for(k.as_str()),
                    None => suggestion_for("<KEY>"),
                };
                push_message(&mut lines, Message::stderr(text));
                assert(message_views(lines@) =~= advice(self@));
            },
        }
        lines
    }
}

} // verus!
