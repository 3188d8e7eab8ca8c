//! Characters, lines and white-space separated words of a piece of text.
//!
//! Text is modelled as a `Seq<char>`, the view of `str` and `String`. A line
//! ends at a line feed; a word is a maximal run of characters that are not
//! white space.

use vstd::prelude::*;
use vstd::std_specs::iter::IteratorSpec;
use vstd::string::next_postcondition;
use vstd::string::axiom_spec_iter;

verus! {

/// The views of a sequence of strings, one text per string.
pub open spec fn texts(v: Seq<String>) -> Seq<Seq<char>> {
    Seq::new(v.len(), |i: int| v[i]@)
}

/// The text of an optional string.
pub open spec fn opt_text(o: Option<String>) -> Option<Seq<char>> {
    match o {
        Some(s) => Some(s@),
        None => None,
    }
}

/// Whether `c` has the Unicode property `White_Space`.
pub open spec fn is_space(c: char) -> bool {
    let n = c as u32;
    ||| 0x09 <= n <= 0x0d
    ||| n == 0x20
    ||| n == 0x85
    ||| n == 0xa0
    ||| n == 0x1680
    ||| 0x2000 <= n <= 0x200a
    ||| n == 0x2028
    ||| n == 0x2029
    ||| n == 0x202f
    ||| n == 0x205f
    ||| n == 0x3000
}

/// Whether `c` is one of the sixteen digits of base sixteen, in either case.
pub open spec fn is_hex_digit(c: char) -> bool {
    ||| '0' <= c <= '9'
    ||| 'a' <= c <= 'f'
    ||| 'A' <= c <= 'F'
}

/// Whether every character of `s` is a hexadecimal digit.
pub open spec fn all_hex(s: Seq<char>) -> bool {
    forall|i: int| 0 <= i < s.len() ==> is_hex_digit(#[trigger] s[i])
}

/// Whether `needle` occurs in `hay` as a contiguous run of characters.
pub open spec fn contains(hay: Seq<char>, needle: Seq<char>) -> bool {
    exists|i: int| occurs_at(hay, needle, i)
}

/// Whether `needle` stands in `hay` at index `i`.
pub open spec fn occurs_at(hay: Seq<char>, needle: Seq<char>, i: int) -> bool {
    &&& 0 <= i
    &&& i + needle.len() <= hay.len()
    &&& hay.subrange(i, i + needle.len()) == needle
}

/// The index of the first line feed of `s` at or after `from`, or the length
/// of `s` where there is none.
pub open spec fn line_end(s: Seq<char>, from: int) -> int
    decreases s.len() - from,
{
    if from < 0 || from >= s.len() {
        s.len() as int
    } else if s[from] == '\n' {
        from
    } else {
        line_end(s, from + 1)
    }
}

/// The lines of `s` that begin at or after `from`, where `from` is the start
/// of a line.
pub open spec fn lines_from(s: Seq<char>, from: int) -> Seq<Seq<char>>
    decreases s.len() - from,
    via lines_from_decreases
{
    if from < 0 || from >= s.len() {
        Seq::empty()
    } else {
        let end = line_end(s, from);
        if end >= s.len() {
            seq![s.subrange(from, end)]
        } else {
            seq![s.subrange(from, end)] + lines_from(s, end + 1)
        }
    }
}

#[via_fn]
proof fn lines_from_decreases(s: Seq<char>, from: int) {
    if 0 <= from < s.len() {
        lemma_line_end_bounds(s, from);
    }
}

/// The lines of `s`: the runs between line feeds, without the line feeds. A
/// line feed at the very end opens no further line, so the empty text has no
/// line at all. A carriage return stays with its line.
pub open spec fn lines(s: Seq<char>) -> Seq<Seq<char>> {
    lines_from(s, 0)
}

/// The first line of `s`; the empty text where `s` is empty.
pub open spec fn first_line(s: Seq<char>) -> Seq<char> {
    s.subrange(0, line_end(s, 0))
}

/// The index at which the run of characters other than white space that
/// holds index `from` ends; `from` itself where a space stands there.
pub open spec fn word_end(s: Seq<char>, from: int) -> int
    decreases s.len() - from,
{
    if from < 0 || from >= s.len() || is_space(s[from]) {
        from
    } else {
        word_end(s, from + 1)
    }
}

/// The words of `s` that begin at or after `from`, where `from` is not in the
/// middle of a word.
pub open spec fn words_from(s: Seq<char>, from: int) -> Seq<Seq<char>>
    decreases s.len() - from,
    via words_from_decreases
{
    if from < 0 || from >= s.len() {
        Seq::empty()
    } else if is_space(s[from]) {
        words_from(s, from + 1)
    } else {
        let end = word_end(s, from);
        seq![s.subrange(from, end)] + words_from(s, end)
    }
}

#[via_fn]
proof fn words_from_decreases(s: Seq<char>, from: int) {
    if 0 <= from < s.len() && !is_space(s[from]) {
        lemma_word_end_bounds(s, from);
    }
}

/// The words of `s`: its maximal runs of characters that are not white
/// space, from left to right.
pub open spec fn words(s: Seq<char>) -> Seq<Seq<char>> {
    words_from(s, 0)
}

/// A line ends at or after its start, within the text, at a line feed or at
/// the end, and holds no line feed.
pub proof fn lemma_line_end_bounds(s: Seq<char>, from: int)
    requires
        0 <= from <= s.len(),
    ensures
        from <= line_end(s, from) <= s.len(),
        line_end(s, from) < s.len() ==> s[line_end(s, from)] == '\n',
        forall|k: int| from <= k < line_end(s, from) ==> s[k] != '\n',
    decreases s.len() - from,
{
    if from < s.len() && s[from] != '\n' {
        lemma_line_end_bounds(s, from + 1);
    }
}

/// A word ends within the text, after its start where no space stands there,
/// at a space or at the end, and holds no space.
pub proof fn lemma_word_end_bounds(s: Seq<char>, from: int)
    requires
        0 <= from <= s.len(),
    ensures
        from <= word_end(s, from) <= s.len(),
        from < s.len() && !is_space(s[from]) ==> from < word_end(s, from),
        word_end(s, from) < s.len() ==> is_space(s[word_end(s, from)]),
        forall|k: int| from <= k < word_end(s, from) ==> !is_space(s[k]),
    decreases s.len() - from,
{
    if from < s.len() && !is_space(s[from]) {
        lemma_word_end_bounds(s, from + 1);
    }
}

/// Whether `line` holds no line feed.
pub open spec fn is_line(line: Seq<char>) -> bool {
    forall|i: int| 0 <= i < line.len() ==> #[trigger] line[i] != '\n'
}

/// Whether `word` has at least one character and none that is white space.
pub open spec fn is_word(word: Seq<char>) -> bool {
    &&& word.len() > 0
    &&& forall|i: int| 0 <= i < word.len() ==> !is_space(#[trigger] word[i])
}

/// No line holds a line feed.
pub proof fn lemma_lines_hold_no_line_feed(s: Seq<char>, from: int)
    requires
        0 <= from <= s.len(),
    ensures
        forall|k: int|
            0 <= k < lines_from(s, from).len() ==> is_line(#[trigger] lines_from(s, from)[k]),
    decreases s.len() - from,
{
    if from < s.len() {
        lemma_line_end_bounds(s, from);
        let end = line_end(s, from);
        let first = s.subrange(from, end);
        assert(is_line(first));
        if end < s.len() {
            lemma_lines_hold_no_line_feed(s, end + 1);
            let rest = lines_from(s, end + 1);
            assert forall|k: int| 0 <= k < lines_from(s, from).len() implies is_line(
                #[trigger] lines_from(s, from)[k],
            ) by {
                if k > 0 {
                    assert(lines_from(s, from)[k] == rest[k - 1]);
                }
            }
        }
    }
}

/// Every word has at least one character, and none of them is white space.
pub proof fn lemma_words_hold_no_space(s: Seq<char>, from: int)
    requires
        0 <= from <= s.len(),
    ensures
        forall|k: int|
            0 <= k < words_from(s, from).len() ==> is_word(#[trigger] words_from(s, from)[k]),
    decreases s.len() - from,
{
    if from >= s.len() {
        assert(words_from(s, from).len() == 0);
    } else if is_space(s[from]) {
        lemma_words_hold_no_space(s, from + 1);
        assert(words_from(s, from) == words_from(s, from + 1));
    } else {
        lemma_word_end_bounds(s, from);
        let end = word_end(s, from);
        let first = s.subrange(from, end);
        let rest = words_from(s, end);
        lemma_words_hold_no_space(s, end);
        assert(is_word(first));
        assert(words_from(s, from) == seq![first] + rest);
        assert forall|k: int| 0 <= k < words_from(s, from).len() implies is_word(
            #[trigger] words_from(s, from)[k],
        ) by {
            if k > 0 {
                assert(words_from(s, from)[k] == rest[k - 1]);
            }
        }
    }
}

/// Up to a space, or to the end, a prefix of a text has the words of the
/// text: with `end` at a space of `s` or at its end, and `from` not in the
/// middle of a word, the words of `s` from `from` on are those of the first
/// `end` characters, followed by those that `s` has from `end` on.
pub proof fn lemma_words_of_prefix(s: Seq<char>, from: int, end: int)
    requires
        0 <= from <= end <= s.len(),
        end < s.len() ==> is_space(s[end]),
    ensures
        words_from(s, from) == words_from(s.subrange(0, end), from) + words_from(s, end),
    decreases end - from,
{
    let p = s.subrange(0, end);
    if from == end {
        assert(words_from(p, from) =~= Seq::empty());
        assert(words_from(s, from) =~= words_from(p, from) + words_from(s, end));
    } else if is_space(s[from]) {
        lemma_words_of_prefix(s, from + 1, end);
    } else {
        lemma_word_end_in_prefix(s, from, end);
        let e = word_end(s, from);
        lemma_word_end_bounds(s, from);
        lemma_words_of_prefix(s, e, end);
        assert(p.subrange(from, e) =~= s.subrange(from, e));
        assert(words_from(s, from) =~= words_from(p, from) + words_from(s, end));
    }
}

/// A word that starts before a space, or before the end, ends there at the
/// latest, and ends at the same index in the prefix that stops there.
pub proof fn lemma_word_end_in_prefix(s: Seq<char>, from: int, end: int)
    requires
        0 <= from <= end <= s.len(),
        end < s.len() ==> is_space(s[end]),
    ensures
        word_end(s, from) <= end,
        word_end(s.subrange(0, end), from) == word_end(s, from),
    decreases end - from,
{
    if from < end && !is_space(s[from]) {
        lemma_word_end_in_prefix(s, from + 1, end);
    }
}

/// The characters of `s`, in order, as a vector.
pub fn chars_of(s: &str) -> (v: Vec<char>)
    ensures
        v@ == s@,
{
    broadcast use next_postcondition, axiom_spec_iter;

    let mut it = s.chars();
    let mut v: Vec<char> = Vec::new();
    loop
        invariant
            it.obeys_prophetic_iter_laws(),
            it.decrease() is Some,
            v@ + it.remaining() == s@,
        decreases it.decrease()->0,
    {
        let ghost before = it.remaining();
        match it.next() {
            Some(c) => {
                v.push(c);
                assert(v@ + it.remaining() =~= s@) by {
                    assert(before =~= seq![c] + before.drop_first());
                }
            },
            None => {
                assert(v@ =~= s@);
                return v;
            },
        }
    }
}

/// Tells whether `c` is white space.
pub fn char_is_space(c: char) -> (b: bool)
    ensures
        b == is_space(c),
{
    let n: u32 = c as u32;
    (0x09 <= n && n <= 0x0d) || n == 0x20 || n == 0x85 || n == 0xa0 || n == 0x1680 || (0x2000 <= n
        && n <= 0x200a) || n == 0x2028 || n == 0x2029 || n == 0x202f || n == 0x205f || n == 0x3000
}

/// Tells whether `c` is a hexadecimal digit.
pub fn char_is_hex_digit(c: char) -> (b: bool)
    ensures
        b == is_hex_digit(c),
{
    ('0' <= c && c <= '9') || ('a' <= c && c <= 'f') || ('A' <= c && c <= 'F')
}

/// Finds where the line that starts at `from` ends.
fn find_line_end(v: &Vec<char>, from: usize) -> (end: usize)
    requires
        from <= v.len(),
    ensures
        end == line_end(v@, from as int),
        from <= end <= v.len(),
{
    let mut i: usize = from;
    while i < v.len() && v[i] != '\n'
        invariant
            from <= i <= v.len(),
            line_end(v@, from as int) == line_end(v@, i as int),
        decreases v.len() - i,
    {
        i += 1;
    }
    i
}

/// Finds where the word that holds index `from` ends.
fn find_word_end(v: &Vec<char>, from: usize) -> (end: usize)
    requires
        from <= v.len(),
    ensures
        end == word_end(v@, from as int),
        from <= end <= v.len(),
{
    let mut i: usize = from;
    while i < v.len() && !char_is_space(v[i])
        invariant
            from <= i <= v.len(),
            word_end(v@, from as int) == word_end(v@, i as int),
        decreases v.len() - i,
    {
        i += 1;
    }
    i
}

/// Tells whether `needle` stands in `hay` at index `at`.
fn matches_at(hay: &Vec<char>, needle: &Vec<char>, at: usize) -> (b: bool)
    requires
        at + needle.len() <= hay.len(),
    ensures
        b == occurs_at(hay@, needle@, at as int),
{
    let mut j: usize = 0;
    while j < needle.len()
        invariant
            j <= needle.len(),
            at + needle.len() <= hay.len(),
            forall|k: int| 0 <= k < j ==> hay@[at + k] == needle@[k],
        decreases needle.len() - j,
    {
        if hay[at + j] != needle[j] {
            proof {
                let part = hay@.subrange(at as int, at + needle.len());
                assert(part[j as int] != needle@[j as int]);
            }
            return false;
        }
        j += 1;
    }
    assert(hay@.subrange(at as int, at + needle.len()) =~= needle@);
    true
}

/// Tells whether `needle` occurs somewhere in `hay`. The empty text occurs
/// in every text.
pub fn contains_text(hay: &str, needle: &str) -> (b: bool)
    ensures
        b == contains(hay@, needle@),
{
    let h = chars_of(hay);
    let n = chars_of(needle);
    if n.len() > h.len() {
        return false;
    }
    let last: usize = h.len() - n.len();
    let mut i: usize = 0;
    loop
        invariant
            h@ == hay@,
            n@ == needle@,
            n.len() <= h.len(),
            last == h.len() - n.len(),
            i <= last,
            forall|k: int| 0 <= k < i ==> !occurs_at(h@, n@, k),
        decreases last - i,
    {
        if matches_at(&h, &n, i) {
            return true;
        }
        if i >= last {
            return false;
        }
        i += 1;
    }
}

/// The first line of `s`, without its line feed.
pub fn first_line_of(s: &str) -> (line: &str)
    ensures
        line@ == first_line(s@),
{
    let v = chars_of(s);
    let end = find_line_end(&v, 0);
    s.substring_char(0, end)
}

/// Splits `s` into its lines.
pub fn lines_of(s: &str) -> (out: Vec<String>)
    ensures
        texts(out@) == lines(s@),
{
    let v = chars_of(s);
    let mut out: Vec<String> = Vec::new();
    let mut i: usize = 0;
    assert(texts(out@) + lines_from(s@, 0) =~= lines(s@));
    while i < v.len()
        invariant
            v@ == s@,
            i <= v.len(),
            texts(out@) + lines_from(s@, i as int) == lines(s@),
        decreases v.len() - i,
    {
        let end = find_line_end(&v, i);
        let line = s.substring_char(i, end).to_owned();
        let ghost before = out@;
        out.push(line);
        assert(texts(out@) =~= texts(before) + seq![s@.subrange(i as int, end as int)]);
        if end >= v.len() {
            i = end;
        } else {
            i = end + 1;
        }
        assert(texts(out@) + lines_from(s@, i as int) =~= lines(s@));
    }
    assert(texts(out@) =~= lines(s@));
    out
}

/// Splits `s` into its words.
pub fn words_of(s: &str) -> (out: Vec<String>)
    ensures
        texts(out@) == words(s@),
{
    let v = chars_of(s);
    let mut out: Vec<String> = Vec::new();
    let mut i: usize = 0;
    assert(texts(out@) + words_from(s@, 0) =~= words(s@));
    while i < v.len()
        invariant
            v@ == s@,
            i <= v.len(),
            texts(out@) + words_from(s@, i as int) == words(s@),
        decreases v.len() - i,
    {
        if char_is_space(v[i]) {
            i += 1;
        } else {
            let end = find_word_end(&v, i);
            proof {
                lemma_word_end_bounds(v@, i as int);
            }
            let word = s.substring_char(i, end).to_owned();
            let ghost before = out@;
            out.push(word);
            assert(texts(out@) =~= texts(before) + seq![s@.subrange(i as int, end as int)]);
            i = end;
            assert(texts(out@) + words_from(s@, i as int) =~= words(s@));
        }
    }
    assert(texts(out@) =~= words(s@));
    out
}

} // verus!
