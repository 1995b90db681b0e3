//! Text scanning on Unicode strings.
//!
//! Every function states its result over the sequence of characters that a
//! string holds.

use vstd::prelude::*;
use vstd::string::{StrSliceExecFns, StringExecFns};

verus! {

/// Characters held by an optional string.
pub open spec fn opt_view(s: Option<String>) -> Option<Seq<char>> {
    match s {
        Some(s) => Some(s@),
        None => None,
    }
}

/// Characters held by an optional string, with nothing for a missing one.
pub open spec fn or_empty(s: Option<String>) -> Seq<char> {
    match s {
        Some(s) => s@,
        None => Seq::empty(),
    }
}

/// Characters of every string in a list.
pub open spec fn views(strings: Seq<String>) -> Seq<Seq<char>> {
    strings.map_values(|s: String| s@)
}

/// Copy an optional string.
pub fn clone_opt(s: &Option<String>) -> (r: Option<String>)
    ensures
        r == *s,
{
    match s {
        Some(s) => Some(s.clone()),
        None => None,
    }
}

/// Copy an optional string, replacing a missing one by the empty string.
pub fn clone_or_empty(s: &Option<String>) -> (r: String)
    ensures
        r@ == or_empty(*s),
        s matches Some(t) ==> r == t,
{
    match s {
        Some(s) => s.clone(),
        None => String::new(),
    }
}

/// Compare a string with a fixed text.
pub fn text_is(s: &String, text: &str) -> (r: bool)
    ensures
        r == (s@ == text@),
{
    *s == text.to_string()
}

/// Compare an optional string with a fixed text.
pub fn opt_text_is(s: &Option<String>, text: &str) -> (r: bool)
    ensures
        r == (opt_view(*s) == Some(text@)),
{
    match s {
        Some(s) => text_is(s, text),
        None => false,
    }
}

/// Check if a list of strings holds a string.
pub fn contains_string(strings: &Vec<String>, s: &String) -> (r: bool)
    ensures
        r == views(strings@).contains(s@),
{
    let mut i: usize = 0;
    while i < strings.len()
        invariant
            i <= strings.len(),
            forall|j: int| 0 <= j < i ==> strings@[j]@ != s@,
        decreases strings.len() - i,
    {
        if strings[i] == *s {
            assert(views(strings@)[i as int] == s@);
            return true;
        }
        i += 1;
    }
    assert(!views(strings@).contains(s@)) by {
        assert forall|j: int| 0 <= j < views(strings@).len() implies views(strings@)[j] != s@ by {}
    }
    false
}

/// Characters with the Unicode property `White_Space`.
pub open spec fn white_space(c: char) -> bool {
    ||| '\u{9}' <= c <= '\u{d}'
    ||| c == '\u{20}'
    ||| c == '\u{85}'
    ||| c == '\u{a0}'
    ||| c == '\u{1680}'
    ||| '\u{2000}' <= c <= '\u{200a}'
    ||| c == '\u{2028}'
    ||| c == '\u{2029}'
    ||| c == '\u{202f}'
    ||| c == '\u{205f}'
    ||| c == '\u{3000}'
}

/// Check if a character is white space.
pub fn is_white_space(c: char) -> (r: bool)
    ensures
        r == white_space(c),
{
    (c >= '\u{9}' && c <= '\u{d}') || c == '\u{20}' || c == '\u{85}' || c == '\u{a0}' || c
        == '\u{1680}' || (c >= '\u{2000}' && c <= '\u{200a}') || c == '\u{2028}' || c == '\u{2029}'
        || c == '\u{202f}' || c == '\u{205f}' || c == '\u{3000}'
}

/// Characters of a string as a list.
pub fn chars_of(s: &str) -> (r: Vec<char>)
    ensures
        r@ == s@,
{
    let mut r: Vec<char> = Vec::new();
    for c in iter: s.chars()
        invariant
            iter.seq() == s@,
            r@ == s@.take(iter.index()),
    {
        r.push(c);
    }
    assert(s@.take(s@.len() as int) == s@);
    r
}

/// Number of characters before the first white space.
pub open spec fn word_len(s: Seq<char>) -> nat
    decreases s.len(),
{
    if s.len() == 0 || white_space(s[0]) {
        0
    } else {
        1 + word_len(s.skip(1))
    }
}

/// The maximal runs of characters without white space, in order.
pub open spec fn words(s: Seq<char>) -> Seq<Seq<char>>
    decreases s.len(),
    via words_decreases
{
    if s.len() == 0 {
        Seq::empty()
    } else if white_space(s[0]) {
        words(s.skip(1))
    } else {
        seq![s.take(word_len(s) as int)] + words(s.skip(word_len(s) as int))
    }
}

#[via_fn]
proof fn words_decreases(s: Seq<char>) {
    if s.len() > 0 && !white_space(s[0]) {
        lemma_word_len(s);
    }
}

/// A word is made of the first characters that are no white space.
pub proof fn lemma_word_len(s: Seq<char>)
    ensures
        word_len(s) <= s.len(),
        forall|i: int| 0 <= i < word_len(s) ==> !white_space(s[i]),
        word_len(s) < s.len() ==> white_space(s[word_len(s) as int]),
        s.len() > 0 && !white_space(s[0]) ==> word_len(s) > 0,
    decreases s.len(),
{
    if s.len() > 0 && !white_space(s[0]) {
        lemma_word_len(s.skip(1));
        assert forall|i: int| 0 <= i < word_len(s) implies !white_space(s[i]) by {
            if i > 0 {
                assert(s.skip(1)[i - 1] == s[i]);
            }
        }
    }
}

/// Split a string at white space.
pub fn split_whitespace(s: &str) -> (r: Vec<String>)
    ensures
        views(r@) == words(s@),
{
    let cs = chars_of(s);
    let mut r: Vec<String> = Vec::new();
    let mut i: usize = 0;
    assert(s@.skip(0) == s@);
    while i < cs.len()
        invariant
            i <= cs.len(),
            cs@ == s@,
            views(r@) + words(s@.skip(i as int)) == words(s@),
        decreases cs.len() - i,
    {
        if is_white_space(cs[i]) {
            assert(s@.skip(i as int)[0] == s@[i as int]);
            assert(s@.skip(i as int).skip(1) == s@.skip(i + 1));
            i += 1;
        } else {
            let mut j: usize = i + 1;
            let ghost rest = s@.skip(i as int);
            assert(rest[0] == s@[i as int]);
            assert(rest.skip(1) == s@.skip(j as int));
            while j < cs.len() && !is_white_space(cs[j])
                invariant
                    i < j <= cs.len(),
                    cs@ == s@,
                    word_len(s@.skip(i as int)) == (j - i) + word_len(s@.skip(j as int)),
                decreases cs.len() - j,
            {
                assert(s@.skip(j as int)[0] == s@[j as int]);
                assert(s@.skip(j as int).skip(1) == s@.skip(j + 1));
                j += 1;
            }
            assert(word_len(s@.skip(j as int)) == 0) by {
                if j < cs.len() {
                    assert(s@.skip(j as int)[0] == s@[j as int]);
                }
            }
            let word = s.substring_char(i, j).to_string();
            let ghost before = r@;
            r.push(word);
            proof {
                assert(rest.take(j - i) == word@);
                assert(rest.skip(j - i) == s@.skip(j as int));
                assert(views(r@) == views(before).push(word@));
                assert(words(rest) == seq![word@] + words(s@.skip(j as int)));
                assert(views(r@) + words(s@.skip(j as int)) == views(before) + words(rest));
            }
            i = j;
        }
    }
    assert(s@.skip(i as int).len() == 0);
    assert(views(r@) + words(s@.skip(i as int)) == views(r@));
    r
}

/// Check if a list of characters holds another one at an offset.
fn holds_at(cs: &Vec<char>, at: usize, part: &Vec<char>) -> (r: bool)
    requires
        at + part.len() <= cs.len(),
    ensures
        r == (cs@.subrange(at as int, at + part@.len()) == part@),
{
    let mut i: usize = 0;
    while i < part.len()
        invariant
            i <= part.len(),
            at + part.len() <= cs.len(),
            forall|j: int| 0 <= j < i ==> cs@[at + j] == part@[j],
        decreases part.len() - i,
    {
        if cs[at + i] != part[i] {
            assert(cs@.subrange(at as int, at + part@.len())[i as int] != part@[i as int]);
            return false;
        }
        i += 1;
    }
    assert(cs@.subrange(at as int, at + part@.len()) =~= part@);
    true
}

/// Whether a text begins with another one.
pub open spec fn begins_with(s: Seq<char>, prefix: Seq<char>) -> bool {
    prefix.len() <= s.len() && s.take(prefix.len() as int) == prefix
}

/// Check if a string begins with a prefix.
pub fn starts_with(s: &str, prefix: &str) -> (r: bool)
    ensures
        r == begins_with(s@, prefix@),
{
    let cs = chars_of(s);
    let ps = chars_of(prefix);
    if ps.len() > cs.len() {
        return false;
    }
    assert(cs@.subrange(0int, 0int + ps@.len()) =~= s@.take(prefix@.len() as int));
    holds_at(&cs, 0, &ps)
}

/// Text left after removing a prefix.
pub open spec fn without_prefix(s: Seq<char>, prefix: Seq<char>) -> Option<Seq<char>> {
    if begins_with(s, prefix) {
        Some(s.skip(prefix.len() as int))
    } else {
        None
    }
}

/// Remove a prefix from a string.
pub fn strip_prefix(s: &str, prefix: &str) -> (r: Option<String>)
    ensures
        opt_view(r) == without_prefix(s@, prefix@),
{
    if starts_with(s, prefix) {
        let rest = s.substring_char(prefix.unicode_len(), s.unicode_len()).to_string();
        assert(rest@ =~= s@.skip(prefix@.len() as int));
        Some(rest)
    } else {
        None
    }
}

/// Whether a text holds another one at an offset.
pub open spec fn found_at(s: Seq<char>, part: Seq<char>, at: int) -> bool {
    0 <= at && at + part.len() <= s.len() && s.subrange(at, at + part.len()) == part
}

/// Whether a text occurs somewhere in another one.
pub open spec fn occurs_in(part: Seq<char>, s: Seq<char>) -> bool {
    exists|at: int| found_at(s, part, at)
}

/// Check if a string occurs in another one.
pub fn contains_text(s: &str, part: &str) -> (r: bool)
    ensures
        r == occurs_in(part@, s@),
{
    let cs = chars_of(s);
    let ps = chars_of(part);
    if ps.len() > cs.len() {
        return false;
    }
    let last: usize = cs.len() - ps.len();
    let mut at: usize = 0;
    loop
        invariant
            cs@ == s@,
            ps@ == part@,
            ps.len() <= cs.len(),
            last == cs.len() - ps.len(),
            at <= last,
            forall|k: int| 0 <= k < at ==> !found_at(s@, part@, k),
        decreases last - at,
    {
        if holds_at(&cs, at, &ps) {
            assert(found_at(s@, part@, at as int));
            return true;
        }
        if at == last {
            assert forall|k: int| !found_at(s@, part@, k) by {
                if k == at {
                } else if k > at {
                    assert(k + part@.len() > s@.len());
                }
            }
            return false;
        }
        at += 1;
    }
}

/// Check if a character occurs in a string.
pub fn contains_char(s: &str, c: char) -> (r: bool)
    ensures
        r == s@.contains(c),
{
    let cs = chars_of(s);
    let mut i: usize = 0;
    while i < cs.len()
        invariant
            i <= cs.len(),
            cs@ == s@,
            forall|j: int| 0 <= j < i ==> s@[j] != c,
        decreases cs.len() - i,
    {
        if cs[i] == c {
            assert(s@[i as int] == c);
            return true;
        }
        i += 1;
    }
    false
}

/// Text left after removing leading white space.
pub open spec fn without_indent(s: Seq<char>) -> Seq<char>
    decreases s.len(),
{
    if s.len() > 0 && white_space(s[0]) {
        without_indent(s.skip(1))
    } else {
        s
    }
}

/// Remove leading white space from a string.
pub fn trim_start(s: &str) -> (r: String)
    ensures
        r@ == without_indent(s@),
{
    let cs = chars_of(s);
    let mut i: usize = 0;
    assert(s@.skip(0) == s@);
    while i < cs.len() && is_white_space(cs[i])
        invariant
            i <= cs.len(),
            cs@ == s@,
            without_indent(s@.skip(i as int)) == without_indent(s@),
        decreases cs.len() - i,
    {
        assert(s@.skip(i as int)[0] == s@[i as int]);
        assert(s@.skip(i as int).skip(1) == s@.skip(i + 1));
        i += 1;
    }
    assert(without_indent(s@.skip(i as int)) == s@.skip(i as int)) by {
        if i < cs.len() {
            assert(s@.skip(i as int)[0] == s@[i as int]);
        }
    }
    let r = s.substring_char(i, cs.len()).to_string();
    assert(r@ =~= s@.skip(i as int));
    r
}

/// Number of characters before the first line feed.
pub open spec fn line_len(s: Seq<char>) -> nat
    decreases s.len(),
{
    if s.len() == 0 || s[0] == '\n' {
        0
    } else {
        1 + line_len(s.skip(1))
    }
}

/// A line without the carriage return that belongs to its line ending.
pub open spec fn without_cr(line: Seq<char>) -> Seq<char> {
    if line.len() > 0 && line.last() == '\r' {
        line.drop_last()
    } else {
        line
    }
}

/// The lines of a text, without their line endings.
pub open spec fn lines_of(s: Seq<char>) -> Seq<Seq<char>>
    decreases s.len(),
    via lines_of_decreases
{
    if s.len() == 0 {
        Seq::empty()
    } else if line_len(s) >= s.len() {
        seq![s]
    } else {
        seq![without_cr(s.take(line_len(s) as int))] + lines_of(s.skip(line_len(s) as int + 1))
    }
}

#[via_fn]
proof fn lines_of_decreases(s: Seq<char>) {
}

/// Split a string into lines.
pub fn lines(s: &str) -> (r: Vec<String>)
    ensures
        views(r@) == lines_of(s@),
{
    let cs = chars_of(s);
    let mut r: Vec<String> = Vec::new();
    let mut i: usize = 0;
    assert(s@.skip(0) == s@);
    while i < cs.len()
        invariant
            i <= cs.len(),
            cs@ == s@,
            views(r@) + lines_of(s@.skip(i as int)) == lines_of(s@),
        decreases cs.len() - i,
    {
        let ghost rest = s@.skip(i as int);
        let mut j: usize = i;
        while j < cs.len() && cs[j] != '\n'
            invariant
                i <= j <= cs.len(),
                cs@ == s@,
                line_len(s@.skip(i as int)) == (j - i) + line_len(s@.skip(j as int)),
            decreases cs.len() - j,
        {
            assert(s@.skip(j as int)[0] == s@[j as int]);
            assert(s@.skip(j as int).skip(1) == s@.skip(j + 1));
            j += 1;
        }
        assert(line_len(s@.skip(j as int)) == 0) by {
            if j < cs.len() {
                assert(s@.skip(j as int)[0] == s@[j as int]);
            }
        }
        let ghost before = r@;
        if j >= cs.len() {
            let line = s.substring_char(i, j).to_string();
            r.push(line);
            proof {
                assert(line@ =~= rest);
                assert(views(r@) == views(before).push(line@));
                assert(lines_of(rest) == seq![rest]);
                assert(views(r@) == views(before) + lines_of(rest));
                assert(s@.skip(j as int).len() == 0);
                assert(views(r@) + lines_of(s@.skip(j as int)) == views(r@));
            }
            i = j;
        } else {
            let end: usize = if j > i && cs[j - 1] == '\r' {
                j - 1
            } else {
                j
            };
            let line = s.substring_char(i, end).to_string();
            r.push(line);
            proof {
                let raw = rest.take(j - i);
                assert(raw =~= s@.subrange(i as int, j as int));
                assert(line@ =~= without_cr(raw));
                assert(rest.skip(j - i + 1) =~= s@.skip(j + 1));
                assert(views(r@) == views(before).push(line@));
                assert(lines_of(rest) == seq![line@] + lines_of(s@.skip(j + 1)));
                assert(views(r@) + lines_of(s@.skip(j + 1)) == views(before) + lines_of(rest));
            }
            i = j + 1;
        }
    }
    assert(s@.skip(i as int).len() == 0);
    assert(views(r@) + lines_of(s@.skip(i as int)) == views(r@));
    r
}

/// Join two strings.
pub fn joined(a: &str, b: &str) -> (r: String)
    ensures
        r@ == a@ + b@,
{
    let mut r = a.to_string();
    r.append(b);
    r
}

} // verus!
