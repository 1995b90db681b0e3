//! What splitting and searching text amounts to.

use vstd::prelude::*;

use crate::text::{
    begins_with, found_at, lemma_word_len, line_len, lines_of, occurs_in, or_empty, opt_view,
    white_space, without_cr, without_indent, without_prefix, word_len, words,
};

verus! {

/// White space is what Unicode calls so.
pub proof fn law_white_space(c: char)
    ensures
        white_space(c) <==> {
            let n = c as int;
            ||| n == 9
            ||| n == 10
            ||| n == 11
            ||| n == 12
            ||| n == 13
            ||| n == 32
            ||| n == 133
            ||| n == 160
            ||| n == 5760
            ||| 8192 <= n <= 8202
            ||| n == 8232
            ||| n == 8233
            ||| n == 8239
            ||| n == 8287
            ||| n == 12288
        },
{
}

/// A character of white space separates words, and belongs to none.
pub proof fn law_words_are_separated_by_white_space(a: Seq<char>, c: char, b: Seq<char>)
    requires
        white_space(c),
    ensures
        words(a.push(c) + b) == words(a) + words(b),
    decreases a.len(),
{
    let s = a.push(c) + b;
    if a.len() == 0 {
        assert(s[0] == c);
        assert(s.skip(1) =~= b);
        assert(words(a) + words(b) =~= words(b));
    } else if white_space(a[0]) {
        assert(s[0] == a[0]);
        assert(s.skip(1) =~= a.skip(1).push(c) + b);
        law_words_are_separated_by_white_space(a.skip(1), c, b);
    } else {
        let n = word_len(a) as int;
        lemma_word_len(a);
        lemma_word_len_before(a, c, b);
        assert(s[0] == a[0]);
        assert(s.take(n) =~= a.take(n));
        assert(s.skip(n) =~= a.skip(n).push(c) + b);
        law_words_are_separated_by_white_space(a.skip(n), c, b);
        assert(words(s) =~= words(a) + words(b));
    }
}

proof fn lemma_word_len_before(a: Seq<char>, c: char, b: Seq<char>)
    requires
        white_space(c),
    ensures
        word_len(a.push(c) + b) == word_len(a),
    decreases a.len(),
{
    let s = a.push(c) + b;
    if a.len() == 0 {
        assert(s[0] == c);
    } else if !white_space(a[0]) {
        assert(s[0] == a[0]);
        assert(s.skip(1) =~= a.skip(1).push(c) + b);
        lemma_word_len_before(a.skip(1), c, b);
    }
}

/// A text without white space is a single word, and an empty one has no words.
pub proof fn law_text_without_white_space_is_one_word(s: Seq<char>)
    requires
        forall|i: int| 0 <= i < s.len() ==> !white_space(#[trigger] s[i]),
    ensures
        s.len() > 0 ==> words(s) == seq![s],
        s.len() == 0 ==> words(s).len() == 0,
{
    if s.len() > 0 {
        crate::command::lemma_word_splits_into_itself(s);
    }
}

/// A text begins with a prefix exactly if it is the prefix followed by something, which is what
/// is left without it.
pub proof fn law_prefixes_are_removed(prefix: Seq<char>, rest: Seq<char>, s: Seq<char>)
    ensures
        begins_with(prefix + rest, prefix),
        without_prefix(prefix + rest, prefix) == Some(rest),
        begins_with(s, prefix) <==> without_prefix(s, prefix) is Some,
        without_prefix(s, prefix) matches Some(left) ==> s == prefix + left,
        s == prefix + rest ==> without_prefix(s, prefix) is Some,
{
    assert((prefix + rest).take(prefix.len() as int) =~= prefix);
    assert((prefix + rest).skip(prefix.len() as int) =~= rest);
    if begins_with(s, prefix) {
        assert(s =~= prefix + s.skip(prefix.len() as int));
    }
}

/// A text occurs in everything around it, and nowhere else.
pub proof fn law_text_is_found_anywhere(a: Seq<char>, part: Seq<char>, b: Seq<char>, s: Seq<char>)
    ensures
        occurs_in(part, a + part + b),
        occurs_in(part, s) ==> exists|before: Seq<char>, after: Seq<char>|
            s == #[trigger] (before + part + after),
        s.len() < part.len() ==> !occurs_in(part, s),
        occurs_in(Seq::empty(), s),
{
    let whole = a + part + b;
    assert(whole.subrange(a.len() as int, (a.len() + part.len()) as int) =~= part);
    assert(found_at(whole, part, a.len() as int));
    if occurs_in(part, s) {
        let at = choose|at: int| found_at(s, part, at);
        let before = s.take(at);
        let after = s.skip(at + part.len());
        assert(s =~= before + part + after);
    }
    assert(s.subrange(0, 0) =~= Seq::<char>::empty());
    assert(found_at(s, Seq::empty(), 0));
}

/// Leading white space is removed, all of it and nothing else.
pub proof fn law_indents_are_removed(s: Seq<char>)
    ensures
        ({
            let r = without_indent(s);
            let n = s.len() - r.len();
            &&& n >= 0
            &&& r == s.skip(n)
            &&& forall|i: int| 0 <= i < n ==> white_space(#[trigger] s[i])
            &&& r.len() > 0 ==> !white_space(r[0])
        }),
    decreases s.len(),
{
    if s.len() > 0 && white_space(s[0]) {
        law_indents_are_removed(s.skip(1));
        let r = without_indent(s);
        let n = s.len() - r.len();
        assert(s.skip(1).skip(n - 1) =~= s.skip(n));
        assert forall|i: int| 0 <= i < n implies white_space(#[trigger] s[i]) by {
            if i > 0 {
                assert(s.skip(1)[i - 1] == s[i]);
            }
        }
    } else {
        assert(s.skip(0) =~= s);
    }
}

/// Lines end at a line feed, with the carriage return before it.
///
/// A text without line feed is a line of its own, unless it is empty.
pub proof fn law_lines_end_at_line_feeds(line: Seq<char>, rest: Seq<char>)
    requires
        !line.contains('\n'),
    ensures
        line.len() > 0 ==> lines_of(line) == seq![line],
        line.len() == 0 ==> lines_of(line).len() == 0,
        line.len() == 0 || line.last() != '\r' ==> lines_of(line.push('\n') + rest) == seq![line]
            + lines_of(rest),
        lines_of(line.push('\r').push('\n') + rest) == seq![line] + lines_of(rest),
{
    lemma_line_len(line, Seq::empty());
    assert(line + Seq::<char>::empty() =~= line);
    assert(forall|i: int| 0 <= i < line.len() ==> line.contains(#[trigger] line[i]));
    lemma_line(line, rest);
    let full = line.push('\r');
    assert(forall|i: int| 0 <= i < full.len() ==> #[trigger] full[i] != '\n');
    lemma_line(full, rest);
    assert(full.drop_last() =~= line);
}

proof fn lemma_line(line: Seq<char>, rest: Seq<char>)
    requires
        forall|i: int| 0 <= i < line.len() ==> #[trigger] line[i] != '\n',
    ensures
        lines_of(line.push('\n') + rest) == seq![without_cr(line)] + lines_of(rest),
{
    let s = line.push('\n') + rest;
    let after = seq!['\n'] + rest;
    assert(s =~= line + after);
    lemma_line_len(line, after);
    assert(s.take(line.len() as int) =~= line);
    assert(s.skip(line.len() as int + 1) =~= rest);
}

/// The first line is as long as the characters before the first line feed.
proof fn lemma_line_len(line: Seq<char>, rest: Seq<char>)
    requires
        forall|i: int| 0 <= i < line.len() ==> #[trigger] line[i] != '\n',
        rest.len() > 0 ==> rest[0] == '\n',
    ensures
        line_len(line + rest) == line.len(),
    decreases line.len(),
{
    if line.len() > 0 {
        let s = line + rest;
        assert(s[0] == line[0]);
        assert(s.skip(1) =~= line.skip(1) + rest);
        assert(forall|i: int|
            0 <= i < line.skip(1).len() ==> #[trigger] line.skip(1)[i] == line[i + 1]);
        lemma_line_len(line.skip(1), rest);
    } else {
        assert(line + rest =~= rest);
    }
}

/// A missing string reads as the empty one where a string is needed.
pub proof fn law_missing_strings_are_empty(s: Option<String>)
    ensures
        s is None ==> or_empty(s).len() == 0 && opt_view(s) is None,
        s matches Some(t) ==> or_empty(s) == t@ && opt_view(s) == Some(t@),
{
}

} // verus!
