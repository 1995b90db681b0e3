//! Keys for shell commands.
//!
//! A launched command is remembered under a key which stays the same when only
//! options of the launcher change.

use vstd::prelude::*;

use crate::text::{contains_char, joined, split_whitespace, starts_with, text_is};
use crate::text::{begins_with, lemma_word_len, opt_view, views, white_space, word_len, words};

verus! {

/// Whether a word names an application rather than a launcher option.
pub open spec fn names_app(word: Seq<char>) -> bool {
    !begins_with(word, "-"@) && word.contains('.')
}

/// First word from an index on which names an application.
pub open spec fn app_word(t: Seq<Seq<char>>, from: int) -> Option<Seq<char>>
    decreases t.len() - from,
{
    if from >= t.len() {
        None
    } else if names_app(t[from]) {
        Some(t[from])
    } else {
        app_word(t, from + 1)
    }
}

/// Index of the first occurrence of a word from an index on.
pub open spec fn word_index(t: Seq<Seq<char>>, word: Seq<char>, from: int) -> Option<int>
    decreases t.len() - from,
{
    if from >= t.len() {
        None
    } else if t[from] == word {
        Some(from)
    } else {
        word_index(t, word, from + 1)
    }
}

/// Whether a command runs a Flatpak.
pub open spec fn runs_flatpak(t: Seq<Seq<char>>) -> bool {
    ||| t.len() >= 2 && t[0] == "flatpak"@ && t[1] == "run"@
    ||| t.len() >= 3 && t[0] == "/usr/bin/flatpak"@ && t[1] == "run"@
}

/// Key of a command, given its words.
pub open spec fn key_of_words(t: Seq<Seq<char>>) -> Option<Seq<char>> {
    if t.len() == 0 {
        None
    } else if runs_flatpak(t) {
        match app_word(t, 2) {
            Some(app) => Some(app),
            None => Some(t.last()),
        }
    } else if t[0] == "gtk-launch"@ && t.len() >= 2 {
        Some(t[1])
    } else if t[0] == "steam"@ {
        match word_index(t, "-applaunch"@, 0) {
            Some(i) if i + 1 < t.len() => Some("steam:"@ + t[i + 1]),
            _ => Some("steam"@),
        }
    } else {
        Some(t[0])
    }
}

/// Key of a command.
pub open spec fn command_key(command: Seq<char>) -> Option<Seq<char>> {
    key_of_words(words(command))
}

/// Get the key under which a command's application is remembered.
///
/// Flatpak applications are known by their application ID, desktop entries by
/// their name and Steam games by their number. Anything else is known by the
/// program's name.
pub fn normalize_command_key(cmd: &str) -> (r: Option<String>)
    ensures
        opt_view(r) == command_key(cmd@),
{
    let tokens = split_whitespace(cmd);
    let ghost t = words(cmd@);
    proof {
        assert(forall|i: int| 0 <= i < t.len() ==> t[i] == #[trigger] tokens@[i]@);
    }
    if tokens.len() == 0 {
        return None;
    }
    let flatpak = (tokens.len() >= 2 && text_is(&tokens[0], "flatpak") && text_is(
        &tokens[1],
        "run",
    )) || (tokens.len() >= 3 && text_is(&tokens[0], "/usr/bin/flatpak") && text_is(
        &tokens[1],
        "run",
    ));
    if flatpak {
        let mut i: usize = 2;
        while i < tokens.len()
            invariant
                2 <= i <= tokens.len(),
                t == words(cmd@),
                t == views(tokens@),
                runs_flatpak(t),
                app_word(t, 2) == app_word(t, i as int),
            decreases tokens.len() - i,
        {
            assert(t[i as int] == tokens@[i as int]@);
            if !starts_with(tokens[i].as_str(), "-") && contains_char(tokens[i].as_str(), '.') {
                return Some(tokens[i].clone());
            }
            i += 1;
        }
        return Some(tokens[tokens.len() - 1].clone());
    }
    if text_is(&tokens[0], "gtk-launch") && tokens.len() >= 2 {
        return Some(tokens[1].clone());
    }
    if text_is(&tokens[0], "steam") {
        let mut i: usize = 0;
        while i < tokens.len()
            invariant
                i <= tokens.len(),
                t == views(tokens@),
                word_index(t, "-applaunch"@, 0) == word_index(t, "-applaunch"@, i as int),
                t.len() > 0,
                !runs_flatpak(t),
                !(t[0] == "gtk-launch"@ && t.len() >= 2),
                t[0] == "steam"@,
                t == words(cmd@),
            decreases tokens.len() - i,
        {
            assert(t[i as int] == tokens@[i as int]@);
            if text_is(&tokens[i], "-applaunch") {
                if i + 1 < tokens.len() {
                    return Some(joined("steam:", tokens[i + 1].as_str()));
                }
                return Some("steam".to_string());
            }
            i += 1;
        }
        return Some("steam".to_string());
    }
    Some(tokens[0].clone())
}

/// Whether a text is a single word.
pub open spec fn is_word(s: Seq<char>) -> bool {
    s.len() > 0 && forall|i: int| 0 <= i < s.len() ==> !white_space(#[trigger] s[i])
}

/// Splitting at white space gives words.
pub proof fn lemma_words_are_words(s: Seq<char>)
    ensures
        forall|i: int| 0 <= i < words(s).len() ==> is_word(#[trigger] words(s)[i]),
    decreases s.len(),
{
    if s.len() == 0 {
    } else if white_space(s[0]) {
        lemma_words_are_words(s.skip(1));
        assert(words(s) == words(s.skip(1)));
    } else {
        lemma_word_len(s);
        let n = word_len(s) as int;
        lemma_words_are_words(s.skip(n));
        assert(is_word(s.take(n)));
        assert forall|i: int| 0 <= i < words(s).len() implies is_word(#[trigger] words(s)[i]) by {
            if i > 0 {
                assert(words(s)[i] == words(s.skip(n))[i - 1]);
            }
        }
    }
}

/// A single word splits into itself.
pub proof fn lemma_word_splits_into_itself(s: Seq<char>)
    requires
        is_word(s),
    ensures
        words(s) == seq![s],
{
    lemma_word_len(s);
    assert(word_len(s) == s.len());
    assert(s.take(s.len() as int) == s);
    assert(s.skip(s.len() as int).len() == 0);
    assert(words(s.skip(s.len() as int)) == Seq::<Seq<char>>::empty());
    assert(words(s) == seq![s] + words(s.skip(s.len() as int)));
}

proof fn lemma_app_word_is_word(t: Seq<Seq<char>>, from: int)
    requires
        0 <= from,
        forall|i: int| 0 <= i < t.len() ==> is_word(#[trigger] t[i]),
    ensures
        app_word(t, from) matches Some(app) ==> is_word(app),
    decreases t.len() - from,
{
    if from < t.len() && !names_app(t[from]) {
        lemma_app_word_is_word(t, from + 1);
    }
}

proof fn lemma_word_index_bound(t: Seq<Seq<char>>, word: Seq<char>, from: int)
    requires
        0 <= from,
    ensures
        word_index(t, word, from) matches Some(i) ==> from <= i < t.len() && t[i] == word,
    decreases t.len() - from,
{
    if from < t.len() && t[from] != word {
        lemma_word_index_bound(t, word, from + 1);
    }
}

/// The key of a command is a command with the same key.
///
/// A key can thus be looked up again as if it had been launched itself.
pub proof fn law_command_key_is_stable(command: Seq<char>)
    ensures
        command_key(command) matches Some(key) ==> is_word(key) && command_key(key) == Some(key),
        command_key(command) is None <==> words(command).len() == 0,
{
    reveal_strlit("steam");
    reveal_strlit("steam:");
    reveal_strlit("-applaunch");
    let t = words(command);
    lemma_words_are_words(command);
    lemma_app_word_is_word(t, 2);
    lemma_word_index_bound(t, "-applaunch"@, 0);
    if let Some(key) = command_key(command) {
        assert(is_word("steam"@));
        if t.len() > 0 && !runs_flatpak(t) && t[0] == "steam"@ {
            if let Some(i) = word_index(t, "-applaunch"@, 0) {
                if i + 1 < t.len() {
                    let app = t[i + 1];
                    assert(is_word(app));
                    let full = "steam:"@ + app;
                    assert forall|j: int| 0 <= j < full.len() implies !white_space(
                        #[trigger] full[j],
                    ) by {
                        if j >= 6 {
                            assert(full[j] == app[j - 6]);
                        }
                    }
                }
            }
        }
        assert(is_word(key));
        lemma_word_splits_into_itself(key);
        let k = seq![key];
        assert(words(key) == k);
        assert(!runs_flatpak(k));
        if key == "steam"@ {
            assert(word_index(k, "-applaunch"@, 1) is None);
            assert(k[0] != "-applaunch"@) by {
                assert("steam"@.len() != "-applaunch"@.len());
            }
            assert(word_index(k, "-applaunch"@, 0) is None);
        }
    }
}

/// The first word which names an application is found, and nothing before it.
proof fn lemma_app_word(t: Seq<Seq<char>>, from: int)
    requires
        0 <= from,
    ensures
        match app_word(t, from) {
            Some(word) => exists|i: int|
                from <= i < t.len() && #[trigger] t[i] == word && names_app(word) && forall|j: int|
                    from <= j < i ==> !names_app(#[trigger] t[j]),
            None => forall|j: int| from <= j < t.len() ==> !names_app(#[trigger] t[j]),
        },
    decreases t.len() - from,
{
    if from < t.len() {
        if names_app(t[from]) {
            assert(t[from] == app_word(t, from)->0);
        } else {
            lemma_app_word(t, from + 1);
            if let Some(word) = app_word(t, from + 1) {
                let i = choose|i: int|
                    from + 1 <= i < t.len() && #[trigger] t[i] == word && names_app(word)
                        && forall|j: int| from + 1 <= j < i ==> !names_app(#[trigger] t[j]);
                assert(t[i] == word);
            }
        }
    }
}

/// An application is named by a word with a dot which is no option.
pub proof fn law_apps_are_named_with_a_dot(word: Seq<char>)
    ensures
        names_app(word) <==> word.contains('.') && (word.len() > 0 ==> word[0] != '-'),
{
    reveal_strlit("-");
    if word.len() > 0 {
        assert(word.take(1) =~= seq![word[0]]);
        assert("-"@ =~= seq!['-']);
        assert(seq!['-'][0] == '-');
        assert(seq![word[0]][0] == word[0]);
    }
}

/// The key of a Flatpak command is its first word which names an application.
///
/// Words after the application's ID are its own arguments: they never change
/// the key. If no word names an application, the last word is the key.
pub proof fn law_first_app_is_the_flatpak_key(command: Seq<char>, i: int)
    requires
        words(command).len() >= 3,
        words(command)[0] == "flatpak"@ || words(command)[0] == "/usr/bin/flatpak"@,
        words(command)[1] == "run"@,
        2 <= i < words(command).len(),
        forall|j: int|
            2 <= j < i ==> !((#[trigger] words(command)[j]).contains('.') && words(command)[j][0]
                != '-'),
    ensures
        words(command)[i].contains('.') && words(command)[i][0] != '-' ==> command_key(command)
            == Some(words(command)[i]),
        i == words(command).len() - 1 ==> command_key(command) == Some(words(command)[i]),
{
    let t = words(command);
    lemma_words_are_words(command);
    assert forall|j: int| 2 <= j < t.len() implies names_app(#[trigger] t[j]) == (t[j].contains('.')
        && t[j][0] != '-') by {
        law_apps_are_named_with_a_dot(t[j]);
        assert(is_word(t[j]));
    }
    lemma_app_word(t, 2);
    if let Some(word) = app_word(t, 2) {
        let k = choose|k: int|
            2 <= k < t.len() && #[trigger] t[k] == word && names_app(word) && forall|j: int|
                2 <= j < k ==> !names_app(#[trigger] t[j]);
        assert(names_app(t[k]));
        if k < i {
            assert(!(t[k].contains('.') && t[k][0] != '-'));
        }
        if i < k {
            assert(!names_app(t[i]));
        }
    }
}

/// Arguments of a Flatpak application do not change its key.
pub proof fn law_flatpak_arguments_do_not_matter(a: Seq<char>, b: Seq<char>, i: int)
    requires
        words(a).len() >= 3,
        words(a)[0] == "flatpak"@ || words(a)[0] == "/usr/bin/flatpak"@,
        words(a)[1] == "run"@,
        2 <= i < words(a).len(),
        words(a)[i].contains('.') && words(a)[i][0] != '-',
        words(b).len() > i,
        words(a).take(i + 1) == words(b).take(i + 1),
    ensures
        command_key(a) == command_key(b),
{
    let s = words(a);
    let t = words(b);
    assert forall|j: int| 0 <= j <= i implies s[j] == #[trigger] t[j] by {
        assert(s.take(i + 1)[j] == t.take(i + 1)[j]);
    }
    lemma_words_are_words(a);
    lemma_words_are_words(b);
    law_apps_are_named_with_a_dot(s[i]);
    lemma_same_app_word(s, t, 2, i);
}

proof fn lemma_same_app_word(s: Seq<Seq<char>>, t: Seq<Seq<char>>, from: int, i: int)
    requires
        0 <= from <= i < s.len(),
        i < t.len(),
        forall|j: int| 0 <= j <= i ==> s[j] == #[trigger] t[j],
        names_app(s[i]),
    ensures
        app_word(s, from) == app_word(t, from),
        app_word(s, from) is Some,
    decreases i - from,
{
    assert(s[from] == t[from]);
    if !names_app(s[from]) {
        lemma_same_app_word(s, t, from + 1, i);
    }
}

/// Desktop entries are known by their name, whatever follows it.
pub proof fn law_desktop_entries_are_known_by_name(command: Seq<char>)
    requires
        words(command).len() >= 2,
        words(command)[0] == "gtk-launch"@,
    ensures
        command_key(command) == Some(words(command)[1]),
{
    reveal_strlit("gtk-launch");
    reveal_strlit("flatpak");
    reveal_strlit("/usr/bin/flatpak");
    assert("gtk-launch"@.len() != "flatpak"@.len());
    assert("gtk-launch"@.len() != "/usr/bin/flatpak"@.len());
}

/// Steam games are known by the number after the first launch option.
///
/// Without such a number it is Steam itself.
pub proof fn law_steam_games_are_known_by_number(command: Seq<char>, i: int)
    requires
        words(command).len() >= 1,
        words(command)[0] == "steam"@,
        0 <= i <= words(command).len(),
        forall|j: int| 0 <= j < i ==> #[trigger] words(command)[j] != "-applaunch"@,
    ensures
        i + 1 < words(command).len() && words(command)[i] == "-applaunch"@ ==> command_key(command)
            == Some("steam:"@ + words(command)[i + 1]),
        i + 1 == words(command).len() && words(command)[i] == "-applaunch"@ ==> command_key(command)
            == Some("steam"@),
        i == words(command).len() ==> command_key(command) == Some("steam"@),
{
    let t = words(command);
    reveal_strlit("steam");
    reveal_strlit("gtk-launch");
    reveal_strlit("flatpak");
    reveal_strlit("/usr/bin/flatpak");
    assert("steam"@.len() != "flatpak"@.len());
    assert("steam"@.len() != "/usr/bin/flatpak"@.len());
    assert("steam"@.len() != "gtk-launch"@.len());
    lemma_word_index_first(t, "-applaunch"@, 0, i);
}

proof fn lemma_word_index_first(t: Seq<Seq<char>>, word: Seq<char>, from: int, i: int)
    requires
        0 <= from <= i <= t.len(),
        forall|j: int| 0 <= j < i ==> #[trigger] t[j] != word,
    ensures
        i < t.len() && t[i] == word ==> word_index(t, word, from) == Some(i),
        i == t.len() ==> word_index(t, word, from) is None,
    decreases i - from,
{
    if from < i {
        assert(t[from] != word);
        lemma_word_index_first(t, word, from + 1, i);
    }
}

/// Any other command is known by its program, whatever its arguments are.
///
/// This holds of Flatpak's own commands other than running an application, too.
pub proof fn law_programs_are_known_by_name(command: Seq<char>)
    requires
        words(command).len() >= 1,
        words(command)[0] == "flatpak"@ || words(command)[0] == "/usr/bin/flatpak"@
            ==> words(command).len() < 2 || words(command)[1] != "run"@,
        words(command)[0] == "gtk-launch"@ ==> words(command).len() < 2,
        words(command)[0] != "steam"@,
    ensures
        command_key(command) == Some(words(command)[0]),
{
}

} // verus!
