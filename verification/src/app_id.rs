//! Matching of applications by their identifiers.
//!
//! Patterns are compiled and run by their own engine. The window manager only
//! sees the engine's verdicts, as a table of the patterns which compile and of
//! the identifiers which each of them accepts.

use vstd::prelude::*;

use crate::text::contains_string;
use crate::text::{opt_view, views};

verus! {

/// A pattern with an identifier that it accepts.
pub struct Accepted {
    pub base: String,
    pub id: Option<String>,
}

/// Verdicts of the pattern engine.
pub struct Patterns {
    /// Patterns which compile.
    pub valid: Vec<String>,
    /// Identifiers accepted by the patterns. A missing identifier can be accepted too.
    pub accepted: Vec<Accepted>,
}

impl Patterns {
    /// Whether a pattern compiles.
    pub open spec fn compiles(&self, base: Seq<char>) -> bool {
        views(self.valid@).contains(base)
    }

    /// Whether an entry is the verdict on a pattern and an identifier.
    pub open spec fn is_verdict(entry: Accepted, base: Seq<char>, id: Option<Seq<char>>) -> bool {
        entry.base@ == base && opt_view(entry.id) == id
    }

    /// Whether a pattern accepts an identifier.
    pub open spec fn accepts(&self, base: Seq<char>, id: Option<Seq<char>>) -> bool {
        exists|i: int|
            0 <= i < self.accepted.len() && Self::is_verdict(#[trigger] self.accepted[i], base, id)
    }
}

/// A pattern was rejected by the pattern engine.
#[derive(Debug, PartialEq, Eq)]
pub struct InvalidAppId {
    pub base: String,
}

/// Pattern matched against App IDs and titles.
#[derive(Debug, PartialEq, Eq)]
pub struct AppIdMatcher {
    pub base: String,
}

impl Clone for AppIdMatcher {
    fn clone(&self) -> (r: Self)
        ensures
            r == *self,
    {
        AppIdMatcher { base: self.base.clone() }
    }
}

/// Compare two optional strings.
fn same_id(a: &Option<String>, b: Option<&String>) -> (r: bool)
    ensures
        r == (opt_view(*a) == (match b {
            Some(s) => Some(s@),
            None => None,
        })),
{
    match (a, b) {
        (Some(a), Some(b)) => *a == *b,
        (None, None) => true,
        _ => false,
    }
}

impl AppIdMatcher {
    /// Whether the pattern accepts an identifier.
    pub open spec fn accepts(&self, patterns: &Patterns, id: Option<Seq<char>>) -> bool {
        patterns.accepts(self.base@, id)
    }

    /// Matcher for a pattern.
    pub open spec fn for_pattern(base: String, patterns: Patterns) -> Result<
        AppIdMatcher,
        InvalidAppId,
    > {
        if patterns.compiles(base@) {
            Ok(AppIdMatcher { base })
        } else {
            Err(InvalidAppId { base })
        }
    }

    /// Create a matcher from a pattern.
    ///
    /// This fails exactly when the pattern does not compile.
    pub fn try_from(base: String, patterns: &Patterns) -> (r: Result<AppIdMatcher, InvalidAppId>)
        ensures
            r == Self::for_pattern(base, *patterns),
            r == (if patterns.compiles(base@) {
                Ok::<AppIdMatcher, InvalidAppId>(AppIdMatcher { base: base })
            } else {
                Err(InvalidAppId { base: base })
            }),
    {
        if contains_string(&patterns.valid, &base) {
            Ok(AppIdMatcher { base })
        } else {
            Err(InvalidAppId { base })
        }
    }

    /// Check if an identifier is accepted.
    pub fn matches(&self, patterns: &Patterns, id: Option<&String>) -> (r: bool)
        ensures
            r == self.accepts(patterns, match id {
                Some(id) => Some(id@),
                None => None,
            }),
    {
        let ghost wanted: Option<Seq<char>> = match id {
            Some(id) => Some(id@),
            None => None,
        };
        let mut i: usize = 0;
        while i < patterns.accepted.len()
            invariant
                i <= patterns.accepted.len(),
                wanted == (match id {
                    Some(id) => Some(id@),
                    None => None,
                }),
                forall|j: int|
                    0 <= j < i ==> !Patterns::is_verdict(
                        #[trigger] patterns.accepted[j],
                        self.base@,
                        wanted,
                    ),
            decreases patterns.accepted.len() - i,
        {
            if patterns.accepted[i].base == self.base && same_id(&patterns.accepted[i].id, id) {
                assert(Patterns::is_verdict(patterns.accepted[i as int], self.base@, wanted));
                return true;
            }
            i += 1;
        }
        false
    }

    /// Check if an optional identifier is accepted, a missing one included.
    pub fn matches_opt(&self, patterns: &Patterns, id: &Option<String>) -> (r: bool)
        ensures
            r == self.accepts(patterns, opt_view(*id)),
    {
        match id {
            Some(id) => self.matches(patterns, Some(id)),
            None => self.matches(patterns, None),
        }
    }

    /// Check if a present identifier is accepted. A missing one never is.
    pub fn matches_some(&self, patterns: &Patterns, id: &Option<String>) -> (r: bool)
        ensures
            r == (id is Some && self.accepts(patterns, opt_view(*id))),
    {
        match id {
            Some(id) => self.matches(patterns, Some(id)),
            None => false,
        }
    }

    /// Get the pattern.
    pub fn base(&self) -> (r: &String)
        ensures
            *r == self.base,
    {
        &self.base
    }
}

/// A pattern accepts what the engine has accepted for exactly this pattern.
///
/// Nothing is accepted which the engine has not seen, and a missing identifier
/// is told apart from an empty one.
pub proof fn law_verdicts_are_exact(
    patterns: Patterns,
    base: Seq<char>,
    id: Option<Seq<char>>,
    at: int,
)
    requires
        0 <= at < patterns.accepted.len(),
    ensures
        patterns.accepted[at].base@ == base && (match (patterns.accepted[at].id, id) {
            (Some(a), Some(b)) => a@ == b,
            (None, None) => true,
            _ => false,
        }) ==> patterns.accepts(base, id),
        patterns.accepts(base, id) ==> exists|i: int|
            0 <= i < patterns.accepted.len() && (#[trigger] patterns.accepted[i]).base@ == base && (
            patterns.accepted[i].id is Some <==> id is Some) && (patterns.accepted[i].id is Some
                ==> patterns.accepted[i].id->0@ == id->0),
        (AppIdMatcher { base: patterns.accepted[at].base }).accepts(
            &patterns,
            opt_view(patterns.accepted[at].id),
        ),
{
    let entry = patterns.accepted[at];
    assert(Patterns::is_verdict(entry, entry.base@, opt_view(entry.id)));
    if patterns.accepts(base, id) {
        let i = choose|i: int|
            0 <= i < patterns.accepted.len() && Patterns::is_verdict(
                #[trigger] patterns.accepted[i],
                base,
                id,
            );
        assert(patterns.accepted[i].base@ == base);
    }
}

/// A pattern compiles if the engine lists it as valid.
pub proof fn law_valid_patterns_compile(patterns: Patterns, base: Seq<char>, at: int)
    ensures
        0 <= at < patterns.valid.len() && patterns.valid[at]@ == base ==> patterns.compiles(base),
        patterns.compiles(base) ==> exists|i: int|
            0 <= i < patterns.valid.len() && (#[trigger] patterns.valid[i])@ == base,
{
    let all = views(patterns.valid@);
    if 0 <= at < patterns.valid.len() && patterns.valid[at]@ == base {
        assert(all[at] == base);
    }
    if patterns.compiles(base) {
        let i = choose|i: int| 0 <= i < all.len() && all[i] == base;
        assert(patterns.valid[i]@ == base);
    }
}

/// Valid patterns become matchers for themselves, and invalid ones are told.
pub proof fn law_matchers_need_valid_patterns(base: String, patterns: Patterns, at: int)
    ensures
        0 <= at < patterns.valid.len() && patterns.valid[at]@ == base@
            ==> AppIdMatcher::for_pattern(base, patterns) == Ok::<AppIdMatcher, InvalidAppId>(
            AppIdMatcher { base },
        ),
        (forall|i: int| 0 <= i < patterns.valid.len() ==> (#[trigger] patterns.valid[i])@ != base@)
            ==> AppIdMatcher::for_pattern(base, patterns) == Err::<AppIdMatcher, InvalidAppId>(
            InvalidAppId { base },
        ),
{
    law_valid_patterns_compile(patterns, base@, at);
}

} // verus!
