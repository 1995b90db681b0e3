//! Searching and collecting over sequences.

use vstd::prelude::*;

verus! {

/// Index of the first item from an index on which satisfies a condition.
pub open spec fn first_index<A>(s: Seq<A>, p: spec_fn(A) -> bool, from: int) -> Option<int>
    decreases s.len() - from,
{
    if from >= s.len() {
        None
    } else if p(s[from]) {
        Some(from)
    } else {
        first_index(s, p, from + 1)
    }
}

/// The first index found satisfies the condition, and nothing before it does.
pub proof fn lemma_first_index<A>(s: Seq<A>, p: spec_fn(A) -> bool, from: int)
    requires
        0 <= from,
    ensures
        match first_index(s, p, from) {
            Some(i) => from <= i < s.len() && p(s[i]) && forall|j: int| from <= j < i ==> !p(s[j]),
            None => forall|j: int| from <= j < s.len() ==> !p(s[j]),
        },
    decreases s.len() - from,
{
    if from < s.len() && !p(s[from]) {
        lemma_first_index(s, p, from + 1);
    }
}

/// Conditions which agree on all items find the same one first.
pub proof fn lemma_same_first<A>(
    s: Seq<A>,
    p: spec_fn(A) -> bool,
    q: spec_fn(A) -> bool,
    from: int,
)
    requires
        0 <= from,
        forall|i: int| 0 <= i < s.len() ==> p(#[trigger] s[i]) == q(s[i]),
    ensures
        first_index(s, p, from) == first_index(s, q, from),
    decreases s.len() - from,
{
    if from < s.len() {
        lemma_same_first(s, p, q, from + 1);
    }
}

/// What is contributed comes from one of the items.
pub proof fn lemma_collected<A, B>(s: Seq<A>, f: spec_fn(A) -> Seq<B>, n: int)
    requires
        0 <= n <= s.len(),
    ensures
        forall|b: B|
            #![trigger collected(s, f, n).contains(b)]
            collected(s, f, n).contains(b) <==> exists|i: int|
                0 <= i < n && f(#[trigger] s[i]).contains(b),
    decreases n,
{
    if n > 0 {
        lemma_collected(s, f, n - 1);
        let before = collected(s, f, n - 1);
        let last = f(s[n - 1]);
        assert forall|b: B|
            #![trigger collected(s, f, n).contains(b)]
            collected(s, f, n).contains(b) <==> exists|i: int|
                0 <= i < n && f(#[trigger] s[i]).contains(b) by {
            let after = collected(s, f, n);
            if after.contains(b) {
                let k = choose|k: int| 0 <= k < after.len() && after[k] == b;
                if k < before.len() {
                    assert(before[k] == b);
                    assert(before.contains(b));
                    let i = choose|i: int| 0 <= i < n - 1 && f(#[trigger] s[i]).contains(b);
                    assert(f(s[i]).contains(b));
                } else {
                    assert(last[k - before.len()] == b);
                    assert(f(s[n - 1]).contains(b));
                }
            }
            if exists|i: int| 0 <= i < n && f(#[trigger] s[i]).contains(b) {
                let i = choose|i: int| 0 <= i < n && f(#[trigger] s[i]).contains(b);
                if i < n - 1 {
                    assert(before.contains(b));
                    let k = choose|k: int| 0 <= k < before.len() && before[k] == b;
                    assert(after[k] == b);
                } else {
                    let k = choose|k: int| 0 <= k < last.len() && last[k] == b;
                    assert(after[before.len() + k] == b);
                }
            }
        }
    }
}

/// First item which satisfies a condition.
pub open spec fn first<A>(s: Seq<A>, p: spec_fn(A) -> bool) -> Option<A> {
    match first_index(s, p, 0) {
        Some(i) => Some(s[i]),
        None => None,
    }
}

/// What the first `n` items contribute, in order.
pub open spec fn collected<A, B>(s: Seq<A>, f: spec_fn(A) -> Seq<B>, n: int) -> Seq<B>
    decreases n,
{
    if n <= 0 {
        Seq::empty()
    } else {
        collected(s, f, n - 1) + f(s[n - 1])
    }
}

/// What all items contribute, in order.
pub open spec fn collect_all<A, B>(s: Seq<A>, f: spec_fn(A) -> Seq<B>) -> Seq<B> {
    collected(s, f, s.len() as int)
}

/// One item contributes what it stands for.
pub proof fn law_collect_one<A, B>(a: A, f: spec_fn(A) -> Seq<B>)
    ensures
        collect_all(seq![a], f) == f(a),
        collect_all(Seq::<A>::empty(), f) == Seq::<B>::empty(),
{
    reveal_with_fuel(collected, 2);
    assert(collected(seq![a], f, 1) =~= f(a));
}

/// Items contribute in their order: what comes first contributes first.
pub proof fn law_collect_in_order<A, B>(s: Seq<A>, t: Seq<A>, f: spec_fn(A) -> Seq<B>)
    ensures
        collect_all(s + t, f) == collect_all(s, f) + collect_all(t, f),
{
    lemma_collect_in_order(s, t, f, t.len() as int);
}

proof fn lemma_collect_in_order<A, B>(s: Seq<A>, t: Seq<A>, f: spec_fn(A) -> Seq<B>, n: int)
    requires
        0 <= n <= t.len(),
    ensures
        collected(s + t, f, s.len() + n) == collect_all(s, f) + collected(t, f, n),
    decreases n,
{
    if n == 0 {
        lemma_collect_prefix(s, t, f, s.len() as int);
        assert(collected(t, f, 0) =~= Seq::<B>::empty());
        assert(collect_all(s, f) + collected(t, f, 0) =~= collect_all(s, f));
    } else {
        lemma_collect_in_order(s, t, f, n - 1);
        assert((s + t)[s.len() + n - 1] == t[n - 1]);
        assert(collected(s + t, f, s.len() + n) =~= collect_all(s, f) + collected(t, f, n));
    }
}

proof fn lemma_collect_prefix<A, B>(s: Seq<A>, t: Seq<A>, f: spec_fn(A) -> Seq<B>, n: int)
    requires
        0 <= n <= s.len(),
    ensures
        collected(s + t, f, n) == collected(s, f, n),
    decreases n,
{
    if n > 0 {
        lemma_collect_prefix(s, t, f, n - 1);
        assert((s + t)[n - 1] == s[n - 1]);
    }
}

/// Items which contribute one thing each contribute it at their own place.
pub proof fn lemma_collect_single<A, B>(s: Seq<A>, f: spec_fn(A) -> Seq<B>, n: int)
    requires
        0 <= n <= s.len(),
        forall|i: int| 0 <= i < s.len() ==> f(#[trigger] s[i]).len() == 1,
    ensures
        collected(s, f, n).len() == n,
        forall|i: int| 0 <= i < n ==> #[trigger] collected(s, f, n)[i] == f(s[i])[0],
    decreases n,
{
    if n > 0 {
        lemma_collect_single(s, f, n - 1);
        assert(f(s[n - 1]).len() == 1);
        let before = collected(s, f, n - 1);
        assert forall|i: int| 0 <= i < n implies #[trigger] collected(s, f, n)[i] == f(s[i])[0] by {
            if i < n - 1 {
                assert(collected(s, f, n)[i] == before[i]);
            }
        }
    }
}

/// Check if a list of integers holds a value.
pub fn holds_key(keys: &Vec<u64>, key: u64) -> (r: bool)
    ensures
        r == keys@.contains(key),
{
    let mut i: usize = 0;
    while i < keys.len()
        invariant
            i <= keys.len(),
            forall|j: int| 0 <= j < i ==> keys@[j] != key,
        decreases keys.len() - i,
    {
        if keys[i] == key {
            assert(keys@[i as int] == key);
            return true;
        }
        i += 1;
    }
    false
}

} // verus!
