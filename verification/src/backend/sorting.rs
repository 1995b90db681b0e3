//! Stable sorting by numbers.

use vstd::prelude::*;

verus! {

/// Whether an index comes before another one: by its key, then by its place.
pub open spec fn precedes(keys: Seq<i64>, a: int, b: int) -> bool {
    keys[a] < keys[b] || (keys[a] == keys[b] && a < b)
}

/// Whether a list of indices sorts the keys, keeping the order of equal ones.
pub open spec fn stable_order(keys: Seq<i64>, order: Seq<usize>) -> bool {
    &&& order.len() == keys.len()
    &&& forall|i: int| 0 <= i < order.len() ==> (#[trigger] order[i]) < keys.len()
    &&& forall|i: int, j: int|
        0 <= i < j < order.len() ==> precedes(keys, #[trigger] order[i] as int, #[trigger] order[j] as int)
}

/// Whether a list of indices sorts the first keys.
pub open spec fn partial_order(keys: Seq<i64>, order: Seq<usize>, n: int) -> bool {
    &&& order.len() == n
    &&& forall|i: int| 0 <= i < order.len() ==> (#[trigger] order[i]) < n
    &&& forall|i: int, j: int|
        0 <= i < j < order.len() ==> precedes(keys, #[trigger] order[i] as int, #[trigger] order[j] as int)
}

/// Sort indices by their keys, keeping the order of equal ones.
pub fn sort_indices(keys: &Vec<i64>) -> (r: Vec<usize>)
    ensures
        stable_order(keys@, r@),
{
    let mut order: Vec<usize> = Vec::new();
    let mut n: usize = 0;
    while n < keys.len()
        invariant
            n <= keys.len(),
            partial_order(keys@, order@, n as int),
        decreases keys.len() - n,
    {
        // Everything from this place on has a larger key.
        let mut at: usize = order.len();
        while at > 0 && keys[order[at - 1]] > keys[n]
            invariant
                at <= order.len(),
                n < keys.len(),
                partial_order(keys@, order@, n as int),
                forall|i: int| at <= i < order.len() ==> keys@[#[trigger] order@[i] as int] > keys@[n as int],
            decreases at,
        {
            at -= 1;
        }
        let ghost before = order@;
        order.insert(at, n);
        proof {
            assert forall|i: int, j: int| 0 <= i < j < order.len() implies precedes(
                keys@,
                #[trigger] order@[i] as int,
                #[trigger] order@[j] as int,
            ) by {
                let a = if i < at {
                    i
                } else {
                    i - 1
                };
                let b = if j < at {
                    j
                } else {
                    j - 1
                };
                if i == at {
                    assert(order@[j] == before[b]);
                } else if j == at {
                    assert(order@[i] == before[a]);
                    if a < at - 1 {
                        assert(precedes(keys@, before[a] as int, before[at - 1] as int));
                    }
                } else {
                    assert(order@[i] == before[a]);
                    assert(order@[j] == before[b]);
                    assert(precedes(keys@, before[a] as int, before[b] as int));
                }
            }
            assert forall|i: int| 0 <= i < order.len() implies (#[trigger] order@[i]) < n + 1 by {
                if i < at {
                    assert(order@[i] == before[i]);
                } else if i > at {
                    assert(order@[i] == before[i - 1]);
                }
            }
        }
        n += 1;
    }
    order
}

/// There is only one way to sort while keeping the order of equal keys.
pub proof fn law_stable_order_is_unique(keys: Seq<i64>, a: Seq<usize>, b: Seq<usize>)
    requires
        keys.len() <= usize::MAX,
        stable_order(keys, a),
        stable_order(keys, b),
    ensures
        a == b,
{
    let n = keys.len() as int;
    assert forall|k: int| 0 <= k < n implies a[k] == b[k] by {
        lemma_same_prefix(keys, a, b, k + 1);
    }
    assert(a =~= b);
}

/// Every index occurs in a stable order.
pub proof fn lemma_order_is_complete(keys: Seq<i64>, order: Seq<usize>)
    requires
        keys.len() <= usize::MAX,
        stable_order(keys, order),
    ensures
        forall|k: usize| k < keys.len() ==> order.contains(k),
{
    let n = keys.len();
    assert(order.no_duplicates()) by {
        assert forall|i: int, j: int|
            0 <= i < order.len() && 0 <= j < order.len() && i != j implies order[i] != order[j] by {
            if i < j {
                assert(precedes(keys, order[i] as int, order[j] as int));
            } else {
                assert(precedes(keys, order[j] as int, order[i] as int));
            }
        }
    }
    let all = Set::new(|k: usize| k < n);
    lemma_usize_range(n);
    let seen = order.to_set();
    order.unique_seq_to_set();
    assert(seen.len() == n);
    assert(seen.subset_of(all));
    vstd::set_lib::lemma_len_subset(seen, all);
    vstd::set_lib::lemma_subset_equality(seen, all);
    assert forall|k: usize| k < n implies order.contains(k) by {
        assert(all.contains(k));
        assert(seen.contains(k));
    }
}

proof fn lemma_usize_range(n: nat)
    requires
        n <= usize::MAX,
    ensures
        Set::new(|k: usize| k < n).finite(),
        Set::new(|k: usize| k < n).len() == n,
    decreases n,
{
    let all = Set::new(|k: usize| k < n);
    if n == 0 {
        assert(all =~= Set::<usize>::empty());
    } else {
        let smaller = Set::new(|k: usize| k < (n - 1) as nat);
        lemma_usize_range((n - 1) as nat);
        let last = (n - 1) as usize;
        assert(all =~= smaller.insert(last));
    }
}

proof fn lemma_same_prefix(keys: Seq<i64>, a: Seq<usize>, b: Seq<usize>, k: int)
    requires
        keys.len() <= usize::MAX,
        stable_order(keys, a),
        stable_order(keys, b),
        0 <= k <= keys.len(),
    ensures
        forall|i: int| 0 <= i < k ==> a[i] == b[i],
    decreases k,
{
    if k > 0 {
        lemma_same_prefix(keys, a, b, k - 1);
        lemma_order_is_complete(keys, a);
        lemma_order_is_complete(keys, b);
        let x = a[k - 1];
        let y = b[k - 1];
        if x != y {
            // Each of them comes later in the other order.
            assert(b.contains(x));
            let i = choose|i: int| 0 <= i < b.len() && b[i] == x;
            assert(i > k - 1) by {
                if i < k - 1 {
                    assert(a[i] == b[i]);
                    assert(precedes(keys, a[i] as int, a[k - 1] as int));
                }
            }
            assert(precedes(keys, b[k - 1] as int, b[i] as int));
            assert(a.contains(y));
            let j = choose|j: int| 0 <= j < a.len() && a[j] == y;
            assert(j > k - 1) by {
                if j < k - 1 {
                    assert(a[j] == b[j]);
                    assert(precedes(keys, b[j] as int, b[k - 1] as int));
                }
            }
            assert(precedes(keys, a[k - 1] as int, a[j] as int));
        }
    }
}

} // verus!
