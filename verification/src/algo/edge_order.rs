//! Edge ids ordered as pairs of integers, and edge lists kept sorted by id.

use vstd::prelude::*;

verus! {

/// Lexicographic order on edge ids, the order in which an ordered map of
/// `(u64, u64)` keys visits them.
pub open spec fn key_lt(a: (u64, u64), b: (u64, u64)) -> bool {
    a.0 < b.0 || (a.0 == b.0 && a.1 < b.1)
}

/// The ids of a list of edges.
pub open spec fn keys_of<E>(s: Seq<((u64, u64), E)>) -> Seq<(u64, u64)> {
    s.map_values(|p: ((u64, u64), E)| p.0)
}

/// Edge ids strictly increase along the list (so no id occurs twice).
pub open spec fn strictly_sorted<E>(s: Seq<((u64, u64), E)>) -> bool {
    forall|i: int, j: int| 0 <= i < j < s.len() ==> key_lt(#[trigger] s[i].0, #[trigger] s[j].0)
}

/// Some edge of the list has id `k`.
pub open spec fn has_key<E>(s: Seq<((u64, u64), E)>, k: (u64, u64)) -> bool {
    exists|i: int| 0 <= i < s.len() && #[trigger] s[i].0 == k
}

/// The id with its two ends swapped.
pub open spec fn reversed(k: (u64, u64)) -> (u64, u64) {
    (k.1, k.0)
}

pub fn key_less(a: (u64, u64), b: (u64, u64)) -> (r: bool)
    ensures
        r == key_lt(a, b),
{
    a.0 < b.0 || (a.0 == b.0 && a.1 < b.1)
}

pub fn key_equal(a: (u64, u64), b: (u64, u64)) -> (r: bool)
    ensures
        r == (a == b),
{
    a.0 == b.0 && a.1 == b.1
}

/// Position of the edge with id `k`, if there is one.
pub fn find_key<E>(s: &Vec<((u64, u64), E)>, k: (u64, u64)) -> (r: Option<usize>)
    ensures
        match r {
            Some(i) => i < s@.len() && s@[i as int].0 == k,
            None => !has_key(s@, k),
        },
{
    let mut i: usize = 0;
    while i < s.len()
        invariant
            i <= s@.len(),
            forall|j: int| 0 <= j < i ==> s@[j].0 != k,
        decreases s@.len() - i,
    {
        if key_equal(s[i].0, k) {
            return Some(i);
        }
        i += 1;
    }
    None
}

/// Two lists that hold the same set of entries hold the same set of ids.
pub proof fn lemma_same_set_same_keys<E>(
    a: Seq<((u64, u64), E)>,
    b: Seq<((u64, u64), E)>,
    k: (u64, u64),
)
    requires
        a.to_set() == b.to_set(),
    ensures
        has_key(a, k) <==> keys_of(b).contains(k),
{
    if has_key(a, k) {
        let i = choose|i: int| 0 <= i < a.len() && #[trigger] a[i].0 == k;
        assert(a.to_set().contains(a[i]));
        assert(b.to_set().contains(a[i]));
        let j = choose|j: int| 0 <= j < b.len() && b[j] == a[i];
        assert(keys_of(b)[j] == k);
    }
    if keys_of(b).contains(k) {
        let j = choose|j: int| 0 <= j < keys_of(b).len() && keys_of(b)[j] == k;
        assert(b.to_set().contains(b[j]));
        assert(a.to_set().contains(b[j]));
        let i = choose|i: int| 0 <= i < a.len() && a[i] == b[j];
        assert(a[i].0 == k);
    }
}

/// Insert an edge into a sorted list at the place its id belongs.
pub fn insert_sorted<E>(s: &mut Vec<((u64, u64), E)>, k: (u64, u64), e: E)
    requires
        strictly_sorted(old(s)@),
        !has_key(old(s)@, k),
    ensures
        strictly_sorted(final(s)@),
        final(s)@.to_set() == old(s)@.to_set().insert((k, e)),
        final(s)@.len() == old(s)@.len() + 1,
        final(s)@.contains((k, e)),
{
    let ghost before = s@;
    let mut p: usize = 0;
    while p < s.len() && key_less(s[p].0, k)
        invariant
            s@ == before,
            p <= s@.len(),
            forall|j: int| 0 <= j < p ==> key_lt(#[trigger] s@[j].0, k),
        decreases s@.len() - p,
    {
        p += 1;
    }
    if p < s.len() {
        assert(key_lt(k, s@[p as int].0)) by {
            assert(s@[p as int].0 != k);
        }
        assert forall|j: int| p <= j < s@.len() implies key_lt(k, #[trigger] s@[j].0) by {
            if j > p {
                assert(key_lt(s@[p as int].0, s@[j].0));
            }
        }
    }
    s.insert(p, (k, e));
    let ghost after = s@;
    assert(after == before.insert(p as int, (k, e)));
    assert forall|i: int, j: int| 0 <= i < j < after.len() implies key_lt(
        #[trigger] after[i].0,
        #[trigger] after[j].0,
    ) by {
        if j < p {
        } else if j == p {
        } else if i < p {
            assert(after[j] == before[j - 1]);
            assert(key_lt(k, before[j - 1].0));
        } else if i == p {
            assert(after[j] == before[j - 1]);
        } else {
            assert(after[i] == before[i - 1]);
            assert(after[j] == before[j - 1]);
        }
    }
    assert(after.to_set() =~= before.to_set().insert((k, e))) by {
        assert forall|x| after.to_set().contains(x) implies before.to_set().insert(
            (k, e),
        ).contains(x) by {
            let i = choose|i: int| 0 <= i < after.len() && after[i] == x;
            if i < p {
                assert(before[i] == x);
            } else if i > p {
                assert(before[i - 1] == x);
            }
        }
        assert forall|x| before.to_set().insert((k, e)).contains(x) implies after.to_set().contains(
            x,
        ) by {
            if x == (k, e) {
                assert(after[p as int] == x);
            } else {
                let i = choose|i: int| 0 <= i < before.len() && before[i] == x;
                if i < p {
                    assert(after[i] == x);
                } else {
                    assert(after[i + 1] == x);
                }
            }
        }
    }
    assert(after[p as int] == (k, e));
}

} // verus!
