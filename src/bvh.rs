use vstd::prelude::*;

verus! {

/// How a bounding-volume hierarchy node divides the objects it is built from.
#[derive(PartialEq, Eq, Structural, Clone, Copy, Debug)]
pub enum Split {
    /// One object: both children refer to it.
    Single,
    /// Two objects: each becomes a child.
    Pair,
    /// Three or more: after sorting, the first `mid` objects go left, the rest right.
    Halves(usize),
}

/// Whether a scene of `n` objects is condensed into a hierarchy before
/// rendering: only when it holds more than ten.
pub fn wants_hierarchy(n: usize) -> (r: bool)
    ensures
        r == (n > 10),
{
    n > 10
}

/// Decides how `n` objects are divided; a hierarchy over no object does not exist.
pub fn split_plan(n: usize) -> (r: Option<Split>)
    ensures
        r is None <==> n == 0,
        n == 1 ==> r == Some(Split::Single),
        n == 2 ==> r == Some(Split::Pair),
        n >= 3 ==> r == Some(Split::Halves(n / 2)),
{
    if n == 0 {
        None
    } else if n == 1 {
        Some(Split::Single)
    } else if n == 2 {
        Some(Split::Pair)
    } else {
        Some(Split::Halves(n / 2))
    }
}

/// The axis (0 = x, 1 = y, 2 = z) whose extent is greatest, the first one on a tie.
/// Extents are given as total-order keys.
pub fn longest_axis(extents: [i64; 3]) -> (r: usize)
    ensures
        r < 3,
        forall|k: int| 0 <= k < 3 ==> extents[k] <= extents[r as int],
        forall|k: int| 0 <= k < r ==> extents[k] < extents[r as int],
{
    let mut best: usize = 0;
    if extents[1] > extents[best] {
        best = 1;
    }
    if extents[2] > extents[best] {
        best = 2;
    }
    best
}

/// `(keys[a], a)` comes strictly before `(keys[b], b)` in lexicographic order.
pub open spec fn precedes(keys: Seq<i64>, a: int, b: int) -> bool {
    keys[a] < keys[b] || (keys[a] == keys[b] && a < b)
}

/// `order` lists indices into `keys` by ascending key, equal keys in the order they are given.
pub open spec fn stably_sorted(keys: Seq<i64>, order: Seq<usize>) -> bool {
    &&& forall|i: int| 0 <= i < order.len() ==> order[i] < keys.len()
    &&& forall|i: int, j: int|
        0 <= i < j < order.len() ==> #[trigger] precedes(keys, order[i] as int, order[j] as int)
}

/// The order in which a stable sort by `keys` places the items `0..keys.len()`.
pub fn sort_order(keys: &Vec<i64>) -> (r: Vec<usize>)
    ensures
        r@.len() == keys@.len(),
        stably_sorted(keys@, r@),
        forall|m: usize| m < keys@.len() ==> r@.contains(m),
{
    let n = keys.len();
    let mut order: Vec<usize> = Vec::new();
    let mut k: usize = 0;
    while k < n
        invariant
            n == keys@.len(),
            k <= n,
            order@.len() == k,
            forall|i: int| 0 <= i < order@.len() ==> order@[i] < k,
            stably_sorted(keys@, order@),
            forall|m: usize| m < k ==> order@.contains(m),
        decreases n - k,
    {
        let key = keys[k];
        let mut p: usize = 0;
        while p < order.len() && keys[order[p]] <= key
            invariant
                n == keys@.len(),
                k < n,
                p <= order@.len(),
                order@.len() == k,
                forall|i: int| 0 <= i < order@.len() ==> order@[i] < k,
                stably_sorted(keys@, order@),
                key == keys@[k as int],
                forall|i: int| 0 <= i < p ==> keys@[order@[i] as int] <= key,
                forall|m: usize| m < k ==> order@.contains(m),
            decreases order@.len() - p,
        {
            p = p + 1;
        }
        proof {
            if p < order@.len() {
                assert forall|j: int| p <= j < order@.len() implies key < keys@[order@[j] as int] by {
                    if j > p {
                        assert(precedes(keys@, order@[p as int] as int, order@[j] as int));
                    }
                }
            }
        }
        let ghost before = order@;
        order.insert(p, k);
        proof {
            assert forall|i: int, j: int|
                0 <= i < j < order@.len() implies #[trigger] precedes(keys@, order@[i] as int, order@[j] as int) by {
                if j < p {
                    assert(order@[i] == before[i] && order@[j] == before[j]);
                    assert(precedes(keys@, before[i] as int, before[j] as int));
                } else if j == p {
                    assert(order@[i] == before[i]);
                } else if i == p {
                    assert(order@[j] == before[j - 1]);
                } else if i < p {
                    assert(order@[i] == before[i] && order@[j] == before[j - 1]);
                    assert(precedes(keys@, before[i] as int, before[j - 1] as int));
                } else {
                    assert(order@[i] == before[i - 1] && order@[j] == before[j - 1]);
                    assert(precedes(keys@, before[i - 1] as int, before[j - 1] as int));
                }
            }
        }
        proof {
            assert(order@[p as int] == k);
            assert forall|m: usize| m < k + 1 implies order@.contains(m) by {
                if m < k {
                    assert(before.contains(m));
                    let i = choose|i: int| 0 <= i < before.len() && before[i] == m;
                    if i < p {
                        assert(order@[i] == m);
                    } else {
                        assert(order@[i + 1] == m);
                    }
                }
            }
        }
        k = k + 1;
    }
    order
}

} // verus!
