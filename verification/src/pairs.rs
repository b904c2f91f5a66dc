//! The order in which the second pass visits pairs of bodies.
//!
//! Resolving one pair moves bodies that later pairs read, so the order is
//! part of what a step computes. It is fixed here once, as a sequence of
//! index pairs, and everything else refers to it.

use vstd::prelude::*;

verus! {

/// The pairs whose first body is `i`, by rising second body:
/// `(i, i + 1), (i, i + 2), ..., (i, n - 1)`.
pub open spec fn row(n: int, i: int) -> Seq<(int, int)> {
    Seq::new(
        if 0 <= i && i + 1 < n {
            (n - i - 1) as nat
        } else {
            0
        },
        |k: int| (i, i + 1 + k),
    )
}

/// The rows of the first `m` bodies, one after the other.
pub open spec fn rows(n: int, m: int) -> Seq<(int, int)>
    decreases m,
{
    if m <= 0 {
        Seq::empty()
    } else {
        rows(n, m - 1) + row(n, m - 1)
    }
}

/// Every pair of `n` bodies in visiting order: by rising first body, and for
/// one first body by rising second body.
pub open spec fn pairs(n: int) -> Seq<(int, int)> {
    rows(n, n)
}

/// What has been visited when the scan stands before the pair `(i, j)`.
pub open spec fn visited(n: int, i: int, j: int) -> Seq<(int, int)> {
    rows(n, i) + row(n, i).take(j - i - 1)
}

/// `p` is visited before `q`.
pub open spec fn precedes(p: (int, int), q: (int, int)) -> bool {
    p.0 < q.0 || (p.0 == q.0 && p.1 < q.1)
}

/// Where the pair `(i, j)` stands in `pairs(n)`.
pub open spec fn rank(n: int, i: int, j: int) -> int {
    rows(n, i).len() + (j - i - 1)
}

/// The rows of the first `m` bodies are the first part of the whole order.
proof fn lemma_rows_prefix(n: int, m: int)
    requires
        0 <= m <= n,
    ensures
        rows(n, m).len() <= pairs(n).len(),
        rows(n, m) == pairs(n).take(rows(n, m).len() as int),
    decreases n - m,
{
    if m < n {
        lemma_rows_prefix(n, m + 1);
    }
}

/// The pair `(i, j)` stands at `rank(n, i, j)`.
pub proof fn lemma_pair_at_rank(n: int, i: int, j: int)
    requires
        0 <= i < j < n,
    ensures
        0 <= rank(n, i, j) < pairs(n).len(),
        pairs(n)[rank(n, i, j)] == (i, j),
{
    lemma_rows_prefix(n, i + 1);
    assert(rows(n, i + 1)[rank(n, i, j)] == (i, j));
}

/// Every entry among the rows of the first `m` bodies is a pair `(i, j)`
/// with `i < m` and `i < j < n`, and stands at its rank.
proof fn lemma_rows_entries(n: int, m: int, k: int)
    requires
        0 <= m <= n,
        0 <= k < rows(n, m).len(),
    ensures
        0 <= rows(n, m)[k].0 < m,
        rows(n, m)[k].0 < rows(n, m)[k].1 < n,
        rank(n, rows(n, m)[k].0, rows(n, m)[k].1) == k,
    decreases m,
{
    if k < rows(n, m - 1).len() {
        lemma_rows_entries(n, m - 1, k);
    }
}

/// Each pair of two different bodies is visited, the lower index named
/// first, and nothing else is.
pub proof fn lemma_pairs_exact(n: int)
    requires
        0 <= n,
    ensures
        forall|k: int|
            0 <= k < pairs(n).len() ==> 0 <= (#[trigger] pairs(n)[k]).0 < pairs(n)[k].1 < n,
        forall|i: int, j: int| 0 <= i < j < n ==> pairs(n).contains((i, j)),
{
    assert forall|k: int| 0 <= k < pairs(n).len() implies 0 <= (#[trigger] pairs(n)[k]).0
        < pairs(n)[k].1 < n by {
        lemma_rows_entries(n, n, k);
    }
    assert forall|i: int, j: int| 0 <= i < j < n implies pairs(n).contains((i, j)) by {
        lemma_pair_at_rank(n, i, j);
    }
}

/// A pair that precedes another has the lower rank.
proof fn lemma_rank_monotonic(n: int, p: (int, int), q: (int, int))
    requires
        0 <= p.0 < p.1 < n,
        0 <= q.0 < q.1 < n,
        precedes(p, q),
    ensures
        rank(n, p.0, p.1) < rank(n, q.0, q.1),
    decreases q.0 - p.0,
{
    if p.0 < q.0 {
        // every pair of row p.0 stands before the first pair of row p.0 + 1
        if p.0 + 1 < q.0 {
            lemma_rows_grow(n, p.0 + 1, q.0);
        }
    }
}

/// More rows hold at least as many pairs.
proof fn lemma_rows_grow(n: int, a: int, b: int)
    requires
        0 <= a <= b,
    ensures
        rows(n, a).len() <= rows(n, b).len(),
    decreases b - a,
{
    if a < b {
        lemma_rows_grow(n, a, b - 1);
    }
}

/// The order is strictly rising: an earlier entry precedes every later
/// one, so no pair is visited twice.
pub proof fn lemma_pairs_rising(n: int, k: int, l: int)
    requires
        0 <= k < l < pairs(n).len(),
    ensures
        precedes(pairs(n)[k], pairs(n)[l]),
{
    let p = pairs(n)[k];
    let q = pairs(n)[l];
    if n > 0 {
        lemma_rows_entries(n, n, k);
        lemma_rows_entries(n, n, l);
        if !precedes(p, q) {
            if p == q {
            } else {
                lemma_rank_monotonic(n, q, p);
            }
        }
    }
}

/// `n` bodies make `n * (n - 1) / 2` pairs.
pub proof fn lemma_pairs_count(n: int)
    requires
        0 <= n,
    ensures
        2 * pairs(n).len() == n * (n - 1),
{
    lemma_rows_count(n, n);
}

/// The first `m` rows hold `m * (2n - m - 1) / 2` pairs.
proof fn lemma_rows_count(n: int, m: int)
    requires
        0 <= m <= n,
    ensures
        2 * rows(n, m).len() == m * (2 * n - m - 1),
    decreases m,
{
    if m > 0 {
        lemma_rows_count(n, m - 1);
        assert(m * (2 * n - m - 1) == (m - 1) * (2 * n - (m - 1) - 1) + 2 * (n - m))
            by (nonlinear_arith);
    } else {
        assert(0 * (2 * n - 0 - 1) == 0) by (nonlinear_arith);
    }
}

} // verus!
