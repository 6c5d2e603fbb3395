//! The unordered pairs of bodies, in ascending lexicographic order.
//!
//! Pair number `k` is `(i, j)` with `i < j`; the pairs with a smaller first
//! body come first, and among those with the same first body the ones with a
//! smaller second body.

use crate::body::BODIES_COUNT;
use vstd::prelude::*;

verus! {

/// The number of unordered pairs of distinct bodies.
pub const INTERACTIONS: usize = BODIES_COUNT * (BODIES_COUNT - 1) / 2;

/// The pair that follows `p` in lexicographic order.
pub open spec fn next_pair(p: (int, int)) -> (int, int) {
    if p.1 + 1 < BODIES_COUNT {
        (p.0, p.1 + 1)
    } else {
        (p.0 + 1, p.0 + 2)
    }
}

/// The pair with number `k`.
pub open spec fn pair_at(k: nat) -> (int, int)
    decreases k,
{
    if k == 0 {
        (0, 1)
    } else {
        next_pair(pair_at((k - 1) as nat))
    }
}

/// The number of pairs whose first body has an index below `i`.
pub open spec fn pairs_before(i: int) -> int {
    i * (2 * BODIES_COUNT - i - 1) / 2
}

/// The number of the pair `(i, j)`: the count of pairs that precede it.
pub open spec fn pair_index(i: int, j: int) -> int {
    pairs_before(i) + (j - i - 1)
}

/// The first body `i` is preceded by the pairs of the bodies before it, of
/// which body `b` opens `BODIES_COUNT - 1 - b`.
pub proof fn lemma_pairs_before(i: int)
    requires
        0 <= i <= BODIES_COUNT,
    ensures
        pairs_before(0) == 0,
        i > 0 ==> pairs_before(i) == pairs_before(i - 1) + (BODIES_COUNT - i),
        pairs_before(BODIES_COUNT as int) == INTERACTIONS,
{
    assert(pairs_before(0) == 0);
    assert(pairs_before(1) == 4);
    assert(pairs_before(2) == 7);
    assert(pairs_before(3) == 9);
    assert(pairs_before(4) == 10);
    assert(pairs_before(5) == 10);
}

/// Numbering the pair `(i, j)` and looking the number up gives `(i, j)` back.
pub proof fn lemma_pair_at_index(i: int, j: int)
    requires
        0 <= i < j < BODIES_COUNT,
    ensures
        0 <= pair_index(i, j) < INTERACTIONS,
        pair_at(pair_index(i, j) as nat) == (i, j),
{
    lemma_pairs_before(i);
    lemma_pairs_before(0);
    lemma_pairs_before(1);
    lemma_pairs_before(2);
    lemma_pairs_before(3);
    lemma_pairs_before(4);
    reveal_with_fuel(pair_at, 11);
}

/// Every pair number below the count names a pair of distinct bodies, the
/// smaller index first, and that pair has this number.
pub proof fn lemma_pair_index_at(k: nat)
    requires
        k < INTERACTIONS,
    ensures
        0 <= pair_at(k).0 < pair_at(k).1 < BODIES_COUNT,
        pair_index(pair_at(k).0, pair_at(k).1) == k,
{
    lemma_pairs_before(1);
    lemma_pairs_before(2);
    lemma_pairs_before(3);
    lemma_pairs_before(4);
    reveal_with_fuel(pair_at, 11);
}

/// The numbering follows the lexicographic order of pairs: a pair has a
/// smaller number than another exactly if its first body is the smaller, or
/// the first bodies are the same and its second body is the smaller.
pub proof fn law_pairs_ascend(i: int, j: int, p: int, q: int)
    requires
        0 <= i < j < BODIES_COUNT,
        0 <= p < q < BODIES_COUNT,
    ensures
        pair_index(i, j) < pair_index(p, q) <==> (i < p || (i == p && j < q)),
{
    lemma_pairs_before(1);
    lemma_pairs_before(2);
    lemma_pairs_before(3);
    lemma_pairs_before(4);
}

} // verus!
