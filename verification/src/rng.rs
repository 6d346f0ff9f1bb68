use vstd::prelude::*;

use rand::Rng;

use crate::matrix::Matrix;

verus! {

/// Relies on `rand::Rng::gen_range` over the half-open range `lo..hi`,
/// drawn from `rand::thread_rng`: the result lies in `[lo, hi)`. The call
/// panics only on an empty range, which the precondition rules out.
#[verifier::external_body]
pub(crate) fn random_in_range(lo: usize, hi: usize) -> (r: usize)
    requires
        lo < hi,
    ensures
        lo <= r < hi,
{
    rand::thread_rng().gen_range(lo..hi)
}

/// A uniform draw from `[0, bound)`; the pool-slot initializer.
pub fn random_index(bound: usize) -> (r: usize)
    requires
        bound >= 1,
    ensures
        r < bound,
{
    random_in_range(0, bound)
}

/// An `r` by `c` matrix of uniform draws from `[0, bound)`.
pub fn random_index_matrix(r: usize, c: usize, bound: usize) -> (m: Matrix<usize>)
    requires
        bound >= 1,
    ensures
        m.wf(),
        m.rows_n() == r,
        m.width == c,
        forall|i: int, j: int| 0 <= i < r && 0 <= j < c ==> m.at(i, j) < bound,
{
    let mut elems: Vec<Vec<usize>> = Vec::new();
    let mut i: usize = 0;
    while i < r
        invariant
            bound >= 1,
            i <= r,
            elems@.len() == i,
            forall|p: int| 0 <= p < i ==> (#[trigger] elems@[p])@.len() == c,
            forall|p: int, q: int| 0 <= p < i && 0 <= q < c ==> elems@[p]@[q] < bound,
        decreases r - i,
    {
        let mut row: Vec<usize> = Vec::new();
        let mut j: usize = 0;
        while j < c
            invariant
                bound >= 1,
                j <= c,
                row@.len() == j,
                forall|q: int| 0 <= q < j ==> row@[q] < bound,
            decreases c - j,
        {
            row.push(random_index(bound));
            j += 1;
        }
        elems.push(row);
        i += 1;
    }
    (Matrix { elems, width: c })
}

/// A vector of `n` uniform draws from `[0, bound)`.
pub fn random_index_vec(n: usize, bound: usize) -> (r: Vec<usize>)
    requires
        bound >= 1,
    ensures
        r@.len() == n,
        forall|i: int| 0 <= i < n ==> r@[i] < bound,
{
    let mut out: Vec<usize> = Vec::new();
    let mut i: usize = 0;
    while i < n
        invariant
            bound >= 1,
            i <= n,
            out@.len() == i,
            forall|p: int| 0 <= p < i ==> out@[p] < bound,
        decreases n - i,
    {
        out.push(random_index(bound));
        i += 1;
    }
    out
}

/// Draws `min(k, n)` distinct positions uniformly, without replacement,
/// from `[0, n)`: a partial Fisher-Yates shuffle of the position list.
pub fn sample_positions(n: usize, k: usize) -> (r: Vec<usize>)
    requires
        n >= 1,
    ensures
        r@.len() == if k < n { k as int } else { n as int },
        forall|i: int| 0 <= i < r@.len() ==> r@[i] < n,
        forall|i: int, j: int| 0 <= i < j < r@.len() ==> r@[i] != r@[j],
{
    let take: usize = if k < n {
        k
    } else {
        n
    };
    let mut pool: Vec<usize> = Vec::new();
    let mut i: usize = 0;
    while i < n
        invariant
            i <= n,
            pool@.len() == i,
            forall|p: int| 0 <= p < i ==> pool@[p] == p,
        decreases n - i,
    {
        pool.push(i);
        i += 1;
    }
    let mut t: usize = 0;
    while t < take
        invariant
            take <= n,
            t <= take,
            pool@.len() == n,
            forall|p: int| 0 <= p < n ==> pool@[p] < n,
            forall|p: int, q: int| 0 <= p < q < n ==> pool@[p] != pool@[q],
        decreases take - t,
    {
        let j = random_in_range(t, n);
        let a = pool[t];
        let b = pool[j];
        pool[t] = b;
        pool[j] = a;
        t += 1;
    }
    let mut out: Vec<usize> = Vec::new();
    let mut s: usize = 0;
    while s < take
        invariant
            take <= n,
            s <= take,
            pool@.len() == n,
            forall|p: int| 0 <= p < n ==> pool@[p] < n,
            forall|p: int, q: int| 0 <= p < q < n ==> pool@[p] != pool@[q],
            out@ == pool@.subrange(0, s as int),
        decreases take - s,
    {
        out.push(pool[s]);
        s += 1;
    }
    out
}

} // verus!
