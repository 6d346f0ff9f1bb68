use vstd::prelude::*;

use crate::scalar::Scalar;

verus! {

/// A dense row-major matrix. `width` is the common length of every row;
/// a matrix may have zero rows, so the width is stored rather than read
/// off the first row.
pub struct Matrix<T> {
    pub elems: Vec<Vec<T>>,
    pub width: usize,
}

impl<T> Matrix<T> {
    /// Every row has length `width`.
    pub open spec fn wf(self) -> bool {
        forall|i: int|
            0 <= i < self.elems@.len() ==> (#[trigger] self.elems@[i])@.len() == self.width
    }

    /// Number of rows.
    pub open spec fn rows_n(self) -> int {
        self.elems@.len() as int
    }

    /// The entry in row `i`, column `j`.
    pub open spec fn at(self, i: int, j: int) -> T {
        self.elems@[i]@[j]
    }
}

impl<T: Copy> Matrix<T> {
    pub fn rows(&self) -> (r: usize)
        ensures
            r == self.rows_n(),
    {
        self.elems.len()
    }

    pub fn cols(&self) -> (r: usize)
        ensures
            r == self.width,
    {
        self.width
    }

    pub fn get(&self, i: usize, j: usize) -> (v: T)
        requires
            self.wf(),
            i < self.rows_n(),
            j < self.width,
        ensures
            v == self.at(i as int, j as int),
    {
        self.elems[i][j]
    }

    /// An `r` by `c` matrix with every entry equal to `v`.
    pub fn fill(r: usize, c: usize, v: T) -> (m: Matrix<T>)
        ensures
            m.wf(),
            m.rows_n() == r,
            m.width == c,
            forall|i: int, j: int| 0 <= i < r && 0 <= j < c ==> m.at(i, j) == v,
    {
        let mut elems: Vec<Vec<T>> = Vec::new();
        let mut i: usize = 0;
        while i < r
            invariant
                i <= r,
                elems@.len() == i,
                forall|p: int| 0 <= p < i ==> (#[trigger] elems@[p])@.len() == c,
                forall|p: int, q: int| 0 <= p < i && 0 <= q < c ==> elems@[p]@[q] == v,
            decreases r - i,
        {
            let mut row: Vec<T> = Vec::new();
            let mut j: usize = 0;
            while j < c
                invariant
                    j <= c,
                    row@.len() == j,
                    forall|q: int| 0 <= q < j ==> row@[q] == v,
                decreases c - j,
            {
                row.push(v);
                j += 1;
            }
            elems.push(row);
            i += 1;
        }
        (Matrix { elems, width: c })
    }

    /// A single-row matrix holding a copy of `v`.
    pub fn from_row(v: &Vec<T>) -> (m: Matrix<T>)
        ensures
            m.wf(),
            m.rows_n() == 1,
            m.width == v@.len(),
            m.elems@[0]@ == v@,
    {
        let mut row: Vec<T> = Vec::new();
        let mut j: usize = 0;
        while j < v.len()
            invariant
                j <= v@.len(),
                row@ == v@.subrange(0, j as int),
            decreases v@.len() - j,
        {
            row.push(v[j]);
            j += 1;
        }
        proof {
            assert(row@ == v@);
        }
        let mut elems: Vec<Vec<T>> = Vec::new();
        let width: usize = v.len();
        elems.push(row);
        (Matrix { elems, width })
    }

    /// A copy of row `i` as a vector.
    pub fn row(&self, i: usize) -> (r: Vec<T>)
        requires
            self.wf(),
            i < self.rows_n(),
        ensures
            r@ == self.elems@[i as int]@,
    {
        let mut out: Vec<T> = Vec::new();
        let mut j: usize = 0;
        while j < self.width
            invariant
                self.wf(),
                i < self.rows_n(),
                j <= self.width,
                out@ == self.elems@[i as int]@.subrange(0, j as int),
            decreases self.width - j,
        {
            out.push(self.elems[i][j]);
            j += 1;
        }
        proof {
            assert(out@ == self.elems@[i as int]@);
        }
        out
    }

    /// The transposed matrix: entry `(i, j)` of the result is entry
    /// `(j, i)` of `self`.
    pub fn transpose(&self) -> (m: Matrix<T>)
        requires
            self.wf(),
        ensures
            m.wf(),
            m.rows_n() == self.width,
            m.width == self.rows_n(),
            forall|i: int, j: int|
                0 <= i < self.width && 0 <= j < self.rows_n() ==> m.at(i, j) == self.at(j, i),
    {
        let rn = self.elems.len();
        let mut elems: Vec<Vec<T>> = Vec::new();
        let mut i: usize = 0;
        while i < self.width
            invariant
                self.wf(),
                rn == self.rows_n(),
                i <= self.width,
                elems@.len() == i,
                forall|p: int| 0 <= p < i ==> (#[trigger] elems@[p])@.len() == rn,
                forall|p: int, q: int|
                    0 <= p < i && 0 <= q < rn ==> elems@[p]@[q] == self.at(q, p),
            decreases self.width - i,
        {
            let mut row: Vec<T> = Vec::new();
            let mut j: usize = 0;
            while j < rn
                invariant
                    self.wf(),
                    rn == self.rows_n(),
                    i < self.width,
                    j <= rn,
                    row@.len() == j,
                    forall|q: int| 0 <= q < j ==> row@[q] == self.at(q, i as int),
                decreases rn - j,
            {
                row.push(self.elems[j][i]);
                j += 1;
            }
            elems.push(row);
            i += 1;
        }
        (Matrix { elems, width: rn })
    }
}

impl<T: Scalar> Matrix<T> {
    /// Matrix product `self * other`; `zero` seeds each accumulation.
    pub fn matmul(&self, other: &Matrix<T>, zero: T) -> (m: Matrix<T>)
        requires
            self.wf(),
            other.wf(),
            self.width == other.rows_n(),
        ensures
            m.wf(),
            m.rows_n() == self.rows_n(),
            m.width == other.width,
    {
        let rn = self.elems.len();
        let cn = other.width;
        let kn = self.width;
        let mut elems: Vec<Vec<T>> = Vec::new();
        let mut i: usize = 0;
        while i < rn
            invariant
                self.wf(),
                other.wf(),
                rn == self.rows_n(),
                cn == other.width,
                kn == self.width,
                kn == other.rows_n(),
                i <= rn,
                elems@.len() == i,
                forall|p: int| 0 <= p < i ==> (#[trigger] elems@[p])@.len() == cn,
            decreases rn - i,
        {
            let mut row: Vec<T> = Vec::new();
            let mut j: usize = 0;
            while j < cn
                invariant
                    self.wf(),
                    other.wf(),
                    rn == self.rows_n(),
                    cn == other.width,
                    kn == self.width,
                    kn == other.rows_n(),
                    i < rn,
                    j <= cn,
                    row@.len() == j,
                decreases cn - j,
            {
                let mut acc: T = zero;
                let mut k: usize = 0;
                while k < kn
                    invariant
                        self.wf(),
                        other.wf(),
                        rn == self.rows_n(),
                        cn == other.width,
                        kn == self.width,
                        kn == other.rows_n(),
                        i < rn,
                        j < cn,
                        k <= kn,
                    decreases kn - k,
                {
                    let a = self.get(i, k);
                    let b = other.get(k, j);
                    acc = acc.plus(&a.times(&b));
                    k += 1;
                }
                row.push(acc);
                j += 1;
            }
            elems.push(row);
            i += 1;
        }
        (Matrix { elems, width: cn })
    }

    /// Adds `bias` to every row of `self`.
    pub fn add_row(&self, bias: &Vec<T>) -> (m: Matrix<T>)
        requires
            self.wf(),
            bias@.len() == self.width,
        ensures
            m.wf(),
            m.rows_n() == self.rows_n(),
            m.width == self.width,
    {
        let rn = self.elems.len();
        let cn = self.width;
        let mut elems: Vec<Vec<T>> = Vec::new();
        let mut i: usize = 0;
        while i < rn
            invariant
                self.wf(),
                bias@.len() == cn,
                rn == self.rows_n(),
                cn == self.width,
                i <= rn,
                elems@.len() == i,
                forall|p: int| 0 <= p < i ==> (#[trigger] elems@[p])@.len() == cn,
            decreases rn - i,
        {
            let mut row: Vec<T> = Vec::new();
            let mut j: usize = 0;
            while j < cn
                invariant
                    self.wf(),
                    bias@.len() == cn,
                    rn == self.rows_n(),
                    cn == self.width,
                    i < rn,
                    j <= cn,
                    row@.len() == j,
                decreases cn - j,
            {
                row.push(self.get(i, j).plus(&bias[j]));
                j += 1;
            }
            elems.push(row);
            i += 1;
        }
        (Matrix { elems, width: cn })
    }

    /// Elementwise product of two matrices of the same shape.
    pub fn hadamard(&self, other: &Matrix<T>) -> (m: Matrix<T>)
        requires
            self.wf(),
            other.wf(),
            self.rows_n() == other.rows_n(),
            self.width == other.width,
        ensures
            m.wf(),
            m.rows_n() == self.rows_n(),
            m.width == self.width,
    {
        let rn = self.elems.len();
        let cn = self.width;
        let mut elems: Vec<Vec<T>> = Vec::new();
        let mut i: usize = 0;
        while i < rn
            invariant
                self.wf(),
                other.wf(),
                rn == self.rows_n(),
                rn == other.rows_n(),
                cn == self.width,
                cn == other.width,
                i <= rn,
                elems@.len() == i,
                forall|p: int| 0 <= p < i ==> (#[trigger] elems@[p])@.len() == cn,
            decreases rn - i,
        {
            let mut row: Vec<T> = Vec::new();
            let mut j: usize = 0;
            while j < cn
                invariant
                    self.wf(),
                    other.wf(),
                    rn == self.rows_n(),
                    rn == other.rows_n(),
                    cn == self.width,
                    cn == other.width,
                    i < rn,
                    j <= cn,
                    row@.len() == j,
                decreases cn - j,
            {
                row.push(self.get(i, j).times(&other.get(i, j)));
                j += 1;
            }
            elems.push(row);
            i += 1;
        }
        (Matrix { elems, width: cn })
    }

    /// Elementwise difference `self - other` for matrices of the same shape.
    pub fn minus_mat(&self, other: &Matrix<T>) -> (m: Matrix<T>)
        requires
            self.wf(),
            other.wf(),
            self.rows_n() == other.rows_n(),
            self.width == other.width,
        ensures
            m.wf(),
            m.rows_n() == self.rows_n(),
            m.width == self.width,
    {
        let rn = self.elems.len();
        let cn = self.width;
        let mut elems: Vec<Vec<T>> = Vec::new();
        let mut i: usize = 0;
        while i < rn
            invariant
                self.wf(),
                other.wf(),
                rn == self.rows_n(),
                rn == other.rows_n(),
                cn == self.width,
                cn == other.width,
                i <= rn,
                elems@.len() == i,
                forall|p: int| 0 <= p < i ==> (#[trigger] elems@[p])@.len() == cn,
            decreases rn - i,
        {
            let mut row: Vec<T> = Vec::new();
            let mut j: usize = 0;
            while j < cn
                invariant
                    self.wf(),
                    other.wf(),
                    rn == self.rows_n(),
                    rn == other.rows_n(),
                    cn == self.width,
                    cn == other.width,
                    i < rn,
                    j <= cn,
                    row@.len() == j,
                decreases cn - j,
            {
                row.push(self.get(i, j).minus(&other.get(i, j)));
                j += 1;
            }
            elems.push(row);
            i += 1;
        }
        (Matrix { elems, width: cn })
    }

    /// The sum of the rows of `self`: a vector of length `width` whose
    /// entry `j` accumulates column `j` over every row.
    pub fn colsum(&self, zero: T) -> (r: Vec<T>)
        requires
            self.wf(),
        ensures
            r@.len() == self.width,
    {
        let rn = self.elems.len();
        let cn = self.width;
        let mut out: Vec<T> = Vec::new();
        let mut j: usize = 0;
        while j < cn
            invariant
                self.wf(),
                rn == self.rows_n(),
                cn == self.width,
                j <= cn,
                out@.len() == j,
            decreases cn - j,
        {
            let mut acc: T = zero;
            let mut i: usize = 0;
            while i < rn
                invariant
                    self.wf(),
                    rn == self.rows_n(),
                    cn == self.width,
                    j < cn,
                    i <= rn,
                decreases rn - i,
            {
                acc = acc.plus(&self.get(i, j));
                i += 1;
            }
            out.push(acc);
            j += 1;
        }
        out
    }
}

/// A vector of length `n` with every entry equal to `v`.
pub fn vec_fill<T: Copy>(n: usize, v: T) -> (r: Vec<T>)
    ensures
        r@.len() == n,
        forall|i: int| 0 <= i < n ==> r@[i] == v,
{
    let mut out: Vec<T> = Vec::new();
    let mut i: usize = 0;
    while i < n
        invariant
            i <= n,
            out@.len() == i,
            forall|p: int| 0 <= p < i ==> out@[p] == v,
        decreases n - i,
    {
        out.push(v);
        i += 1;
    }
    out
}

/// An exact copy of `v`.
pub fn vec_copy<T: Copy>(v: &Vec<T>) -> (r: Vec<T>)
    ensures
        r@ == v@,
{
    let mut out: Vec<T> = Vec::new();
    let mut i: usize = 0;
    while i < v.len()
        invariant
            i <= v@.len(),
            out@ == v@.subrange(0, i as int),
        decreases v@.len() - i,
    {
        out.push(v[i]);
        i += 1;
    }
    proof {
        assert(out@ == v@);
    }
    out
}

/// Elementwise difference `a - b` for vectors of the same length.
pub fn vec_minus<T: Scalar>(a: &Vec<T>, b: &Vec<T>) -> (r: Vec<T>)
    requires
        a@.len() == b@.len(),
    ensures
        r@.len() == a@.len(),
{
    let mut out: Vec<T> = Vec::new();
    let mut i: usize = 0;
    while i < a.len()
        invariant
            a@.len() == b@.len(),
            i <= a@.len(),
            out@.len() == i,
        decreases a@.len() - i,
    {
        out.push(a[i].minus(&b[i]));
        i += 1;
    }
    out
}

} // verus!
