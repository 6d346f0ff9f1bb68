use vstd::prelude::*;

use crate::capability::Activation;
use crate::matrix::Matrix;
use crate::matrix::vec_fill;
use crate::matrix::vec_minus;
use crate::rng::random_index_matrix;
use crate::rng::random_index_vec;
use crate::scalar::Scalar;
use crate::substrate::Substrate;

verus! {

/// One affine transform plus activation. The weight and bias values are
/// not owned here: `wi` and `bi` hold pool-slot indices, and `w` and `b`
/// are dense materializations of the pool values at those indices,
/// refreshed by `gather`.
pub struct Layer<T> {
    /// The last forward input, overwritten on every forward call.
    pub x: Matrix<T>,
    /// The weight index matrix, shape (in-width, out-width), entries in
    /// `[0, pool size)`.
    pub wi: Matrix<usize>,
    /// The bias index vector, length out-width, same index range.
    pub bi: Vec<usize>,
    /// Dense weights: the pool values at `wi` as of the last gather.
    pub w: Matrix<T>,
    /// Dense bias: the pool values at `bi` as of the last gather.
    pub b: Vec<T>,
    /// The activation derivative at the last pre-activation output.
    pub d_z: Matrix<T>,
    /// Running negative accumulation of weight gradients.
    pub grad_w: Matrix<T>,
    /// Running negative accumulation of bias gradients.
    pub grad_b: Vec<T>,
    /// The nonlinearity applied after the affine transform.
    pub activation: Activation,
    /// The additive identity: seeds accumulations and clears buffers.
    pub zero: T,
}

impl<T: Scalar> Layer<T> {
    /// The input width: the number of rows of the weight matrices.
    pub open spec fn in_width(self) -> int {
        self.wi.rows_n()
    }

    /// The output width: the number of columns of the weight matrices.
    pub open spec fn out_width(self) -> int {
        self.wi.width as int
    }

    /// All matrices are rectangular and sized to one another: weights and
    /// their accumulators are (in-width, out-width), the bias family has
    /// length out-width, the cached input is in-width wide and the cached
    /// derivative out-width wide.
    pub open spec fn wf(self) -> bool {
        &&& self.wi.wf()
        &&& self.w.wf()
        &&& self.w.rows_n() == self.in_width()
        &&& self.w.width as int == self.out_width()
        &&& self.grad_w.wf()
        &&& self.grad_w.rows_n() == self.in_width()
        &&& self.grad_w.width as int == self.out_width()
        &&& self.bi@.len() as int == self.out_width()
        &&& self.b@.len() as int == self.out_width()
        &&& self.grad_b@.len() as int == self.out_width()
        &&& self.x.wf()
        &&& self.x.width as int == self.in_width()
        &&& self.d_z.wf()
        &&& self.d_z.width as int == self.out_width()
    }

    /// Every index entry lies in `[0, bound)`.
    pub open spec fn links_in_range(self, bound: int) -> bool {
        &&& forall|i: int, j: int|
            0 <= i < self.in_width() && 0 <= j < self.out_width()
                ==> #[trigger] self.wi.at(i, j) < bound
        &&& forall|j: int| 0 <= j < self.out_width() ==> #[trigger] self.bi@[j] < bound
    }

    /// The dense weights and bias are exactly the pool values at the
    /// positions the index matrices hold.
    pub open spec fn gathered(self, pool: Seq<T>) -> bool {
        &&& forall|i: int, j: int|
            0 <= i < self.in_width() && 0 <= j < self.out_width()
                ==> #[trigger] self.w.at(i, j) == pool[self.wi.at(i, j) as int]
        &&& forall|j: int|
            0 <= j < self.out_width() ==> #[trigger] self.b@[j] == pool[self.bi@[j] as int]
    }

    /// Both gradient accumulators hold `v` in every position.
    pub open spec fn grads_are(self, v: T) -> bool {
        &&& forall|i: int, j: int|
            0 <= i < self.in_width() && 0 <= j < self.out_width()
                ==> #[trigger] self.grad_w.at(i, j) == v
        &&& forall|j: int| 0 <= j < self.out_width() ==> #[trigger] self.grad_b@[j] == v
    }

    /// Everything but the forward caches (`x`, `d_z`) equals that of
    /// `other`.
    pub open spec fn same_weights(self, other: Layer<T>) -> bool {
        &&& self.wi == other.wi
        &&& self.bi == other.bi
        &&& self.w == other.w
        &&& self.b == other.b
        &&& self.grad_w == other.grad_w
        &&& self.grad_b == other.grad_b
        &&& self.activation == other.activation
        &&& self.zero == other.zero
    }

    /// Gathering is idempotent: the dense weights and bias are a pure
    /// function of the index matrices and the pool contents, so any two
    /// gathered layers that agree on `wi`, `bi` and the pool agree
    /// pointwise on `w` and `b`.
    pub proof fn lemma_gather_idempotent(a: Layer<T>, b: Layer<T>, pool: Seq<T>)
        requires
            a.wf(),
            b.wf(),
            a.gathered(pool),
            b.gathered(pool),
            a.wi == b.wi,
            a.bi == b.bi,
        ensures
            forall|i: int, j: int|
                0 <= i < a.in_width() && 0 <= j < a.out_width() ==> #[trigger] a.w.at(i, j)
                    == b.w.at(i, j),
            forall|j: int| 0 <= j < a.out_width() ==> #[trigger] a.b@[j] == b.b@[j],
    {
    }

    /// A layer over a pool of `pool_size` slots: the index matrices are
    /// drawn uniformly from `[0, pool_size)` and every numeric buffer is
    /// filled with `fill`, the scalar that also seeds later accumulations.
    pub fn new(
        pool_size: usize,
        x_shape: (usize, usize),
        w_shape: (usize, usize),
        b_shape: usize,
        activation: Activation,
        fill: T,
    ) -> (l: Layer<T>)
        requires
            pool_size >= 1,
            x_shape.1 == w_shape.0,
            b_shape == w_shape.1,
        ensures
            l.wf(),
            l.in_width() == w_shape.0,
            l.out_width() == w_shape.1,
            l.links_in_range(pool_size as int),
            l.x.rows_n() == x_shape.0,
            l.d_z.rows_n() == w_shape.0,
            l.activation == activation,
            l.zero == fill,
            forall|i: int, j: int|
                0 <= i < w_shape.0 && 0 <= j < w_shape.1 ==> l.grad_w.at(i, j) == fill,
            forall|j: int| 0 <= j < b_shape ==> l.grad_b@[j] == fill,
            forall|i: int, j: int|
                0 <= i < w_shape.0 && 0 <= j < w_shape.1 ==> l.w.at(i, j) == fill,
            forall|j: int| 0 <= j < b_shape ==> l.b@[j] == fill,
    {
        (Layer {
            x: Matrix::fill(x_shape.0, x_shape.1, fill),
            wi: random_index_matrix(w_shape.0, w_shape.1, pool_size),
            bi: random_index_vec(b_shape, pool_size),
            w: Matrix::fill(w_shape.0, w_shape.1, fill),
            b: vec_fill(b_shape, fill),
            d_z: Matrix::fill(w_shape.0, w_shape.1, fill),
            grad_w: Matrix::fill(w_shape.0, w_shape.1, fill),
            grad_b: vec_fill(b_shape, fill),
            activation,
            zero: fill,
        })
    }

    /// Recomputes `w` and `b` by elementwise pool lookup at `wi` and `bi`.
    /// Idempotent while the indices and the pool are unchanged, since the
    /// result is a pure function of both.
    pub fn gather<S: Substrate<T>>(&mut self, substrate: &S)
        requires
            old(self).wf(),
            old(self).links_in_range(substrate.contents().len() as int),
        ensures
            final(self).wf(),
            final(self).gathered(substrate.contents()),
            final(self).wi == old(self).wi,
            final(self).bi == old(self).bi,
            final(self).x == old(self).x,
            final(self).d_z == old(self).d_z,
            final(self).grad_w == old(self).grad_w,
            final(self).grad_b == old(self).grad_b,
            final(self).activation == old(self).activation,
            final(self).zero == old(self).zero,
    {
        let rn = self.wi.rows();
        let cn = self.wi.cols();
        let mut elems: Vec<Vec<T>> = Vec::new();
        let mut i: usize = 0;
        while i < rn
            invariant
                self.wf(),
                self.links_in_range(substrate.contents().len() as int),
                rn == self.in_width(),
                cn as int == self.out_width(),
                i <= rn,
                elems@.len() == i,
                forall|p: int| 0 <= p < i ==> (#[trigger] elems@[p])@.len() == cn,
                forall|p: int, q: int|
                    0 <= p < i && 0 <= q < cn
                        ==> elems@[p]@[q] == substrate.contents()[self.wi.at(p, q) as int],
            decreases rn - i,
        {
            let mut row: Vec<T> = Vec::new();
            let mut j: usize = 0;
            while j < cn
                invariant
                    self.wf(),
                    self.links_in_range(substrate.contents().len() as int),
                    rn == self.in_width(),
                    cn as int == self.out_width(),
                    i < rn,
                    j <= cn,
                    row@.len() == j,
                    forall|q: int|
                        0 <= q < j ==> row@[q] == substrate.contents()[self.wi.at(
                            i as int,
                            q,
                        ) as int],
                decreases cn - j,
            {
                let ix = self.wi.get(i, j);
                row.push(substrate.get(ix));
                j += 1;
            }
            elems.push(row);
            i += 1;
        }
        self.w = Matrix { elems, width: cn };
        let bn = self.bi.len();
        let mut nb: Vec<T> = Vec::new();
        let mut j: usize = 0;
        while j < bn
            invariant
                self.wf(),
                self.links_in_range(substrate.contents().len() as int),
                bn as int == self.out_width(),
                j <= bn,
                nb@.len() == j,
                forall|q: int|
                    0 <= q < j ==> nb@[q] == substrate.contents()[self.bi@[q] as int],
            decreases bn - j,
        {
            let ix = self.bi[j];
            nb.push(substrate.get(ix));
            j += 1;
        }
        self.b = nb;
    }

    /// Adds an index-delta matrix onto `wi` in place; used when the pool
    /// reassigns which slot a weight position refers to.
    pub fn shift_weights(&mut self, shift: &Matrix<usize>)
        requires
            old(self).wf(),
            shift.wf(),
            shift.rows_n() == old(self).in_width(),
            shift.width as int == old(self).out_width(),
            forall|i: int, j: int|
                0 <= i < old(self).in_width() && 0 <= j < old(self).out_width()
                    ==> old(self).wi.at(i, j) + shift.at(i, j) <= usize::MAX,
        ensures
            final(self).wf(),
            final(self).wi.rows_n() == old(self).in_width(),
            final(self).wi.width == old(self).wi.width,
            forall|i: int, j: int|
                0 <= i < old(self).in_width() && 0 <= j < old(self).out_width()
                    ==> final(self).wi.at(i, j) == old(self).wi.at(i, j) + shift.at(i, j),
            final(self).bi == old(self).bi,
            final(self).x == old(self).x,
            final(self).w == old(self).w,
            final(self).b == old(self).b,
            final(self).d_z == old(self).d_z,
            final(self).grad_w == old(self).grad_w,
            final(self).grad_b == old(self).grad_b,
            final(self).activation == old(self).activation,
            final(self).zero == old(self).zero,
    {
        let rn = self.wi.rows();
        let cn = self.wi.cols();
        let mut elems: Vec<Vec<usize>> = Vec::new();
        let mut i: usize = 0;
        while i < rn
            invariant
                self.wf(),
                shift.wf(),
                shift.rows_n() == self.in_width(),
                shift.width as int == self.out_width(),
                forall|p: int, q: int|
                    0 <= p < self.in_width() && 0 <= q < self.out_width()
                        ==> self.wi.at(p, q) + shift.at(p, q) <= usize::MAX,
                rn == self.in_width(),
                cn as int == self.out_width(),
                i <= rn,
                elems@.len() == i,
                forall|p: int| 0 <= p < i ==> (#[trigger] elems@[p])@.len() == cn,
                forall|p: int, q: int|
                    0 <= p < i && 0 <= q < cn
                        ==> elems@[p]@[q] == self.wi.at(p, q) + shift.at(p, q),
            decreases rn - i,
        {
            let mut row: Vec<usize> = Vec::new();
            let mut j: usize = 0;
            while j < cn
                invariant
                    self.wf(),
                    shift.wf(),
                    shift.rows_n() == self.in_width(),
                    shift.width as int == self.out_width(),
                    forall|p: int, q: int|
                        0 <= p < self.in_width() && 0 <= q < self.out_width()
                            ==> self.wi.at(p, q) + shift.at(p, q) <= usize::MAX,
                    rn == self.in_width(),
                    cn as int == self.out_width(),
                    i < rn,
                    j <= cn,
                    row@.len() == j,
                    forall|q: int|
                        0 <= q < j ==> row@[q] == self.wi.at(i as int, q) + shift.at(i as int, q),
                decreases cn - j,
            {
                row.push(self.wi.get(i, j) + shift.get(i, j));
                j += 1;
            }
            elems.push(row);
            i += 1;
        }
        self.wi = Matrix { elems, width: cn };
    }

    /// Adds an index-delta vector onto `bi` in place.
    pub fn shift_bias(&mut self, shift: &Vec<usize>)
        requires
            old(self).wf(),
            shift@.len() as int == old(self).out_width(),
            forall|j: int|
                0 <= j < old(self).out_width() ==> old(self).bi@[j] + shift@[j] <= usize::MAX,
        ensures
            final(self).wf(),
            final(self).bi@.len() == old(self).bi@.len(),
            forall|j: int|
                0 <= j < old(self).out_width()
                    ==> final(self).bi@[j] == old(self).bi@[j] + shift@[j],
            final(self).wi == old(self).wi,
            final(self).x == old(self).x,
            final(self).w == old(self).w,
            final(self).b == old(self).b,
            final(self).d_z == old(self).d_z,
            final(self).grad_w == old(self).grad_w,
            final(self).grad_b == old(self).grad_b,
            final(self).activation == old(self).activation,
            final(self).zero == old(self).zero,
    {
        let bn = self.bi.len();
        let mut nb: Vec<usize> = Vec::new();
        let mut j: usize = 0;
        while j < bn
            invariant
                self.wf(),
                shift@.len() as int == self.out_width(),
                forall|q: int|
                    0 <= q < self.out_width() ==> self.bi@[q] + shift@[q] <= usize::MAX,
                bn as int == self.out_width(),
                j <= bn,
                nb@.len() == j,
                forall|q: int| 0 <= q < j ==> nb@[q] == self.bi@[q] + shift@[q],
            decreases bn - j,
        {
            nb.push(self.bi[j] + shift[j]);
            j += 1;
        }
        self.bi = nb;
    }

    /// Replaces the weight-gradient accumulator wholesale.
    pub fn assign_grad_w(&mut self, grad: Matrix<T>)
        requires
            old(self).wf(),
            grad.wf(),
            grad.rows_n() == old(self).in_width(),
            grad.width as int == old(self).out_width(),
        ensures
            final(self).wf(),
            final(self).grad_w == grad,
            final(self).wi == old(self).wi,
            final(self).bi == old(self).bi,
            final(self).x == old(self).x,
            final(self).w == old(self).w,
            final(self).b == old(self).b,
            final(self).d_z == old(self).d_z,
            final(self).grad_b == old(self).grad_b,
            final(self).activation == old(self).activation,
            final(self).zero == old(self).zero,
    {
        self.grad_w = grad;
    }

    /// Replaces the bias-gradient accumulator wholesale.
    pub fn assign_grad_b(&mut self, grad: Vec<T>)
        requires
            old(self).wf(),
            grad@.len() as int == old(self).out_width(),
        ensures
            final(self).wf(),
            final(self).grad_b == grad,
            final(self).wi == old(self).wi,
            final(self).bi == old(self).bi,
            final(self).x == old(self).x,
            final(self).w == old(self).w,
            final(self).b == old(self).b,
            final(self).d_z == old(self).d_z,
            final(self).grad_w == old(self).grad_w,
            final(self).activation == old(self).activation,
            final(self).zero == old(self).zero,
    {
        self.grad_b = grad;
    }

    /// One update step against the pool: submits the accumulated weight and
    /// bias gradients, with their index matrices, to the substrate's
    /// scatter-update at the given learning rate, takes back any slot
    /// reassignment the substrate made, re-gathers the dense values from
    /// the just-updated pool and, when `clear` is set, resets both
    /// accumulators to the layer's fill scalar.
    ///
    /// Both index families follow one uniform path: the matrices handed to
    /// the substrate are written back wholesale, so a reassignment lands in
    /// `wi` and `bi` as is (the bias family goes through a one-row copy,
    /// since the pool update works on matrices).
    pub(crate) fn scatter_update<S: Substrate<T>>(
        &mut self,
        substrate: &mut S,
        learning_rate: T,
        clear: bool,
    )
        requires
            old(self).wf(),
            old(self).links_in_range(old(substrate).contents().len() as int),
        ensures
            final(self).wf(),
            final(substrate).contents().len() == old(substrate).contents().len(),
            final(self).links_in_range(final(substrate).contents().len() as int),
            final(self).in_width() == old(self).in_width(),
            final(self).out_width() == old(self).out_width(),
            final(self).x == old(self).x,
            final(self).d_z == old(self).d_z,
            final(self).activation == old(self).activation,
            final(self).zero == old(self).zero,
            final(self).gathered(final(substrate).contents()),
            clear ==> final(self).grads_are(final(self).zero),
    {
        substrate.highspeed(&mut self.grad_w, &mut self.wi, learning_rate);
        let mut bi_m = Matrix::from_row(&self.bi);
        let mut gb_m = Matrix::from_row(&self.grad_b);
        substrate.highspeed(&mut gb_m, &mut bi_m, learning_rate);
        let new_bi = bi_m.row(0);
        let new_gb = gb_m.row(0);
        self.bi = new_bi;
        self.grad_b = new_gb;
        proof {
            assert(substrate.contents().len() == old(substrate).contents().len());
            assert forall|i: int, j: int|
                0 <= i < self.in_width() && 0 <= j < self.out_width()
                    implies #[trigger] self.wi.at(i, j) < substrate.contents().len() by {}
            assert forall|j: int|
                0 <= j < self.out_width() implies #[trigger] self.bi@[j]
                < substrate.contents().len() by {
                assert(self.bi@[j] == bi_m.at(0, j));
            }
            assert(self.wf());
        }
        self.gather(substrate);
        if clear {
            let r = self.wi.rows();
            let c = self.wi.cols();
            let z = self.zero;
            self.grad_w = Matrix::fill(r, c, z);
            self.grad_b = vec_fill(c, z);
        }
    }

    /// The forward pass on a batch: caches the input, computes the
    /// pre-activation `z = x * w + b`, caches the activation derivative at
    /// `z` and returns the activated output.
    pub fn forward(&mut self, x: Matrix<T>) -> (a_z: Matrix<T>)
        requires
            old(self).wf(),
            x.wf(),
            x.width as int == old(self).in_width(),
        ensures
            final(self).wf(),
            a_z.wf(),
            a_z.rows_n() == x.rows_n(),
            a_z.width as int == old(self).out_width(),
            final(self).x == x,
            final(self).d_z.rows_n() == x.rows_n(),
            final(self).wi == old(self).wi,
            final(self).bi == old(self).bi,
            final(self).w == old(self).w,
            final(self).b == old(self).b,
            final(self).grad_w == old(self).grad_w,
            final(self).grad_b == old(self).grad_b,
            final(self).activation == old(self).activation,
            final(self).zero == old(self).zero,
    {
        let z0 = x.matmul(&self.w, self.zero);
        let z = z0.add_row(&self.b);
        let a_z = self.activation.a(&z);
        let d_z = self.activation.d(&z);
        self.d_z = d_z;
        self.x = x;
        a_z
    }

    /// The backward pass: given the loss gradient with respect to this
    /// layer's output, computes the gradient with respect to its input and
    /// subtracts the locally computed weight and bias gradients into the
    /// persistent accumulators, which therefore hold the running negative
    /// sum of everything applied since their last reset.
    pub fn backward(&mut self, grad_output: Matrix<T>) -> (grad_input: Matrix<T>)
        requires
            old(self).wf(),
            grad_output.wf(),
            grad_output.width as int == old(self).out_width(),
            grad_output.rows_n() == old(self).d_z.rows_n(),
            grad_output.rows_n() == old(self).x.rows_n(),
        ensures
            final(self).wf(),
            grad_input.wf(),
            grad_input.rows_n() == grad_output.rows_n(),
            grad_input.width as int == old(self).in_width(),
            final(self).x == old(self).x,
            final(self).wi == old(self).wi,
            final(self).bi == old(self).bi,
            final(self).w == old(self).w,
            final(self).b == old(self).b,
            final(self).d_z == old(self).d_z,
            final(self).activation == old(self).activation,
            final(self).zero == old(self).zero,
    {
        let grad_z = grad_output.hadamard(&self.d_z);
        let wt = self.w.transpose();
        let grad_input = grad_z.matmul(&wt, self.zero);
        let xt = self.x.transpose();
        let gw = xt.matmul(&grad_z, self.zero);
        let gb = grad_z.colsum(self.zero);
        self.grad_w = self.grad_w.minus_mat(&gw);
        self.grad_b = vec_minus(&self.grad_b, &gb);
        grad_input
    }
}

} // verus!
