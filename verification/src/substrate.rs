use vstd::prelude::*;

use crate::matrix::Matrix;
use crate::scalar::Scalar;

verus! {

/// The shared pool of scalar parameters, seen from the engine's side of the
/// boundary. Implementations own the storage and the scatter-update
/// algorithm; the engine relies only on what is stated here.
///
/// Every index entry a layer holds must lie in `[0, contents().len())`,
/// and `highspeed` promises to keep reassigned indices inside that range
/// while leaving the pool's capacity unchanged; nothing is promised about
/// the scalar values it writes, since the update policy (including how
/// colliding contributions are combined) belongs to the implementation.
pub trait Substrate<T> {
    /// The current pool contents, one scalar per slot.
    spec fn contents(&self) -> Seq<T>;

    /// The pool capacity: the number of slots.
    fn size(&self) -> (r: usize)
        ensures
            r == self.contents().len(),
    ;

    /// Pure point lookup of slot `i`.
    fn get(&self, i: usize) -> (r: T)
        requires
            i < self.contents().len(),
        ensures
            r == self.contents()[i as int],
    ;

    /// Scatter-update: applies every `(grad, index)` entry pair as a
    /// contribution of `grad * learning_rate` to pool slot `index`,
    /// combining contributions that land on the same slot. The
    /// implementation may rewrite both matrices in place — in particular
    /// it may reassign an index entry to a different slot — but it keeps
    /// their shapes, keeps every index entry inside the pool, and keeps
    /// the pool's capacity.
    fn highspeed(&mut self, grad: &mut Matrix<T>, index: &mut Matrix<usize>, learning_rate: T)
        requires
            old(grad).wf(),
            old(index).wf(),
            old(grad).rows_n() == old(index).rows_n(),
            old(grad).width == old(index).width,
            forall|i: int, j: int|
                0 <= i < old(index).rows_n() && 0 <= j < old(index).width
                    ==> old(index).at(i, j) < old(self).contents().len(),
        ensures
            final(self).contents().len() == old(self).contents().len(),
            final(grad).wf(),
            final(grad).rows_n() == old(grad).rows_n(),
            final(grad).width == old(grad).width,
            final(index).wf(),
            final(index).rows_n() == old(index).rows_n(),
            final(index).width == old(index).width,
            forall|i: int, j: int|
                0 <= i < old(index).rows_n() && 0 <= j < old(index).width
                    ==> final(index).at(i, j) < old(self).contents().len(),
    ;
}

/// Some entry of the index matrix refers to slot `s`.
pub open spec fn slot_targeted(index: Matrix<usize>, s: int) -> bool {
    exists|i: int, j: int|
        0 <= i < index.rows_n() && 0 <= j < index.width && #[trigger] index.at(i, j) == s
}

/// The reference substrate: a single arena of scalar values addressed by
/// slot number. Its scatter-update walks the submitted pairs in order and
/// subtracts `grad * learning_rate` from each targeted slot, so
/// contributions aimed at the same slot combine additively before anything
/// else observes the pool; it never reassigns an index.
pub struct PoolSubstrate<T> {
    pub slots: Vec<T>,
}

impl<T: Scalar> Substrate<T> for PoolSubstrate<T> {
    open spec fn contents(&self) -> Seq<T> {
        self.slots@
    }

    fn size(&self) -> (r: usize) {
        self.slots.len()
    }

    fn get(&self, i: usize) -> (r: T) {
        self.slots[i]
    }

    /// Beyond the boundary contract, this implementation leaves every slot
    /// that no index entry refers to untouched, and hands both matrices
    /// back unchanged.
    fn highspeed(&mut self, grad: &mut Matrix<T>, index: &mut Matrix<usize>, learning_rate: T)
        ensures
            *final(grad) == *old(grad),
            *final(index) == *old(index),
            forall|s: int|
                0 <= s < old(self).slots@.len() && !slot_targeted(*old(index), s)
                    ==> final(self).slots@[s] == old(self).slots@[s],
    {
        let rn = grad.rows();
        let cn = grad.cols();
        let mut i: usize = 0;
        while i < rn
            invariant
                grad.wf(),
                index.wf(),
                rn == grad.rows_n(),
                cn == grad.width,
                index.rows_n() == grad.rows_n(),
                index.width == grad.width,
                *grad == *old(grad),
                *index == *old(index),
                self.slots@.len() == old(self).slots@.len(),
                forall|p: int, q: int|
                    0 <= p < index.rows_n() && 0 <= q < index.width ==> index.at(p, q)
                        < self.slots@.len(),
                forall|s: int|
                    0 <= s < old(self).slots@.len() && !slot_targeted(*index, s)
                        ==> self.slots@[s] == old(self).slots@[s],
                i <= rn,
            decreases rn - i,
        {
            let mut j: usize = 0;
            while j < cn
                invariant
                    grad.wf(),
                    index.wf(),
                    rn == grad.rows_n(),
                    cn == grad.width,
                    index.rows_n() == grad.rows_n(),
                    index.width == grad.width,
                    *grad == *old(grad),
                    *index == *old(index),
                    self.slots@.len() == old(self).slots@.len(),
                    forall|p: int, q: int|
                        0 <= p < index.rows_n() && 0 <= q < index.width ==> index.at(p, q)
                            < self.slots@.len(),
                    forall|s: int|
                        0 <= s < old(self).slots@.len() && !slot_targeted(*index, s)
                            ==> self.slots@[s] == old(self).slots@[s],
                    i < rn,
                    j <= cn,
                decreases cn - j,
            {
                let ix = index.get(i, j);
                let g = grad.get(i, j);
                let cur = self.slots[ix];
                proof {
                    assert(slot_targeted(*index, ix as int));
                }
                self.slots[ix] = cur.minus(&g.times(&learning_rate));
                j += 1;
            }
            i += 1;
        }
    }
}

} // verus!
