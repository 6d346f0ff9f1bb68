use vstd::prelude::*;

use crate::matrix::Matrix;
use crate::scalar::Scalar;

verus! {

/// The activation capability: a closed set of elementwise nonlinearities,
/// each offering the function itself and its derivative, both evaluated at
/// the same pre-activation input.
#[derive(Clone, Copy, Debug, PartialEq, Eq, Structural)]
pub enum Activation {
    /// `max(0, z)` elementwise.
    Relu,
    /// `z` itself; the default output activation.
    Identity,
}

impl Activation {
    /// The nonlinearity applied elementwise; the result has the shape of `z`.
    pub fn a<T: Scalar>(&self, z: &Matrix<T>) -> (m: Matrix<T>)
        requires
            z.wf(),
        ensures
            m.wf(),
            m.rows_n() == z.rows_n(),
            m.width == z.width,
    {
        match self {
            Activation::Relu => {
                let zero: T = T::ratio(0, 1);
                let rn = z.elems.len();
                let cn = z.width;
                let mut elems: Vec<Vec<T>> = Vec::new();
                let mut i: usize = 0;
                while i < rn
                    invariant
                        z.wf(),
                        rn == z.rows_n(),
                        cn == z.width,
                        i <= rn,
                        elems@.len() == i,
                        forall|p: int| 0 <= p < i ==> (#[trigger] elems@[p])@.len() == cn,
                    decreases rn - i,
                {
                    let mut row: Vec<T> = Vec::new();
                    let mut j: usize = 0;
                    while j < cn
                        invariant
                            z.wf(),
                            rn == z.rows_n(),
                            cn == z.width,
                            i < rn,
                            j <= cn,
                            row@.len() == j,
                        decreases cn - j,
                    {
                        let v = z.get(i, j);
                        if v.lt(&zero) {
                            row.push(zero);
                        } else {
                            row.push(v);
                        }
                        j += 1;
                    }
                    elems.push(row);
                    i += 1;
                }
                (Matrix { elems, width: cn })
            },
            Activation::Identity => {
                let rn = z.elems.len();
                let mut elems: Vec<Vec<T>> = Vec::new();
                let mut i: usize = 0;
                while i < rn
                    invariant
                        z.wf(),
                        rn == z.rows_n(),
                        i <= rn,
                        elems@.len() == i,
                        forall|p: int| 0 <= p < i ==> (#[trigger] elems@[p])@.len() == z.width,
                    decreases rn - i,
                {
                    elems.push(z.row(i));
                    i += 1;
                }
                (Matrix { elems, width: z.width })
            },
        }
    }

    /// The elementwise derivative evaluated at `z`; the result has the
    /// shape of `z`.
    pub fn d<T: Scalar>(&self, z: &Matrix<T>) -> (m: Matrix<T>)
        requires
            z.wf(),
        ensures
            m.wf(),
            m.rows_n() == z.rows_n(),
            m.width == z.width,
    {
        match self {
            Activation::Relu => {
                let zero: T = T::ratio(0, 1);
                let one: T = T::ratio(1, 1);
                let rn = z.elems.len();
                let cn = z.width;
                let mut elems: Vec<Vec<T>> = Vec::new();
                let mut i: usize = 0;
                while i < rn
                    invariant
                        z.wf(),
                        rn == z.rows_n(),
                        cn == z.width,
                        i <= rn,
                        elems@.len() == i,
                        forall|p: int| 0 <= p < i ==> (#[trigger] elems@[p])@.len() == cn,
                    decreases rn - i,
                {
                    let mut row: Vec<T> = Vec::new();
                    let mut j: usize = 0;
                    while j < cn
                        invariant
                            z.wf(),
                            rn == z.rows_n(),
                            cn == z.width,
                            i < rn,
                            j <= cn,
                            row@.len() == j,
                        decreases cn - j,
                    {
                        let v = z.get(i, j);
                        if v.lt(&zero) {
                            row.push(zero);
                        } else {
                            row.push(one);
                        }
                        j += 1;
                    }
                    elems.push(row);
                    i += 1;
                }
                (Matrix { elems, width: cn })
            },
            Activation::Identity => {
                let one: T = T::ratio(1, 1);
                Matrix::fill(z.elems.len(), z.width, one)
            },
        }
    }
}

/// The loss capability: a closed set of loss functions, each offering the
/// scalar loss and its gradient with respect to the prediction.
#[derive(Clone, Copy, Debug, PartialEq, Eq, Structural)]
pub enum Loss {
    /// Mean squared error; the default loss.
    Mse,
}

impl Loss {
    /// The scalar loss of a prediction against a target of the same length.
    pub fn a<T: Scalar>(&self, prediction: &Vec<T>, target: &Vec<T>) -> T
        requires
            prediction@.len() == target@.len(),
            prediction@.len() >= 1,
    {
        match self {
            Loss::Mse => {
                let mut acc: T = T::ratio(0, 1);
                let mut i: usize = 0;
                while i < prediction.len()
                    invariant
                        prediction@.len() == target@.len(),
                        i <= prediction@.len(),
                    decreases prediction@.len() - i,
                {
                    let d = prediction[i].minus(&target[i]);
                    acc = acc.plus(&d.times(&d));
                    i += 1;
                }
                acc.div_count(prediction.len())
            },
        }
    }

    /// The gradient of the loss with respect to the prediction; the result
    /// has the prediction's length.
    pub fn d<T: Scalar>(&self, prediction: &Vec<T>, target: &Vec<T>) -> (r: Vec<T>)
        requires
            prediction@.len() == target@.len(),
            prediction@.len() >= 1,
        ensures
            r@.len() == prediction@.len(),
    {
        match self {
            Loss::Mse => {
                let two: T = T::ratio(2, 1);
                let n = prediction.len();
                let mut out: Vec<T> = Vec::new();
                let mut i: usize = 0;
                while i < n
                    invariant
                        prediction@.len() == target@.len(),
                        n == prediction@.len(),
                        n >= 1,
                        i <= n,
                        out@.len() == i,
                    decreases n - i,
                {
                    let d = prediction[i].minus(&target[i]);
                    out.push(d.times(&two).div_count(n));
                    i += 1;
                }
                out
            },
        }
    }
}

/// The early-termination strategy evaluated against the full loss history
/// after every epoch.
#[derive(Clone, Copy, Debug)]
pub enum StopRule<T> {
    /// Never stop early; the default.
    Never,
    /// Stop once the mean improvement over the trailing `patience` loss
    /// pairs falls below `min_delta`.
    Stalled { patience: usize, min_delta: T },
}

impl<T: Scalar> StopRule<T> {
    /// Whether the rule asks to stop, given the full loss history.
    ///
    /// `Stalled` returns false on a history shorter than `patience + 2`
    /// (insufficient history is an explicit non-error) and with a patience
    /// of zero; otherwise it averages `previous - current` over the
    /// trailing `patience` consecutive loss pairs, newest pair first, and
    /// asks to stop exactly when that mean improvement is strictly below
    /// `min_delta`.
    pub fn fires(&self, losses: &Vec<T>) -> (r: bool)
        ensures
            (self is Never) ==> r == false,
            (self matches StopRule::Stalled { patience, .. } && losses@.len() < patience + 2)
                ==> r == false,
            (self matches StopRule::Stalled { patience, .. } && patience == 0) ==> r == false,
    {
        match self {
            StopRule::Never => false,
            StopRule::Stalled { patience, min_delta } => {
                let p: usize = *patience;
                let len = losses.len();
                if len < 2 || len - 2 < p || p == 0 {
                    return false;
                }
                let mut acc: T = T::ratio(0, 1);
                let mut step: usize = 0;
                while step < p
                    invariant
                        p >= 1,
                        len == losses@.len(),
                        len >= 2,
                        p <= len - 2,
                        step <= p,
                    decreases p - step,
                {
                    let i = len - 1 - step;
                    let delta = losses[i - 1].minus(&losses[i]);
                    acc = acc.plus(&delta);
                    step += 1;
                }
                let avg = acc.div_count(p);
                avg.lt(min_delta)
            },
        }
    }
}

} // verus!
