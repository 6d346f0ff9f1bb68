use vstd::prelude::*;

use core::ops::Range;

use crate::capability::Activation;
use crate::capability::Loss;
use crate::capability::StopRule;
use crate::layer::Layer;
use crate::matrix::Matrix;
use crate::matrix::vec_copy;
use crate::rng::random_in_range;
use crate::rng::sample_positions;
use crate::scalar::Scalar;
use crate::substrate::Substrate;

verus! {

/// Whether a layer's gradient accumulators are cleared after each update
/// step (`Zero`) or left to accumulate across steps (`Roll`).
#[derive(Clone, Copy, Debug, PartialEq, Eq, Structural)]
pub enum GradientRetention {
    Roll,
    Zero,
}

/// An ordered chain of layers together with the training configuration.
///
/// The substrate is not owned here: every operation that needs the pool
/// takes it as an argument, which is also how one pool may back several
/// manifolds at once.
pub struct Manifold<T> {
    pub d_in: usize,
    pub d_out: usize,
    /// The hidden-layer width schedule; the output width is not included.
    pub layers: Vec<usize>,
    /// The realized layer chain, built by `weave`.
    pub web: Vec<Layer<T>>,
    pub hidden_activation: Activation,
    pub output_activation: Activation,
    /// Reserved for frontends that report per-epoch progress; the engine
    /// itself never reads it.
    pub verbose: bool,
    pub loss: Loss,
    pub gradient_retention: GradientRetention,
    pub learning_rate: T,
    /// The learning rate is multiplied by this factor once per epoch.
    pub decay: T,
    pub early_terminate: StopRule<T>,
    pub epochs: usize,
    pub sample_size: usize,
    /// Per-epoch average losses, append-only across a training run.
    pub losses: Vec<T>,
    /// The additive identity handed to every layer.
    pub zero: T,
}

impl<T: Scalar> Manifold<T> {
    /// The input width of position `k` of the chain.
    pub open spec fn width_in(self, k: int) -> int {
        if k == 0 {
            self.d_in as int
        } else {
            self.layers@[k - 1] as int
        }
    }

    /// The output width of position `k` of the chain.
    pub open spec fn width_out(self, k: int) -> int {
        if k < self.layers@.len() {
            self.layers@[k] as int
        } else {
            self.d_out as int
        }
    }

    /// The chain is fully built: one layer per hidden width plus the output
    /// layer, each well formed, each layer's input width equal to the
    /// previous one's output width, starting at `d_in` and ending at `d_out`.
    pub open spec fn chained(self) -> bool {
        &&& self.web@.len() == self.layers@.len() + 1
        &&& forall|k: int| 0 <= k < self.web@.len() ==> (#[trigger] self.web@[k]).wf()
        &&& forall|k: int|
            0 <= k < self.web@.len() ==> (#[trigger] self.web@[k]).in_width() == self.width_in(k)
        &&& forall|k: int|
            0 <= k < self.web@.len() ==> (#[trigger] self.web@[k]).out_width() == self.width_out(
                k,
            )
    }

    /// Every index entry of every layer lies in `[0, bound)`.
    pub open spec fn links_in_range(self, bound: int) -> bool {
        forall|k: int|
            0 <= k < self.web@.len() ==> (#[trigger] self.web@[k]).links_in_range(bound)
    }

    /// Every layer's dense weights and bias match the pool.
    pub open spec fn gathered(self, pool: Seq<T>) -> bool {
        forall|k: int| 0 <= k < self.web@.len() ==> (#[trigger] self.web@[k]).gathered(pool)
    }

    /// Every layer holds a forward cache for a batch of `batch` rows.
    pub open spec fn forwarded(self, batch: int) -> bool {
        forall|k: int|
            0 <= k < self.web@.len() ==> (#[trigger] self.web@[k]).x.rows_n() == batch
                && self.web@[k].d_z.rows_n() == batch
    }

    /// Every layer's gradient accumulators hold only its fill scalar.
    pub open spec fn grads_cleared(self) -> bool {
        forall|k: int|
            0 <= k < self.web@.len() ==> (#[trigger] self.web@[k]).grads_are(self.web@[k].zero)
    }

    /// The configuration of `other` equals that of `self`; the layer chain,
    /// the loss history and the learning rate are left unconstrained.
    pub open spec fn same_config(self, other: Manifold<T>) -> bool {
        &&& other.d_in == self.d_in
        &&& other.d_out == self.d_out
        &&& other.layers == self.layers
        &&& other.hidden_activation == self.hidden_activation
        &&& other.output_activation == self.output_activation
        &&& other.verbose == self.verbose
        &&& other.loss == self.loss
        &&& other.gradient_retention == self.gradient_retention
        &&& other.early_terminate == self.early_terminate
        &&& other.epochs == self.epochs
        &&& other.sample_size == self.sample_size
        &&& other.zero == self.zero
    }

    /// In a built chain the widths agree across every seam: the first
    /// layer's input width is `d_in`, the output width of each layer is the
    /// input width of the next, and the last layer's output width is
    /// `d_out`.
    pub proof fn lemma_adjacent_widths(self, k: int)
        requires
            self.chained(),
            0 <= k < self.web@.len() - 1,
        ensures
            self.web@[k].out_width() == self.web@[k + 1].in_width(),
            self.web@[0].in_width() == self.d_in,
            self.web@[self.web@.len() - 1].out_width() == self.d_out,
    {
    }

    /// A manifold with a caller-specified hidden-width schedule and the
    /// documented defaults: ReLU hidden activation, identity output
    /// activation, mean-squared-error loss, Roll retention, a learning rate
    /// of 1/1000, a decay factor of 1 (no decay), no early termination, an
    /// epoch budget of 1000 and a sample size of 10. The chain is left
    /// unbuilt until `weave` is called.
    pub fn new(d_in: usize, d_out: usize, layers: Vec<usize>) -> (m: Manifold<T>)
        ensures
            m.d_in == d_in,
            m.d_out == d_out,
            m.layers == layers,
            m.web@.len() == 0,
            m.hidden_activation == Activation::Relu,
            m.output_activation == Activation::Identity,
            m.verbose == false,
            m.loss == Loss::Mse,
            m.gradient_retention == GradientRetention::Roll,
            m.early_terminate is Never,
            m.epochs == 1000,
            m.sample_size == 10,
            m.losses@.len() == 0,
    {
        (Manifold {
            d_in,
            d_out,
            layers,
            web: Vec::new(),
            hidden_activation: Activation::Relu,
            output_activation: Activation::Identity,
            verbose: false,
            loss: Loss::Mse,
            gradient_retention: GradientRetention::Roll,
            learning_rate: T::ratio(1, 1000),
            decay: T::ratio(1, 1),
            early_terminate: StopRule::Never,
            epochs: 1000,
            sample_size: 10,
            losses: Vec::new(),
            zero: T::ratio(0, 1),
        })
    }

    /// A manifold with a randomized topology: the hidden-layer count is
    /// drawn uniformly from `depth` and each hidden width uniformly from
    /// `breadth`. Defaults are those of `new`, except that the sample size
    /// is 1.
    pub fn dynamic(
        d_in: usize,
        d_out: usize,
        breadth: Range<usize>,
        depth: Range<usize>,
    ) -> (m: Manifold<T>)
        requires
            breadth.start < breadth.end,
            depth.start < depth.end,
        ensures
            m.d_in == d_in,
            m.d_out == d_out,
            depth.start <= m.layers@.len() < depth.end,
            forall|i: int|
                0 <= i < m.layers@.len() ==> breadth.start <= #[trigger] m.layers@[i]
                    < breadth.end,
            m.web@.len() == 0,
            m.hidden_activation == Activation::Relu,
            m.output_activation == Activation::Identity,
            m.verbose == false,
            m.loss == Loss::Mse,
            m.gradient_retention == GradientRetention::Roll,
            m.early_terminate is Never,
            m.epochs == 1000,
            m.sample_size == 1,
            m.losses@.len() == 0,
    {
        let depth_n = random_in_range(depth.start, depth.end);
        let mut layers: Vec<usize> = Vec::new();
        let mut i: usize = 0;
        while i < depth_n
            invariant
                breadth.start < breadth.end,
                i <= depth_n,
                layers@.len() == i,
                forall|p: int|
                    0 <= p < i ==> breadth.start <= #[trigger] layers@[p] < breadth.end,
            decreases depth_n - i,
        {
            layers.push(random_in_range(breadth.start, breadth.end));
            i += 1;
        }
        let mut m: Manifold<T> = Manifold::new(d_in, d_out, layers);
        m.sample_size = 1;
        m
    }

    pub fn set_hidden_activation(&mut self, activation: Activation)
        ensures
            *final(self) == (Manifold { hidden_activation: activation, ..*old(self) }),
    {
        self.hidden_activation = activation;
    }

    pub fn set_output_activation(&mut self, activation: Activation)
        ensures
            *final(self) == (Manifold { output_activation: activation, ..*old(self) }),
    {
        self.output_activation = activation;
    }

    pub fn verbose(&mut self)
        ensures
            *final(self) == (Manifold { verbose: true, ..*old(self) }),
    {
        self.verbose = true;
    }

    pub fn set_loss(&mut self, loss: Loss)
        ensures
            *final(self) == (Manifold { loss, ..*old(self) }),
    {
        self.loss = loss;
    }

    pub fn set_gradient_retention(&mut self, method: GradientRetention)
        ensures
            *final(self) == (Manifold { gradient_retention: method, ..*old(self) }),
    {
        self.gradient_retention = method;
    }

    pub fn set_learning_rate(&mut self, rate: T)
        ensures
            *final(self) == (Manifold { learning_rate: rate, ..*old(self) }),
    {
        self.learning_rate = rate;
    }

    pub fn set_decay(&mut self, decay: T)
        ensures
            *final(self) == (Manifold { decay, ..*old(self) }),
    {
        self.decay = decay;
    }

    /// Installs the default early-termination rule: stop once the mean
    /// improvement over the trailing `patience` loss pairs falls below
    /// `min_delta`.
    pub fn until(&mut self, patience: usize, min_delta: T)
        ensures
            *final(self) == (Manifold {
                early_terminate: StopRule::Stalled { patience, min_delta },
                ..*old(self)
            }),
    {
        self.early_terminate = StopRule::Stalled { patience, min_delta };
    }

    /// Installs an arbitrary early-termination rule.
    pub fn until_some(&mut self, early_terminate: StopRule<T>)
        ensures
            *final(self) == (Manifold { early_terminate, ..*old(self) }),
    {
        self.early_terminate = early_terminate;
    }

    pub fn set_epochs(&mut self, epochs: usize)
        ensures
            *final(self) == (Manifold { epochs, ..*old(self) }),
    {
        self.epochs = epochs;
    }

    pub fn set_sample_size(&mut self, sample_size: usize)
        ensures
            *final(self) == (Manifold { sample_size, ..*old(self) }),
    {
        self.sample_size = sample_size;
    }

    /// Builds the layer chain from the width schedule: one layer per hidden
    /// width plus a final output layer, threading each layer's output width
    /// into the next layer's input width, with every index entry drawn
    /// uniformly from `[0, pool size)` and every numeric buffer cleared.
    pub fn weave<S: Substrate<T>>(&mut self, substrate: &S)
        requires
            old(self).web@.len() == 0,
            substrate.contents().len() >= 1,
        ensures
            final(self).chained(),
            final(self).links_in_range(substrate.contents().len() as int),
            final(self).grads_cleared(),
            old(self).same_config(*final(self)),
            final(self).losses == old(self).losses,
            final(self).learning_rate == old(self).learning_rate,
            final(self).decay == old(self).decay,
            forall|k: int|
                0 <= k < final(self).web@.len() ==> (#[trigger] final(self).web@[k]).zero
                    == old(self).zero,
            forall|k: int|
                0 <= k < final(self).layers@.len()
                    ==> (#[trigger] final(self).web@[k]).activation == old(self).hidden_activation,
            final(self).web@[final(self).layers@.len() as int].activation == old(
                self,
            ).output_activation,
    {
        let size = substrate.size();
        let mut p_dim = self.d_in;
        let mut idx: usize = 0;
        while idx < self.layers.len()
            invariant
                size == substrate.contents().len(),
                size >= 1,
                old(self).same_config(*self),
                self.losses == old(self).losses,
                self.learning_rate == old(self).learning_rate,
                self.decay == old(self).decay,
                idx <= self.layers@.len(),
                self.web@.len() == idx,
                p_dim as int == self.width_in(idx as int),
                forall|k: int| 0 <= k < idx ==> (#[trigger] self.web@[k]).wf(),
                forall|k: int|
                    0 <= k < idx ==> (#[trigger] self.web@[k]).in_width() == self.width_in(k),
                forall|k: int|
                    0 <= k < idx ==> (#[trigger] self.web@[k]).out_width() == self.width_out(k),
                forall|k: int|
                    0 <= k < idx ==> (#[trigger] self.web@[k]).links_in_range(size as int),
                forall|k: int|
                    0 <= k < idx ==> (#[trigger] self.web@[k]).grads_are(self.web@[k].zero),
                forall|k: int| 0 <= k < idx ==> (#[trigger] self.web@[k]).zero == self.zero,
                forall|k: int|
                    0 <= k < idx ==> (#[trigger] self.web@[k]).activation
                        == self.hidden_activation,
            decreases self.layers@.len() - idx,
        {
            let width = self.layers[idx];
            let l = Layer::new(
                size,
                (1, p_dim),
                (p_dim, width),
                width,
                self.hidden_activation,
                self.zero,
            );
            self.web.push(l);
            p_dim = width;
            idx += 1;
        }
        let l = Layer::new(
            size,
            (1, p_dim),
            (p_dim, self.d_out),
            self.d_out,
            self.output_activation,
            self.zero,
        );
        self.web.push(l);
    }

    /// Synchronizes every layer's dense weights and bias with the current
    /// pool contents.
    pub fn gather<S: Substrate<T>>(&mut self, substrate: &S)
        requires
            old(self).chained(),
            old(self).links_in_range(substrate.contents().len() as int),
        ensures
            final(self).chained(),
            final(self).links_in_range(substrate.contents().len() as int),
            final(self).gathered(substrate.contents()),
            old(self).same_config(*final(self)),
            final(self).losses == old(self).losses,
            final(self).learning_rate == old(self).learning_rate,
            final(self).decay == old(self).decay,
            final(self).web@.len() == old(self).web@.len(),
            forall|k: int|
                0 <= k < old(self).web@.len() ==> (#[trigger] final(self).web@[k]).wi == old(
                    self,
                ).web@[k].wi,
            forall|k: int|
                0 <= k < old(self).web@.len() ==> (#[trigger] final(self).web@[k]).bi == old(
                    self,
                ).web@[k].bi,
            forall|k: int|
                0 <= k < old(self).web@.len() ==> (#[trigger] final(self).web@[k]).x == old(
                    self,
                ).web@[k].x,
            forall|k: int|
                0 <= k < old(self).web@.len() ==> (#[trigger] final(self).web@[k]).d_z == old(
                    self,
                ).web@[k].d_z,
            forall|k: int|
                0 <= k < old(self).web@.len() ==> (#[trigger] final(self).web@[k]).grad_w == old(
                    self,
                ).web@[k].grad_w,
            forall|k: int|
                0 <= k < old(self).web@.len() ==> (#[trigger] final(self).web@[k]).grad_b == old(
                    self,
                ).web@[k].grad_b,
            forall|k: int|
                0 <= k < old(self).web@.len() ==> (#[trigger] final(self).web@[k]).zero == old(
                    self,
                ).web@[k].zero,
    {
        let n = self.web.len();
        let mut k: usize = 0;
        while k < n
            invariant
                n == self.web@.len(),
                k <= n,
                self.chained(),
                self.links_in_range(substrate.contents().len() as int),
                old(self).same_config(*self),
                self.losses == old(self).losses,
                self.learning_rate == old(self).learning_rate,
                self.decay == old(self).decay,
                self.web@.len() == old(self).web@.len(),
                forall|p: int|
                    0 <= p < k ==> (#[trigger] self.web@[p]).gathered(substrate.contents()),
                forall|p: int|
                    0 <= p < old(self).web@.len() ==> (#[trigger] self.web@[p]).wi == old(
                        self,
                    ).web@[p].wi,
                forall|p: int|
                    0 <= p < old(self).web@.len() ==> (#[trigger] self.web@[p]).bi == old(
                        self,
                    ).web@[p].bi,
                forall|p: int|
                    0 <= p < old(self).web@.len() ==> (#[trigger] self.web@[p]).x == old(
                        self,
                    ).web@[p].x,
                forall|p: int|
                    0 <= p < old(self).web@.len() ==> (#[trigger] self.web@[p]).d_z == old(
                        self,
                    ).web@[p].d_z,
                forall|p: int|
                    0 <= p < old(self).web@.len() ==> (#[trigger] self.web@[p]).grad_w == old(
                        self,
                    ).web@[p].grad_w,
                forall|p: int|
                    0 <= p < old(self).web@.len() ==> (#[trigger] self.web@[p]).grad_b == old(
                        self,
                    ).web@[p].grad_b,
                forall|p: int|
                    0 <= p < old(self).web@.len() ==> (#[trigger] self.web@[p]).zero == old(
                        self,
                    ).web@[p].zero,
            decreases n - k,
        {
            let l = &mut self.web[k];
            l.gather(substrate);
            k += 1;
        }
    }

    /// Reshapes a flat input vector into a one-row matrix.
    fn prepare(&self, x: Vec<T>) -> (m: Matrix<T>)
        ensures
            m.wf(),
            m.rows_n() == 1,
            m.width == x@.len(),
            m.elems@[0]@ == x@,
    {
        Matrix::from_row(&x)
    }

    /// Threads a flat input vector of length `d_in` through every layer in
    /// order and returns the final output, flattened to length `d_out`.
    pub fn forward(&mut self, xv: Vec<T>) -> (y: Vec<T>)
        requires
            old(self).chained(),
            xv@.len() == old(self).d_in,
        ensures
            final(self).chained(),
            y@.len() == old(self).d_out,
            final(self).forwarded(1),
            old(self).same_config(*final(self)),
            final(self).losses == old(self).losses,
            final(self).learning_rate == old(self).learning_rate,
            final(self).decay == old(self).decay,
            final(self).web@.len() == old(self).web@.len(),
            forall|k: int|
                0 <= k < old(self).web@.len()
                    ==> (#[trigger] final(self).web@[k]).same_weights(old(self).web@[k]),
    {
        let mut x = self.prepare(xv);
        let n = self.web.len();
        let mut k: usize = 0;
        while k < n
            invariant
                n == self.web@.len(),
                k <= n,
                self.chained(),
                old(self).same_config(*self),
                self.losses == old(self).losses,
                self.learning_rate == old(self).learning_rate,
                self.decay == old(self).decay,
                self.web@.len() == old(self).web@.len(),
                x.wf(),
                x.rows_n() == 1,
                x.width as int == (if k == 0 {
                    self.d_in as int
                } else {
                    self.width_out(k - 1)
                }),
                forall|p: int|
                    0 <= p < old(self).web@.len()
                        ==> (#[trigger] self.web@[p]).same_weights(old(self).web@[p]),
                forall|p: int|
                    0 <= p < k ==> (#[trigger] self.web@[p]).x.rows_n() == 1
                        && self.web@[p].d_z.rows_n() == 1,
            decreases n - k,
        {
            let l = &mut self.web[k];
            x = l.forward(x);
            k += 1;
        }
        x.row(0)
    }

    /// One full update step. The loss gradient of the prediction against
    /// the target is threaded through the layers in reverse order; after
    /// each layer's backward pass its accumulated gradients are submitted,
    /// with the layer's index matrices, to the substrate's scatter-update
    /// at the current learning rate, the layer is re-gathered so its dense
    /// values reflect the just-updated pool, and, under Zero retention, its
    /// accumulators are cleared (under Roll they are left untouched).
    ///
    /// Both the weight and the bias indices follow one uniform path: the
    /// matrices handed to the substrate are taken back wholesale, so any
    /// slot reassignment the substrate made lands in `wi` and `bi` as is.
    pub fn backwards<S: Substrate<T>>(
        &mut self,
        y_pred: Vec<T>,
        y: Vec<T>,
        loss: Loss,
        substrate: &mut S,
    )
        requires
            old(self).chained(),
            old(self).forwarded(1),
            old(self).links_in_range(old(substrate).contents().len() as int),
            y_pred@.len() == old(self).d_out,
            y@.len() == old(self).d_out,
            old(self).d_out >= 1,
        ensures
            final(self).chained(),
            final(self).forwarded(1),
            final(substrate).contents().len() == old(substrate).contents().len(),
            final(self).links_in_range(final(substrate).contents().len() as int),
            old(self).same_config(*final(self)),
            final(self).losses == old(self).losses,
            final(self).learning_rate == old(self).learning_rate,
            final(self).decay == old(self).decay,
            final(self).web@.len() == old(self).web@.len(),
            forall|k: int|
                0 <= k < final(self).web@.len() ==> (#[trigger] final(self).web@[k]).zero == old(
                    self,
                ).web@[k].zero,
            (old(self).gradient_retention == GradientRetention::Zero)
                ==> final(self).grads_cleared(),
    {
        let gvec = loss.d(&y_pred, &y);
        let mut grad_output = Matrix::from_row(&gvec);
        let mut k = self.web.len();
        while k > 0
            invariant
                k <= self.web@.len(),
                self.chained(),
                self.forwarded(1),
                old(self).same_config(*self),
                self.losses == old(self).losses,
                self.learning_rate == old(self).learning_rate,
                self.decay == old(self).decay,
                self.web@.len() == old(self).web@.len(),
                substrate.contents().len() == old(substrate).contents().len(),
                self.links_in_range(substrate.contents().len() as int),
                grad_output.wf(),
                grad_output.rows_n() == 1,
                k > 0 ==> grad_output.width as int == self.width_out(k - 1),
                forall|p: int|
                    0 <= p < self.web@.len() ==> (#[trigger] self.web@[p]).zero == old(
                        self,
                    ).web@[p].zero,
                (self.gradient_retention == GradientRetention::Zero) ==> forall|p: int|
                    k <= p < self.web@.len() ==> (#[trigger] self.web@[p]).grads_are(
                        self.web@[p].zero,
                    ),
            decreases k,
        {
            k -= 1;
            let lr = self.learning_rate;
            let clear = match self.gradient_retention {
                GradientRetention::Zero => true,
                GradientRetention::Roll => false,
            };
            let l = &mut self.web[k];
            grad_output = l.backward(grad_output);
            l.scatter_update(substrate, lr, clear);
        }
    }

    /// The training loop. Inputs are paired with targets positionally; each
    /// epoch draws `sample_size` distinct pairs without replacement,
    /// forwards and backwards each of them, decays the learning rate,
    /// appends the epoch's mean sampled loss to the history and stops early
    /// as soon as the early-termination rule fires on the whole history.
    /// The history grows by exactly one entry per executed epoch, and never
    /// by more than the epoch budget.
    pub fn train<S: Substrate<T>>(&mut self, x: Vec<Vec<T>>, y: Vec<Vec<T>>, substrate: &mut S)
        requires
            old(self).chained(),
            old(self).links_in_range(old(substrate).contents().len() as int),
            old(self).d_out >= 1,
            old(self).sample_size >= 1,
            x@.len() >= 1,
            y@.len() >= 1,
            forall|i: int|
                0 <= i < x@.len() && i < y@.len() ==> (#[trigger] x@[i])@.len() == old(
                    self,
                ).d_in,
            forall|i: int|
                0 <= i < x@.len() && i < y@.len() ==> (#[trigger] y@[i])@.len() == old(
                    self,
                ).d_out,
        ensures
            final(self).chained(),
            final(substrate).contents().len() == old(substrate).contents().len(),
            final(self).links_in_range(final(substrate).contents().len() as int),
            old(self).same_config(*final(self)),
            final(self).losses@.len() <= old(self).losses@.len() + old(self).epochs,
            final(self).losses@.subrange(0, old(self).losses@.len() as int) == old(self).losses@,
            old(self).epochs >= 1 ==> final(self).losses@.len() >= old(self).losses@.len() + 1,
            (old(self).early_terminate is Never) ==> final(self).losses@.len() == old(
                self,
            ).losses@.len() + old(self).epochs,
    {
        let n = if x.len() < y.len() {
            x.len()
        } else {
            y.len()
        };
        let mut epoch: usize = 0;
        let mut stop: bool = false;
        while epoch < self.epochs && !stop
            invariant
                self.chained(),
                old(self).same_config(*self),
                substrate.contents().len() == old(substrate).contents().len(),
                self.links_in_range(substrate.contents().len() as int),
                n >= 1,
                n <= x@.len(),
                n <= y@.len(),
                forall|i: int|
                    0 <= i < x@.len() && i < y@.len() ==> (#[trigger] x@[i])@.len() == old(
                        self,
                    ).d_in,
                forall|i: int|
                    0 <= i < x@.len() && i < y@.len() ==> (#[trigger] y@[i])@.len() == old(
                        self,
                    ).d_out,
                old(self).d_out >= 1,
                old(self).sample_size >= 1,
                epoch <= self.epochs,
                stop ==> epoch >= 1,
                (old(self).early_terminate is Never) ==> !stop,
                self.losses@.len() == old(self).losses@.len() + epoch,
                self.losses@.subrange(0, old(self).losses@.len() as int) == old(self).losses@,
                epoch >= 1 ==> self.losses@.len() >= old(self).losses@.len() + 1,
            decreases self.epochs - epoch,
        {
            let idxs = sample_positions(n, self.sample_size);
            let count = idxs.len();
            let mut acc: T = self.zero;
            let mut s: usize = 0;
            while s < count
                invariant
                    self.chained(),
                    old(self).same_config(*self),
                    substrate.contents().len() == old(substrate).contents().len(),
                    self.links_in_range(substrate.contents().len() as int),
                    n >= 1,
                    n <= x@.len(),
                    n <= y@.len(),
                    forall|i: int|
                        0 <= i < x@.len() && i < y@.len() ==> (#[trigger] x@[i])@.len() == old(
                            self,
                        ).d_in,
                    forall|i: int|
                        0 <= i < x@.len() && i < y@.len() ==> (#[trigger] y@[i])@.len() == old(
                            self,
                        ).d_out,
                    old(self).d_out >= 1,
                    count == idxs@.len(),
                    forall|p: int| 0 <= p < idxs@.len() ==> #[trigger] idxs@[p] < n,
                    s <= count,
                    self.losses@.len() == old(self).losses@.len() + epoch,
                    self.losses@.subrange(0, old(self).losses@.len() as int) == old(self).losses@,
                    epoch < self.epochs,
                decreases count - s,
            {
                let idx = idxs[s];
                let xi = vec_copy(&x[idx]);
                let yi = vec_copy(&y[idx]);
                let y_pred = self.forward(xi);
                let lv = self.loss.a(&y_pred, &yi);
                acc = acc.plus(&lv);
                let loss = self.loss;
                self.backwards(y_pred, yi, loss, substrate);
                s += 1;
            }
            let d = self.decay;
            self.learning_rate = self.learning_rate.times(&d);
            let avg = acc.div_count(count);
            self.losses.push(avg);
            if self.early_terminate.fires(&self.losses) {
                stop = true;
            }
            epoch += 1;
        }
    }
}

} // verus!
