use plural::Activation;
use plural::GradientRetention;
use plural::Layer;
use plural::Loss;
use plural::Manifold;
use plural::Matrix;
use plural::PoolSubstrate;
use plural::Scalar;
use plural::StopRule;
use plural::Substrate;
use plural::rng::random_index_vec;
use plural::rng::sample_positions;

/// The scalar used by every test: a plain f64.
#[derive(Clone, Copy, Debug, PartialEq)]
struct R(f64);

impl Scalar for R {
    fn plus(&self, other: &Self) -> Self {
        R(self.0 + other.0)
    }
    fn minus(&self, other: &Self) -> Self {
        R(self.0 - other.0)
    }
    fn times(&self, other: &Self) -> Self {
        R(self.0 * other.0)
    }
    fn div_count(&self, n: usize) -> Self {
        R(self.0 / n as f64)
    }
    fn lt(&self, other: &Self) -> bool {
        self.0 < other.0
    }
    fn ratio(num: usize, den: usize) -> Self {
        R(num as f64 / den as f64)
    }
}

/// A deterministic, collision-free substrate over 50 slots with
/// `get(i) == i`: the library's reference pool, which subtracts
/// `grad * learning_rate` from each targeted slot and never reassigns an
/// index.
fn stub50() -> PoolSubstrate<R> {
    PoolSubstrate { slots: (0..50).map(|i| R(i as f64)).collect() }
}

/// A layer with fixed indices, identity activation and zeroed buffers.
fn fixed_layer(wi: Vec<Vec<usize>>, bi: Vec<usize>, in_w: usize, out_w: usize) -> Layer<R> {
    Layer {
        x: Matrix { elems: vec![vec![R(0.0); in_w]], width: in_w },
        wi: Matrix { elems: wi, width: out_w },
        bi,
        w: Matrix { elems: vec![vec![R(0.0); out_w]; in_w], width: out_w },
        b: vec![R(0.0); out_w],
        d_z: Matrix { elems: vec![vec![R(0.0); out_w]; in_w], width: out_w },
        grad_w: Matrix { elems: vec![vec![R(0.0); out_w]; in_w], width: out_w },
        grad_b: vec![R(0.0); out_w],
        activation: Activation::Identity,
        zero: R(0.0),
    }
}

/// A 2 -> 3 -> 1 manifold with hand-picked indices over a pool of 50.
fn fixed_manifold() -> Manifold<R> {
    let mut m: Manifold<R> = Manifold::new(2, 1, vec![3]);
    m.web.push(fixed_layer(vec![vec![1, 2, 3], vec![4, 5, 6]], vec![7, 8, 9], 2, 3));
    m.web.push(fixed_layer(vec![vec![10], vec![11], vec![12]], vec![13], 3, 1));
    m
}

#[test]
fn layer_new_shapes_and_index_ranges() {
    let l: Layer<R> = Layer::new(50, (1, 2), (2, 3), 3, Activation::Relu, R(0.0));
    assert_eq!(l.wi.elems.len(), 2);
    assert_eq!(l.wi.width, 3);
    for row in &l.wi.elems {
        assert_eq!(row.len(), 3);
        for &ix in row {
            assert!(ix < 50);
        }
    }
    assert_eq!(l.bi.len(), 3);
    for &ix in &l.bi {
        assert!(ix < 50);
    }
    assert_eq!(l.activation, Activation::Relu);
    for row in &l.grad_w.elems {
        for &v in row {
            assert_eq!(v, R(0.0));
        }
    }
    for &v in &l.grad_b {
        assert_eq!(v, R(0.0));
    }
}

#[test]
fn layer_new_one_slot_pool_pins_every_index() {
    let l: Layer<R> = Layer::new(1, (1, 4), (4, 5), 5, Activation::Relu, R(0.0));
    for row in &l.wi.elems {
        for &ix in row {
            assert_eq!(ix, 0);
        }
    }
    for &ix in &l.bi {
        assert_eq!(ix, 0);
    }
}

#[test]
fn weave_builds_the_chained_web() {
    let stub: PoolSubstrate<R> = stub50();
    let mut m: Manifold<R> = Manifold::new(2, 1, vec![3, 4]);
    m.weave(&stub);
    assert_eq!(m.web.len(), 3);
    let widths = [(2, 3), (3, 4), (4, 1)];
    for (k, (i_w, o_w)) in widths.iter().enumerate() {
        assert_eq!(m.web[k].wi.elems.len(), *i_w);
        assert_eq!(m.web[k].wi.width, *o_w);
        assert_eq!(m.web[k].bi.len(), *o_w);
    }
    assert_eq!(m.web[0].activation, Activation::Relu);
    assert_eq!(m.web[1].activation, Activation::Relu);
    assert_eq!(m.web[2].activation, Activation::Identity);
}

#[test]
fn dynamic_samples_depth_and_breadth_in_range() {
    for _ in 0..20 {
        let m: Manifold<R> = Manifold::dynamic(2, 1, 3..6, 2..4);
        assert!(2 <= m.layers.len() && m.layers.len() < 4);
        for &w in &m.layers {
            assert!(3 <= w && w < 6);
        }
        assert_eq!(m.sample_size, 1);
        assert_eq!(m.web.len(), 0);
    }
}

#[test]
fn new_sets_documented_defaults() {
    let m: Manifold<R> = Manifold::new(2, 1, vec![3]);
    assert_eq!(m.d_in, 2);
    assert_eq!(m.d_out, 1);
    assert_eq!(m.layers, vec![3]);
    assert_eq!(m.hidden_activation, Activation::Relu);
    assert_eq!(m.output_activation, Activation::Identity);
    assert_eq!(m.loss, Loss::Mse);
    assert_eq!(m.gradient_retention, GradientRetention::Roll);
    assert_eq!(m.learning_rate, R(0.001));
    assert_eq!(m.decay, R(1.0));
    assert_eq!(m.epochs, 1000);
    assert_eq!(m.sample_size, 10);
    assert!(matches!(m.early_terminate, StopRule::Never));
    assert!(m.losses.is_empty());
    assert!(!m.verbose);
}

#[test]
fn builder_setters_update_configuration() {
    let mut m: Manifold<R> = Manifold::new(2, 1, vec![3]);
    m.set_hidden_activation(Activation::Identity);
    m.set_output_activation(Activation::Relu);
    m.set_loss(Loss::Mse);
    m.set_gradient_retention(GradientRetention::Zero);
    m.set_learning_rate(R(0.5));
    m.set_decay(R(0.9));
    m.set_epochs(7);
    m.set_sample_size(4);
    m.verbose();
    m.until(3, R(0.25));
    assert_eq!(m.hidden_activation, Activation::Identity);
    assert_eq!(m.output_activation, Activation::Relu);
    assert_eq!(m.gradient_retention, GradientRetention::Zero);
    assert_eq!(m.learning_rate, R(0.5));
    assert_eq!(m.decay, R(0.9));
    assert_eq!(m.epochs, 7);
    assert_eq!(m.sample_size, 4);
    assert!(m.verbose);
    assert!(
        matches!(m.early_terminate, StopRule::Stalled { patience: 3, min_delta } if min_delta == R(0.25))
    );
    m.until_some(StopRule::Never);
    assert!(matches!(m.early_terminate, StopRule::Never));
}

#[test]
fn gather_round_trip_matches_pool_exactly() {
    let stub = stub50();
    let mut m = fixed_manifold();
    m.gather(&stub);
    for l in &m.web {
        for i in 0..l.wi.elems.len() {
            for j in 0..l.wi.width {
                assert_eq!(l.w.elems[i][j], stub.get(l.wi.elems[i][j]));
            }
        }
        for j in 0..l.bi.len() {
            assert_eq!(l.b[j], stub.get(l.bi[j]));
        }
    }
}

#[test]
fn forward_computes_the_hand_derived_value() {
    let stub = stub50();
    let mut m = fixed_manifold();
    m.gather(&stub);
    // Layer 0: z = [1*1 + 2*4 + 7, 1*2 + 2*5 + 8, 1*3 + 2*6 + 9] = [16, 20, 24]
    // Layer 1: z = 16*10 + 20*11 + 24*12 + 13 = 681
    let y = m.forward(vec![R(1.0), R(2.0)]);
    assert_eq!(y, vec![R(681.0)]);
}

#[test]
fn forward_is_deterministic_for_fixed_pool_and_indices() {
    let stub = stub50();
    let mut m = fixed_manifold();
    m.gather(&stub);
    let y1 = m.forward(vec![R(1.0), R(2.0)]);
    let y2 = m.forward(vec![R(1.0), R(2.0)]);
    assert_eq!(y1, y2);
}

#[test]
fn one_train_step_updates_pool_by_learning_rate_times_gradient() {
    let mut stub = stub50();
    let mut m = fixed_manifold();
    m.set_learning_rate(R(0.1));
    m.set_epochs(1);
    m.set_sample_size(1);
    m.gather(&stub);
    m.train(vec![vec![R(1.0), R(2.0)]], vec![vec![R(680.0)]], &mut stub);
    // prediction 681, target 680, MSE loss = 1, loss gradient = [2].
    assert_eq!(m.losses, vec![R(1.0)]);
    // Output layer: grad_w = x^T * grad_z = [32, 40, 48]^T, grad_b = [2];
    // the accumulators hold their negatives, and the stub subtracts
    // grad * learning_rate from each targeted slot.
    assert_eq!(stub.slots[10], R(10.0 - (-32.0 * 0.1)));
    assert_eq!(stub.slots[11], R(11.0 - (-40.0 * 0.1)));
    assert_eq!(stub.slots[12], R(12.0 - (-48.0 * 0.1)));
    assert_eq!(stub.slots[13], R(13.0 - (-2.0 * 0.1)));
    // Hidden layer: grad_input at the output layer was [20, 22, 24], so
    // grad_w = [1,2]^T * [20,22,24] and grad_b = [20,22,24].
    assert_eq!(stub.slots[1], R(1.0 - (-20.0 * 0.1)));
    assert_eq!(stub.slots[2], R(2.0 - (-22.0 * 0.1)));
    assert_eq!(stub.slots[3], R(3.0 - (-24.0 * 0.1)));
    assert_eq!(stub.slots[4], R(4.0 - (-40.0 * 0.1)));
    assert_eq!(stub.slots[5], R(5.0 - (-44.0 * 0.1)));
    assert_eq!(stub.slots[6], R(6.0 - (-48.0 * 0.1)));
    assert_eq!(stub.slots[7], R(7.0 - (-20.0 * 0.1)));
    assert_eq!(stub.slots[8], R(8.0 - (-22.0 * 0.1)));
    assert_eq!(stub.slots[9], R(9.0 - (-24.0 * 0.1)));
    // Every layer was re-gathered against the updated pool.
    for l in &m.web {
        for i in 0..l.wi.elems.len() {
            for j in 0..l.wi.width {
                assert_eq!(l.w.elems[i][j], stub.get(l.wi.elems[i][j]));
            }
        }
        for j in 0..l.bi.len() {
            assert_eq!(l.b[j], stub.get(l.bi[j]));
        }
    }
}

#[test]
fn zero_retention_clears_accumulators_after_each_step() {
    let mut stub = stub50();
    let mut m = fixed_manifold();
    m.set_gradient_retention(GradientRetention::Zero);
    m.set_learning_rate(R(0.1));
    m.set_epochs(1);
    m.set_sample_size(1);
    m.gather(&stub);
    m.train(vec![vec![R(1.0), R(2.0)]], vec![vec![R(680.0)]], &mut stub);
    for l in &m.web {
        for row in &l.grad_w.elems {
            for &v in row {
                assert_eq!(v, R(0.0));
            }
        }
        for &v in &l.grad_b {
            assert_eq!(v, R(0.0));
        }
    }
}

#[test]
fn roll_retention_accumulates_across_steps() {
    // A zero learning rate freezes the pool: the substrate subtracts
    // grad * 0 from every targeted slot and reassigns nothing.
    let mut frozen = stub50();
    let mut m = fixed_manifold();
    m.set_learning_rate(R(0.0));
    m.gather(&frozen);
    let xv = vec![R(1.0), R(2.0)];
    let tv = vec![R(680.0)];
    let p1 = m.forward(xv.clone());
    m.backwards(p1, tv.clone(), Loss::Mse, &mut frozen);
    let gb1 = m.web[1].grad_b[0].0;
    let gw1 = m.web[1].grad_w.elems[0][0].0;
    assert_eq!(gb1, -2.0);
    assert_eq!(gw1, -32.0);
    // The pool is frozen, so the second step sees identical values and the
    // accumulators, never reset by the engine under Roll, double exactly.
    let p2 = m.forward(xv.clone());
    m.backwards(p2, tv.clone(), Loss::Mse, &mut frozen);
    assert_eq!(m.web[1].grad_b[0].0, 2.0 * gb1);
    assert_eq!(m.web[1].grad_w.elems[0][0].0, 2.0 * gw1);
    assert_eq!(m.web[0].grad_b[0].0, -40.0);
}

#[test]
fn until_rule_on_the_documented_histories() {
    let rule = StopRule::Stalled { patience: 3, min_delta: R(0.1) };
    // trailing improvements: (2-2), (2-2), (3-2); mean 1/3 >= 0.1.
    let h = vec![R(5.0), R(4.0), R(3.0), R(2.0), R(2.0), R(2.0)];
    assert!(!rule.fires(&h));
    // too little history: length 2 < patience + 2.
    assert!(!rule.fires(&vec![R(5.0), R(4.0)]));
    // with a larger threshold the same history stalls: 1/3 < 0.5.
    let eager = StopRule::Stalled { patience: 3, min_delta: R(0.5) };
    assert!(eager.fires(&h));
    // zero patience never fires.
    let idle = StopRule::Stalled { patience: 0, min_delta: R(100.0) };
    assert!(!idle.fires(&h));
    assert!(!StopRule::<R>::Never.fires(&h));
}

#[test]
fn train_stops_at_the_epoch_budget() {
    let mut frozen = stub50();
    let mut m = fixed_manifold();
    m.set_learning_rate(R(0.0));
    m.set_epochs(5);
    m.set_sample_size(1);
    m.gather(&frozen);
    m.train(vec![vec![R(1.0), R(2.0)]], vec![vec![R(680.0)]], &mut frozen);
    assert_eq!(m.losses.len(), 5);
}

#[test]
fn train_stops_early_when_the_rule_fires() {
    let mut frozen = stub50();
    let mut m = fixed_manifold();
    m.set_learning_rate(R(0.0));
    m.set_epochs(50);
    m.set_sample_size(1);
    // The frozen pool makes every epoch's loss identical, so the mean
    // improvement is 0 and the rule fires at the first history long enough
    // to judge: patience + 2 = 3 epochs.
    m.until(1, R(1000.0));
    m.gather(&frozen);
    m.train(vec![vec![R(1.0), R(2.0)]], vec![vec![R(680.0)]], &mut frozen);
    assert_eq!(m.losses.len(), 3);
}

#[test]
fn train_averages_the_sampled_losses() {
    // Two pairs, sample size 2: both pairs are drawn each epoch, so the
    // recorded loss is the mean of both individual losses.
    let mut frozen = stub50();
    let mut m = fixed_manifold();
    m.set_learning_rate(R(0.0));
    m.set_epochs(1);
    m.set_sample_size(2);
    m.gather(&frozen);
    // predictions: 681 for [1,2]; for [0,0] the forward value is b-only:
    // layer0 gives [7,8,9], layer1 gives 7*10+8*11+9*12+13 = 279.
    m.train(
        vec![vec![R(1.0), R(2.0)], vec![R(0.0), R(0.0)]],
        vec![vec![R(680.0)], vec![R(278.0)]],
        &mut frozen,
    );
    assert_eq!(m.losses, vec![R(1.0)]);
}

#[test]
fn relu_and_identity_activations() {
    let z = Matrix { elems: vec![vec![R(-1.0), R(2.0)]], width: 2 };
    let a = Activation::Relu.a(&z);
    assert_eq!(a.elems, vec![vec![R(0.0), R(2.0)]]);
    let d = Activation::Relu.d(&z);
    assert_eq!(d.elems, vec![vec![R(0.0), R(1.0)]]);
    let ai = Activation::Identity.a(&z);
    assert_eq!(ai.elems, vec![vec![R(-1.0), R(2.0)]]);
    let di = Activation::Identity.d(&z);
    assert_eq!(di.elems, vec![vec![R(1.0), R(1.0)]]);
}

#[test]
fn mse_loss_and_gradient() {
    let p = vec![R(3.0), R(1.0)];
    let t = vec![R(1.0), R(1.0)];
    assert_eq!(Loss::Mse.a(&p, &t), R(2.0));
    assert_eq!(Loss::Mse.d(&p, &t), vec![R(2.0), R(0.0)]);
}

#[test]
fn matrix_kernels_compute_known_products() {
    let a = Matrix { elems: vec![vec![R(1.0), R(2.0)], vec![R(3.0), R(4.0)]], width: 2 };
    let b = Matrix { elems: vec![vec![R(5.0), R(6.0)], vec![R(7.0), R(8.0)]], width: 2 };
    let p = a.matmul(&b, R(0.0));
    assert_eq!(p.elems, vec![vec![R(19.0), R(22.0)], vec![R(43.0), R(50.0)]]);
    let t = a.transpose();
    assert_eq!(t.elems, vec![vec![R(1.0), R(3.0)], vec![R(2.0), R(4.0)]]);
    let h = a.hadamard(&b);
    assert_eq!(h.elems, vec![vec![R(5.0), R(12.0)], vec![R(21.0), R(32.0)]]);
    let s = a.colsum(R(0.0));
    assert_eq!(s, vec![R(4.0), R(6.0)]);
    let m = b.minus_mat(&a);
    assert_eq!(m.elems, vec![vec![R(4.0), R(4.0)], vec![R(4.0), R(4.0)]]);
    let r = a.add_row(&vec![R(10.0), R(20.0)]);
    assert_eq!(r.elems, vec![vec![R(11.0), R(22.0)], vec![R(13.0), R(24.0)]]);
}

#[test]
fn shift_and_assign_update_links_and_accumulators() {
    let mut l = fixed_layer(vec![vec![1, 2, 3], vec![4, 5, 6]], vec![7, 8, 9], 2, 3);
    l.shift_weights(&Matrix { elems: vec![vec![10, 10, 10], vec![10, 10, 10]], width: 3 });
    assert_eq!(l.wi.elems, vec![vec![11, 12, 13], vec![14, 15, 16]]);
    l.shift_bias(&vec![1, 2, 3]);
    assert_eq!(l.bi, vec![8, 10, 12]);
    l.assign_grad_w(Matrix { elems: vec![vec![R(1.0); 3]; 2], width: 3 });
    assert_eq!(l.grad_w.elems[1][2], R(1.0));
    l.assign_grad_b(vec![R(2.0); 3]);
    assert_eq!(l.grad_b, vec![R(2.0); 3]);
}

#[test]
fn empty_schedule_weaves_a_single_layer() {
    let stub = stub50();
    let mut m: Manifold<R> = Manifold::new(2, 1, vec![]);
    m.weave(&stub);
    m.gather(&stub);
    assert_eq!(m.web.len(), 1);
    assert_eq!(m.web[0].wi.elems.len(), 2);
    assert_eq!(m.web[0].wi.width, 1);
    assert_eq!(m.web[0].activation, Activation::Identity);
    let y = m.forward(vec![R(1.0), R(1.0)]);
    assert_eq!(y.len(), 1);
}

#[test]
fn sampling_is_distinct_in_range_and_capped() {
    for _ in 0..20 {
        let s = sample_positions(10, 3);
        assert_eq!(s.len(), 3);
        for &p in &s {
            assert!(p < 10);
        }
        for i in 0..s.len() {
            for j in (i + 1)..s.len() {
                assert_ne!(s[i], s[j]);
            }
        }
    }
    let mut all = sample_positions(5, 9);
    assert_eq!(all.len(), 5);
    all.sort();
    assert_eq!(all, vec![0, 1, 2, 3, 4]);
}

#[test]
fn layer_forward_and_backward_with_relu() {
    let stub = stub50();
    let mut l = fixed_layer(vec![vec![1], vec![2]], vec![0], 2, 1);
    l.activation = Activation::Relu;
    l.gather(&stub);
    // w = [1, 2]^T, b = [0]; x = [-3, 1] gives z = -1, so ReLU clamps the
    // output to 0 and the cached derivative is 0.
    let x = Matrix { elems: vec![vec![R(-3.0), R(1.0)]], width: 2 };
    let out = l.forward(x);
    assert_eq!(out.elems, vec![vec![R(0.0)]]);
    assert_eq!(l.d_z.elems, vec![vec![R(0.0)]]);
    assert_eq!(l.x.elems, vec![vec![R(-3.0), R(1.0)]]);
    // With a dead unit the whole backward pass is zero.
    let gi = l.backward(Matrix { elems: vec![vec![R(5.0)]], width: 1 });
    assert_eq!(gi.elems, vec![vec![R(0.0), R(0.0)]]);
    assert_eq!(l.grad_w.elems, vec![vec![R(0.0)], vec![R(0.0)]]);
    assert_eq!(l.grad_b, vec![R(0.0)]);
}

#[test]
fn uniform_draws_are_not_a_constant() {
    // A draw primitive that ignored its range and echoed the lower bound
    // would make all of these equal; a uniform one collides with
    // vanishing probability.
    let v = random_index_vec(100, 1_000_000);
    assert!(v.iter().any(|&x| x != v[0]));
    for &x in &v {
        assert!(x < 1_000_000);
    }
}

#[test]
fn colliding_contributions_combine_additively() {
    let mut pool = stub50();
    // Two entries aim at slot 5 in one call: 5 - (1 + 2) * 1 = 2.
    let mut grad = Matrix { elems: vec![vec![R(1.0)], vec![R(2.0)]], width: 1 };
    let mut index = Matrix { elems: vec![vec![5], vec![5]], width: 1 };
    pool.highspeed(&mut grad, &mut index, R(1.0));
    assert_eq!(pool.slots[5], R(2.0));
    // Untargeted slots are untouched and the matrices come back unchanged.
    assert_eq!(pool.slots[4], R(4.0));
    assert_eq!(pool.slots[6], R(6.0));
    assert_eq!(grad.elems, vec![vec![R(1.0)], vec![R(2.0)]]);
    assert_eq!(index.elems, vec![vec![5], vec![5]]);
}

#[test]
fn randomized_topology_trains_end_to_end() {
    let mut pool = PoolSubstrate { slots: (0..100).map(|i| R(i as f64 / 100.0)).collect() };
    let mut m: Manifold<R> = Manifold::dynamic(3, 2, 2..5, 1..4);
    m.set_epochs(4);
    m.weave(&pool);
    m.gather(&pool);
    let y = m.forward(vec![R(0.5), R(-0.5), R(1.0)]);
    assert_eq!(y.len(), 2);
    m.train(
        vec![vec![R(0.5), R(-0.5), R(1.0)], vec![R(0.0), R(1.0), R(0.0)]],
        vec![vec![R(1.0), R(0.0)], vec![R(0.0), R(1.0)]],
        &mut pool,
    );
    assert_eq!(m.losses.len(), 4);
    // After a fresh gather every layer mirrors the updated pool exactly.
    m.gather(&pool);
    for l in &m.web {
        for i in 0..l.wi.elems.len() {
            for j in 0..l.wi.width {
                assert_eq!(l.w.elems[i][j], pool.get(l.wi.elems[i][j]));
            }
        }
    }
}
