use vstd::prelude::*;

use rand::seq::SliceRandom;

use crate::data::{one_hot, Label};
use crate::mat_func::{add_vmat, cost_prime, hadamard, mult_v_mat_by_n, sig_prime_mat};
use crate::matrix::{count_scalar, div_val, neg_val, Matrix};
use crate::TrainError;

verus! {

/// A fully-connected feedforward network: one weight matrix and one bias
/// column vector per layer transition.
#[derive(Debug)]
pub struct Network<T> {
    /// The number of layers, input layer included.
    pub nlayer: usize,
    /// The size of every layer, in order; the first is the input
    /// dimensionality, the last the output dimensionality.
    pub layer_sizes: Vec<usize>,
    /// `weights[i]` maps layer `i` to layer `i + 1`: shape
    /// `(layer_sizes[i + 1], layer_sizes[i])`.
    pub weights: Vec<Matrix<T>>,
    /// `bias[i]` is the bias of layer `i + 1`: shape `(layer_sizes[i + 1], 1)`.
    pub bias: Vec<Matrix<T>>,
}

impl<T> Network<T> {
    /// The shape invariant: weight and bias shapes are consistent with
    /// `layer_sizes` at all times.
    pub open spec fn wf(&self) -> bool {
        &&& self.nlayer == self.layer_sizes@.len()
        &&& self.nlayer >= 2
        &&& forall|i: int| 0 <= i < self.layer_sizes@.len() ==> (#[trigger] self.layer_sizes@[i]) > 0
        &&& self.weights@.len() == self.nlayer - 1
        &&& self.bias@.len() == self.nlayer - 1
        &&& forall|i: int|
            0 <= i < self.weights@.len() ==> {
                &&& (#[trigger] self.weights@[i]).wf()
                &&& self.weights@[i].rows == self.layer_sizes@[i + 1]
                &&& self.weights@[i].cols == self.layer_sizes@[i]
            }
        &&& forall|i: int|
            0 <= i < self.bias@.len() ==> {
                &&& (#[trigger] self.bias@[i]).wf()
                &&& self.bias@[i].rows == self.layer_sizes@[i + 1]
                &&& self.bias@[i].cols == 1
            }
    }

    /// The input dimensionality.
    pub open spec fn in_size(&self) -> int {
        self.layer_sizes@[0] as int
    }

    /// The output dimensionality.
    pub open spec fn out_size(&self) -> int {
        self.layer_sizes@[self.layer_sizes@.len() - 1] as int
    }

    /// A sample fits this network: a column vector of the input size paired
    /// with a label below the output size.
    pub open spec fn sample_ok(&self, smp: (Matrix<T>, Label)) -> bool {
        &&& smp.0.wf()
        &&& smp.0.rows == self.in_size()
        &&& smp.0.cols == 1
        &&& (smp.1 as int) < self.out_size()
    }
}

impl<T: Copy> Network<T> {
    /// Builds a network from its layer sizes, filling every weight and bias
    /// with random entries. Fewer than two layers is an invalid
    /// configuration.
    pub fn init(layer_sizes: Vec<usize>) -> (r: Result<Network<T>, TrainError>) where
        rand::distributions::Standard: rand::distributions::Distribution<T>,

        requires
            forall|i: int| 0 <= i < layer_sizes@.len() ==> (#[trigger] layer_sizes@[i]) > 0,
        ensures
            match r {
                Ok(n) => {
                    &&& layer_sizes@.len() >= 2
                    &&& n.wf()
                    &&& n.layer_sizes@ == layer_sizes@
                    &&& n.nlayer == layer_sizes@.len()
                },
                Err(e) => {
                    &&& e == TrainError::InvalidConfiguration
                    &&& layer_sizes@.len() < 2
                },
            },
    {
        if layer_sizes.len() < 2 {
            return Err(TrainError::InvalidConfiguration);
        }
        let weights = gen_weights(&layer_sizes);
        let bias = gen_bias(&layer_sizes);
        let nlayer = layer_sizes.len();
        Ok(Network { nlayer, layer_sizes, weights, bias })
    }
}

/// One random weight matrix per layer transition, shaped
/// `(layer_sizes[i + 1], layer_sizes[i])`.
fn gen_weights<T: Copy>(layer_sizes: &Vec<usize>) -> (r: Vec<Matrix<T>>) where
    rand::distributions::Standard: rand::distributions::Distribution<T>,

    requires
        layer_sizes@.len() >= 2,
    ensures
        r@.len() == layer_sizes@.len() - 1,
        forall|i: int|
            0 <= i < r@.len() ==> {
                &&& (#[trigger] r@[i]).wf()
                &&& r@[i].rows == layer_sizes@[i + 1]
                &&& r@[i].cols == layer_sizes@[i]
            },
{
    let mut out: Vec<Matrix<T>> = Vec::new();
    let mut i: usize = 1;
    while i < layer_sizes.len()
        invariant
            1 <= i <= layer_sizes@.len(),
            out@.len() == i - 1,
            forall|k: int|
                0 <= k < out@.len() ==> {
                    &&& (#[trigger] out@[k]).wf()
                    &&& out@[k].rows == layer_sizes@[k + 1]
                    &&& out@[k].cols == layer_sizes@[k]
                },
        decreases layer_sizes@.len() - i,
    {
        out.push(Matrix::random(layer_sizes[i], layer_sizes[i - 1]));
        i += 1;
    }
    out
}

/// One random bias column vector per layer transition, shaped
/// `(layer_sizes[i + 1], 1)`.
fn gen_bias<T: Copy>(layer_sizes: &Vec<usize>) -> (r: Vec<Matrix<T>>) where
    rand::distributions::Standard: rand::distributions::Distribution<T>,

    requires
        layer_sizes@.len() >= 2,
    ensures
        r@.len() == layer_sizes@.len() - 1,
        forall|i: int|
            0 <= i < r@.len() ==> {
                &&& (#[trigger] r@[i]).wf()
                &&& r@[i].rows == layer_sizes@[i + 1]
                &&& r@[i].cols == 1
            },
{
    let mut out: Vec<Matrix<T>> = Vec::new();
    let mut i: usize = 1;
    while i < layer_sizes.len()
        invariant
            1 <= i <= layer_sizes@.len(),
            out@.len() == i - 1,
            forall|k: int|
                0 <= k < out@.len() ==> {
                    &&& (#[trigger] out@[k]).wf()
                    &&& out@[k].rows == layer_sizes@[k + 1]
                    &&& out@[k].cols == 1
                },
        decreases layer_sizes@.len() - i,
    {
        out.push(Matrix::random(layer_sizes[i], 1));
        i += 1;
    }
    out
}

impl<T: Copy + faer::traits::ComplexField> Network<T> {
    /// The forward pass: for each layer transition in order, the running
    /// vector becomes `act(weight * vector + bias)`. Pure inference: the
    /// `&self` receiver leaves the network untouched, and no randomness or
    /// I/O is involved. That two runs on the same state and input return
    /// bit-identical scalars is a fact about the scalar arithmetic, which
    /// these contracts leave unspecified; the test suite checks it at the
    /// floating-point instantiation.
    pub fn feedforward<F: Fn(T) -> T + Copy>(&self, input: Matrix<T>, act: F) -> (r: Matrix<T>)
        requires
            self.wf(),
            input.wf(),
            input.rows == self.in_size(),
            input.cols == 1,
            forall|x: T| #[trigger] call_requires(act, (x,)),
        ensures
            r.wf(),
            r.rows == self.out_size(),
            r.cols == 1,
    {
        let mut cur = input;
        let mut layer: usize = 0;
        while layer < self.weights.len()
            invariant
                self.wf(),
                forall|x: T| #[trigger] call_requires(act, (x,)),
                layer <= self.weights@.len(),
                cur.wf(),
                cur.rows == self.layer_sizes@[layer as int],
                cur.cols == 1,
            decreases self.weights@.len() - layer,
        {
            let mut next = self.weights[layer].mat_mul(&cur).mat_add(&self.bias[layer]);
            next.sigmoid_mat(act);
            cur = next;
            layer += 1;
        }
        cur
    }

    /// The forward pass with its trace: `z[i]` is the pre-activation vector
    /// of layer `i + 1`, `a[i]` the activated one; the input layer is
    /// excluded, so both traces have one entry per layer transition.
    pub fn feedforward_az<F: Fn(T) -> T + Copy>(&self, input: Matrix<T>, act: F) -> (r: (
        Vec<Matrix<T>>,
        Vec<Matrix<T>>,
    ))
        requires
            self.wf(),
            input.wf(),
            input.rows == self.in_size(),
            input.cols == 1,
            forall|x: T| #[trigger] call_requires(act, (x,)),
        ensures
            r.0@.len() == self.nlayer - 1,
            r.1@.len() == self.nlayer - 1,
            forall|k: int|
                0 <= k < r.0@.len() ==> {
                    &&& (#[trigger] r.0@[k]).wf()
                    &&& r.0@[k].rows == self.layer_sizes@[k + 1]
                    &&& r.0@[k].cols == 1
                },
            forall|k: int|
                0 <= k < r.1@.len() ==> {
                    &&& (#[trigger] r.1@[k]).wf()
                    &&& r.1@[k].rows == self.layer_sizes@[k + 1]
                    &&& r.1@[k].cols == 1
                },
    {
        let mut a: Vec<Matrix<T>> = Vec::new();
        let mut z: Vec<Matrix<T>> = Vec::new();
        let mut cur = input;
        let mut layer: usize = 0;
        while layer < self.weights.len()
            invariant
                self.wf(),
                forall|x: T| #[trigger] call_requires(act, (x,)),
                layer <= self.weights@.len(),
                cur.wf(),
                cur.rows == self.layer_sizes@[layer as int],
                cur.cols == 1,
                a@.len() == layer,
                z@.len() == layer,
                forall|k: int|
                    0 <= k < layer ==> {
                        &&& (#[trigger] a@[k]).wf()
                        &&& a@[k].rows == self.layer_sizes@[k + 1]
                        &&& a@[k].cols == 1
                    },
                forall|k: int|
                    0 <= k < layer ==> {
                        &&& (#[trigger] z@[k]).wf()
                        &&& z@[k].rows == self.layer_sizes@[k + 1]
                        &&& z@[k].cols == 1
                    },
            decreases self.weights@.len() - layer,
        {
            let mut next = self.weights[layer].mat_mul(&cur).mat_add(&self.bias[layer]);
            z.push(next.duplicate());
            next.sigmoid_mat(act);
            a.push(next.duplicate());
            cur = next;
            layer += 1;
        }
        (a, z)
    }

    /// Backpropagation for a single example: the gradient of the cost with
    /// respect to every weight matrix and bias vector, one entry per layer
    /// transition, shaped exactly like `weights` and `bias`.
    ///
    /// `act` is the activation, `act_prime` its derivative; `zero` and `one`
    /// are the scalar constants the one-hot target is built from.
    pub fn backprop<F: Fn(T) -> T + Copy, G: Fn(T) -> T + Copy>(
        &self,
        input: &Matrix<T>,
        target: Label,
        act: F,
        act_prime: G,
        zero: T,
        one: T,
    ) -> (r: (Vec<Matrix<T>>, Vec<Matrix<T>>))
        requires
            self.wf(),
            input.wf(),
            input.rows == self.in_size(),
            input.cols == 1,
            (target as int) < self.out_size(),
            forall|x: T| #[trigger] call_requires(act, (x,)),
            forall|x: T| #[trigger] call_requires(act_prime, (x,)),
        ensures
            r.0@.len() == self.nlayer - 1,
            r.1@.len() == self.nlayer - 1,
            forall|k: int|
                0 <= k < r.0@.len() ==> {
                    &&& (#[trigger] r.0@[k]).wf()
                    &&& r.0@[k].rows == self.layer_sizes@[k + 1]
                    &&& r.0@[k].cols == self.layer_sizes@[k]
                },
            forall|k: int|
                0 <= k < r.1@.len() ==> {
                    &&& (#[trigger] r.1@[k]).wf()
                    &&& r.1@[k].rows == self.layer_sizes@[k + 1]
                    &&& r.1@[k].cols == 1
                },
    {
        let l = self.nlayer - 2;
        let (a, z) = self.feedforward_az(input.duplicate(), act);
        let out_size = self.layer_sizes[self.nlayer - 1];
        let target_vec = match one_hot(target, out_size, zero, one) {
            Ok(t) => t,
            Err(_) => {
                return vstd::pervasive::unreached();
            },
        };

        // Output-layer error.
        let mut delta = hadamard(&cost_prime(&a[l], &target_vec), &sig_prime_mat(&z[l], act_prime));

        // Walk the layer transitions backwards, collecting gradients in
        // reverse order; `delta` always belongs to transition `k`.
        let mut dw_rev: Vec<Matrix<T>> = Vec::new();
        let mut db_rev: Vec<Matrix<T>> = Vec::new();
        let mut k: usize = l;
        while k > 0
            invariant
                self.wf(),
                forall|x: T| #[trigger] call_requires(act_prime, (x,)),
                l == self.nlayer - 2,
                k <= l,
                a@.len() == self.nlayer - 1,
                z@.len() == self.nlayer - 1,
                forall|p: int|
                    0 <= p < z@.len() ==> {
                        &&& (#[trigger] z@[p]).wf()
                        &&& z@[p].rows == self.layer_sizes@[p + 1]
                        &&& z@[p].cols == 1
                    },
                forall|p: int|
                    0 <= p < a@.len() ==> {
                        &&& (#[trigger] a@[p]).wf()
                        &&& a@[p].rows == self.layer_sizes@[p + 1]
                        &&& a@[p].cols == 1
                    },
                delta.wf(),
                delta.rows == self.layer_sizes@[k + 1],
                delta.cols == 1,
                dw_rev@.len() == l - k,
                db_rev@.len() == l - k,
                forall|p: int|
                    0 <= p < dw_rev@.len() ==> {
                        &&& (#[trigger] dw_rev@[p]).wf()
                        &&& dw_rev@[p].rows == self.layer_sizes@[l - p + 1]
                        &&& dw_rev@[p].cols == self.layer_sizes@[l - p]
                    },
                forall|p: int|
                    0 <= p < db_rev@.len() ==> {
                        &&& (#[trigger] db_rev@[p]).wf()
                        &&& db_rev@[p].rows == self.layer_sizes@[l - p + 1]
                        &&& db_rev@[p].cols == 1
                    },
            decreases k,
        {
            let prev_t = a[k - 1].transpose();
            dw_rev.push(delta.mat_mul(&prev_t));
            let back = self.weights[k].transpose().mat_mul(&delta);
            let new_delta = hadamard(&back, &sig_prime_mat(&z[k - 1], act_prime));
            db_rev.push(delta);
            delta = new_delta;
            k -= 1;
        }

        // Transition 0: the "previous activation" is the input itself.
        let prev_t = input.transpose();
        dw_rev.push(delta.mat_mul(&prev_t));
        db_rev.push(delta);

        let dw = reversed_vec(dw_rev);
        let db = reversed_vec(db_rev);
        (dw, db)
    }
}

/// The number of consecutive batches of size `b` that `n` samples fall
/// into: `n / b`, rounded up.
pub open spec fn spec_num_batches(n: int, b: int) -> int {
    (n + b - 1) / b
}

/// The half-open index ranges `[start, end)` that partition `n` samples
/// into consecutive batches of `b`: every batch but the last holds exactly
/// `b` samples, and the last holds `n % b` if `n` is not a multiple of
/// `b`, else `b`.
pub fn batch_bounds(n: usize, b: usize) -> (r: Vec<(usize, usize)>)
    requires
        b > 0,
    ensures
        r@.len() == spec_num_batches(n as int, b as int),
        forall|k: int|
            0 <= k < r@.len() ==> {
                &&& (#[trigger] r@[k]).0 == k * b
                &&& r@[k].1 == (if (k + 1) * b <= n {
                    (k + 1) * (b as int)
                } else {
                    n as int
                })
                &&& r@[k].0 < r@[k].1
            },
        forall|k: int| 0 <= k < r@.len() - 1 ==> (#[trigger] r@[k]).1 - r@[k].0 == b,
        r@.len() > 0 ==> r@[r@.len() - 1].1 == n,
        r@.len() > 0 && n % b != 0 ==> r@[r@.len() - 1].1 - r@[r@.len() - 1].0 == n % b,
        r@.len() > 0 && n % b == 0 ==> r@[r@.len() - 1].1 - r@[r@.len() - 1].0 == b,
{
    let mut out: Vec<(usize, usize)> = Vec::new();
    let mut s: usize = 0;
    proof {
        assert(0int * (b as int) == 0) by (nonlinear_arith);
    }
    while s < n
        invariant
            b > 0,
            s <= n,
            n == 0 ==> out@.len() == 0,
            s < n ==> s as int == out@.len() * (b as int),
            s == n ==> (n == 0 || (out@.len() * (b as int) >= n && (out@.len() as int - 1) * (
            b as int) < n)),
            forall|k: int|
                0 <= k < out@.len() ==> {
                    &&& (#[trigger] out@[k]).0 == k * b
                    &&& out@[k].1 == (if (k + 1) * b <= n {
                        (k + 1) * (b as int)
                    } else {
                        n as int
                    })
                    &&& out@[k].0 < out@[k].1
                },
        decreases n - s,
    {
        let ghost len0 = out@.len();
        let e = if n - s > b {
            s + b
        } else {
            n
        };
        proof {
            assert(s == len0 * b);
            assert((len0 + 1) * b == len0 * b + b) by (nonlinear_arith);
        }
        out.push((s, e));
        s = e;
    }
    proof {
        let len = out@.len() as int;
        let bi = b as int;
        let ni = n as int;
        if n == 0 {
            assert(spec_num_batches(ni, bi) == 0) by {
                vstd::arithmetic::div_mod::lemma_basic_div(bi - 1, bi);
            }
        } else {
            assert(len * bi >= ni && (len - 1) * bi < ni);
            assert(len > 0) by (nonlinear_arith)
                requires
                    len * bi >= ni,
                    ni > 0,
                    bi > 0,
            ;
            assert((len - 1) * bi == len * bi - bi) by (nonlinear_arith);
            let r0 = ni + bi - 1 - len * bi;
            assert(0 <= r0 < bi);
            vstd::arithmetic::div_mod::lemma_fundamental_div_mod_converse(ni + bi - 1, bi, len, r0);
            assert(spec_num_batches(ni, bi) == len);
            // The final batch's length determines `n % b`.
            let last = (len - 1) * bi;
            assert(out@[len - 1].0 == last && out@[len - 1].1 == ni);
            let size = ni - last;
            assert(0 < size <= bi);
            if size == bi {
                assert(ni == len * bi + 0);
                vstd::arithmetic::div_mod::lemma_fundamental_div_mod_converse(ni, bi, len, 0);
            } else {
                assert(ni == (len - 1) * bi + size);
                vstd::arithmetic::div_mod::lemma_fundamental_div_mod_converse(ni, bi, len - 1, size);
            }
            // Every batch but the last is full.
            assert forall|k: int| 0 <= k < len - 1 implies (#[trigger] out@[k]).1 - out@[k].0
                == b by {
                assert((k + 1) * bi <= (len - 1) * bi) by (nonlinear_arith)
                    requires
                        0 <= k < len - 1,
                        bi > 0,
                ;
                assert((k + 1) * bi - k * bi == bi) by (nonlinear_arith);
            }
        }
    }
    out
}

/// Relies on `rand::seq::SliceRandom::shuffle`: permutes the samples in
/// place by a uniform random permutation. Whatever permutation was drawn,
/// the samples themselves are unchanged: the same collection, reordered.
#[verifier::external_body]
fn shuffle_samples<T>(data: &mut Vec<(Matrix<T>, Label)>)
    ensures
        final(data)@.len() == old(data)@.len(),
        final(data)@.to_multiset() == old(data)@.to_multiset(),
{
    data.shuffle(&mut rand::thread_rng());
}

/// A property that holds of every element of a sequence holds of every
/// element of any reordering of it.
proof fn lemma_multiset_forall<A>(s1: Seq<A>, s2: Seq<A>, p: spec_fn(A) -> bool)
    requires
        s1.to_multiset() == s2.to_multiset(),
        forall|i: int| 0 <= i < s1.len() ==> #[trigger] p(s1[i]),
    ensures
        forall|i: int| 0 <= i < s2.len() ==> #[trigger] p(s2[i]),
{
    broadcast use vstd::seq_lib::group_to_multiset_ensures;

    assert forall|i: int| 0 <= i < s2.len() implies #[trigger] p(s2[i]) by {
        assert(s2.contains(s2[i]));
        assert(s2.to_multiset().count(s2[i]) > 0);
        assert(s1.to_multiset().count(s2[i]) > 0);
        assert(s1.contains(s2[i]));
        let j = choose|j: int| 0 <= j < s1.len() && s1[j] == s2[i];
        assert(p(s1[j]));
    }
}

impl<T: Copy + faer::traits::ComplexField + num_traits::NumCast> Network<T> {
    /// One mini-batch step of stochastic gradient descent: sums the
    /// per-example gradients over the batch, scales the sums by
    /// `-eta / batch-size`, and adds them into the weights and biases in
    /// place. This is the only point where the network's parameters change.
    ///
    /// An empty batch is rejected before the averaging division. Turning the
    /// batch size into a scalar is the one step an outside call decides; a
    /// count the scalar type cannot represent is an invalid configuration,
    /// and everything after that conversion is `update_batch_with_scale`,
    /// which always succeeds.
    pub fn update_batch<F: Fn(T) -> T + Copy, G: Fn(T) -> T + Copy>(
        &mut self,
        batch: &[(Matrix<T>, Label)],
        eta: T,
        act: F,
        act_prime: G,
        zero: T,
        one: T,
    ) -> (r: Result<(), TrainError>)
        requires
            old(self).wf(),
            forall|k: int| 0 <= k < batch@.len() ==> old(self).sample_ok(#[trigger] batch@[k]),
            forall|x: T| #[trigger] call_requires(act, (x,)),
            forall|x: T| #[trigger] call_requires(act_prime, (x,)),
        ensures
            final(self).wf(),
            final(self).nlayer == old(self).nlayer,
            final(self).layer_sizes@ == old(self).layer_sizes@,
            match r {
                Ok(()) => batch@.len() > 0,
                Err(e) => {
                    &&& (e == TrainError::EmptyBatch || e == TrainError::InvalidConfiguration)
                    &&& (e == TrainError::EmptyBatch <==> batch@.len() == 0)
                    &&& final(self).weights@ == old(self).weights@
                    &&& final(self).bias@ == old(self).bias@
                },
            },
    {
        if batch.len() == 0 {
            return Err(TrainError::EmptyBatch);
        }
        let count = match count_scalar::<T>(batch.len()) {
            Some(c) => c,
            None => {
                return Err(TrainError::InvalidConfiguration);
            },
        };
        let scale = neg_val(div_val(eta, count));
        self.update_batch_with_scale(batch, scale, act, act_prime, zero, one);
        Ok(())
    }

    /// The wholly deterministic part of a mini-batch step: sums the
    /// per-example gradients over the non-empty batch, scales both sums by
    /// the given scalar, and adds them into the weights and biases in place.
    pub fn update_batch_with_scale<F: Fn(T) -> T + Copy, G: Fn(T) -> T + Copy>(
        &mut self,
        batch: &[(Matrix<T>, Label)],
        scale: T,
        act: F,
        act_prime: G,
        zero: T,
        one: T,
    )
        requires
            old(self).wf(),
            batch@.len() > 0,
            forall|k: int| 0 <= k < batch@.len() ==> old(self).sample_ok(#[trigger] batch@[k]),
            forall|x: T| #[trigger] call_requires(act, (x,)),
            forall|x: T| #[trigger] call_requires(act_prime, (x,)),
        ensures
            final(self).wf(),
            final(self).nlayer == old(self).nlayer,
            final(self).layer_sizes@ == old(self).layer_sizes@,
    {
        // Zero-filled accumulators shaped like the weights and biases.
        let mut scaled_dw: Vec<Matrix<T>> = Vec::new();
        let mut scaled_db: Vec<Matrix<T>> = Vec::new();
        let mut i: usize = 0;
        while i < self.weights.len()
            invariant
                self.wf(),
                self.nlayer == old(self).nlayer,
                self.layer_sizes@ == old(self).layer_sizes@,
                self.weights@ == old(self).weights@,
                self.bias@ == old(self).bias@,
                i <= self.weights@.len(),
                scaled_dw@.len() == i,
                scaled_db@.len() == i,
                forall|k: int|
                    0 <= k < i ==> {
                        &&& (#[trigger] scaled_dw@[k]).wf()
                        &&& scaled_dw@[k].rows == self.layer_sizes@[k + 1]
                        &&& scaled_dw@[k].cols == self.layer_sizes@[k]
                    },
                forall|k: int|
                    0 <= k < i ==> {
                        &&& (#[trigger] scaled_db@[k]).wf()
                        &&& scaled_db@[k].rows == self.layer_sizes@[k + 1]
                        &&& scaled_db@[k].cols == 1
                    },
            decreases self.weights@.len() - i,
        {
            scaled_dw.push(Matrix::zeros(self.weights[i].rows, self.weights[i].cols));
            scaled_db.push(Matrix::zeros(self.weights[i].rows, 1));
            i += 1;
        }

        // Sum the gradients of every example in the batch.
        let mut s: usize = 0;
        while s < batch.len()
            invariant
                self.wf(),
                self.nlayer == old(self).nlayer,
                self.layer_sizes@ == old(self).layer_sizes@,
                self.weights@ == old(self).weights@,
                self.bias@ == old(self).bias@,
                forall|k: int| 0 <= k < batch@.len() ==> old(self).sample_ok(#[trigger] batch@[k]),
                forall|x: T| #[trigger] call_requires(act, (x,)),
                forall|x: T| #[trigger] call_requires(act_prime, (x,)),
                s <= batch@.len(),
                scaled_dw@.len() == self.nlayer - 1,
                scaled_db@.len() == self.nlayer - 1,
                forall|k: int|
                    0 <= k < scaled_dw@.len() ==> {
                        &&& (#[trigger] scaled_dw@[k]).wf()
                        &&& scaled_dw@[k].rows == self.layer_sizes@[k + 1]
                        &&& scaled_dw@[k].cols == self.layer_sizes@[k]
                    },
                forall|k: int|
                    0 <= k < scaled_db@.len() ==> {
                        &&& (#[trigger] scaled_db@[k]).wf()
                        &&& scaled_db@[k].rows == self.layer_sizes@[k + 1]
                        &&& scaled_db@[k].cols == 1
                    },
            decreases batch@.len() - s,
        {
            let pair = vstd::slice::slice_index_get(batch, s);
            let (dw, db) = self.backprop(&pair.0, pair.1, act, act_prime, zero, one);
            add_vmat(&mut scaled_dw, &dw);
            add_vmat(&mut scaled_db, &db);
            s += 1;
        }

        // Average over the batch and step against the gradient.
        mult_v_mat_by_n(&mut scaled_dw, scale);
        mult_v_mat_by_n(&mut scaled_db, scale);

        add_vmat(&mut self.weights, &scaled_dw);
        add_vmat(&mut self.bias, &scaled_db);
    }

    /// Stochastic gradient descent: for each epoch, shuffles the dataset,
    /// partitions it into consecutive batches of `batch_size` (the last
    /// possibly shorter), and applies one mini-batch update per batch, in
    /// order. Runs exactly `epochs` passes; the dataset ends reordered but
    /// otherwise unchanged.
    pub fn sgd<F: Fn(T) -> T + Copy, G: Fn(T) -> T + Copy>(
        &mut self,
        training_data: &mut Vec<(Matrix<T>, Label)>,
        epochs: u32,
        batch_size: u32,
        eta: T,
        act: F,
        act_prime: G,
        zero: T,
        one: T,
    ) -> (r: Result<(), TrainError>)
        requires
            old(self).wf(),
            batch_size > 0,
            forall|k: int|
                0 <= k < old(training_data)@.len() ==> old(self).sample_ok(
                    #[trigger] old(training_data)@[k],
                ),
            forall|x: T| #[trigger] call_requires(act, (x,)),
            forall|x: T| #[trigger] call_requires(act_prime, (x,)),
        ensures
            final(self).wf(),
            final(self).nlayer == old(self).nlayer,
            final(self).layer_sizes@ == old(self).layer_sizes@,
            final(training_data)@.to_multiset() == old(training_data)@.to_multiset(),
            final(training_data)@.len() == old(training_data)@.len(),
            epochs == 0 ==> {
                &&& final(self).weights@ == old(self).weights@
                &&& final(self).bias@ == old(self).bias@
                &&& final(training_data)@ == old(training_data)@
            },
            match r {
                Ok(()) => true,
                Err(e) => e == TrainError::InvalidConfiguration,
            },
    {
        if epochs == 0 {
            return Ok(());
        }
        let mut ep: u32 = 0;
        while ep < epochs
            invariant
                self.wf(),
                self.nlayer == old(self).nlayer,
                self.layer_sizes@ == old(self).layer_sizes@,
                batch_size > 0,
                ep <= epochs,
                training_data@.to_multiset() == old(training_data)@.to_multiset(),
                training_data@.len() == old(training_data)@.len(),
                forall|k: int|
                    0 <= k < training_data@.len() ==> old(self).sample_ok(
                        #[trigger] training_data@[k],
                    ),
                forall|x: T| #[trigger] call_requires(act, (x,)),
                forall|x: T| #[trigger] call_requires(act_prime, (x,)),
            decreases epochs - ep,
        {
            let ghost pre_shuffle = training_data@;
            let ghost sample_fits = |smp: (Matrix<T>, Label)| old(self).sample_ok(smp);
            shuffle_samples(training_data);
            proof {
                lemma_multiset_forall(pre_shuffle, training_data@, sample_fits);
                assert forall|k: int| 0 <= k < training_data@.len() implies old(self).sample_ok(
                    #[trigger] training_data@[k],
                ) by {
                    assert(sample_fits(training_data@[k]));
                }
            }
            let bounds = batch_bounds(training_data.len(), batch_size as usize);
            let mut bi: usize = 0;
            while bi < bounds.len()
                invariant
                    self.wf(),
                    self.nlayer == old(self).nlayer,
                    self.layer_sizes@ == old(self).layer_sizes@,
                    training_data@.to_multiset() == old(training_data)@.to_multiset(),
                    training_data@.len() == old(training_data)@.len(),
                    forall|k: int|
                        0 <= k < training_data@.len() ==> old(self).sample_ok(
                            #[trigger] training_data@[k],
                        ),
                    forall|x: T| #[trigger] call_requires(act, (x,)),
                    forall|x: T| #[trigger] call_requires(act_prime, (x,)),
                    epochs > 0,
                    bi <= bounds@.len(),
                    forall|k: int|
                        0 <= k < bounds@.len() ==> (#[trigger] bounds@[k]).0 < bounds@[k].1
                            <= training_data@.len(),
                decreases bounds@.len() - bi,
            {
                let (bs, be) = bounds[bi];
                let slice = vstd::slice::slice_subrange(training_data.as_slice(), bs, be);
                match self.update_batch(slice, eta, act, act_prime, zero, one) {
                    Ok(()) => {},
                    Err(err) => {
                        return Err(err);
                    },
                }
                bi += 1;
            }
            ep += 1;
        }
        Ok(())
    }
}

/// The elements of a vector in the opposite order.
fn reversed_vec<A>(v: Vec<A>) -> (r: Vec<A>)
    ensures
        r@.len() == v@.len(),
        forall|i: int| 0 <= i < v@.len() ==> r@[i] == v@[v@.len() - 1 - i],
{
    let ghost orig = v@;
    let mut rest = v;
    let mut out: Vec<A> = Vec::new();
    while rest.len() > 0
        invariant
            out@.len() + rest@.len() == orig.len(),
            rest@ == orig.subrange(0, rest@.len() as int),
            forall|i: int| 0 <= i < out@.len() ==> out@[i] == orig[orig.len() - 1 - i],
        decreases rest@.len(),
    {
        let x = rest.pop().unwrap();
        out.push(x);
    }
    out
}

} // verus!
