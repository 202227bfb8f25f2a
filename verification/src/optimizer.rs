//! Gradient-based parameter update rules.
//!
//! An [`Optimizer`] consumes one freshly computed [`Derivatives`] vector
//! and replaces every parameter with an updated, untracked constant: the
//! update carries no recording, so a caller that keeps iterating must
//! re-register each parameter as a fresh leaf before the next sweep.
//!
//! Moment state ([`AdamW`]) is keyed by tape position, not by parameter
//! identity: it stays meaningful across tape resets only for the
//! disciplined use in which every iteration re-records the same graph,
//! leaf for leaf, with the same node count.

use vstd::prelude::*;

use crate::autograd::{Derivatives, Reverse};
use crate::scalar::Scalar;

verus! {

/// A sequence of `n` additive identities.
pub open spec fn zeros<T: Scalar>(n: nat) -> Seq<T> {
    Seq::new(n, |i: int| T::zero_s())
}

/// The moment vector a moment update starts from: a lazily allocated
/// zero vector on first use, the retained vector afterwards.
pub open spec fn moment_base<T: Scalar>(m: Seq<T>, n: nat) -> Seq<T> {
    if m.len() == 0 {
        zeros(n)
    } else {
        m
    }
}

/// One exponential-moving-average step of the first moment:
/// `b1 * m[i] + (1 - b1) * g[i]` at every position.
pub open spec fn first_moment_update<T: Scalar>(b1: T, m: Seq<T>, g: Seq<T>) -> Seq<T> {
    Seq::new(g.len(), |i: int| b1.mul_s(m[i]).add_s(T::one_s().sub_s(b1).mul_s(g[i])))
}

/// One exponential-moving-average step of the second moment:
/// `b2 * m[i] + (1 - b2) * g[i] * g[i]` at every position.
pub open spec fn second_moment_update<T: Scalar>(b2: T, m: Seq<T>, g: Seq<T>) -> Seq<T> {
    Seq::new(g.len(), |i: int| b2.mul_s(m[i]).add_s(T::one_s().sub_s(b2).mul_s(g[i]).mul_s(g[i])))
}

/// Bias correction: divides every slot by `1 - b^t` to counteract the
/// zero initialization of the moments.
pub open spec fn bias_correct<T: Scalar>(m: Seq<T>, b: T, t: i32) -> Seq<T> {
    Seq::new(m.len(), |i: int| m[i].div_s(T::one_s().sub_s(b.powi_s(t))))
}

/// A parameter's primal after decoupled weight decay: shrunk by
/// `learning_rate * weight_decay` of itself, or untouched when the decay
/// coefficient is the additive identity.
pub open spec fn decayed_value<T: Scalar>(p: T, lr: T, wd: T) -> T {
    if wd == T::zero_s() {
        p
    } else {
        p.sub_s(lr.mul_s(wd).mul_s(p))
    }
}

/// The primal an AdamW step leaves in a parameter that was recorded at
/// position `p.pos()`: the decayed primal minus the bias-corrected,
/// epsilon-stabilised moment quotient at that (pre-decay) position.
pub open spec fn adamw_new_value<T: Scalar>(
    p: Reverse<T>,
    lr: T,
    wd: T,
    eps: T,
    mh1: Seq<T>,
    mh2: Seq<T>,
) -> T {
    decayed_value(p.val(), lr, wd).sub_s(
        lr.mul_s(mh1[p.pos()]).div_s(mh2[p.pos()].sqrt_s().add_s(eps)),
    )
}

/// The capability of updating a set of parameters from one derivative
/// vector. `step_req`/`step_ens` are each implementation's own contract;
/// `step` replaces every parameter in place with its updated value.
pub trait Optimizer<T: Scalar>: Sized {
    /// What this optimizer demands of the derivative vector and the
    /// parameters.
    spec fn step_req(&self, g: Seq<T>, ps: Seq<Reverse<T>>) -> bool;

    /// How one step relates the optimizer's old state and parameters to
    /// the new ones.
    spec fn step_ens(&self, g: Seq<T>, ps: Seq<Reverse<T>>, post: Self, ps_post: Seq<Reverse<T>>) -> bool;

    fn step(&mut self, derivatives: &Derivatives<T>, params: &mut Vec<Reverse<T>>)
        requires
            old(self).step_req(derivatives@, old(params)@),
        ensures
            old(self).step_ens(derivatives@, old(params)@, *final(self), final(params)@),
    ;
}

/// Plain gradient descent: moves every parameter against its gradient at
/// a fixed learning rate.
pub struct SimpleGradientDescent<T> {
    learning_rate: T,
}

impl<T: Scalar> SimpleGradientDescent<T> {
    /// The fixed learning rate.
    pub closed spec fn rate(&self) -> T {
        self.learning_rate
    }

    pub fn new(learning_rate: T) -> (r: Self)
        ensures
            r.rate() == learning_rate,
    {
        SimpleGradientDescent { learning_rate }
    }
}

impl<T: Scalar> Optimizer<T> for SimpleGradientDescent<T> {
    /// Every parameter is a registered variable whose position lies
    /// inside the derivative vector.
    open spec fn step_req(&self, g: Seq<T>, ps: Seq<Reverse<T>>) -> bool {
        forall|j: int|
            0 <= j < ps.len() ==> (#[trigger] ps[j]).is_variable() && ps[j].pos() < g.len()
    }

    /// Each parameter becomes the untracked constant
    /// `old - g[position] * learning_rate`; the optimizer itself is
    /// unchanged.
    open spec fn step_ens(&self, g: Seq<T>, ps: Seq<Reverse<T>>, post: Self, ps_post: Seq<Reverse<T>>) -> bool {
        &&& post == *self
        &&& ps_post.len() == ps.len()
        &&& forall|j: int|
            0 <= j < ps.len() ==> !(#[trigger] ps_post[j]).is_variable() && ps_post[j].val()
                == ps[j].val().sub_s(g[ps[j].pos()].mul_s(self.rate()))
    }

    fn step(&mut self, derivatives: &Derivatives<T>, params: &mut Vec<Reverse<T>>) {
        let nparams = params.len();
        let mut j: usize = 0;
        while j < nparams
            invariant
                *self == *old(self),
                old(self).step_req(derivatives@, old(params)@),
                nparams == old(params)@.len(),
                params@.len() == nparams,
                j <= nparams,
                forall|i: int| j <= i < nparams ==> params@[i] == old(params)@[i],
                forall|i: int|
                    0 <= i < j ==> !(#[trigger] params@[i]).is_variable() && params@[i].val()
                        == old(params)@[i].val().sub_s(
                        derivatives@[old(params)@[i].pos()].mul_s(old(self).rate()),
                    ),
            decreases nparams - j,
        {
            let p = params[j];
            let d = derivatives.index(&p);
            let pv = *p.value();
            params.set(j, Reverse::auto(pv.sub_v(d.mul_v(self.learning_rate))));
            j = j + 1;
        }
    }
}

/// The AdamW optimizer: decoupled weight decay followed by an Adam
/// update from bias-corrected first and second moment estimates, both
/// kept per tape position.
pub struct AdamW<T> {
    learning_rate: T,
    beta1: T,
    beta2: T,
    epsilon: T,
    weight_decay: T,
    t: i32,
    first_momentum: Vec<T>,
    second_momentum: Vec<T>,
}

impl<T: Scalar> AdamW<T> {
    pub closed spec fn rate(&self) -> T {
        self.learning_rate
    }

    pub closed spec fn b1(&self) -> T {
        self.beta1
    }

    pub closed spec fn b2(&self) -> T {
        self.beta2
    }

    pub closed spec fn eps(&self) -> T {
        self.epsilon
    }

    pub closed spec fn decay(&self) -> T {
        self.weight_decay
    }

    /// The step counter used by bias correction; starts at one.
    pub closed spec fn step_count(&self) -> i32 {
        self.t
    }

    pub closed spec fn m1(&self) -> Seq<T> {
        self.first_momentum@
    }

    pub closed spec fn m2(&self) -> Seq<T> {
        self.second_momentum@
    }

    /// A fresh optimizer with the given hyperparameters, empty moment
    /// vectors and step counter one.
    pub fn new(learning_rate: T, beta1: T, beta2: T, epsilon: T, weight_decay: T) -> (r: Self)
        ensures
            r.rate() == learning_rate,
            r.b1() == beta1,
            r.b2() == beta2,
            r.eps() == epsilon,
            r.decay() == weight_decay,
            r.step_count() == 1,
            r.m1() == Seq::<T>::empty(),
            r.m2() == Seq::<T>::empty(),
    {
        AdamW {
            learning_rate,
            beta1,
            beta2,
            epsilon,
            weight_decay,
            t: 1,
            first_momentum: Vec::new(),
            second_momentum: Vec::new(),
        }
    }
}

impl<T: Scalar> Optimizer<T> for AdamW<T> {
    /// Every parameter is a registered variable inside the derivative
    /// vector; each retained moment vector is either still unallocated
    /// or sized to the derivative vector; the step counter has room to
    /// advance.
    open spec fn step_req(&self, g: Seq<T>, ps: Seq<Reverse<T>>) -> bool {
        &&& forall|j: int|
            0 <= j < ps.len() ==> (#[trigger] ps[j]).is_variable() && ps[j].pos() < g.len()
        &&& self.m1().len() == 0 || self.m1().len() == g.len()
        &&& self.m2().len() == 0 || self.m2().len() == g.len()
        &&& 1 <= self.step_count() < i32::MAX
    }

    /// The moments advance by one exponential-moving-average step over
    /// the whole derivative vector, the step counter advances by one,
    /// and each parameter becomes the untracked constant given by
    /// [`adamw_new_value`] at its pre-decay position.
    open spec fn step_ens(&self, g: Seq<T>, ps: Seq<Reverse<T>>, post: Self, ps_post: Seq<Reverse<T>>) -> bool {
        let m1n = first_moment_update(self.b1(), moment_base(self.m1(), g.len()), g);
        let m2n = second_moment_update(self.b2(), moment_base(self.m2(), g.len()), g);
        let mh1 = bias_correct(m1n, self.b1(), self.step_count());
        let mh2 = bias_correct(m2n, self.b2(), self.step_count());
        &&& post.rate() == self.rate()
        &&& post.b1() == self.b1()
        &&& post.b2() == self.b2()
        &&& post.eps() == self.eps()
        &&& post.decay() == self.decay()
        &&& post.step_count() as int == self.step_count() as int + 1
        &&& post.m1() == m1n
        &&& post.m2() == m2n
        &&& ps_post.len() == ps.len()
        &&& forall|j: int|
            0 <= j < ps.len() ==> !(#[trigger] ps_post[j]).is_variable() && ps_post[j].val()
                == adamw_new_value(ps[j], self.rate(), self.decay(), self.eps(), mh1, mh2)
    }

    fn step(&mut self, derivatives: &Derivatives<T>, params: &mut Vec<Reverse<T>>) {
        let ghost g = derivatives@;
        let ghost ps0 = params@;
        let nparams = params.len();
        let nderivatives = derivatives.len();

        // Record every parameter's pre-decay position, then apply the
        // decoupled weight decay.
        let apply_decay = !self.weight_decay.is_zero_v();
        let mut param_indices: Vec<usize> = Vec::with_capacity(nparams);
        let mut idx: usize = 0;
        while idx < nparams
            invariant
                *self == *old(self),
                old(self).step_req(g, ps0),
                g == derivatives@,
                ps0.len() == nparams,
                params@.len() == nparams,
                idx <= nparams,
                apply_decay == (old(self).decay() != T::zero_s()),
                param_indices@.len() == idx,
                forall|i: int| 0 <= i < idx ==> param_indices@[i] as int == ps0[i].pos(),
                forall|i: int| idx <= i < nparams ==> params@[i] == ps0[i],
                forall|i: int|
                    0 <= i < idx ==> (#[trigger] params@[i]).val() == decayed_value(
                        ps0[i].val(),
                        old(self).rate(),
                        old(self).decay(),
                    ),
            decreases nparams - idx,
        {
            let p = params[idx];
            proof {
                assert(ps0[idx as int].is_variable());
            }
            param_indices.push(p.position());
            if apply_decay {
                let pv = *p.value();
                params.set(
                    idx,
                    Reverse::auto(pv.sub_v(self.learning_rate.mul_v(self.weight_decay).mul_v(pv))),
                );
            }
            idx = idx + 1;
        }

        // One exponential-moving-average step per moment, lazily
        // starting from zero vectors on first use.
        let ghost m1_base = moment_base(old(self).m1(), g.len());
        let ghost m2_base = moment_base(old(self).m2(), g.len());
        let ghost m1n = first_moment_update(old(self).b1(), m1_base, g);
        let ghost m2n = second_moment_update(old(self).b2(), m2_base, g);

        let m1_empty = self.first_momentum.is_empty();
        let one_minus_b1 = T::one_v().sub_v(self.beta1);
        let mut new_m1: Vec<T> = Vec::with_capacity(nderivatives);
        let mut i: usize = 0;
        while i < nderivatives
            invariant
                *self == *old(self),
                old(self).step_req(g, ps0),
                g == derivatives@,
                nderivatives == g.len(),
                m1_empty == (old(self).m1().len() == 0),
                one_minus_b1 == T::one_s().sub_s(old(self).b1()),
                m1n == first_moment_update(old(self).b1(), m1_base, g),
                m1_base == moment_base(old(self).m1(), g.len()),
                i <= nderivatives,
                new_m1@.len() == i,
                forall|k: int| 0 <= k < i ==> new_m1@[k] == m1n[k],
            decreases nderivatives - i,
        {
            let base = if m1_empty {
                T::zero_v()
            } else {
                self.first_momentum[i]
            };
            let gi = derivatives.get(i);
            new_m1.push(self.beta1.mul_v(base).add_v(one_minus_b1.mul_v(gi)));
            i = i + 1;
        }
        self.first_momentum = new_m1;
        proof {
            assert(self.first_momentum@ =~= m1n);
        }

        let m2_empty = self.second_momentum.is_empty();
        let one_minus_b2 = T::one_v().sub_v(self.beta2);
        let mut new_m2: Vec<T> = Vec::with_capacity(nderivatives);
        let mut i2: usize = 0;
        while i2 < nderivatives
            invariant
                self.second_momentum@ == old(self).m2(),
                self.beta2 == old(self).b2(),
                old(self).step_req(g, ps0),
                g == derivatives@,
                nderivatives == g.len(),
                m2_empty == (old(self).m2().len() == 0),
                one_minus_b2 == T::one_s().sub_s(old(self).b2()),
                m2n == second_moment_update(old(self).b2(), m2_base, g),
                m2_base == moment_base(old(self).m2(), g.len()),
                i2 <= nderivatives,
                new_m2@.len() == i2,
                forall|k: int| 0 <= k < i2 ==> new_m2@[k] == m2n[k],
            decreases nderivatives - i2,
        {
            let base = if m2_empty {
                T::zero_v()
            } else {
                self.second_momentum[i2]
            };
            let gi = derivatives.get(i2);
            new_m2.push(self.beta2.mul_v(base).add_v(one_minus_b2.mul_v(gi).mul_v(gi)));
            i2 = i2 + 1;
        }
        self.second_momentum = new_m2;
        proof {
            assert(self.second_momentum@ =~= m2n);
        }

        // Bias correction.
        let ghost mh1 = bias_correct(m1n, old(self).b1(), old(self).step_count());
        let ghost mh2 = bias_correct(m2n, old(self).b2(), old(self).step_count());
        let denom1 = T::one_v().sub_v(self.beta1.powi_v(self.t));
        let denom2 = T::one_v().sub_v(self.beta2.powi_v(self.t));
        let mut first_momentum_hat: Vec<T> = Vec::with_capacity(nderivatives);
        let mut second_momentum_hat: Vec<T> = Vec::with_capacity(nderivatives);
        let mut i3: usize = 0;
        while i3 < nderivatives
            invariant
                self.first_momentum@ == m1n,
                self.second_momentum@ == m2n,
                m1n.len() == nderivatives,
                m2n.len() == nderivatives,
                denom1 == T::one_s().sub_s(old(self).b1().powi_s(old(self).step_count())),
                denom2 == T::one_s().sub_s(old(self).b2().powi_s(old(self).step_count())),
                mh1 == bias_correct(m1n, old(self).b1(), old(self).step_count()),
                mh2 == bias_correct(m2n, old(self).b2(), old(self).step_count()),
                i3 <= nderivatives,
                first_momentum_hat@.len() == i3,
                second_momentum_hat@.len() == i3,
                forall|k: int| 0 <= k < i3 ==> first_momentum_hat@[k] == mh1[k],
                forall|k: int| 0 <= k < i3 ==> second_momentum_hat@[k] == mh2[k],
            decreases nderivatives - i3,
        {
            first_momentum_hat.push(self.first_momentum[i3].div_v(denom1));
            second_momentum_hat.push(self.second_momentum[i3].div_v(denom2));
            i3 = i3 + 1;
        }

        // The gradient-based update, at each parameter's pre-decay
        // position.
        let mut j: usize = 0;
        while j < nparams
            invariant
                self.learning_rate == old(self).rate(),
                self.epsilon == old(self).eps(),
                old(self).step_req(g, ps0),
                ps0.len() == nparams,
                params@.len() == nparams,
                param_indices@.len() == nparams,
                nderivatives == g.len(),
                forall|i: int| 0 <= i < nparams ==> param_indices@[i] as int == ps0[i].pos(),
                first_momentum_hat@ == mh1,
                second_momentum_hat@ == mh2,
                mh1.len() == nderivatives,
                mh2.len() == nderivatives,
                j <= nparams,
                forall|i: int|
                    j <= i < nparams ==> (#[trigger] params@[i]).val() == decayed_value(
                        ps0[i].val(),
                        old(self).rate(),
                        old(self).decay(),
                    ),
                forall|i: int|
                    0 <= i < j ==> !(#[trigger] params@[i]).is_variable() && params@[i].val()
                        == adamw_new_value(
                        ps0[i],
                        old(self).rate(),
                        old(self).decay(),
                        old(self).eps(),
                        mh1,
                        mh2,
                    ),
            decreases nparams - j,
        {
            let pos = param_indices[j];
            let p = params[j];
            let pv = *p.value();
            params.set(
                j,
                Reverse::auto(
                    pv.sub_v(
                        self.learning_rate.mul_v(first_momentum_hat[pos]).div_v(
                            second_momentum_hat[pos].sqrt_v().add_v(self.epsilon),
                        ),
                    ),
                ),
            );
            j = j + 1;
        }

        self.t = self.t + 1;
    }
}

} // verus!
