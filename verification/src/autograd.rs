//! Reverse-mode automatic differentiation.
//!
//! A [`Tape`] is an append-only arena of recorded operation nodes; a
//! [`Reverse`] is a value that is either an untracked constant or a
//! variable recorded at some position of a tape; [`Derivatives`] is the
//! result of one backward sweep, holding one accumulated total derivative
//! per tape position.
//!
//! Every operation that records a node takes the tape as an explicit
//! `&mut` argument, so one computation always works against one arena and
//! values from two different tapes cannot silently be mixed.
//!
//! The contracts are stated over a mathematical model of the sweep:
//! [`sweep`] folds [`node_step`] over the recorded nodes from the highest
//! position down to zero, exactly as the executable scan does, and
//! [`all_derivatives`] is the sweep started from the one-hot seed vector
//! [`init_grad`].

use vstd::pervasive::unreached;
use vstd::pervasive::VecAdditionalExecFns;
use vstd::prelude::*;

use crate::scalar::Scalar;

verus! {

/// One recorded operation: the positions of its two parents and the local
/// partial derivative of the operation with respect to each parent.
///
/// A leaf node is self-referential (`left == right ==` its own position)
/// with both local derivatives equal to the seed, so the backward sweep
/// needs no special case for leaves.
#[verifier::ext_equal]
#[derive(Clone, Copy)]
pub struct Op<T> {
    pub left: usize,
    pub right: usize,
    pub dleft: T,
    pub dright: T,
}

/// The self-referential leaf node at position `pos`, seeded with `seed`.
pub open spec fn leaf_op<T>(pos: int, seed: T) -> Op<T> {
    Op { left: pos as usize, right: pos as usize, dleft: seed, dright: seed }
}

/// Every node's parents lie at or before the node itself. This is the
/// invariant that lets a single linear backward scan suffice: when the
/// sweep reaches a position, all of its consumers have already been
/// visited.
pub open spec fn wf_ops<T>(ops: Seq<Op<T>>) -> bool {
    forall|i: int|
        0 <= i < ops.len() ==> (#[trigger] ops[i]).left as int <= i && ops[i].right as int <= i
}

/// `post` is `pre` with exactly one node appended.
pub open spec fn extends_one<T>(pre: Seq<Op<T>>, post: Seq<Op<T>>) -> bool {
    &&& post.len() == pre.len() + 1
    &&& forall|i: int| 0 <= i < pre.len() ==> post[i] == pre[i]
}

/// `post` is `pre` with one node appended whose parents are `l` and `r`
/// and whose local derivatives are `dl` and `dr`.
pub open spec fn records<T>(pre: Seq<Op<T>>, post: Seq<Op<T>>, l: int, dl: T, r: int, dr: T) -> bool {
    &&& extends_one(pre, post)
    &&& post.last().left as int == l
    &&& post.last().right as int == r
    &&& post.last().dleft == dl
    &&& post.last().dright == dr
}

/// Tape, also known as a Wengert list: the append-only arena of recorded
/// operation nodes. Positions are dense integers `0..len` in creation
/// order.
pub struct Tape<T> {
    nodes: Vec<Op<T>>,
}

impl<T> View for Tape<T> {
    type V = Seq<Op<T>>;

    closed spec fn view(&self) -> Seq<Op<T>> {
        self.nodes@
    }
}

impl<T> Tape<T> {
    /// The tape invariant: parents pre-exist their children.
    pub open spec fn wf(&self) -> bool {
        wf_ops(self@)
    }

    pub fn new() -> (r: Self)
        ensures
            r@ == Seq::<Op<T>>::empty(),
            r.wf(),
    {
        Tape { nodes: Vec::new() }
    }

    /// Clears all recorded nodes; previously handed-out positions become
    /// stale until the values holding them are re-registered.
    pub fn reset(&mut self)
        ensures
            final(self)@ == Seq::<Op<T>>::empty(),
            final(self).wf(),
    {
        self.nodes.clear();
    }

    /// The number of recorded nodes.
    pub fn len(&self) -> (r: usize)
        ensures
            r == self@.len(),
    {
        self.nodes.len()
    }

    /// Appends a general node and returns its position.
    pub(crate) fn add_op(&mut self, op: Op<T>) -> (r: usize)
        requires
            old(self).wf(),
            op.left as int <= old(self)@.len(),
            op.right as int <= old(self)@.len(),
        ensures
            final(self).wf(),
            r == old(self)@.len(),
            final(self)@ == old(self)@.push(op),
    {
        let new_idx = self.nodes.len();
        self.nodes.push(op);
        new_idx
    }
}

impl<T: Copy> Tape<T> {
    /// Appends a self-referential leaf node seeded with `v1` and returns
    /// its position.
    pub(crate) fn add_reset(&mut self, v1: T) -> (r: usize)
        requires
            old(self).wf(),
        ensures
            final(self).wf(),
            r == old(self)@.len(),
            final(self)@ == old(self)@.push(leaf_op(old(self)@.len() as int, v1)),
    {
        let new_idx = self.nodes.len();
        self.nodes.push(Op { left: new_idx, right: new_idx, dleft: v1, dright: v1 });
        new_idx
    }

    /// Reads one recorded node.
    fn node_at(&self, k: usize) -> (r: Op<T>)
        requires
            k < self@.len(),
        ensures
            r == self@[k as int],
    {
        self.nodes[k]
    }
}

/// A value of the differentiation engine: an untracked constant, or a
/// variable whose operations are recorded on a tape. A constant has no
/// tape position at all, so asking for a derivative with respect to a
/// constant is not merely zero — it is not expressible.
#[derive(Clone, Copy)]
pub enum Reverse<T> {
    Constant { value: T },
    Variable { value: T, index: usize },
}

impl<T> Reverse<T> {
    /// Whether this value participates in recording.
    pub open spec fn is_variable(self) -> bool {
        match self {
            Reverse::Constant { .. } => false,
            Reverse::Variable { .. } => true,
        }
    }

    /// The current primal value.
    pub open spec fn val(self) -> T {
        match self {
            Reverse::Constant { value } => value,
            Reverse::Variable { value, .. } => value,
        }
    }

    /// The tape position; meaningful only when `is_variable()`.
    pub open spec fn pos(self) -> int {
        match self {
            Reverse::Constant { .. } => 0,
            Reverse::Variable { index, .. } => index as int,
        }
    }
}

/// The gradient vector after the nodes at positions `i` and above have
/// propagated their contributions: node `i` adds `grad[i] * dleft` into
/// its left parent's slot, then `grad[i] * dright` into its right
/// parent's slot, reading the slot values current at that moment.
pub open spec fn node_step<T: Scalar>(ops: Seq<Op<T>>, grad: Seq<T>, i: int) -> Seq<T> {
    let l = ops[i].left as int;
    let r = ops[i].right as int;
    let g1 = grad.update(l, grad[l].add_s(grad[i].mul_s(ops[i].dleft)));
    g1.update(r, g1[r].add_s(g1[i].mul_s(ops[i].dright)))
}

/// The backward sweep: starting from `grad`, propagates the nodes at
/// positions `k - 1` down to `0`, highest first.
pub open spec fn sweep<T: Scalar>(ops: Seq<Op<T>>, grad: Seq<T>, k: int) -> Seq<T>
    decreases k,
{
    if k <= 0 {
        grad
    } else {
        sweep(ops, node_step(ops, grad, k - 1), k - 1)
    }
}

/// The one-hot seed vector: length `n`, additive identity everywhere but
/// the multiplicative identity at `pos`.
pub open spec fn init_grad<T: Scalar>(n: nat, pos: int) -> Seq<T> {
    Seq::new(n, |i: int| T::zero_s()).update(pos, T::one_s())
}

/// The accumulated total derivative of the output recorded at `pos` with
/// respect to every position of `ops`.
pub open spec fn all_derivatives<T: Scalar>(ops: Seq<Op<T>>, pos: int) -> Seq<T> {
    sweep(ops, init_grad(ops.len(), pos), ops.len() as int)
}

/// The sweep never changes the length of the gradient vector.
pub proof fn lemma_sweep_len<T: Scalar>(ops: Seq<Op<T>>, grad: Seq<T>, k: int)
    requires
        wf_ops(ops),
        grad.len() == ops.len(),
        k <= ops.len(),
    ensures
        sweep(ops, grad, k).len() == grad.len(),
    decreases k,
{
    if k > 0 {
        lemma_sweep_len(ops, node_step(ops, grad, k - 1), k - 1);
    }
}

/// The immutable result of one backward sweep: one accumulated total
/// derivative per tape position, valid until the originating tape is next
/// mutated.
pub struct Derivatives<T> {
    pub(crate) derivatives: Vec<T>,
}

impl<T> View for Derivatives<T> {
    type V = Seq<T>;

    closed spec fn view(&self) -> Seq<T> {
        self.derivatives@
    }
}

impl<T> Derivatives<T> {
    pub(crate) fn empty() -> (r: Self)
        ensures
            r@ == Seq::<T>::empty(),
    {
        Derivatives { derivatives: Vec::new() }
    }

    /// The number of tape positions covered by this sweep.
    pub fn len(&self) -> (r: usize)
        ensures
            r == self@.len(),
    {
        self.derivatives.len()
    }

}

impl<T: Copy> Derivatives<T> {
    /// Reads the slot at a raw tape position.
    pub(crate) fn get(&self, i: usize) -> (r: T)
        requires
            i < self@.len(),
        ensures
            r == self@[i as int],
    {
        self.derivatives[i]
    }

    /// Looks up the accumulated derivative at a variable's position.
    /// A constant has no position, so the question does not arise for it.
    pub fn index(&self, v: &Reverse<T>) -> (r: T)
        requires
            v.is_variable(),
            v.pos() < self@.len(),
        ensures
            r == self@[v.pos()],
    {
        match v {
            Reverse::Variable { index, .. } => self.derivatives[*index],
            Reverse::Constant { .. } => unreached(),
        }
    }
}

/// The tape state and result produced by recording a unary operation on
/// `x`: if `x` is a variable, one node is appended whose single parent is
/// `x` with local derivative `d`, and the result is a variable at the new
/// position; if `x` is a constant, nothing is recorded and the result is
/// a constant. In both cases the result's primal is `rv`.
pub open spec fn unary_result<T: Scalar>(
    pre: Seq<Op<T>>,
    post: Seq<Op<T>>,
    x: Reverse<T>,
    d: T,
    r: Reverse<T>,
    rv: T,
) -> bool {
    &&& r.val() == rv
    &&& r.is_variable() == x.is_variable()
    &&& if x.is_variable() {
        records(pre, post, x.pos(), d, x.pos(), T::zero_s()) && r.pos() == pre.len()
    } else {
        post == pre
    }
}

/// The tape state and result produced by recording a binary operation on
/// `x` and `y` with local derivatives `dl` (with respect to `x`) and `dr`
/// (with respect to `y`): a binary node when both are variables, a unary
/// node through the one variable operand when the other is a constant
/// (the constant has no upstream to receive gradient), and no recording
/// when both are constants. In all cases the result's primal is `rv`.
pub open spec fn bin_result<T: Scalar>(
    pre: Seq<Op<T>>,
    post: Seq<Op<T>>,
    x: Reverse<T>,
    y: Reverse<T>,
    dl: T,
    dr: T,
    r: Reverse<T>,
    rv: T,
) -> bool {
    &&& r.val() == rv
    &&& r.is_variable() == (x.is_variable() || y.is_variable())
    &&& if x.is_variable() && y.is_variable() {
        records(pre, post, x.pos(), dl, y.pos(), dr) && r.pos() == pre.len()
    } else if x.is_variable() {
        records(pre, post, x.pos(), dl, x.pos(), T::zero_s()) && r.pos() == pre.len()
    } else if y.is_variable() {
        records(pre, post, y.pos(), dr, y.pos(), T::zero_s()) && r.pos() == pre.len()
    } else {
        post == pre
    }
}

impl<T: Scalar> Reverse<T> {
    /// Read-only access to the current primal value.
    pub fn value(&self) -> (r: &T)
        ensures
            *r == self.val(),
    {
        match self {
            Reverse::Constant { value } => value,
            Reverse::Variable { value, .. } => value,
        }
    }

    /// The tape position this variable is recorded at.
    pub fn position(&self) -> (r: usize)
        requires
            self.is_variable(),
        ensures
            r == self.pos(),
    {
        match self {
            Reverse::Variable { index, .. } => *index,
            Reverse::Constant { .. } => unreached(),
        }
    }

    /// An untracked constant: never recorded, never differentiated.
    pub fn auto(v: T) -> (r: Self)
        ensures
            !r.is_variable(),
            r.val() == v,
    {
        Reverse::Constant { value: v }
    }

    /// A variable: registers a fresh leaf on `tape`, seeded with the
    /// additive identity.
    pub fn reversible(v: T, tape: &mut Tape<T>) -> (r: Self)
        requires
            old(tape).wf(),
        ensures
            final(tape).wf(),
            final(tape)@ == old(tape)@.push(leaf_op(old(tape)@.len() as int, T::zero_s())),
            r.is_variable(),
            r.val() == v,
            r.pos() == old(tape)@.len(),
    {
        let index = tape.add_reset(T::zero_v());
        Reverse::Variable { value: v, index }
    }

    /// No-op for a constant; for a variable, re-registers a fresh leaf on
    /// `tape` and updates the stored position. Must be called after the
    /// tape itself was reset, for every variable the caller keeps using.
    pub fn reset(&mut self, tape: &mut Tape<T>)
        requires
            old(tape).wf(),
        ensures
            final(tape).wf(),
            !old(self).is_variable() ==> *final(self) == *old(self) && final(tape)@ == old(tape)@,
            old(self).is_variable() ==> {
                &&& final(tape)@ == old(tape)@.push(leaf_op(old(tape)@.len() as int, T::zero_s()))
                &&& final(self).is_variable()
                &&& final(self).val() == old(self).val()
                &&& final(self).pos() == old(tape)@.len()
            },
    {
        match self {
            Reverse::Constant { .. } => {},
            Reverse::Variable { index, .. } => {
                *index = tape.add_reset(T::zero_v());
            },
        }
    }

    /// Applies `eval` to the primal; if `self` is a variable, records a
    /// unary node whose local derivative is `deriv` of the old primal.
    pub fn unary_op<F: Fn(T) -> T, FD: Fn(T) -> T>(
        &self,
        tape: &mut Tape<T>,
        eval: F,
        deriv: FD,
    ) -> (r: Reverse<T>)
        requires
            old(tape).wf(),
            self.is_variable() ==> self.pos() < old(tape)@.len(),
            call_requires(eval, (self.val(),)),
            call_requires(deriv, (self.val(),)),
        ensures
            final(tape).wf(),
            call_ensures(eval, (self.val(),), r.val()),
            r.is_variable() == self.is_variable(),
            !self.is_variable() ==> final(tape)@ == old(tape)@,
            self.is_variable() ==> {
                &&& extends_one(old(tape)@, final(tape)@)
                &&& final(tape)@.last().left as int == self.pos()
                &&& final(tape)@.last().right as int == self.pos()
                &&& call_ensures(deriv, (self.val(),), final(tape)@.last().dleft)
                &&& final(tape)@.last().dright == T::zero_s()
                &&& r.pos() == old(tape)@.len()
            },
    {
        let a = *self.value();
        let value = eval(a);
        match self {
            Reverse::Constant { .. } => Reverse::Constant { value },
            Reverse::Variable { index, .. } => {
                let d = deriv(a);
                let idx = tape.add_op(
                    Op { left: *index, right: *index, dleft: d, dright: T::zero_v() },
                );
                Reverse::Variable { value, index: idx }
            },
        }
    }

    /// Applies `eval` to the two primals and records the operation along
    /// every variable operand: a binary node when both operands are
    /// variables, a unary node when only one is. Both operands work
    /// against the one `tape` argument, so values of two different tapes
    /// cannot meet in one operation.
    pub fn bin_op<F: Fn(T, T) -> T, FL: Fn(T, T) -> T, FR: Fn(T, T) -> T>(
        &self,
        tape: &mut Tape<T>,
        other: &Reverse<T>,
        eval: F,
        deriv_left: FL,
        deriv_right: FR,
    ) -> (r: Reverse<T>)
        requires
            old(tape).wf(),
            self.is_variable() ==> self.pos() < old(tape)@.len(),
            other.is_variable() ==> other.pos() < old(tape)@.len(),
            call_requires(eval, (self.val(), other.val())),
            call_requires(deriv_left, (self.val(), other.val())),
            call_requires(deriv_right, (self.val(), other.val())),
        ensures
            final(tape).wf(),
            call_ensures(eval, (self.val(), other.val()), r.val()),
            r.is_variable() == (self.is_variable() || other.is_variable()),
            !self.is_variable() && !other.is_variable() ==> final(tape)@ == old(tape)@,
            self.is_variable() || other.is_variable() ==> extends_one(old(tape)@, final(tape)@)
                && r.pos() == old(tape)@.len(),
            self.is_variable() && other.is_variable() ==> {
                &&& final(tape)@.last().left as int == self.pos()
                &&& final(tape)@.last().right as int == other.pos()
                &&& call_ensures(deriv_left, (self.val(), other.val()), final(tape)@.last().dleft)
                &&& call_ensures(deriv_right, (self.val(), other.val()), final(tape)@.last().dright)
            },
            self.is_variable() && !other.is_variable() ==> {
                &&& final(tape)@.last().left as int == self.pos()
                &&& final(tape)@.last().right as int == self.pos()
                &&& call_ensures(deriv_left, (self.val(), other.val()), final(tape)@.last().dleft)
                &&& final(tape)@.last().dright == T::zero_s()
            },
            !self.is_variable() && other.is_variable() ==> {
                &&& final(tape)@.last().left as int == other.pos()
                &&& final(tape)@.last().right as int == other.pos()
                &&& call_ensures(deriv_right, (self.val(), other.val()), final(tape)@.last().dleft)
                &&& final(tape)@.last().dright == T::zero_s()
            },
    {
        let a = *self.value();
        let b = *other.value();
        let value = eval(a, b);
        match (self, other) {
            (Reverse::Constant { .. }, Reverse::Constant { .. }) => Reverse::Constant { value },
            (Reverse::Variable { index, .. }, Reverse::Constant { .. }) => {
                let d = deriv_left(a, b);
                let idx = tape.add_op(
                    Op { left: *index, right: *index, dleft: d, dright: T::zero_v() },
                );
                Reverse::Variable { value, index: idx }
            },
            (Reverse::Constant { .. }, Reverse::Variable { index, .. }) => {
                let d = deriv_right(a, b);
                let idx = tape.add_op(
                    Op { left: *index, right: *index, dleft: d, dright: T::zero_v() },
                );
                Reverse::Variable { value, index: idx }
            },
            (Reverse::Variable { index: il, .. }, Reverse::Variable { index: ir, .. }) => {
                let dl = deriv_left(a, b);
                let dr = deriv_right(a, b);
                let idx = tape.add_op(Op { left: *il, right: *ir, dleft: dl, dright: dr });
                Reverse::Variable { value, index: idx }
            },
        }
    }

    /// One backward sweep: the accumulated total derivative of this value
    /// with respect to every recorded position. For a constant the result
    /// is empty.
    pub fn derivatives(&self, tape: &Tape<T>) -> (r: Derivatives<T>)
        requires
            tape.wf(),
            self.is_variable() ==> self.pos() < tape@.len(),
        ensures
            !self.is_variable() ==> r@ == Seq::<T>::empty(),
            self.is_variable() ==> r@ == all_derivatives(tape@, self.pos()),
            self.is_variable() ==> r@.len() == tape@.len(),
    {
        let index: usize = match self {
            Reverse::Constant { .. } => { return Derivatives::empty(); },
            Reverse::Variable { index, .. } => *index,
        };
        let n = tape.len();
        let mut grad: Vec<T> = Vec::new();
        while grad.len() < n
            invariant
                grad@.len() <= n,
                forall|i: int| 0 <= i < grad@.len() ==> grad@[i] == T::zero_s(),
            decreases n - grad@.len(),
        {
            grad.push(T::zero_v());
        }
        proof {
            assert(grad@ =~= Seq::new(n as nat, |i: int| T::zero_s()));
        }
        grad.set(index, T::one_v());
        proof {
            assert(grad@ =~= init_grad::<T>(tape@.len(), self.pos()));
            lemma_sweep_len(tape@, grad@, n as int);
        }
        let ghost target = all_derivatives(tape@, self.pos());
        let mut k: usize = n;
        while k > 0
            invariant
                tape.wf(),
                grad@.len() == tape@.len(),
                k <= tape@.len(),
                sweep(tape@, grad@, k as int) == target,
            decreases k,
        {
            k = k - 1;
            let ghost g0 = grad@;
            proof {
                assert(tape@[k as int].left as int <= k as int);
                assert(tape@[k as int].right as int <= k as int);
            }
            let node = tape.node_at(k);
            let gk = grad[k];
            let l = node.left;
            let cl = grad[l];
            grad.set(l, cl.add_v(gk.mul_v(node.dleft)));
            let rr = node.right;
            let gk2 = grad[k];
            let cr = grad[rr];
            grad.set(rr, cr.add_v(gk2.mul_v(node.dright)));
            proof {
                assert(grad@ =~= node_step(tape@, g0, k as int));
            }
        }
        Derivatives { derivatives: grad }
    }

    /// Natural logarithm; the local derivative is the reciprocal.
    pub fn ln(&self, tape: &mut Tape<T>) -> (r: Reverse<T>)
        requires
            old(tape).wf(),
            self.is_variable() ==> self.pos() < old(tape)@.len(),
        ensures
            final(tape).wf(),
            unary_result(old(tape)@, final(tape)@, *self, self.val().recip_s(), r, self.val().ln_s()),
    {
        self.unary_op(
            tape,
            |v: T| -> (r: T) ensures r == v.ln_s() { v.ln_v() },
            |v: T| -> (r: T) ensures r == v.recip_s() { v.recip_v() },
        )
    }

    /// Absolute value; the local derivative is the sign.
    pub fn abs(&self, tape: &mut Tape<T>) -> (r: Reverse<T>)
        requires
            old(tape).wf(),
            self.is_variable() ==> self.pos() < old(tape)@.len(),
        ensures
            final(tape).wf(),
            unary_result(old(tape)@, final(tape)@, *self, self.val().signum_s(), r, self.val().abs_s()),
    {
        self.unary_op(
            tape,
            |v: T| -> (r: T) ensures r == v.abs_s() { v.abs_v() },
            |v: T| -> (r: T) ensures r == v.signum_s() { v.signum_v() },
        )
    }

    /// Sign; the local derivative is zero almost everywhere.
    pub fn signum(&self, tape: &mut Tape<T>) -> (r: Reverse<T>)
        requires
            old(tape).wf(),
            self.is_variable() ==> self.pos() < old(tape)@.len(),
        ensures
            final(tape).wf(),
            unary_result(old(tape)@, final(tape)@, *self, T::zero_s(), r, self.val().signum_s()),
    {
        self.unary_op(
            tape,
            |v: T| -> (r: T) ensures r == v.signum_s() { v.signum_v() },
            |_v: T| -> (r: T) ensures r == T::zero_s() { T::zero_v() },
        )
    }

    /// Exponential; its own local derivative.
    pub fn exp(&self, tape: &mut Tape<T>) -> (r: Reverse<T>)
        requires
            old(tape).wf(),
            self.is_variable() ==> self.pos() < old(tape)@.len(),
        ensures
            final(tape).wf(),
            unary_result(old(tape)@, final(tape)@, *self, self.val().exp_s(), r, self.val().exp_s()),
    {
        self.unary_op(
            tape,
            |v: T| -> (r: T) ensures r == v.exp_s() { v.exp_v() },
            |v: T| -> (r: T) ensures r == v.exp_s() { v.exp_v() },
        )
    }

    /// Square root; the local derivative is half the reciprocal root.
    pub fn sqrt(&self, tape: &mut Tape<T>) -> (r: Reverse<T>)
        requires
            old(tape).wf(),
            self.is_variable() ==> self.pos() < old(tape)@.len(),
        ensures
            final(tape).wf(),
            unary_result(
                old(tape)@,
                final(tape)@,
                *self,
                T::half_s().mul_s(self.val().sqrt_s().recip_s()),
                r,
                self.val().sqrt_s(),
            ),
    {
        self.unary_op(
            tape,
            |v: T| -> (r: T) ensures r == v.sqrt_s() { v.sqrt_v() },
            |v: T| -> (r: T)
                ensures r == T::half_s().mul_s(v.sqrt_s().recip_s())
            { T::half_v().mul_v(v.sqrt_v().recip_v()) },
        )
    }

    /// Integer power; the local derivative is `n * x^(n-1)`.
    pub fn powi(&self, tape: &mut Tape<T>, n: i32) -> (r: Reverse<T>)
        requires
            old(tape).wf(),
            self.is_variable() ==> self.pos() < old(tape)@.len(),
            n > i32::MIN,
        ensures
            final(tape).wf(),
            unary_result(
                old(tape)@,
                final(tape)@,
                *self,
                T::from_i32_s(n).mul_s(self.val().powi_s((n - 1) as i32)),
                r,
                self.val().powi_s(n),
            ),
    {
        self.unary_op(
            tape,
            |v: T| -> (r: T) ensures r == v.powi_s(n) { v.powi_v(n) },
            |v: T| -> (r: T)
                ensures r == T::from_i32_s(n).mul_s(v.powi_s((n - 1) as i32))
            { T::from_i32_v(n).mul_v(v.powi_v(n - 1)) },
        )
    }

    /// Addition; both local derivatives are one.
    pub fn add(&self, tape: &mut Tape<T>, other: &Reverse<T>) -> (r: Reverse<T>)
        requires
            old(tape).wf(),
            self.is_variable() ==> self.pos() < old(tape)@.len(),
            other.is_variable() ==> other.pos() < old(tape)@.len(),
        ensures
            final(tape).wf(),
            bin_result(
                old(tape)@,
                final(tape)@,
                *self,
                *other,
                T::one_s(),
                T::one_s(),
                r,
                self.val().add_s(other.val()),
            ),
    {
        self.bin_op(
            tape,
            other,
            |x: T, y: T| -> (r: T) ensures r == x.add_s(y) { x.add_v(y) },
            |_x: T, _y: T| -> (r: T) ensures r == T::one_s() { T::one_v() },
            |_x: T, _y: T| -> (r: T) ensures r == T::one_s() { T::one_v() },
        )
    }

    /// Subtraction; the local derivatives are one and minus one.
    pub fn sub(&self, tape: &mut Tape<T>, other: &Reverse<T>) -> (r: Reverse<T>)
        requires
            old(tape).wf(),
            self.is_variable() ==> self.pos() < old(tape)@.len(),
            other.is_variable() ==> other.pos() < old(tape)@.len(),
        ensures
            final(tape).wf(),
            bin_result(
                old(tape)@,
                final(tape)@,
                *self,
                *other,
                T::one_s(),
                T::one_s().neg_s(),
                r,
                self.val().sub_s(other.val()),
            ),
    {
        self.bin_op(
            tape,
            other,
            |x: T, y: T| -> (r: T) ensures r == x.sub_s(y) { x.sub_v(y) },
            |_x: T, _y: T| -> (r: T) ensures r == T::one_s() { T::one_v() },
            |_x: T, _y: T| -> (r: T) ensures r == T::one_s().neg_s() { T::one_v().neg_v() },
        )
    }

    /// Multiplication; each local derivative is the other operand
    /// (product rule).
    pub fn mul(&self, tape: &mut Tape<T>, other: &Reverse<T>) -> (r: Reverse<T>)
        requires
            old(tape).wf(),
            self.is_variable() ==> self.pos() < old(tape)@.len(),
            other.is_variable() ==> other.pos() < old(tape)@.len(),
        ensures
            final(tape).wf(),
            bin_result(
                old(tape)@,
                final(tape)@,
                *self,
                *other,
                other.val(),
                self.val(),
                r,
                self.val().mul_s(other.val()),
            ),
    {
        self.bin_op(
            tape,
            other,
            |x: T, y: T| -> (r: T) ensures r == x.mul_s(y) { x.mul_v(y) },
            |_x: T, y: T| -> (r: T) ensures r == y { y },
            |x: T, _y: T| -> (r: T) ensures r == x { x },
        )
    }

    /// Division; the local derivatives follow the quotient rule.
    pub fn div(&self, tape: &mut Tape<T>, other: &Reverse<T>) -> (r: Reverse<T>)
        requires
            old(tape).wf(),
            self.is_variable() ==> self.pos() < old(tape)@.len(),
            other.is_variable() ==> other.pos() < old(tape)@.len(),
        ensures
            final(tape).wf(),
            bin_result(
                old(tape)@,
                final(tape)@,
                *self,
                *other,
                T::one_s().div_s(other.val()),
                self.val().neg_s().div_s(other.val().mul_s(other.val())),
                r,
                self.val().div_s(other.val()),
            ),
    {
        self.bin_op(
            tape,
            other,
            |x: T, y: T| -> (r: T) ensures r == x.div_s(y) { x.div_v(y) },
            |_x: T, y: T| -> (r: T) ensures r == T::one_s().div_s(y) { T::one_v().div_v(y) },
            |x: T, y: T| -> (r: T)
                ensures r == x.neg_s().div_s(y.mul_s(y))
            { x.neg_v().div_v(y.mul_v(y)) },
        )
    }

    /// Negation; the local derivative is minus one.
    pub fn neg(&self, tape: &mut Tape<T>) -> (r: Reverse<T>)
        requires
            old(tape).wf(),
            self.is_variable() ==> self.pos() < old(tape)@.len(),
        ensures
            final(tape).wf(),
            unary_result(
                old(tape)@,
                final(tape)@,
                *self,
                T::one_s().neg_s(),
                r,
                self.val().neg_s(),
            ),
    {
        self.unary_op(
            tape,
            |v: T| -> (r: T) ensures r == v.neg_s() { v.neg_v() },
            |_v: T| -> (r: T) ensures r == T::one_s().neg_s() { T::one_v().neg_v() },
        )
    }

    /// In-place addition: replaces `self` with the recorded sum.
    pub fn add_assign(&mut self, tape: &mut Tape<T>, other: &Reverse<T>)
        requires
            old(tape).wf(),
            old(self).is_variable() ==> old(self).pos() < old(tape)@.len(),
            other.is_variable() ==> other.pos() < old(tape)@.len(),
        ensures
            final(tape).wf(),
            bin_result(
                old(tape)@,
                final(tape)@,
                *old(self),
                *other,
                T::one_s(),
                T::one_s(),
                *final(self),
                old(self).val().add_s(other.val()),
            ),
    {
        let r = self.add(tape, other);
        *self = r;
    }

    /// In-place subtraction: replaces `self` with the recorded difference.
    pub fn sub_assign(&mut self, tape: &mut Tape<T>, other: &Reverse<T>)
        requires
            old(tape).wf(),
            old(self).is_variable() ==> old(self).pos() < old(tape)@.len(),
            other.is_variable() ==> other.pos() < old(tape)@.len(),
        ensures
            final(tape).wf(),
            bin_result(
                old(tape)@,
                final(tape)@,
                *old(self),
                *other,
                T::one_s(),
                T::one_s().neg_s(),
                *final(self),
                old(self).val().sub_s(other.val()),
            ),
    {
        let r = self.sub(tape, other);
        *self = r;
    }

    /// In-place multiplication: replaces `self` with the recorded product.
    pub fn mul_assign(&mut self, tape: &mut Tape<T>, other: &Reverse<T>)
        requires
            old(tape).wf(),
            old(self).is_variable() ==> old(self).pos() < old(tape)@.len(),
            other.is_variable() ==> other.pos() < old(tape)@.len(),
        ensures
            final(tape).wf(),
            bin_result(
                old(tape)@,
                final(tape)@,
                *old(self),
                *other,
                other.val(),
                old(self).val(),
                *final(self),
                old(self).val().mul_s(other.val()),
            ),
    {
        let r = self.mul(tape, other);
        *self = r;
    }

    /// In-place division: replaces `self` with the recorded quotient.
    pub fn div_assign(&mut self, tape: &mut Tape<T>, other: &Reverse<T>)
        requires
            old(tape).wf(),
            old(self).is_variable() ==> old(self).pos() < old(tape)@.len(),
            other.is_variable() ==> other.pos() < old(tape)@.len(),
        ensures
            final(tape).wf(),
            bin_result(
                old(tape)@,
                final(tape)@,
                *old(self),
                *other,
                T::one_s().div_s(other.val()),
                old(self).val().neg_s().div_s(other.val().mul_s(other.val())),
                *final(self),
                old(self).val().div_s(other.val()),
            ),
    {
        let r = self.div(tape, other);
        *self = r;
    }
}

} // verus!
