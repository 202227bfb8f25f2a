//! Proved laws of the backward sweep.
//!
//! These relate the spec-level model ([`all_derivatives`]) of whole
//! recorded expressions to the closed-form derivatives a calculus reader
//! expects. The tapes they speak of are exactly the ones the recording
//! operators produce, as stated by those operators' contracts.

use vstd::prelude::*;

use crate::autograd::{all_derivatives, init_grad, leaf_op, node_step, sweep, Op};
use crate::scalar::Scalar;

verus! {

/// All nodes at positions below `k` are leaves seeded with the additive
/// identity, the shape `Tape::add_reset` records for registered
/// variables.
pub open spec fn zero_leaves_below<T: Scalar>(ops: Seq<Op<T>>, k: int) -> bool {
    forall|i: int| 0 <= i < k ==> #[trigger] ops[i] == leaf_op(i, T::zero_s())
}

/// Propagating a zero-seeded leaf adds `grad[i] * zero` twice into the
/// leaf's own slot, which changes nothing.
proof fn lemma_zero_leaf_step<T: Scalar>(ops: Seq<Op<T>>, grad: Seq<T>, i: int)
    requires
        0 <= i < ops.len(),
        i <= usize::MAX as int,
        ops[i] == leaf_op(i, T::zero_s()),
        grad.len() == ops.len(),
    ensures
        node_step(ops, grad, i) == grad,
{
    T::lemma_mul_zero(grad[i]);
    T::lemma_add_zero(grad[i]);
    assert(node_step(ops, grad, i) =~= grad);
}

/// A sweep over a prefix of zero-seeded leaves leaves the gradient
/// vector as it stands.
proof fn lemma_sweep_zero_leaves<T: Scalar>(ops: Seq<Op<T>>, grad: Seq<T>, k: int)
    requires
        grad.len() == ops.len(),
        0 <= k <= ops.len(),
        k <= usize::MAX as int,
        zero_leaves_below(ops, k),
    ensures
        sweep(ops, grad, k) == grad,
    decreases k,
{
    if k > 0 {
        lemma_zero_leaf_step(ops, grad, k - 1);
        lemma_sweep_zero_leaves(ops, grad, k - 1);
    }
}

/// Law: for the identity expression `f(x) = x` — a tape holding only
/// registered leaves — the backward sweep from the leaf at `p` yields
/// the multiplicative identity at `p` and the additive identity at every
/// other position, whatever the primal values are.
pub proof fn lemma_identity_gradient<T: Scalar>(ops: Seq<Op<T>>, p: int)
    requires
        zero_leaves_below(ops, ops.len() as int),
        ops.len() <= usize::MAX as int,
        0 <= p < ops.len(),
    ensures
        all_derivatives(ops, p)[p] == T::one_s(),
        forall|q: int|
            0 <= q < ops.len() && q != p ==> all_derivatives(ops, p)[q] == T::zero_s(),
{
    lemma_sweep_zero_leaves(ops, init_grad(ops.len(), p), ops.len() as int);
}

/// Law: for `f(x) = x * x` with both operands aliasing the same leaf,
/// the derivative at the leaf is `x + x`, for any primal `v` — the
/// product rule credits the leaf once per operand.
pub proof fn lemma_square_gradient<T: Scalar>(v: T)
    ensures
        ({
            let ops = seq![
                leaf_op(0, T::zero_s()),
                (Op { left: 0, right: 0, dleft: v, dright: v }),
            ];
            all_derivatives::<T>(ops, 1)[0] == v.add_s(v)
        }),
{
    let ops = seq![leaf_op(0, T::zero_s()), (Op { left: 0, right: 0, dleft: v, dright: v })];
    let init = init_grad::<T>(ops.len(), 1);
    T::lemma_mul_one(v);
    T::lemma_add_zero(v);
    let g1 = node_step(ops, init, 1);
    assert(g1 =~= seq![v.add_s(v), T::one_s()]);
    lemma_sweep_zero_leaves(ops, g1, 1);
    assert(all_derivatives::<T>(ops, 1) == g1);
}

/// Law: for `f(x, y) = x + y` with both operands registered leaves, the
/// derivative at each leaf is the multiplicative identity, whatever the
/// primal values are (they never enter the recorded local derivatives).
pub proof fn lemma_sum_gradient<T: Scalar>()
    ensures
        ({
            let ops = seq![
                leaf_op(0, T::zero_s()),
                leaf_op(1, T::zero_s()),
                (Op { left: 0, right: 1, dleft: T::one_s(), dright: T::one_s() }),
            ];
            all_derivatives::<T>(ops, 2)[0] == T::one_s() && all_derivatives::<T>(ops, 2)[1]
                == T::one_s()
        }),
{
    let ops = seq![
        leaf_op(0, T::zero_s()),
        leaf_op(1, T::zero_s()),
        (Op { left: 0, right: 1, dleft: T::one_s(), dright: T::one_s() }),
    ];
    let init = init_grad::<T>(ops.len(), 2);
    T::lemma_mul_one(T::one_s());
    T::lemma_add_zero(T::one_s());
    let g1 = node_step(ops, init, 2);
    assert(g1 =~= seq![T::one_s(), T::one_s(), T::one_s()]);
    lemma_sweep_zero_leaves(ops, g1, 2);
    assert(all_derivatives::<T>(ops, 2) == g1);
}

/// Law: for `f(x) = x + c` with `c` an untracked constant, the recorded
/// node is unary through `x` alone, and the derivative at `x` is the
/// multiplicative identity; `c` has no position, so no derivative with
/// respect to `c` exists at all.
pub proof fn lemma_constant_offset_gradient<T: Scalar>()
    ensures
        ({
            let ops = seq![
                leaf_op(0, T::zero_s()),
                (Op { left: 0, right: 0, dleft: T::one_s(), dright: T::zero_s() }),
            ];
            all_derivatives::<T>(ops, 1)[0] == T::one_s()
        }),
{
    let ops = seq![
        leaf_op(0, T::zero_s()),
        (Op { left: 0, right: 0, dleft: T::one_s(), dright: T::zero_s() }),
    ];
    let init = init_grad::<T>(ops.len(), 1);
    T::lemma_mul_one(T::one_s());
    T::lemma_add_zero(T::one_s());
    T::lemma_mul_zero(T::one_s());
    let g1 = node_step(ops, init, 1);
    assert(g1 =~= seq![T::one_s(), T::one_s()]);
    lemma_sweep_zero_leaves(ops, g1, 1);
    assert(all_derivatives::<T>(ops, 1) == g1);
}

/// Law: the backward sweep is a pure function of the recorded nodes and
/// the seed position. Together with the reset contracts — `Tape::reset`
/// leaves the tape exactly as `Tape::new` builds it, and re-registration
/// appends fully determined leaves — rebuilding an identical expression
/// on the same primal values reproduces identical derivative values.
pub proof fn lemma_backward_deterministic<T: Scalar>(
    ops1: Seq<Op<T>>,
    ops2: Seq<Op<T>>,
    pos1: int,
    pos2: int,
)
    requires
        ops1 == ops2,
        pos1 == pos2,
    ensures
        all_derivatives::<T>(ops1, pos1) == all_derivatives::<T>(ops2, pos2),
{
}

} // verus!
