//! End-to-end tests of the differentiation engine and the optimizers,
//! instantiated at a plain `f64` wrapper.

use mj_autograd::autograd::{Reverse, Tape};
use mj_autograd::optimizer::{AdamW, Optimizer, SimpleGradientDescent};
use mj_autograd::scalar::Scalar;

#[derive(Clone, Copy, Debug, PartialEq, PartialOrd)]
struct F(f64);

impl Scalar for F {
    // The compiled trait keeps the erased specification items; they are
    // never called at run time, so they mirror the executable ones.
    fn zero_s() -> F {
        F(0.0)
    }

    fn one_s() -> F {
        F(1.0)
    }

    fn half_s() -> F {
        F(0.5)
    }

    fn from_i32_s(n: i32) -> F {
        F(n as f64)
    }

    fn add_s(self, o: F) -> F {
        F(self.0 + o.0)
    }

    fn sub_s(self, o: F) -> F {
        F(self.0 - o.0)
    }

    fn mul_s(self, o: F) -> F {
        F(self.0 * o.0)
    }

    fn div_s(self, o: F) -> F {
        F(self.0 / o.0)
    }

    fn neg_s(self) -> F {
        F(-self.0)
    }

    fn recip_s(self) -> F {
        F(self.0.recip())
    }

    fn exp_s(self) -> F {
        F(self.0.exp())
    }

    fn ln_s(self) -> F {
        F(self.0.ln())
    }

    fn sqrt_s(self) -> F {
        F(self.0.sqrt())
    }

    fn abs_s(self) -> F {
        F(self.0.abs())
    }

    fn signum_s(self) -> F {
        F(self.0.signum())
    }

    fn powi_s(self, n: i32) -> F {
        F(self.0.powi(n))
    }

    fn lemma_add_zero(_a: F) {}

    fn lemma_mul_zero(_a: F) {}

    fn lemma_mul_one(_a: F) {}

    fn zero_v() -> F {
        F(0.0)
    }

    fn one_v() -> F {
        F(1.0)
    }

    fn half_v() -> F {
        F(0.5)
    }

    fn from_i32_v(n: i32) -> F {
        F(n as f64)
    }

    fn add_v(self, o: F) -> F {
        F(self.0 + o.0)
    }

    fn sub_v(self, o: F) -> F {
        F(self.0 - o.0)
    }

    fn mul_v(self, o: F) -> F {
        F(self.0 * o.0)
    }

    fn div_v(self, o: F) -> F {
        F(self.0 / o.0)
    }

    fn neg_v(self) -> F {
        F(-self.0)
    }

    fn recip_v(self) -> F {
        F(self.0.recip())
    }

    fn exp_v(self) -> F {
        F(self.0.exp())
    }

    fn ln_v(self) -> F {
        F(self.0.ln())
    }

    fn sqrt_v(self) -> F {
        F(self.0.sqrt())
    }

    fn abs_v(self) -> F {
        F(self.0.abs())
    }

    fn signum_v(self) -> F {
        F(self.0.signum())
    }

    fn powi_v(self, n: i32) -> F {
        F(self.0.powi(n))
    }

    fn is_zero_v(self) -> bool {
        self.0 == 0.0
    }
}

#[test]
fn derivative_of_identity_is_one() {
    for v in [-17.25, 0.0, 3.5, 1e12] {
        let mut tape: Tape<F> = Tape::new();
        let x = Reverse::reversible(F(v), &mut tape);
        let d = x.derivatives(&tape);
        assert_eq!(d.index(&x), F(1.0));
    }
}

#[test]
fn square_by_aliasing_doubles() {
    let mut tape: Tape<F> = Tape::new();
    let x = Reverse::reversible(F(3.0), &mut tape);
    let z = x.mul(&mut tape, &x);
    assert_eq!(*z.value(), F(9.0));
    let d = z.derivatives(&tape);
    assert_eq!(d.index(&x), F(6.0));
}

#[test]
fn sum_gives_one_at_each_position() {
    let mut tape: Tape<F> = Tape::new();
    let x = Reverse::reversible(F(2.0), &mut tape);
    let y = Reverse::reversible(F(-5.0), &mut tape);
    let z = x.add(&mut tape, &y);
    assert_eq!(*z.value(), F(-3.0));
    let d = z.derivatives(&tape);
    assert_eq!(d.index(&x), F(1.0));
    assert_eq!(d.index(&y), F(1.0));
}

#[test]
fn constant_operand_is_not_tracked() {
    let mut tape: Tape<F> = Tape::new();
    let x = Reverse::reversible(F(4.0), &mut tape);
    let c = Reverse::auto(F(10.0));
    let z = x.add(&mut tape, &c);
    assert_eq!(*z.value(), F(14.0));
    let d = z.derivatives(&tape);
    assert_eq!(d.index(&x), F(1.0));
    // `c` was never recorded: only `x`'s leaf and the one unary node
    // exist, and a derivative with respect to `c` is not expressible —
    // `c` has no position to ask at.
    assert_eq!(d.len(), 2);
}

#[test]
fn reset_round_trip_is_bit_identical() {
    let mut tape: Tape<F> = Tape::new();
    let mut x = Reverse::reversible(F(3.41), &mut tape);
    let mut y = Reverse::reversible(F(2.0), &mut tape);

    let build = |tape: &mut Tape<F>, x: &Reverse<F>, y: &Reverse<F>| {
        let one = Reverse::auto(F(1.0));
        let hundred = Reverse::auto(F(100.0));
        let a = one.sub(tape, x).powi(tape, 2);
        let xsq = x.powi(tape, 2);
        let b = y.sub(tape, &xsq).powi(tape, 2);
        let scaled = hundred.mul(tape, &b);
        a.add(tape, &scaled)
    };

    let z1 = build(&mut tape, &x, &y);
    let d1 = z1.derivatives(&tape);
    let (gx1, gy1) = (d1.index(&x), d1.index(&y));

    tape.reset();
    x.reset(&mut tape);
    y.reset(&mut tape);

    let z2 = build(&mut tape, &x, &y);
    let d2 = z2.derivatives(&tape);
    let (gx2, gy2) = (d2.index(&x), d2.index(&y));

    assert_eq!(z1.value().0.to_bits(), z2.value().0.to_bits());
    assert_eq!(gx1.0.to_bits(), gx2.0.to_bits());
    assert_eq!(gy1.0.to_bits(), gy2.0.to_bits());
}

#[test]
fn rosenbrock_gradient_matches_closed_form() {
    let (xv, yv) = (3.41, 2.0);
    let mut tape: Tape<F> = Tape::new();
    let x = Reverse::reversible(F(xv), &mut tape);
    let y = Reverse::reversible(F(yv), &mut tape);

    let one = Reverse::auto(F(1.0));
    let hundred = Reverse::auto(F(100.0));
    let a = one.sub(&mut tape, &x).powi(&mut tape, 2);
    let xsq = x.powi(&mut tape, 2);
    let inner = y.sub(&mut tape, &xsq).powi(&mut tape, 2);
    let scaled = hundred.mul(&mut tape, &inner);
    let z = a.add(&mut tape, &scaled);

    let d = z.derivatives(&tape);
    let gx = d.index(&x).0;
    let gy = d.index(&y).0;

    let expected_gx = -2.0 * (1.0 - xv) - 400.0 * xv * (yv - xv * xv);
    let expected_gy = 200.0 * (yv - xv * xv);
    assert!((gx - expected_gx).abs() <= 1e-9 * expected_gx.abs());
    assert!((gy - expected_gy).abs() <= 1e-9 * expected_gy.abs());
}

#[test]
fn ln_derivative_is_reciprocal() {
    let mut tape: Tape<F> = Tape::new();
    let x = Reverse::reversible(F(2.0), &mut tape);
    let z = x.ln(&mut tape);
    assert_eq!(*z.value(), F(2.0f64.ln()));
    assert_eq!(z.derivatives(&tape).index(&x), F(0.5));
}

#[test]
fn exp_is_its_own_derivative() {
    let mut tape: Tape<F> = Tape::new();
    let x = Reverse::reversible(F(1.0), &mut tape);
    let z = x.exp(&mut tape);
    let d = z.derivatives(&tape);
    assert_eq!(d.index(&x), F(1.0f64.exp()));
}

#[test]
fn sqrt_derivative_is_half_reciprocal_root() {
    let mut tape: Tape<F> = Tape::new();
    let x = Reverse::reversible(F(4.0), &mut tape);
    let z = x.sqrt(&mut tape);
    assert_eq!(*z.value(), F(2.0));
    assert_eq!(z.derivatives(&tape).index(&x), F(0.25));
}

#[test]
fn abs_derivative_is_sign() {
    let mut tape: Tape<F> = Tape::new();
    let x = Reverse::reversible(F(-3.0), &mut tape);
    let z = x.abs(&mut tape);
    assert_eq!(*z.value(), F(3.0));
    assert_eq!(z.derivatives(&tape).index(&x), F(-1.0));
}

#[test]
fn signum_derivative_is_zero() {
    let mut tape: Tape<F> = Tape::new();
    let x = Reverse::reversible(F(-3.0), &mut tape);
    let z = x.signum(&mut tape);
    assert_eq!(*z.value(), F(-1.0));
    assert_eq!(z.derivatives(&tape).index(&x), F(0.0));
}

#[test]
fn powi_derivative_matches_power_rule() {
    let mut tape: Tape<F> = Tape::new();
    let x = Reverse::reversible(F(2.0), &mut tape);
    let z = x.powi(&mut tape, 3);
    assert_eq!(*z.value(), F(8.0));
    assert_eq!(z.derivatives(&tape).index(&x), F(12.0));
}

#[test]
fn div_derivatives_follow_quotient_rule() {
    let mut tape: Tape<F> = Tape::new();
    let x = Reverse::reversible(F(1.0), &mut tape);
    let y = Reverse::reversible(F(2.0), &mut tape);
    let z = x.div(&mut tape, &y);
    assert_eq!(*z.value(), F(0.5));
    let d = z.derivatives(&tape);
    assert_eq!(d.index(&x), F(0.5));
    assert_eq!(d.index(&y), F(-0.25));
}

#[test]
fn neg_and_sub_derivatives() {
    let mut tape: Tape<F> = Tape::new();
    let x = Reverse::reversible(F(7.0), &mut tape);
    let y = Reverse::reversible(F(3.0), &mut tape);
    let z = x.sub(&mut tape, &y).neg(&mut tape);
    assert_eq!(*z.value(), F(-4.0));
    let d = z.derivatives(&tape);
    assert_eq!(d.index(&x), F(-1.0));
    assert_eq!(d.index(&y), F(1.0));
}

#[test]
fn chain_of_products_accumulates() {
    // z = x * y + x, so dz/dx = y + 1 and dz/dy = x.
    let mut tape: Tape<F> = Tape::new();
    let x = Reverse::reversible(F(2.5), &mut tape);
    let y = Reverse::reversible(F(4.0), &mut tape);
    let z = x.mul(&mut tape, &y).add(&mut tape, &x);
    assert_eq!(*z.value(), F(12.5));
    let d = z.derivatives(&tape);
    assert_eq!(d.index(&x), F(5.0));
    assert_eq!(d.index(&y), F(2.5));
}

#[test]
fn assign_forms_match_plain_forms() {
    let mut tape: Tape<F> = Tape::new();
    let x = Reverse::reversible(F(2.0), &mut tape);
    let y = Reverse::reversible(F(3.0), &mut tape);
    let mut z = x;
    z.mul_assign(&mut tape, &y);
    z.add_assign(&mut tape, &x);
    z.sub_assign(&mut tape, &y);
    z.div_assign(&mut tape, &y);
    // z = (x * y + x - y) / y at (2, 3): (6 + 2 - 3) / 3.
    assert_eq!(*z.value(), F(5.0 / 3.0));
    let d = z.derivatives(&tape);
    // dz/dx = (y + 1) / y; dz/dy = (x - 1) / y - (xy + x - y) / y^2 = -x / y^2.
    assert!((d.index(&x).0 - 4.0 / 3.0).abs() < 1e-12);
    assert!((d.index(&y).0 - (-2.0 / 9.0)).abs() < 1e-12);
}

#[test]
fn constants_never_touch_the_tape() {
    let mut tape: Tape<F> = Tape::new();
    let a = Reverse::auto(F(2.0));
    let b = Reverse::auto(F(3.0));
    let z = a.mul(&mut tape, &b).exp(&mut tape);
    assert_eq!(*z.value(), F(6.0f64.exp()));
    assert_eq!(tape.len(), 0);
    // A backward sweep from a constant covers no positions at all.
    assert_eq!(z.derivatives(&tape).len(), 0);
}

#[test]
fn gradient_descent_moves_against_gradient() {
    let mut tape: Tape<F> = Tape::new();
    let x = Reverse::reversible(F(5.0), &mut tape);
    let z = x.mul(&mut tape, &x);
    let d = z.derivatives(&tape);
    let mut sgd = SimpleGradientDescent::new(F(0.1));
    let mut params = vec![x];
    sgd.step(&d, &mut params);
    // x - lr * dz/dx = 5 - 0.1 * 10.
    assert_eq!(*params[0].value(), F(4.0));
}

#[test]
fn adamw_first_step_matches_formula() {
    let lr = 0.1;
    let mut tape: Tape<F> = Tape::new();
    let x = Reverse::reversible(F(10.0), &mut tape);
    let one = Reverse::auto(F(1.0));
    let z = x.sub(&mut tape, &one).powi(&mut tape, 2);
    let d = z.derivatives(&tape);
    let g = d.index(&x).0;
    assert_eq!(g, 18.0);

    // Weight decay zero: the pure Adam update.
    let mut opt = AdamW::new(F(lr), F(0.9), F(0.999), F(1e-8), F(0.0));
    let mut params = vec![x];
    opt.step(&d, &mut params);

    let m1 = 0.9 * 0.0 + (1.0 - 0.9) * g;
    let m2 = 0.999 * 0.0 + (1.0 - 0.999) * g * g;
    let m1_hat = m1 / (1.0 - 0.9f64.powi(1));
    let m2_hat = m2 / (1.0 - 0.999f64.powi(1));
    let expected = 10.0 - lr * m1_hat / (m2_hat.sqrt() + 1e-8);
    assert_eq!(params[0].value().0.to_bits(), expected.to_bits());
}

#[test]
fn adamw_weight_decay_is_decoupled() {
    let lr = 0.1;
    let wd = 0.01;
    let mut tape: Tape<F> = Tape::new();
    let x = Reverse::reversible(F(10.0), &mut tape);
    let one = Reverse::auto(F(1.0));
    let z = x.sub(&mut tape, &one).powi(&mut tape, 2);
    let d = z.derivatives(&tape);
    let g = d.index(&x).0;

    let mut opt = AdamW::new(F(lr), F(0.9), F(0.999), F(1e-8), F(wd));
    let mut params = vec![x];
    opt.step(&d, &mut params);

    // Decay shrinks the parameter first; the gradient-based update then
    // uses the pre-decay tape position.
    let decayed = 10.0 - lr * wd * 10.0;
    let m1_hat = ((1.0 - 0.9) * g) / (1.0 - 0.9f64.powi(1));
    let m2_hat = ((1.0 - 0.999) * g * g) / (1.0 - 0.999f64.powi(1));
    let expected = decayed - lr * m1_hat / (m2_hat.sqrt() + 1e-8);
    assert_eq!(params[0].value().0.to_bits(), expected.to_bits());
}

#[test]
fn adamw_converges_on_shifted_parabola() {
    // f(x) = (x - 1)^2 from x0 = 10 under the stock hyperparameters.
    // The optimizer hands back untracked constants, so every iteration
    // re-registers the parameter as a fresh leaf.
    let mut tape: Tape<F> = Tape::new();
    let mut xv = F(10.0);
    let mut opt = AdamW::new(F(0.01), F(0.9), F(0.999), F(1e-8), F(0.01));

    let iterations = 5000;
    let mut losses: Vec<f64> = Vec::with_capacity(iterations);
    let mut best = f64::INFINITY;
    for _ in 0..iterations {
        tape.reset();
        let x = Reverse::reversible(xv, &mut tape);
        let one = Reverse::auto(F(1.0));
        let z = x.sub(&mut tape, &one).powi(&mut tape, 2);
        losses.push(z.value().0);
        let d = z.derivatives(&tape);
        let mut params = vec![x];
        opt.step(&d, &mut params);
        xv = *params[0].value();
        let err = (xv.0 - 1.0).abs();
        if err < best {
            best = err;
        }
    }

    // After a short bias-correction warm-up the loss falls strictly
    // while the iterate is still far from the optimum.
    for i in 10..500 {
        assert!(losses[i + 1] < losses[i], "loss rose at iteration {}", i);
    }
    assert!(best < 1e-3, "best |x - 1| was {}", best);
    assert!((xv.0 - 1.0).abs() < 0.1, "final x was {}", xv.0);
}

#[test]
fn moment_state_spans_the_whole_tape() {
    // Two parameters and an intermediate node: the moment vectors cover
    // every tape position, and repeated steps keep working after resets
    // that rebuild the same graph shape.
    let mut tape: Tape<F> = Tape::new();
    let mut xv = F(2.0);
    let mut yv = F(3.0);
    let mut opt = AdamW::new(F(0.05), F(0.9), F(0.999), F(1e-8), F(0.0));

    let mut losses: Vec<f64> = Vec::with_capacity(2000);
    for _ in 0..2000 {
        tape.reset();
        let x = Reverse::reversible(xv, &mut tape);
        let y = Reverse::reversible(yv, &mut tape);
        let xsq = x.mul(&mut tape, &x);
        let ysq = y.mul(&mut tape, &y);
        let z = xsq.add(&mut tape, &ysq);
        losses.push(z.value().0);
        let d = z.derivatives(&tape);
        let mut params = vec![x, y];
        opt.step(&d, &mut params);
        xv = *params[0].value();
        yv = *params[1].value();
    }
    // Far from the optimum the loss falls strictly.
    for i in 5..25 {
        assert!(losses[i + 1] < losses[i]);
    }
    assert!(xv.0.abs() < 0.1);
    assert!(yv.0.abs() < 0.1);
}
