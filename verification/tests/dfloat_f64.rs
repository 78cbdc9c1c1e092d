//! The double-word type over the machine's 64-bit binary float, wired to the
//! `safeeft` error-free-transformation kernels.

use dfloat::{DFloat, FloatComponent};

/// A 64-bit binary float as a component type.
#[derive(Debug, Clone, Copy)]
struct C64(f64);

impl FloatComponent for C64 {
    fn zero() -> C64 {
        C64(0.0)
    }
    fn one() -> C64 {
        C64(1.0)
    }
    fn radix() -> C64 {
        C64(<f64 as float_traits::GeneralFloat>::radix())
    }
    fn eps() -> C64 {
        C64(<f64 as float_traits::GeneralFloat>::epsilon())
    }
    fn unit_underflow() -> C64 {
        C64(<f64 as float_traits::Underflow>::unit_underflow())
    }
    fn infinity() -> C64 {
        C64(f64::INFINITY)
    }
    fn neg_infinity() -> C64 {
        C64(f64::NEG_INFINITY)
    }
    fn max_value() -> C64 {
        C64(f64::MAX)
    }
    fn min_value() -> C64 {
        C64(f64::MIN)
    }
    fn is_zero(&self) -> bool {
        self.0 == 0.0
    }
    fn is_infinite(&self) -> bool {
        self.0.is_infinite()
    }
    fn add(self, rhs: C64) -> C64 {
        C64(self.0 + rhs.0)
    }
    fn sub(self, rhs: C64) -> C64 {
        C64(self.0 - rhs.0)
    }
    fn mul(self, rhs: C64) -> C64 {
        C64(self.0 * rhs.0)
    }
    fn div(self, rhs: C64) -> C64 {
        C64(self.0 / rhs.0)
    }
    fn neg(self) -> C64 {
        C64(-self.0)
    }
    fn sqrt(self) -> C64 {
        C64(self.0.sqrt())
    }
    fn eq_val(&self, rhs: &C64) -> bool {
        self.0 == rhs.0
    }
    fn lt_val(&self, rhs: &C64) -> bool {
        self.0 < rhs.0
    }
    fn gt_val(&self, rhs: &C64) -> bool {
        self.0 > rhs.0
    }
    fn fast_sum(a: C64, b: C64) -> (C64, C64) {
        let (s, e) = safeeft::fasttwosum(a.0, b.0);
        (C64(s), C64(e))
    }
    fn safe_sum(a: C64, b: C64) -> (C64, C64) {
        let (s, e) = safeeft::safetwosum_straight(a.0, b.0);
        (C64(s), C64(e))
    }
    fn safe_product(a: C64, b: C64) -> (C64, C64) {
        let (p, e) = safeeft::safetwoproduct_branch(a.0, b.0);
        (C64(p), C64(e))
    }

    // The remaining items are the library's specification hooks. Verified
    // callers see them only as mathematical names; nothing calls them at run
    // time. They are filled in with the operations they name.
    fn spec_zero() -> C64 {
        C64(0.0)
    }
    fn spec_one() -> C64 {
        C64(1.0)
    }
    fn spec_radix() -> C64 {
        C64(2.0)
    }
    fn spec_eps() -> C64 {
        C64(f64::EPSILON)
    }
    fn spec_unit_underflow() -> C64 {
        C64(f64::MIN_POSITIVE * f64::EPSILON)
    }
    fn spec_infinity() -> C64 {
        C64(f64::INFINITY)
    }
    fn spec_neg_infinity() -> C64 {
        C64(f64::NEG_INFINITY)
    }
    fn spec_max_value() -> C64 {
        C64(f64::MAX)
    }
    fn spec_min_value() -> C64 {
        C64(f64::MIN)
    }
    fn spec_is_zero(self) -> bool {
        self.0 == 0.0
    }
    fn spec_is_infinite(self) -> bool {
        self.0.is_infinite()
    }
    fn spec_is_nan(self) -> bool {
        self.0.is_nan()
    }
    fn spec_add(self, rhs: C64) -> C64 {
        C64(self.0 + rhs.0)
    }
    fn spec_fsub(self, rhs: C64) -> C64 {
        C64(self.0 - rhs.0)
    }
    fn spec_mul(self, rhs: C64) -> C64 {
        C64(self.0 * rhs.0)
    }
    fn spec_div(self, rhs: C64) -> C64 {
        C64(self.0 / rhs.0)
    }
    fn spec_neg(self) -> C64 {
        C64(-self.0)
    }
    fn spec_sqrt(self) -> C64 {
        C64(self.0.sqrt())
    }
    fn spec_feq(self, rhs: C64) -> bool {
        self.0 == rhs.0
    }
    fn spec_flt(self, rhs: C64) -> bool {
        self.0 < rhs.0
    }
    fn spec_sum_err(self, rhs: C64) -> C64 {
        C64(safeeft::safetwosum_straight(self.0, rhs.0).1)
    }
    fn spec_prod_err(self, rhs: C64) -> C64 {
        C64(safeeft::safetwoproduct_branch(self.0, rhs.0).1)
    }
    fn ax_feq_refl(_: C64) {}
    fn ax_feq_sym(_: C64, _: C64) {}
    fn ax_feq_trans(_: C64, _: C64, _: C64) {}
    fn ax_feq_class(_: C64, _: C64) {}
    fn ax_zeros_feq(_: C64, _: C64) {}
    fn ax_consts() {}
    fn ax_cmp_excl(_: C64, _: C64) {}
    fn ax_add_comm(_: C64, _: C64) {}
    fn ax_mul_comm(_: C64, _: C64) {}
    fn ax_add_zero(_: C64, _: C64) {}
    fn ax_add_zeros(_: C64, _: C64) {}
    fn ax_add_finite(_: C64, _: C64) {}
    fn ax_add_feq_cong(_: C64, _: C64, _: C64, _: C64) {}
    fn ax_fast_err_feq_cong(_: C64, _: C64, _: C64, _: C64) {}
    fn ax_fast_err_zeros(_: C64, _: C64) {}
    fn ax_fsub_self(_: C64, _: C64) {}
    fn ax_neg_class(_: C64) {}
    fn ax_sum_err_zero(_: C64, _: C64) {}
    fn ax_sum_err_neg_self(_: C64) {}
    fn ax_sum_err_comm(_: C64, _: C64) {}
    fn ax_sum_split(_: C64, _: C64) {}
    fn ax_mul_one(_: C64) {}
    fn ax_mul_zero(_: C64, _: C64) {}
    fn ax_mul_finite(_: C64, _: C64) {}
    fn ax_prod_err_one(_: C64) {}
    fn ax_div_inf(_: C64, _: C64) {}
    fn ax_prod_err_zero(_: C64, _: C64) {}
    fn ax_prod_err_neg_one(_: C64) {}
    fn ax_class_disjoint(_: C64) {}
    fn ax_cmp_nan(_: C64, _: C64) {}
    fn ax_cmp_total(_: C64, _: C64) {}
    fn ax_neg_involutive(_: C64) {}
    fn ax_sub_is_add_neg(_: C64, _: C64) {}
    fn ax_add_inf(_: C64, _: C64) {}
    fn ax_mul_neg(_: C64, _: C64) {}
    fn ax_div_one(_: C64) {}
    fn ax_div_self(_: C64) {}
    fn ax_fsub_zero(_: C64, _: C64) {}
    fn ax_zero_div(_: C64, _: C64) {}
    fn ax_fast_err_zero_tail(_: C64, _: C64) {}
}

fn df(h: f64, l: f64) -> DFloat<C64> {
    DFloat::from_two_components(C64(h), C64(l))
}

fn single(t: f64) -> DFloat<C64> {
    DFloat::from_component(C64(t))
}

/// The produced pair is non-overlapping: re-adding `low` to `high` changes
/// nothing, and `low` is below one epsilon of `high`.
fn assert_split(x: &DFloat<C64>) {
    let (h, l) = (x.high().0, x.low().0);
    assert_eq!(h + l, h);
    assert!(l.abs() <= f64::EPSILON * h.abs());
}

#[test]
fn it_works() {
    assert_eq!(2 + 2, 4);
}

#[test]
fn add() {
    let (d1, d2) = (DFloat::<C64>::zero(), DFloat::<C64>::zero());
    assert_eq!(d1.clone().add_ref(&d2), d1.add(d2));
}

#[test]
fn ref_variants_match_value_variants() {
    let x = df(1.25e3, 3.0e-14);
    let y = df(-7.5, 1.0e-17);
    assert_eq!(x.add_ref(&y), x.add(y));
    assert_eq!(x.sub_ref(&y), x.sub(y));
    assert_eq!(x.mul_ref(&y), x.mul(y));
    assert_eq!(x.div_ref(&y), x.div(y));
}

#[test]
fn one_plus_one_is_two() {
    assert_eq!(single(1.0).add(single(1.0)), single(2.0));
}

#[test]
fn from_two_components_keeps_nonoverlapping_pair() {
    let x = df(1.0, 1.0e-20);
    assert_eq!(x.high().0, 1.0);
    assert_eq!(x.low().0, 1.0e-20);
}

#[test]
fn from_two_components_normalizes() {
    let x = df(1.0, 3.0);
    assert_eq!(x.high().0, 4.0);
    assert_eq!(x.low().0, 0.0);
    let y = df(1.0, 1.0e16);
    assert_eq!(y.high().0, 1.0e16 + 1.0);
    assert_split(&y);
}

#[test]
fn from_two_components_overflow_collapses_to_infinity() {
    let x = df(f64::MAX, f64::MAX);
    assert_eq!(x.high().0, f64::INFINITY);
    assert_eq!(x.low().0, 0.0);
}

#[test]
fn from_two_components_with_infinite_high_is_infinity() {
    assert_eq!(df(f64::INFINITY, 1.0), DFloat::infinity());
    assert_eq!(df(f64::NEG_INFINITY, 1.0), DFloat::neg_infinity());
}

#[test]
fn max_plus_one_saturates() {
    let s = DFloat::<C64>::max_value().add(DFloat::one());
    assert_eq!(s.high().0, f64::MAX);
}

#[test]
fn one_div_zero_is_infinity() {
    let q = DFloat::<C64>::one().div(DFloat::zero());
    assert_eq!(q, DFloat::infinity());
    assert_eq!(q.high().0, f64::INFINITY);
    assert_eq!(q.low().0, 0.0);
}

#[test]
fn sqrt_of_zero_is_zero() {
    assert_eq!(DFloat::<C64>::zero().sqrt(), DFloat::zero());
}

#[test]
fn add_zero_is_identity() {
    let x = df(1.0, 1.0e-17);
    assert_eq!(x.add(DFloat::zero()), x);
    let y = single(-3.25);
    assert_eq!(y.add(DFloat::zero()), y);
}

#[test]
fn sub_self_is_zero() {
    let x = df(1.0, 1.0e-17);
    assert_eq!(x.sub(x), DFloat::zero());
    let y = single(-7.5e300);
    assert_eq!(y.sub(y), DFloat::zero());
}

#[test]
fn mul_one_is_identity() {
    let x = df(0.1, 0.2e-18);
    assert_eq!(x.mul(DFloat::one()), x);
    let y = single(-2.0e-300);
    assert_eq!(y.mul(DFloat::one()), y);
}

#[test]
fn add_commutes() {
    let x = df(2.0, 2f64.powi(-60));
    let y = df(3.0, 2f64.powi(-61));
    assert_eq!(x.add(y), y.add(x));
    assert_eq!(single(0.1).add(single(0.2)), single(0.2).add(single(0.1)));
}

#[test]
fn mul_commutes() {
    let x = df(2.0, 2f64.powi(-60));
    let y = df(3.0, 2f64.powi(-61));
    assert_eq!(x.mul(y), y.mul(x));
    assert_eq!(single(0.1).mul(single(0.3)), single(0.3).mul(single(0.1)));
}

#[test]
fn comparison_orders_by_high_then_low() {
    assert!(single(1.0) < single(2.0));
    assert!(single(2.0) > single(1.0));
    let a = unsafe_pair(1.0, 1.0e-17);
    let b = unsafe_pair(1.0, 2.0e-17);
    assert!(a < b);
    assert!(b > a);
    assert_eq!(
        a.partial_cmp(&a),
        Some(std::cmp::Ordering::Equal)
    );
}

#[test]
fn nan_is_unordered() {
    let n = single(f64::NAN);
    let x = single(1.0);
    assert_eq!(n.partial_cmp(&x), None);
    assert_eq!(x.partial_cmp(&n), None);
    assert!(n != n);
}

#[test]
fn infinity_equality_ignores_low() {
    let stale = unsafe_pair(f64::INFINITY, 5.0);
    assert_eq!(stale, DFloat::infinity());
    assert_eq!(
        stale.partial_cmp(&DFloat::infinity()),
        Some(std::cmp::Ordering::Equal)
    );
}

#[test]
fn finite_div_infinity_is_zero() {
    assert_eq!(single(3.5).div(DFloat::infinity()), DFloat::zero());
    assert_eq!(single(-3.5).div(DFloat::infinity()), DFloat::zero());
}

#[test]
fn results_keep_the_representation_invariant() {
    let s = single(1.0e16).add(single(1.0));
    assert_eq!(s.high().0, 1.0e16);
    assert_eq!(s.low().0, 1.0);
    assert_split(&s);
    assert_split(&df(0.1, 0.3));
    assert_split(&single(1.0).sub(single(1.0e-18)));
    assert_split(&single(1.0).div(single(3.0)));
    assert_split(&single(2.0).sqrt());
}

#[test]
fn mul_then_div_round_trips_within_bound() {
    let x = df(1.1, 0.0);
    let y = single(3.0);
    let z = x.mul(y).div(y);
    assert!((z.high().0 - 1.1).abs() <= 4.0 * f64::EPSILON * 1.1);
    assert!((z.high().0 + z.low().0 - 1.1).abs() <= 4.0 * f64::EPSILON * 1.1);
}

#[test]
fn sqrt_squared_round_trips_within_bound() {
    let x = single(2.0);
    let r = x.sqrt();
    let p = r.mul(r);
    assert!((p.high().0 + p.low().0 - 2.0).abs() <= 4.0 * f64::EPSILON * 2.0);
}

#[test]
fn named_constants_hold_their_formulas() {
    let m = DFloat::<C64>::max_value();
    assert_eq!(m.high().0, f64::MAX);
    assert_eq!(m.low().0, f64::MAX * f64::EPSILON / 2.0 / 2.0);
    let n = DFloat::<C64>::min_value();
    assert_eq!(n.high().0, f64::MIN);
    assert_eq!(n.low().0, f64::MIN * f64::EPSILON / 2.0 / 2.0);
    let p = DFloat::<C64>::min_positive();
    assert_eq!(p.high().0, f64::MIN_POSITIVE * f64::EPSILON);
    assert_eq!(p.low().0, 0.0);
    assert_eq!(DFloat::<C64>::neg_infinity().high().0, f64::NEG_INFINITY);
    assert_eq!(DFloat::<C64>::one().high().0, 1.0);
}

#[test]
fn accessors_and_negation() {
    let x = df(2.5, 1.0e-17);
    assert_eq!(x.high().0, 2.5);
    assert_eq!(x.low().0, 1.0e-17);
    let (h, l) = x.into_tuple();
    assert_eq!((h.0, l.0), (2.5, 1.0e-17));
    let n = x.neg();
    assert_eq!(n.high().0, -2.5);
    assert_eq!(n.low().0, -1.0e-17);
    let nn = n.neg();
    assert_eq!(nn.high().0.to_bits(), x.high().0.to_bits());
    assert_eq!(nn.low().0.to_bits(), x.low().0.to_bits());
    assert!(DFloat::<C64>::zero().is_zero());
    assert!(!x.is_zero());
}

#[test]
fn division_handles_large_magnitudes() {
    let x = single(1.0e308).div(single(1.0e-10));
    assert_eq!(x.high().0, f64::INFINITY);
    let y = single(4.0e307).div(single(0.5));
    assert_eq!(y.high().0, 8.0e307);
    assert_split(&y);
}

#[test]
fn overflowing_add_collapses_to_infinity() {
    let s = single(f64::MAX).add(single(f64::MAX));
    assert_eq!(s, DFloat::infinity());
    assert_eq!(s.high().0, f64::INFINITY);
    assert_eq!(s.low().0, 0.0);
    let d = single(f64::MIN).sub(single(f64::MAX));
    assert_eq!(d, DFloat::neg_infinity());
    assert_eq!(d.low().0, 0.0);
}

#[test]
fn infinity_plus_finite_is_infinity() {
    assert_eq!(DFloat::<C64>::infinity().add(single(1.0)), DFloat::infinity());
    assert_eq!(single(1.0).add(DFloat::infinity()), DFloat::infinity());
    assert_eq!(DFloat::<C64>::neg_infinity().add(single(1.0e300)), DFloat::neg_infinity());
    assert_eq!(DFloat::<C64>::infinity().add(single(1.0)).low().0, 0.0);
}

#[test]
fn sub_matches_add_of_negation() {
    let x = df(1.25e3, 3.0e-14);
    let y = df(-7.5, 1.0e-17);
    let d = x.sub(y);
    let s = x.add(y.neg());
    assert_eq!(d.high().0.to_bits(), s.high().0.to_bits());
    assert_eq!(d.low().0.to_bits(), s.low().0.to_bits());
}

#[test]
fn mul_by_zero_is_zero() {
    let x = df(3.7, -1.1e-17);
    assert_eq!(x.mul(DFloat::zero()), DFloat::zero());
    assert_eq!(x.neg().mul(DFloat::zero()), DFloat::zero());
}

#[test]
fn div_by_one_is_identity() {
    let x = df(3.7, -1.1e-17);
    assert_eq!(x.div(DFloat::one()), x);
    assert_eq!(single(-0.25).div(DFloat::one()), single(-0.25));
}

#[test]
fn div_self_is_one() {
    let x = df(3.7, -1.1e-17);
    assert_eq!(x.div(x), DFloat::one());
    assert_eq!(single(-0.3).div(single(-0.3)), DFloat::one());
}

// Builds a pair verbatim through the unchecked constructor. Some callers
// below deliberately hand it a pair that violates its stated non-overlap
// precondition (an infinite high with a stale low), to observe how equality
// and comparison tolerate such degenerate values; the constructor itself
// stores the pair without looking at it.
fn unsafe_pair(h: f64, l: f64) -> DFloat<C64> {
    DFloat::from_double_components_unchecked(C64(h), C64(l))
}

