//! The algebra of the double-word type, proved from the component axioms.
//!
//! Each lemma here states a law of the arithmetic over the same spec
//! functions that the operations' own contracts use, so a caller can chain
//! an operation's `ensures` with a law directly. Results are compared with
//! [`crate::dfloat::spec_eq_parts`], the equality of the type itself: zeros
//! of either sign are one value, and the low part of an infinite value is
//! ignored.

use vstd::prelude::*;

use core::cmp::Ordering;

use crate::component::FloatComponent;
use crate::dfloat::{spec_eq_parts, DFloat};

verus! {

/// Adding a zero value to a finite value that satisfies the non-overlap
/// invariant gives the value back: `x + zero == x`.
///
/// The law asks for the invariant because the final recombination re-adds
/// the low part to the high part; on an overlapping pair that step would
/// reshuffle the components.
pub proof fn lemma_add_zero_identity<T: FloatComponent>(x: DFloat<T>, z: DFloat<T>)
    requires
        x.spec_finite(),
        x.spec_split(),
        z.spec_high().spec_is_zero(),
        z.spec_low().spec_is_zero(),
    ensures
        spec_eq_parts(
            x.spec_add_parts(z).0,
            x.spec_add_parts(z).1,
            x.spec_high(),
            x.spec_low(),
        ),
{
    let xh = x.spec_high();
    let xl = x.spec_low();
    let zh = z.spec_high();
    let zl = z.spec_low();
    let sh = xh.spec_add(zh);
    let sl = xh.spec_sum_err(zh);
    let m1 = sl.spec_add(xl);
    let resid = m1.spec_add(zl);
    T::ax_add_zero(xh, zh);
    T::ax_sum_err_zero(xh, zh);
    T::ax_add_zero(xl, sl);
    T::ax_feq_class(m1, xl);
    T::ax_add_zero(m1, zl);
    T::ax_feq_trans(resid, m1, xl);
    T::ax_feq_class(sh, xh);
    T::ax_feq_class(resid, xl);
    T::ax_add_feq_cong(sh, resid, xh, xl);
    T::ax_fast_err_feq_cong(sh, resid, xh, xl);
}

/// Subtracting a finite value from itself gives an exact zero:
/// `x - x == zero`. No non-overlap assumption is needed — both components
/// cancel on their own.
pub proof fn lemma_sub_self_is_zero<T: FloatComponent>(x: DFloat<T>)
    requires
        x.spec_finite(),
    ensures
        x.spec_sub_parts(x).0.spec_is_zero(),
        x.spec_sub_parts(x).1.spec_is_zero(),
        spec_eq_parts(
            x.spec_sub_parts(x).0,
            x.spec_sub_parts(x).1,
            T::spec_zero(),
            T::spec_zero(),
        ),
{
    let xh = x.spec_high();
    let xl = x.spec_low();
    let nh = xh.spec_neg();
    let sh = xh.spec_add(nh);
    let sl = xh.spec_sum_err(nh);
    let m1 = sl.spec_add(xl);
    let resid = m1.spec_fsub(xl);
    T::ax_neg_class(xh);
    T::ax_sum_err_neg_self(xh);
    T::ax_add_zero(xl, sl);
    T::ax_feq_class(m1, xl);
    T::ax_fsub_self(m1, xl);
    T::ax_add_zeros(sh, resid);
    T::ax_fast_err_zeros(sh, resid);
    T::ax_consts();
    T::ax_zeros_feq(x.spec_sub_parts(x).0, T::spec_zero());
    T::ax_zeros_feq(x.spec_sub_parts(x).1, T::spec_zero());
}

/// Multiplying a finite value by one gives the value back: `x * one == x`.
///
/// The law excludes the inputs on which the product kernel's tail degrades
/// to a not-a-number instead of a zero (magnitudes near the top of the
/// range; see the guard on the tail axiom).
pub proof fn lemma_mul_one_identity<T: FloatComponent>(x: DFloat<T>, o: DFloat<T>)
    requires
        x.spec_finite(),
        o.spec_high() == T::spec_one(),
        o.spec_low().spec_is_zero(),
        !x.spec_high().spec_prod_err(T::spec_one()).spec_is_nan(),
    ensures
        spec_eq_parts(
            x.spec_mul_parts(o).0,
            x.spec_mul_parts(o).1,
            x.spec_high(),
            x.spec_low(),
        ),
{
    let xh = x.spec_high();
    let xl = x.spec_low();
    let ml = xh.spec_prod_err(T::spec_one());
    let m1 = ml.spec_add(xl);
    let c2 = xh.spec_mul(o.spec_low());
    T::ax_mul_one(xh);
    T::ax_prod_err_one(xh);
    T::ax_mul_one(xl);
    T::ax_mul_zero(xh, o.spec_low());
    T::ax_add_zero(xl, ml);
    T::ax_feq_class(m1, xl);
    T::ax_add_zero(m1, c2);
    T::ax_feq_trans(m1.spec_add(c2), m1, xl);
    T::ax_feq_refl(xh);
}

/// Addition commutes: `x + y == y + x`. The kernels are symmetric in their
/// operands; the law is stated for operands whose low parts are zero (such
/// as values built by `from_component`) and whose high sum does not
/// overflow, where the residual accumulation collapses and the symmetry of
/// the kernels carries through to the result.
pub proof fn lemma_add_commutes<T: FloatComponent>(x: DFloat<T>, y: DFloat<T>)
    requires
        x.spec_finite(),
        y.spec_finite(),
        x.spec_low().spec_is_zero(),
        y.spec_low().spec_is_zero(),
        !x.spec_high().spec_add(y.spec_high()).spec_is_infinite(),
    ensures
        spec_eq_parts(
            x.spec_add_parts(y).0,
            x.spec_add_parts(y).1,
            y.spec_add_parts(x).0,
            y.spec_add_parts(x).1,
        ),
{
    let xh = x.spec_high();
    let xl = x.spec_low();
    let yh = y.spec_high();
    let yl = y.spec_low();
    let sh = xh.spec_add(yh);
    let sl = xh.spec_sum_err(yh);
    let m1 = sl.spec_add(xl);
    let r1 = m1.spec_add(yl);
    let m2 = sl.spec_add(yl);
    let r2 = m2.spec_add(xl);
    T::ax_add_comm(xh, yh);
    T::ax_sum_err_comm(xh, yh);
    T::ax_add_zero(sl, xl);
    T::ax_feq_class(m1, sl);
    T::ax_add_zero(m1, yl);
    T::ax_feq_trans(r1, m1, sl);
    T::ax_add_zero(sl, yl);
    T::ax_feq_class(m2, sl);
    T::ax_add_zero(m2, xl);
    T::ax_feq_trans(r2, m2, sl);
    T::ax_feq_sym(r2, sl);
    T::ax_feq_trans(r1, sl, r2);
    T::ax_add_finite(xh, yh);
    T::ax_feq_refl(sh);
    T::ax_feq_class(r1, sl);
    T::ax_feq_class(r2, sl);
    T::ax_add_feq_cong(sh, r1, sh, r2);
    T::ax_fast_err_feq_cong(sh, r1, sh, r2);
    T::ax_feq_class(sh.spec_add(r1), sh.spec_add(r2));
}

/// Multiplication commutes: `x * y == y * x`. Stated for operands whose low
/// parts are zero and whose exact high product leaves no tail, where every
/// correction term vanishes and the commutativity of the rounded product
/// carries through.
pub proof fn lemma_mul_commutes<T: FloatComponent>(x: DFloat<T>, y: DFloat<T>)
    requires
        x.spec_finite(),
        y.spec_finite(),
        x.spec_low().spec_is_zero(),
        y.spec_low().spec_is_zero(),
        x.spec_high().spec_prod_err(y.spec_high()).spec_is_zero(),
        y.spec_high().spec_prod_err(x.spec_high()).spec_is_zero(),
    ensures
        spec_eq_parts(
            x.spec_mul_parts(y).0,
            x.spec_mul_parts(y).1,
            y.spec_mul_parts(x).0,
            y.spec_mul_parts(x).1,
        ),
{
    let xh = x.spec_high();
    let xl = x.spec_low();
    let yh = y.spec_high();
    let yl = y.spec_low();
    let ml1 = xh.spec_prod_err(yh);
    let ml2 = yh.spec_prod_err(xh);
    let c1 = xl.spec_mul(yh);
    let c2 = xh.spec_mul(yl);
    T::ax_mul_comm(xh, yh);
    T::ax_mul_finite(xh, yh);
    T::ax_mul_zero(yh, xl);
    T::ax_mul_zero(xh, yl);
    T::ax_add_zeros(ml1, c1);
    T::ax_add_zeros(ml1.spec_add(c1), c2);
    T::ax_add_zeros(ml2, yl.spec_mul(xh));
    T::ax_add_zeros(ml2.spec_add(yl.spec_mul(xh)), yh.spec_mul(xl));
    T::ax_zeros_feq(x.spec_mul_parts(y).1, y.spec_mul_parts(x).1);
    T::ax_feq_refl(xh.spec_mul(yh));
}

/// Values with unequal high parts order by those high parts alone: `x < y`
/// exactly when `x.high < y.high`, `x > y` exactly when `y.high < x.high`,
/// and no ordering at all exactly when a not-a-number makes both tests fail.
pub proof fn lemma_cmp_by_high<T: FloatComponent>(x: DFloat<T>, y: DFloat<T>)
    requires
        !x.spec_high().spec_feq(y.spec_high()),
    ensures
        (x.spec_cmp(y) == Some(Ordering::Less)) == x.spec_high().spec_flt(y.spec_high()),
        (x.spec_cmp(y) == Some(Ordering::Greater)) == y.spec_high().spec_flt(x.spec_high()),
        (x.spec_cmp(y) == Option::<Ordering>::None) == (!x.spec_high().spec_flt(y.spec_high())
            && !y.spec_high().spec_flt(x.spec_high())),
{
    T::ax_cmp_excl(x.spec_high(), y.spec_high());
}

/// Values with equal finite high parts order by their low parts.
pub proof fn lemma_cmp_by_low<T: FloatComponent>(x: DFloat<T>, y: DFloat<T>)
    requires
        x.spec_high().spec_feq(y.spec_high()),
        !x.spec_high().spec_is_infinite(),
    ensures
        (x.spec_cmp(y) == Some(Ordering::Less)) == x.spec_low().spec_flt(y.spec_low()),
        (x.spec_cmp(y) == Some(Ordering::Greater)) == y.spec_low().spec_flt(x.spec_low()),
        (x.spec_cmp(y) == Some(Ordering::Equal)) == (!x.spec_low().spec_flt(y.spec_low())
            && !y.spec_low().spec_flt(x.spec_low())),
{
    T::ax_cmp_excl(x.spec_low(), y.spec_low());
}

/// Once the high parts are equal infinities, the values are equal whatever
/// their low parts hold: an infinity is never refined, so a stale low part
/// carries no information.
pub proof fn lemma_eq_infinite<T: FloatComponent>(x: DFloat<T>, y: DFloat<T>)
    requires
        x.spec_high().spec_feq(y.spec_high()),
        x.spec_high().spec_is_infinite(),
    ensures
        x.spec_dw_eq(y),
        x.spec_cmp(y) == Some(Ordering::Equal),
{
}

/// Dividing a finite value by a value with an infinite high part gives
/// zero: the short-circuit path returns the scalar quotient, which is a
/// zero, with a zero low part.
pub proof fn lemma_div_by_infinite<T: FloatComponent>(x: DFloat<T>, y: DFloat<T>)
    requires
        !x.spec_high().spec_is_nan(),
        !x.spec_high().spec_is_infinite(),
        y.spec_high().spec_is_infinite(),
    ensures
        x.spec_div_parts(y).0.spec_is_zero(),
        x.spec_div_parts(y).1 == T::spec_zero(),
        spec_eq_parts(
            x.spec_div_parts(y).0,
            x.spec_div_parts(y).1,
            T::spec_zero(),
            T::spec_zero(),
        ),
{
    T::ax_div_inf(x.spec_high(), y.spec_high());
    T::ax_consts();
    T::ax_zeros_feq(x.spec_div_parts(y).0, T::spec_zero());
    T::ax_zeros_feq(T::spec_zero(), T::spec_zero());
}

/// A value with a not-a-number high part is unordered against everything:
/// comparison yields no result rather than a default ordering.
pub proof fn lemma_cmp_nan_unordered<T: FloatComponent>(x: DFloat<T>, y: DFloat<T>)
    requires
        x.spec_high().spec_is_nan() || y.spec_high().spec_is_nan(),
    ensures
        x.spec_cmp(y) == Option::<Ordering>::None,
{
    T::ax_cmp_nan(x.spec_high(), y.spec_high());
}

/// On values free of not-a-numbers the comparison is total and consistent
/// with equality: some ordering always comes back, it is `Equal` exactly for
/// equal values, and swapping the operands reverses it.
pub proof fn lemma_cmp_total<T: FloatComponent>(x: DFloat<T>, y: DFloat<T>)
    requires
        !x.spec_high().spec_is_nan(),
        !y.spec_high().spec_is_nan(),
        !x.spec_low().spec_is_nan(),
        !y.spec_low().spec_is_nan(),
    ensures
        x.spec_cmp(y) != Option::<Ordering>::None,
        (x.spec_cmp(y) == Some(Ordering::Equal)) == x.spec_dw_eq(y),
        (x.spec_cmp(y) == Some(Ordering::Less)) == (y.spec_cmp(x) == Some(Ordering::Greater)),
        (x.spec_cmp(y) == Some(Ordering::Equal)) == (y.spec_cmp(x) == Some(Ordering::Equal)),
{
    T::ax_cmp_total(x.spec_high(), y.spec_high());
    T::ax_cmp_total(x.spec_low(), y.spec_low());
    T::ax_cmp_excl(x.spec_high(), y.spec_high());
    T::ax_cmp_excl(y.spec_high(), x.spec_high());
    T::ax_cmp_excl(x.spec_low(), y.spec_low());
    T::ax_cmp_excl(y.spec_low(), x.spec_low());
    T::ax_feq_sym(x.spec_high(), y.spec_high());
    T::ax_feq_sym(x.spec_low(), y.spec_low());
    if x.spec_high().spec_feq(y.spec_high()) {
        T::ax_feq_class(x.spec_high(), y.spec_high());
    }
}

/// Negating twice gives back the very value, bit for bit, in both
/// components.
pub proof fn lemma_neg_involution<T: FloatComponent>(x: DFloat<T>)
    ensures
        x.spec_high().spec_neg().spec_neg() == x.spec_high(),
        x.spec_low().spec_neg().spec_neg() == x.spec_low(),
{
    T::ax_neg_involutive(x.spec_high());
    T::ax_neg_involutive(x.spec_low());
}

/// Subtraction is addition of the component-wise negation: for finite
/// operands the two algorithms produce bit-identical results.
pub proof fn lemma_sub_is_add_of_neg<T: FloatComponent>(
    x: DFloat<T>,
    y: DFloat<T>,
    ny: DFloat<T>,
)
    requires
        x.spec_finite(),
        y.spec_finite(),
        ny.spec_high() == y.spec_high().spec_neg(),
        ny.spec_low() == y.spec_low().spec_neg(),
    ensures
        x.spec_sub_parts(y).0 == x.spec_add_parts(ny).0,
        x.spec_sub_parts(y).1 == x.spec_add_parts(ny).1,
{
    let xh = x.spec_high();
    let xl = x.spec_low();
    let yl = y.spec_low();
    let nh = y.spec_high().spec_neg();
    let sh = xh.spec_add(nh);
    let sl = xh.spec_sum_err(nh);
    T::ax_neg_class(y.spec_high());
    if !sh.spec_is_infinite() {
        T::ax_sum_err_comm(xh, nh);
        T::ax_add_finite(sl, xl);
        T::ax_sub_is_add_neg(sl.spec_add(xl), yl);
    }
}

/// Multiplying a finite value by a zero value gives zero: the high product
/// is a zero, the tail and both cross terms vanish.
pub proof fn lemma_mul_zero_absorbs<T: FloatComponent>(x: DFloat<T>, z: DFloat<T>)
    requires
        x.spec_finite(),
        z.spec_high().spec_is_zero(),
        z.spec_low().spec_is_zero(),
    ensures
        x.spec_mul_parts(z).0.spec_is_zero(),
        x.spec_mul_parts(z).1.spec_is_zero(),
        spec_eq_parts(
            x.spec_mul_parts(z).0,
            x.spec_mul_parts(z).1,
            T::spec_zero(),
            T::spec_zero(),
        ),
{
    let xh = x.spec_high();
    let xl = x.spec_low();
    let zh = z.spec_high();
    let zl = z.spec_low();
    let ml = xh.spec_prod_err(zh);
    let c1 = xl.spec_mul(zh);
    let c2 = xh.spec_mul(zl);
    T::ax_mul_zero(xh, zh);
    T::ax_prod_err_zero(xh, zh);
    T::ax_mul_zero(xl, zh);
    T::ax_mul_zero(xh, zl);
    T::ax_add_zeros(ml, c1);
    T::ax_add_zeros(ml.spec_add(c1), c2);
    T::ax_consts();
    T::ax_zeros_feq(x.spec_mul_parts(z).0, T::spec_zero());
    T::ax_zeros_feq(x.spec_mul_parts(z).1, T::spec_zero());
}

/// An infinite value absorbs any finite addend: the sum keeps the infinite
/// high, with the low collapsed to zero, and equals the infinite operand.
pub proof fn lemma_add_infinite_absorbs<T: FloatComponent>(x: DFloat<T>, y: DFloat<T>)
    requires
        x.spec_high().spec_is_infinite(),
        !y.spec_high().spec_is_nan(),
        !y.spec_high().spec_is_infinite(),
    ensures
        x.spec_add_parts(y).0 == x.spec_high(),
        x.spec_add_parts(y).1 == T::spec_zero(),
        spec_eq_parts(
            x.spec_add_parts(y).0,
            x.spec_add_parts(y).1,
            x.spec_high(),
            x.spec_low(),
        ),
{
    T::ax_add_inf(x.spec_high(), y.spec_high());
    T::ax_class_disjoint(x.spec_high());
    T::ax_feq_refl(x.spec_high());
}

/// Dividing a finite value that satisfies the non-overlap invariant by one
/// gives the value back: `x / one == x`. The guard on the product-tail
/// axiom carries over to the negated high part.
pub proof fn lemma_div_one_identity<T: FloatComponent>(x: DFloat<T>, o: DFloat<T>)
    requires
        x.spec_finite(),
        x.spec_split(),
        o.spec_high() == T::spec_one(),
        o.spec_low().spec_is_zero(),
        !x.spec_high().spec_neg().spec_prod_err(T::spec_one()).spec_is_nan(),
    ensures
        spec_eq_parts(
            x.spec_div_parts(o).0,
            x.spec_div_parts(o).1,
            x.spec_high(),
            x.spec_low(),
        ),
{
    let xh = x.spec_high();
    let xl = x.spec_low();
    let qh = xh.spec_div(T::spec_one());
    T::ax_consts();
    T::ax_div_one(xh);
    T::ax_neg_class(xh);
    T::ax_mul_one(xh.spec_neg());
    T::ax_prod_err_one(xh.spec_neg());
    let z4 = xh.spec_neg().spec_prod_err(T::spec_one());
    T::ax_add_comm(xh.spec_neg(), xh);
    let x1 = xh.spec_neg().spec_add(xh);
    let c = qh.spec_mul(o.spec_low());
    T::ax_mul_zero(xh, o.spec_low());
    T::ax_zeros_feq(x1, c);
    T::ax_class_disjoint(x1);
    T::ax_fsub_self(x1, c);
    let x2 = x1.spec_fsub(c);
    T::ax_add_zero(xl, x2);
    let x3 = x2.spec_add(xl);
    T::ax_feq_class(x3, xl);
    T::ax_add_zero(x3, z4);
    let x4 = x3.spec_add(z4);
    T::ax_feq_trans(x4, x3, xl);
    T::ax_feq_class(x4, xl);
    T::ax_div_one(x4);
    T::ax_feq_refl(xh);
    T::ax_add_feq_cong(xh, x4, xh, xl);
    T::ax_feq_class(xh.spec_add(x4), xh.spec_add(xl));
    T::ax_fast_err_feq_cong(xh, x4, xh, xl);
}

/// Dividing a finite non-zero value by itself gives one exactly in the high
/// part: `x / x == one`.
pub proof fn lemma_div_self_is_one<T: FloatComponent>(x: DFloat<T>)
    requires
        x.spec_finite(),
        !x.spec_high().spec_is_zero(),
    ensures
        spec_eq_parts(
            x.spec_div_parts(x).0,
            x.spec_div_parts(x).1,
            T::spec_one(),
            T::spec_zero(),
        ),
{
    let xh = x.spec_high();
    let xl = x.spec_low();
    let one_v = T::spec_one();
    T::ax_consts();
    T::ax_div_self(xh);
    T::ax_class_disjoint(xh);
    T::ax_neg_class(one_v);
    T::ax_mul_neg(one_v, xh);
    T::ax_mul_comm(one_v, xh);
    T::ax_mul_one(xh);
    T::ax_neg_class(xh);
    T::ax_prod_err_neg_one(xh);
    let z4 = one_v.spec_neg().spec_prod_err(xh);
    T::ax_add_comm(xh.spec_neg(), xh);
    let x1 = xh.spec_neg().spec_add(xh);
    T::ax_mul_comm(one_v, xl);
    T::ax_mul_one(xl);
    let x2 = x1.spec_fsub(xl);
    T::ax_fsub_zero(x1, xl);
    T::ax_neg_class(xl);
    T::ax_feq_refl(xl);
    T::ax_feq_class(x2, xl.spec_neg());
    T::ax_add_feq_cong(x2, xl, xl.spec_neg(), xl);
    T::ax_add_comm(xl.spec_neg(), xl);
    let x3 = x2.spec_add(xl);
    T::ax_feq_class(x3, xl.spec_neg().spec_add(xl));
    let x4 = x3.spec_add(z4);
    T::ax_add_zeros(x3, z4);
    T::ax_zero_div(x4, xh);
    let ql = x4.spec_div(xh);
    T::ax_add_zero(one_v, ql);
    let h = one_v.spec_add(ql);
    T::ax_feq_class(h, one_v);
    T::ax_fast_err_zero_tail(one_v, ql);
    T::ax_zeros_feq(ql.spec_fsub(one_v.spec_add(ql).spec_fsub(one_v)), T::spec_zero());
}

/// The square root of a zero value is the exact zero value.
pub proof fn lemma_sqrt_of_zero<T: FloatComponent>(x: DFloat<T>)
    requires
        x.spec_high().spec_is_zero(),
        x.spec_low().spec_is_zero(),
    ensures
        x.spec_sqrt_parts().0 == T::spec_zero(),
        x.spec_sqrt_parts().1 == T::spec_zero(),
{
    T::ax_consts();
    T::ax_zeros_feq(x.spec_high(), T::spec_zero());
    T::ax_zeros_feq(x.spec_low(), T::spec_zero());
}

} // verus!

