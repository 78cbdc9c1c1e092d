//! The capability set required of a scalar component type.
//!
//! A double-word value is a pair of scalars of some component type `T`. The
//! algorithms never look inside `T`: everything they need is listed here, as
//! the [`FloatComponent`] trait. An implementation wires each executable
//! method to the scalar's native floating-point operation, and the three
//! kernel methods to error-free-transformation routines (the `safeeft` crate's
//! `fasttwosum`, `safetwosum_straight` and `safetwoproduct_branch`, or the
//! fused-multiply-add variants with the same contracts).
//!
//! The trait's `spec` functions are the mathematical model: one abstract
//! function per scalar operation, naming its result. The executable methods
//! promise to return exactly the named result, and the `proof` functions state
//! the handful of facts about those names that the double-word algebra rests
//! on. Verus checks no implementation of this trait; every `ensures` here is
//! trusted, and is justified against the IEEE 754 semantics of the scalar
//! operations and against the source of the `safeeft` kernels.

use vstd::prelude::*;

verus! {

/// The tail the fast-sum kernel returns beside the rounded sum `a + b`.
///
/// `safeeft::fasttwosum(a, b)` computes `(s, b - (s - a))` with `s = a + b`;
/// this is that second component, written with the named scalar operations.
pub open spec fn spec_fast_err<T: FloatComponent>(a: T, b: T) -> T {
    b.spec_fsub(a.spec_add(b).spec_fsub(a))
}

/// The non-overlap invariant of a pair `(h, l)`: re-running the fast-sum
/// kernel on the pair hands it back unchanged, so `h` already carries the
/// whole sum to working precision and `l` is exactly the part rounding lost.
pub open spec fn spec_split_ok<T: FloatComponent>(h: T, l: T) -> bool {
    h.spec_add(l) == h && spec_fast_err(h, l) == l
}

/// One scalar floating-point type together with the error-free-transformation
/// kernels over it, as required by the double-word algorithms.
pub trait FloatComponent: Sized + Copy {
    /// The scalar zero (the value `+0`).
    spec fn spec_zero() -> Self;

    /// The scalar one.
    spec fn spec_one() -> Self;

    /// The radix of the scalar format (two for binary floats).
    spec fn spec_radix() -> Self;

    /// The machine epsilon of the scalar format.
    spec fn spec_eps() -> Self;

    /// The smallest positive value of the scalar format.
    spec fn spec_unit_underflow() -> Self;

    /// The positive infinity of the scalar format.
    spec fn spec_infinity() -> Self;

    /// The negative infinity of the scalar format.
    spec fn spec_neg_infinity() -> Self;

    /// The greatest finite value of the scalar format.
    spec fn spec_max_value() -> Self;

    /// The least finite value of the scalar format.
    spec fn spec_min_value() -> Self;

    /// Whether a value is a zero (of either sign).
    spec fn spec_is_zero(self) -> bool;

    /// Whether a value is an infinity (of either sign).
    spec fn spec_is_infinite(self) -> bool;

    /// Whether a value is a not-a-number.
    spec fn spec_is_nan(self) -> bool;

    /// The rounded sum of two scalars.
    spec fn spec_add(self, rhs: Self) -> Self;

    /// The rounded difference of two scalars.
    spec fn spec_fsub(self, rhs: Self) -> Self;

    /// The rounded product of two scalars.
    spec fn spec_mul(self, rhs: Self) -> Self;

    /// The rounded quotient of two scalars.
    spec fn spec_div(self, rhs: Self) -> Self;

    /// The negation of a scalar.
    spec fn spec_neg(self) -> Self;

    /// The rounded square root of a scalar.
    spec fn spec_sqrt(self) -> Self;

    /// The scalar equality test (`==` of the format: zeros of both signs are
    /// equal, a not-a-number equals nothing, not even itself).
    spec fn spec_feq(self, rhs: Self) -> bool;

    /// The scalar ordering test (`<` of the format: false whenever either
    /// side is a not-a-number).
    spec fn spec_flt(self, rhs: Self) -> bool;

    /// The tail the exact-sum kernel returns beside the rounded sum: whenever
    /// the rounded sum is finite, the mathematical identity
    /// `a + b == spec_add(a, b) + spec_sum_err(a, b)` holds exactly.
    spec fn spec_sum_err(self, rhs: Self) -> Self;

    /// The tail the exact-product kernel returns beside the rounded product:
    /// whenever no overflow or underflow disturbs it, the identity
    /// `a * b == spec_mul(a, b) + spec_prod_err(a, b)` holds exactly.
    spec fn spec_prod_err(self, rhs: Self) -> Self;

    /// Relies on the scalar's additive identity (`num_traits::Zero::zero`).
    fn zero() -> (r: Self)
        ensures
            r == Self::spec_zero(),
    ;

    /// Relies on the scalar's multiplicative identity (`num_traits::One::one`).
    fn one() -> (r: Self)
        ensures
            r == Self::spec_one(),
    ;

    /// Relies on the scalar's radix (`float_traits::GeneralFloat::radix`).
    fn radix() -> (r: Self)
        ensures
            r == Self::spec_radix(),
    ;

    /// Relies on the scalar's machine epsilon
    /// (`float_traits::GeneralFloat::epsilon`).
    fn eps() -> (r: Self)
        ensures
            r == Self::spec_eps(),
    ;

    /// Relies on the scalar's smallest positive value
    /// (`float_traits::Underflow::unit_underflow`).
    fn unit_underflow() -> (r: Self)
        ensures
            r == Self::spec_unit_underflow(),
    ;

    /// Relies on the scalar's positive infinity
    /// (`float_traits::Infinite::infinity`).
    fn infinity() -> (r: Self)
        ensures
            r == Self::spec_infinity(),
    ;

    /// Relies on the scalar's negative infinity
    /// (`float_traits::Infinite::neg_infinity`).
    fn neg_infinity() -> (r: Self)
        ensures
            r == Self::spec_neg_infinity(),
    ;

    /// Relies on the scalar's greatest finite value
    /// (`num_traits::Bounded::max_value`).
    fn max_value() -> (r: Self)
        ensures
            r == Self::spec_max_value(),
    ;

    /// Relies on the scalar's least finite value
    /// (`num_traits::Bounded::min_value`).
    fn min_value() -> (r: Self)
        ensures
            r == Self::spec_min_value(),
    ;

    /// Relies on the scalar's zero test (`num_traits::Zero::is_zero`).
    fn is_zero(&self) -> (r: bool)
        ensures
            r == self.spec_is_zero(),
    ;

    /// Relies on the scalar's infinity test
    /// (`float_traits::Infinite::is_infinite`).
    fn is_infinite(&self) -> (r: bool)
        ensures
            r == self.spec_is_infinite(),
    ;

    /// Relies on the scalar's rounded addition.
    fn add(self, rhs: Self) -> (r: Self)
        ensures
            r == self.spec_add(rhs),
    ;

    /// Relies on the scalar's rounded subtraction.
    fn sub(self, rhs: Self) -> (r: Self)
        ensures
            r == self.spec_fsub(rhs),
    ;

    /// Relies on the scalar's rounded multiplication.
    fn mul(self, rhs: Self) -> (r: Self)
        ensures
            r == self.spec_mul(rhs),
    ;

    /// Relies on the scalar's rounded division.
    fn div(self, rhs: Self) -> (r: Self)
        ensures
            r == self.spec_div(rhs),
    ;

    /// Relies on the scalar's negation.
    fn neg(self) -> (r: Self)
        ensures
            r == self.spec_neg(),
    ;

    /// Relies on the scalar's rounded square root
    /// (`float_traits::Sqrt::sqrt`).
    fn sqrt(self) -> (r: Self)
        ensures
            r == self.spec_sqrt(),
    ;

    /// Relies on the scalar's `==` operator.
    fn eq_val(&self, rhs: &Self) -> (r: bool)
        ensures
            r == self.spec_feq(*rhs),
    ;

    /// Relies on the scalar's `<` operator.
    fn lt_val(&self, rhs: &Self) -> (r: bool)
        ensures
            r == self.spec_flt(*rhs),
    ;

    /// Relies on the scalar's `>` operator, which holds exactly when the
    /// mirrored `<` does.
    fn gt_val(&self, rhs: &Self) -> (r: bool)
        ensures
            r == rhs.spec_flt(*self),
    ;

    /// The fast exact-sum kernel. Relies on `safeeft::fasttwosum`, whose
    /// result is `(a + b, b - ((a + b) - a))`, written here with the named
    /// scalar operations. The split it returns is an exact decomposition of
    /// `a + b` only when `a` dominates `b` in magnitude; the contract states
    /// just what the kernel computes, for every input.
    fn fast_sum(a: Self, b: Self) -> (r: (Self, Self))
        ensures
            r.0 == a.spec_add(b),
            r.1 == b.spec_fsub(a.spec_add(b).spec_fsub(a)),
    ;

    /// The safe exact-sum kernel, valid for operands in any order. Relies on
    /// `safeeft::safetwosum_straight` (or `safetwosum_fma`): the first
    /// component is literally the rounded sum `a + b`, the second is the
    /// named exact tail.
    fn safe_sum(a: Self, b: Self) -> (r: (Self, Self))
        ensures
            r.0 == a.spec_add(b),
            r.1 == a.spec_sum_err(b),
    ;

    /// The exact-product kernel. Relies on `safeeft::safetwoproduct_branch`
    /// (or `safetwoproduct_fma`): the first component is literally the
    /// rounded product `a * b`, the second is the named tail.
    fn safe_product(a: Self, b: Self) -> (r: (Self, Self))
        ensures
            r.0 == a.spec_mul(b),
            r.1 == a.spec_prod_err(b),
    ;

    /// Scalar equality is reflexive away from not-a-numbers.
    proof fn ax_feq_refl(a: Self)
        requires
            !a.spec_is_nan(),
        ensures
            a.spec_feq(a),
    ;

    /// Scalar equality is symmetric.
    proof fn ax_feq_sym(a: Self, b: Self)
        ensures
            a.spec_feq(b) == b.spec_feq(a),
    ;

    /// Scalar equality is transitive.
    proof fn ax_feq_trans(a: Self, b: Self, c: Self)
        requires
            a.spec_feq(b),
            b.spec_feq(c),
        ensures
            a.spec_feq(c),
    ;

    /// Equal scalars are alike: neither is a not-a-number (which equals
    /// nothing), and they agree on being zero and on being infinite.
    proof fn ax_feq_class(a: Self, b: Self)
        requires
            a.spec_feq(b),
        ensures
            !a.spec_is_nan(),
            !b.spec_is_nan(),
            a.spec_is_zero() == b.spec_is_zero(),
            a.spec_is_infinite() == b.spec_is_infinite(),
    ;

    /// All zeros are equal, whatever their signs.
    proof fn ax_zeros_feq(a: Self, b: Self)
        requires
            a.spec_is_zero(),
            b.spec_is_zero(),
        ensures
            a.spec_feq(b),
    ;

    /// How the named constants classify: zero is a zero, one and the radix
    /// are ordinary finite values, the two infinities are infinite.
    proof fn ax_consts()
        ensures
            Self::spec_zero().spec_is_zero(),
            !Self::spec_zero().spec_is_nan(),
            !Self::spec_zero().spec_is_infinite(),
            !Self::spec_one().spec_is_zero(),
            !Self::spec_one().spec_is_nan(),
            !Self::spec_one().spec_is_infinite(),
            !Self::spec_radix().spec_is_zero(),
            !Self::spec_radix().spec_is_nan(),
            !Self::spec_radix().spec_is_infinite(),
            Self::spec_infinity().spec_is_infinite(),
            !Self::spec_infinity().spec_is_nan(),
            !Self::spec_infinity().spec_is_zero(),
            Self::spec_neg_infinity().spec_is_infinite(),
            !Self::spec_neg_infinity().spec_is_nan(),
            !Self::spec_neg_infinity().spec_is_zero(),
    ;

    /// `==`, `<` and the mirrored `<` are mutually exclusive.
    proof fn ax_cmp_excl(a: Self, b: Self)
        ensures
            !(a.spec_flt(b) && b.spec_flt(a)),
            !(a.spec_feq(b) && a.spec_flt(b)),
            !(a.spec_feq(b) && b.spec_flt(a)),
    ;

    /// Rounded addition of numeric values is commutative, bit for bit.
    proof fn ax_add_comm(a: Self, b: Self)
        requires
            !a.spec_is_nan(),
            !b.spec_is_nan(),
        ensures
            a.spec_add(b) == b.spec_add(a),
    ;

    /// Rounded multiplication of numeric values is commutative, bit for bit.
    proof fn ax_mul_comm(a: Self, b: Self)
        requires
            !a.spec_is_nan(),
            !b.spec_is_nan(),
        ensures
            a.spec_mul(b) == b.spec_mul(a),
    ;

    /// Adding a zero of either sign to a finite value gives back an equal
    /// value (only the sign of a zero result can change).
    proof fn ax_add_zero(a: Self, z: Self)
        requires
            z.spec_is_zero(),
            !a.spec_is_nan(),
            !a.spec_is_infinite(),
        ensures
            a.spec_add(z).spec_feq(a),
            z.spec_add(a).spec_feq(a),
    ;

    /// The sum of two zeros is a zero.
    proof fn ax_add_zeros(a: Self, b: Self)
        requires
            a.spec_is_zero(),
            b.spec_is_zero(),
        ensures
            a.spec_add(b).spec_is_zero(),
    ;

    /// The sum of two finite values is never a not-a-number (at worst it
    /// overflows to an infinity).
    proof fn ax_add_finite(a: Self, b: Self)
        requires
            !a.spec_is_nan(),
            !b.spec_is_nan(),
            !a.spec_is_infinite(),
            !b.spec_is_infinite(),
        ensures
            !a.spec_add(b).spec_is_nan(),
    ;

    /// Rounded addition respects scalar equality: sums of equal finite
    /// operands are equal (they round identically; only zero signs may
    /// differ, which equality ignores).
    proof fn ax_add_feq_cong(a: Self, b: Self, a2: Self, b2: Self)
        requires
            a.spec_feq(a2),
            b.spec_feq(b2),
            !a.spec_is_infinite(),
            !b.spec_is_infinite(),
        ensures
            a.spec_add(b).spec_feq(a2.spec_add(b2)),
    ;

    /// The fast-sum tail respects scalar equality in the same way: it is a
    /// fixed expression over rounded sums and differences of the operands.
    proof fn ax_fast_err_feq_cong(a: Self, b: Self, a2: Self, b2: Self)
        requires
            a.spec_feq(a2),
            b.spec_feq(b2),
            !a.spec_is_infinite(),
            !b.spec_is_infinite(),
        ensures
            b.spec_fsub(a.spec_add(b).spec_fsub(a)).spec_feq(
                b2.spec_fsub(a2.spec_add(b2).spec_fsub(a2)),
            ),
    ;

    /// The fast-sum tail of two zeros is a zero.
    proof fn ax_fast_err_zeros(a: Self, b: Self)
        requires
            a.spec_is_zero(),
            b.spec_is_zero(),
        ensures
            b.spec_fsub(a.spec_add(b).spec_fsub(a)).spec_is_zero(),
    ;

    /// The difference of equal finite values is exactly zero.
    proof fn ax_fsub_self(a: Self, b: Self)
        requires
            a.spec_feq(b),
            !a.spec_is_infinite(),
        ensures
            a.spec_fsub(b).spec_is_zero(),
    ;

    /// Negation swaps no class: it keeps zeros zeros, infinities infinities,
    /// not-a-numbers not-a-numbers. A finite value plus its own negation is
    /// exactly zero.
    proof fn ax_neg_class(a: Self)
        ensures
            a.spec_neg().spec_is_nan() == a.spec_is_nan(),
            a.spec_neg().spec_is_infinite() == a.spec_is_infinite(),
            a.spec_neg().spec_is_zero() == a.spec_is_zero(),
            !a.spec_is_nan() && !a.spec_is_infinite() ==> a.spec_add(
                a.spec_neg(),
            ).spec_is_zero(),
    ;

    /// The exact-sum tail of a finite value and a zero is a zero: the sum is
    /// exact, and the kernel's cancellation steps all yield positive zeros
    /// (justified against `safetwosum_straight`, whose tail is assembled from
    /// differences of equal values).
    proof fn ax_sum_err_zero(a: Self, z: Self)
        requires
            !a.spec_is_nan(),
            !a.spec_is_infinite(),
            z.spec_is_zero(),
        ensures
            a.spec_sum_err(z).spec_is_zero(),
    ;

    /// The exact-sum tail of a finite value and its negation is a zero, for
    /// the same reason: the sum cancels exactly.
    proof fn ax_sum_err_neg_self(a: Self)
        requires
            !a.spec_is_nan(),
            !a.spec_is_infinite(),
        ensures
            a.spec_sum_err(a.spec_neg()).spec_is_zero(),
    ;

    /// When the rounded sum of two finite values does not overflow, the
    /// exact-sum tail is the rounding error itself: a finite value,
    /// independent of the operand order (the error of the sum is always
    /// representable, and `safetwosum_straight` computes it through steps
    /// that are symmetric in the operands).
    proof fn ax_sum_err_comm(a: Self, b: Self)
        requires
            !a.spec_is_nan(),
            !b.spec_is_nan(),
            !a.spec_is_infinite(),
            !b.spec_is_infinite(),
            !a.spec_add(b).spec_is_infinite(),
        ensures
            a.spec_sum_err(b) == b.spec_sum_err(a),
            !a.spec_sum_err(b).spec_is_nan(),
            !a.spec_sum_err(b).spec_is_infinite(),
    ;

    /// When the rounded sum of two finite values does not overflow, the pair
    /// the exact-sum kernel returns is non-overlapping: the tail is at most
    /// half an ulp of the head, so re-adding it rounds back to the head (ties
    /// land on an even head and round back to it), and the fast-sum kernel
    /// hands the pair back unchanged. A head that is the negative zero is
    /// excluded: re-adding its positive-zero tail would flip its sign (that
    /// head arises only from adding two negative zeros).
    proof fn ax_sum_split(a: Self, b: Self)
        requires
            !a.spec_is_nan(),
            !b.spec_is_nan(),
            !a.spec_is_infinite(),
            !b.spec_is_infinite(),
            !a.spec_add(b).spec_is_infinite(),
            a.spec_add(b).spec_is_zero() ==> a.spec_add(b) == Self::spec_zero(),
        ensures
            a.spec_add(b).spec_add(a.spec_sum_err(b)) == a.spec_add(b),
            a.spec_sum_err(b).spec_fsub(
                a.spec_add(b).spec_add(a.spec_sum_err(b)).spec_fsub(a.spec_add(b)),
            ) == a.spec_sum_err(b),
    ;

    /// One is the multiplicative identity, bit for bit, on every numeric
    /// value.
    proof fn ax_mul_one(a: Self)
        requires
            !a.spec_is_nan(),
        ensures
            a.spec_mul(Self::spec_one()) == a,
    ;

    /// A zero times a finite value is a zero (of either sign).
    proof fn ax_mul_zero(a: Self, z: Self)
        requires
            !a.spec_is_nan(),
            !a.spec_is_infinite(),
            z.spec_is_zero(),
        ensures
            a.spec_mul(z).spec_is_zero(),
            z.spec_mul(a).spec_is_zero(),
    ;

    /// The product of two finite values is never a not-a-number (at worst it
    /// overflows to an infinity).
    proof fn ax_mul_finite(a: Self, b: Self)
        requires
            !a.spec_is_nan(),
            !b.spec_is_nan(),
            !a.spec_is_infinite(),
            !b.spec_is_infinite(),
        ensures
            !a.spec_mul(b).spec_is_nan(),
    ;

    /// The exact-product tail of a finite value and one, where it is not a
    /// not-a-number, is a zero: the product is exact, and the kernel's final
    /// step subtracts equal values. The guard matters: for magnitudes near
    /// the top of the range, `safetwoproduct_branch` splits the value scaled
    /// up by the reciprocal of epsilon, Dekker's split overflows, and the
    /// tail degrades to a not-a-number rather than a zero; the hypothesis
    /// excludes exactly those inputs.
    proof fn ax_prod_err_one(a: Self)
        requires
            !a.spec_is_nan(),
            !a.spec_is_infinite(),
            !a.spec_prod_err(Self::spec_one()).spec_is_nan(),
        ensures
            a.spec_prod_err(Self::spec_one()).spec_is_zero(),
    ;

    /// The exact-product tail of a finite value and a zero is a zero: every
    /// partial product in the kernel carries the zero factor (justified
    /// against `safetwoproduct_branch`, whose scaling branches keep the split
    /// of the finite operand finite).
    proof fn ax_prod_err_zero(a: Self, z: Self)
        requires
            !a.spec_is_nan(),
            !a.spec_is_infinite(),
            z.spec_is_zero(),
        ensures
            a.spec_prod_err(z).spec_is_zero(),
    ;

    /// The exact-product tail of negated one and any finite value is a zero:
    /// the product is exact, and the kernel's split of the unit-magnitude
    /// operand never overflows (justified against `safetwoproduct_branch`).
    proof fn ax_prod_err_neg_one(b: Self)
        requires
            !b.spec_is_nan(),
            !b.spec_is_infinite(),
        ensures
            Self::spec_one().spec_neg().spec_prod_err(b).spec_is_zero(),
    ;

    /// A finite value divided by an infinity is a zero (of either sign).
    proof fn ax_div_inf(a: Self, b: Self)
        requires
            !a.spec_is_nan(),
            !a.spec_is_infinite(),
            b.spec_is_infinite(),
        ensures
            a.spec_div(b).spec_is_zero(),
    ;

    /// A value is of at most one class: a not-a-number is neither zero nor
    /// infinite, and no zero is infinite.
    proof fn ax_class_disjoint(a: Self)
        ensures
            !(a.spec_is_nan() && a.spec_is_zero()),
            !(a.spec_is_nan() && a.spec_is_infinite()),
            !(a.spec_is_zero() && a.spec_is_infinite()),
    ;

    /// A not-a-number is unordered: both order tests and the equality test
    /// fail when either operand is one.
    proof fn ax_cmp_nan(a: Self, b: Self)
        requires
            a.spec_is_nan() || b.spec_is_nan(),
        ensures
            !a.spec_flt(b),
            !b.spec_flt(a),
            !a.spec_feq(b),
    ;

    /// Numeric values are totally ordered: two values free of not-a-numbers
    /// are equal or ordered one way or the other.
    proof fn ax_cmp_total(a: Self, b: Self)
        requires
            !a.spec_is_nan(),
            !b.spec_is_nan(),
        ensures
            a.spec_feq(b) || a.spec_flt(b) || b.spec_flt(a),
    ;

    /// Negation flips only the sign and is an involution, bit for bit, on
    /// every value.
    proof fn ax_neg_involutive(a: Self)
        ensures
            a.spec_neg().spec_neg() == a,
    ;

    /// Subtracting a numeric value is adding its negation, bit for bit.
    proof fn ax_sub_is_add_neg(a: Self, b: Self)
        requires
            !a.spec_is_nan(),
            !b.spec_is_nan(),
        ensures
            a.spec_fsub(b) == a.spec_add(b.spec_neg()),
    ;

    /// An infinity absorbs any finite addend, in either position, keeping
    /// its sign bit for bit.
    proof fn ax_add_inf(a: Self, b: Self)
        requires
            a.spec_is_infinite(),
            !b.spec_is_nan(),
            !b.spec_is_infinite(),
        ensures
            a.spec_add(b) == a,
            b.spec_add(a) == a,
    ;

    /// Negating a product is multiplying by the negated factor, bit for bit,
    /// away from the invalid zero-times-infinity case.
    proof fn ax_mul_neg(a: Self, b: Self)
        requires
            !a.spec_is_nan(),
            !b.spec_is_nan(),
            !(a.spec_is_zero() && b.spec_is_infinite()),
            !(a.spec_is_infinite() && b.spec_is_zero()),
        ensures
            a.spec_neg().spec_mul(b) == a.spec_mul(b).spec_neg(),
    ;

    /// One is the divisor-side identity, bit for bit, on every numeric
    /// value.
    proof fn ax_div_one(a: Self)
        requires
            !a.spec_is_nan(),
        ensures
            a.spec_div(Self::spec_one()) == a,
    ;

    /// A finite non-zero value divided by itself is exactly one.
    proof fn ax_div_self(a: Self)
        requires
            !a.spec_is_nan(),
            !a.spec_is_infinite(),
            !a.spec_is_zero(),
        ensures
            a.spec_div(a) == Self::spec_one(),
    ;

    /// Subtracting a numeric value from a zero gives a value equal to its
    /// negation (only the sign of a zero result can differ).
    proof fn ax_fsub_zero(z: Self, a: Self)
        requires
            z.spec_is_zero(),
            !a.spec_is_nan(),
        ensures
            z.spec_fsub(a).spec_feq(a.spec_neg()),
    ;

    /// A zero divided by any numeric non-zero value is a zero.
    proof fn ax_zero_div(z: Self, b: Self)
        requires
            z.spec_is_zero(),
            !b.spec_is_nan(),
            !b.spec_is_zero(),
        ensures
            z.spec_div(b).spec_is_zero(),
    ;

    /// The fast-sum tail of a finite head and a zero addend is a zero: the
    /// rounded sum equals the head in value, the inner difference is a
    /// positive zero, and the zero addend passes through.
    proof fn ax_fast_err_zero_tail(a: Self, z: Self)
        requires
            !a.spec_is_nan(),
            !a.spec_is_infinite(),
            z.spec_is_zero(),
        ensures
            z.spec_fsub(a.spec_add(z).spec_fsub(a)).spec_is_zero(),
    ;
}

} // verus!
