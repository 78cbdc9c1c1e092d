//! The double-word numeric type and its compensated algorithms.
//!
//! A [`DFloat`] carries a value as a pair `(high, low)` of scalar components:
//! `high` is the value rounded to the scalar's working precision, `low` the
//! part that rounding lost. Every arithmetic operation decomposes its
//! operands, runs the error-free-transformation kernels of
//! [`crate::component::FloatComponent`] on the pieces, and recombines the
//! partial results; the contracts below pin each result, component by
//! component, to that composition of named scalar operations.

use vstd::prelude::*;

use core::cmp::Ordering;

use crate::component::{spec_fast_err, spec_split_ok, FloatComponent};

verus! {

/// The equality of two component pairs: the high parts are equal, and the low
/// parts are equal too unless the high parts are infinite — once `high` is an
/// infinity, `low` carries no information and is ignored.
pub open spec fn spec_eq_parts<T: FloatComponent>(h1: T, l1: T, h2: T, l2: T) -> bool {
    h1.spec_feq(h2) && (l1.spec_feq(l2) || h1.spec_is_infinite())
}

/// A numeric value carried as a pair of scalar components whose sum
/// approximates the true value to roughly twice the scalar's precision.
#[derive(Debug, Clone, Copy)]
pub struct DFloat<T: FloatComponent> {
    high: T,
    low: T,
}

impl<T: FloatComponent> DFloat<T> {
    /// The high component, as a mathematical value.
    pub closed spec fn spec_high(self) -> T {
        self.high
    }

    /// The low component, as a mathematical value.
    pub closed spec fn spec_low(self) -> T {
        self.low
    }

    /// Both components are ordinary finite scalars.
    pub open spec fn spec_finite(self) -> bool {
        &&& !self.spec_high().spec_is_nan()
        &&& !self.spec_high().spec_is_infinite()
        &&& !self.spec_low().spec_is_nan()
        &&& !self.spec_low().spec_is_infinite()
    }

    /// The non-overlap invariant, on this value's components.
    pub open spec fn spec_split(self) -> bool {
        spec_split_ok(self.spec_high(), self.spec_low())
    }

    /// The equality relation of the type, on this value and another.
    pub open spec fn spec_dw_eq(self, rhs: Self) -> bool {
        spec_eq_parts(self.spec_high(), self.spec_low(), rhs.spec_high(), rhs.spec_low())
    }

    /// What comparing this value with another yields: highs first; equal
    /// infinite highs short-circuit to equality; otherwise lows break the tie.
    pub open spec fn spec_cmp(self, rhs: Self) -> Option<Ordering> {
        if !self.spec_high().spec_feq(rhs.spec_high()) {
            if rhs.spec_high().spec_flt(self.spec_high()) {
                Some(Ordering::Greater)
            } else if self.spec_high().spec_flt(rhs.spec_high()) {
                Some(Ordering::Less)
            } else {
                None
            }
        } else if self.spec_high().spec_is_infinite() {
            Some(Ordering::Equal)
        } else {
            if rhs.spec_low().spec_flt(self.spec_low()) {
                Some(Ordering::Greater)
            } else if self.spec_low().spec_flt(rhs.spec_low()) {
                Some(Ordering::Less)
            } else {
                Some(Ordering::Equal)
            }
        }
    }

    /// The components of the sum of two values: an exact sum of the highs,
    /// a residual accumulating its tail and both lows, and a fast-sum
    /// recombination, which is valid because the rounded high sum dominates
    /// the residual. An infinite high — an infinite operand, or overflow at
    /// either step — collapses to a zero low: infinities are never refined.
    pub open spec fn spec_add_parts(self, rhs: Self) -> (T, T) {
        let sh = self.spec_high().spec_add(rhs.spec_high());
        let sl = self.spec_high().spec_sum_err(rhs.spec_high());
        if sh.spec_is_infinite() {
            (sh, T::spec_zero())
        } else {
            let resid = sl.spec_add(self.spec_low()).spec_add(rhs.spec_low());
            let h = sh.spec_add(resid);
            if h.spec_is_infinite() {
                (h, T::spec_zero())
            } else {
                (h, spec_fast_err(sh, resid))
            }
        }
    }

    /// The components of the difference of two values: the sum algorithm on
    /// the negated right-hand side, with the same collapse of an infinite
    /// high to a zero low.
    pub open spec fn spec_sub_parts(self, rhs: Self) -> (T, T) {
        let nh = rhs.spec_high().spec_neg();
        let sh = self.spec_high().spec_add(nh);
        let sl = self.spec_high().spec_sum_err(nh);
        if sh.spec_is_infinite() {
            (sh, T::spec_zero())
        } else {
            let resid = sl.spec_add(self.spec_low()).spec_fsub(rhs.spec_low());
            let h = sh.spec_add(resid);
            if h.spec_is_infinite() {
                (h, T::spec_zero())
            } else {
                (h, spec_fast_err(sh, resid))
            }
        }
    }

    /// The components of the product of two values: an exact product of the
    /// highs, plus the two first-order cross terms folded into the low part.
    /// No final recombination: the result pair is faithfully rounded but not
    /// guaranteed non-overlapping.
    pub open spec fn spec_mul_parts(self, rhs: Self) -> (T, T) {
        let mh = self.spec_high().spec_mul(rhs.spec_high());
        let ml = self.spec_high().spec_prod_err(rhs.spec_high());
        let low = ml.spec_add(self.spec_low().spec_mul(rhs.spec_high())).spec_add(
            self.spec_high().spec_mul(rhs.spec_low()),
        );
        (mh, low)
    }

    /// The refinement term of the quotient, once the short-circuits have been
    /// ruled out: the residual of the first approximation `qh`, divided by
    /// the high divisor. When the exact product `-qh * bh` overflows, the
    /// same formula is evaluated against `bh / radix`, with every correction
    /// term scaled down by the radix; the scaling is exact and cancels.
    pub open spec fn spec_div_ql(self, rhs: Self, qh: T) -> T {
        let z3 = qh.spec_neg().spec_mul(rhs.spec_high());
        if z3.spec_is_infinite() {
            let bh = rhs.spec_high().spec_div(T::spec_radix());
            let z3b = qh.spec_neg().spec_mul(bh);
            let z4b = qh.spec_neg().spec_prod_err(bh);
            z3b.spec_add(self.spec_high().spec_div(T::spec_radix())).spec_fsub(
                qh.spec_mul(rhs.spec_low().spec_div(T::spec_radix())),
            ).spec_add(self.spec_low().spec_div(T::spec_radix())).spec_add(z4b).spec_div(bh)
        } else {
            let z4 = qh.spec_neg().spec_prod_err(rhs.spec_high());
            z3.spec_add(self.spec_high()).spec_fsub(qh.spec_mul(rhs.spec_low())).spec_add(
                self.spec_low(),
            ).spec_add(z4).spec_div(rhs.spec_high())
        }
    }

    /// The components of the quotient of two values: the scalar quotient of
    /// the highs, refined by [`Self::spec_div_ql`] and recombined — except
    /// that an infinite divisor or an infinite first approximation
    /// short-circuits to `(qh, 0)` with no refinement.
    pub open spec fn spec_div_parts(self, rhs: Self) -> (T, T) {
        let qh = self.spec_high().spec_div(rhs.spec_high());
        if rhs.spec_high().spec_is_infinite() || qh.spec_is_infinite() {
            (qh, T::spec_zero())
        } else {
            let ql = self.spec_div_ql(rhs, qh);
            let h = qh.spec_add(ql);
            if h.spec_is_infinite() {
                (h, T::spec_zero())
            } else {
                (h, spec_fast_err(qh, ql))
            }
        }
    }

    /// The components of the square root: zero for an exact zero, `(high, 0)`
    /// for an infinite high, and otherwise one compensated refinement of the
    /// scalar square root of the high part.
    pub open spec fn spec_sqrt_parts(self) -> (T, T) {
        if self.spec_high().spec_feq(T::spec_zero()) && self.spec_low().spec_feq(T::spec_zero()) {
            (T::spec_zero(), T::spec_zero())
        } else if self.spec_high().spec_is_infinite() {
            (self.spec_high(), T::spec_zero())
        } else {
            let rh = self.spec_high().spec_sqrt();
            let r3 = rh.spec_neg().spec_mul(rh);
            let r4 = rh.spec_neg().spec_prod_err(rh);
            let rl = r3.spec_add(self.spec_high()).spec_add(self.spec_low()).spec_add(
                r4,
            ).spec_div(T::spec_radix().spec_mul(rh));
            let h = rh.spec_add(rl);
            if h.spec_is_infinite() {
                (h, T::spec_zero())
            } else {
                (h, spec_fast_err(rh, rl))
            }
        }
    }

    /// The value zero.
    pub fn zero() -> (r: DFloat<T>)
        ensures
            r.spec_high() == T::spec_zero(),
            r.spec_low() == T::spec_zero(),
    {
        DFloat { high: T::zero(), low: T::zero() }
    }

    /// The value one.
    pub fn one() -> (r: DFloat<T>)
        ensures
            r.spec_high() == T::spec_one(),
            r.spec_low() == T::spec_zero(),
    {
        DFloat { high: T::one(), low: T::zero() }
    }

    /// Whether both components are zero.
    pub fn is_zero(&self) -> (r: bool)
        ensures
            r == (self.spec_high().spec_is_zero() && self.spec_low().spec_is_zero()),
    {
        self.high.is_zero() && self.low.is_zero()
    }

    /// The value positive infinity.
    pub fn infinity() -> (r: DFloat<T>)
        ensures
            r.spec_high() == T::spec_infinity(),
            r.spec_low() == T::spec_zero(),
    {
        DFloat { high: T::infinity(), low: T::zero() }
    }

    /// The value negative infinity.
    pub fn neg_infinity() -> (r: DFloat<T>)
        ensures
            r.spec_high() == T::spec_neg_infinity(),
            r.spec_low() == T::spec_zero(),
    {
        DFloat { high: T::neg_infinity(), low: T::zero() }
    }

    /// The greatest value: the scalar maximum in `high`, topped up with the
    /// largest low part that keeps the pair non-overlapping,
    /// `max * eps / radix / radix`.
    pub fn max_value() -> (r: DFloat<T>)
        ensures
            r.spec_high() == T::spec_max_value(),
            r.spec_low() == T::spec_max_value().spec_mul(T::spec_eps()).spec_div(
                T::spec_radix(),
            ).spec_div(T::spec_radix()),
    {
        DFloat {
            high: T::max_value(),
            low: T::max_value().mul(T::eps()).div(T::radix()).div(T::radix()),
        }
    }

    /// The least value, symmetric to [`Self::max_value`].
    pub fn min_value() -> (r: DFloat<T>)
        ensures
            r.spec_high() == T::spec_min_value(),
            r.spec_low() == T::spec_min_value().spec_mul(T::spec_eps()).spec_div(
                T::spec_radix(),
            ).spec_div(T::spec_radix()),
    {
        DFloat {
            high: T::min_value(),
            low: T::min_value().mul(T::eps()).div(T::radix()).div(T::radix()),
        }
    }

    /// The least positive value the scalar format can represent.
    pub fn min_positive() -> (r: DFloat<T>)
        ensures
            r.spec_high() == T::spec_unit_underflow(),
            r.spec_low() == T::spec_zero(),
    {
        DFloat { high: T::unit_underflow(), low: T::zero() }
    }

    /// A value from a single scalar: the scalar in `high`, nothing lost.
    pub fn from_component(t: T) -> (r: DFloat<T>)
        ensures
            r.spec_high() == t,
            r.spec_low() == T::spec_zero(),
    {
        DFloat { high: t, low: T::zero() }
    }

    /// A value from two independent scalars, in any order and of any
    /// magnitudes: the safe-sum kernel re-establishes the non-overlap
    /// invariant, and an overflowing sum collapses to `(infinity, 0)`.
    pub fn from_two_components(high: T, low: T) -> (r: DFloat<T>)
        ensures
            r.spec_high() == high.spec_add(low),
            high.spec_add(low).spec_is_infinite() ==> r.spec_low() == T::spec_zero(),
            !high.spec_add(low).spec_is_infinite() ==> r.spec_low() == high.spec_sum_err(low),
            !high.spec_is_nan() && !low.spec_is_nan() && !high.spec_is_infinite()
                && !low.spec_is_infinite() && !high.spec_add(low).spec_is_infinite()
                && (high.spec_add(low).spec_is_zero() ==> high.spec_add(low) == T::spec_zero())
                ==> r.spec_split(),
    {
        proof {
            if !high.spec_is_nan() && !low.spec_is_nan() && !high.spec_is_infinite()
                && !low.spec_is_infinite() && !high.spec_add(low).spec_is_infinite()
                && (high.spec_add(low).spec_is_zero() ==> high.spec_add(low) == T::spec_zero()) {
                T::ax_sum_split(high, low);
            }
        }
        let t = T::safe_sum(high, low);
        if t.0.is_infinite() {
            DFloat { high: t.0, low: T::zero() }
        } else {
            DFloat { high: t.0, low: t.1 }
        }
    }

    /// A value from a pair stored verbatim, with no validation. The caller
    /// owes the non-overlap invariant: the pair must already be exactly what
    /// the fast-sum kernel would hand back. Intended for internal
    /// recombination steps where that holds by construction; a violated
    /// precondition silently breaks every downstream accuracy guarantee.
    pub fn from_double_components_unchecked(high: T, low: T) -> (r: DFloat<T>)
        requires
            spec_split_ok(high, low),
        ensures
            r.spec_high() == high,
            r.spec_low() == low,
    {
        DFloat { high, low }
    }

    /// The high component, by reference.
    pub fn high(&self) -> (r: &T)
        ensures
            *r == self.spec_high(),
    {
        &self.high
    }

    /// The low component, by reference.
    pub fn low(&self) -> (r: &T)
        ensures
            *r == self.spec_low(),
    {
        &self.low
    }

    /// The two components, consuming the value.
    pub fn into_tuple(self) -> (r: (T, T))
        ensures
            r.0 == self.spec_high(),
            r.1 == self.spec_low(),
    {
        (self.high, self.low)
    }

    /// The negation: component-wise, with no special cases — negation never
    /// changes magnitude relationships.
    pub fn neg(self) -> (r: DFloat<T>)
        ensures
            r.spec_high() == self.spec_high().spec_neg(),
            r.spec_low() == self.spec_low().spec_neg(),
    {
        DFloat { high: self.high.neg(), low: self.low.neg() }
    }

    /// The sum, per [`Self::spec_add_parts`]. An infinite high carries a
    /// zero low.
    pub fn add(self, rhs: DFloat<T>) -> (r: DFloat<T>)
        ensures
            r.spec_high() == self.spec_add_parts(rhs).0,
            r.spec_low() == self.spec_add_parts(rhs).1,
            r.spec_high().spec_is_infinite() ==> r.spec_low() == T::spec_zero(),
    {
        let (sh, sl) = T::safe_sum(self.high, rhs.high);
        if sh.is_infinite() {
            DFloat { high: sh, low: T::zero() }
        } else {
            let (h, l) = T::fast_sum(sh, sl.add(self.low).add(rhs.low));
            if h.is_infinite() {
                DFloat { high: h, low: T::zero() }
            } else {
                DFloat { high: h, low: l }
            }
        }
    }

    /// The sum with a borrowed right-hand side: the same algorithm, only the
    /// ownership of the argument differs.
    pub fn add_ref(self, rhs: &DFloat<T>) -> (r: DFloat<T>)
        ensures
            r.spec_high() == self.spec_add_parts(*rhs).0,
            r.spec_low() == self.spec_add_parts(*rhs).1,
    {
        self.add(*rhs)
    }

    /// The difference, per [`Self::spec_sub_parts`]. An infinite high
    /// carries a zero low.
    pub fn sub(self, rhs: DFloat<T>) -> (r: DFloat<T>)
        ensures
            r.spec_high() == self.spec_sub_parts(rhs).0,
            r.spec_low() == self.spec_sub_parts(rhs).1,
            r.spec_high().spec_is_infinite() ==> r.spec_low() == T::spec_zero(),
    {
        let (sh, sl) = T::safe_sum(self.high, rhs.high.neg());
        if sh.is_infinite() {
            DFloat { high: sh, low: T::zero() }
        } else {
            let (h, l) = T::fast_sum(sh, sl.add(self.low).sub(rhs.low));
            if h.is_infinite() {
                DFloat { high: h, low: T::zero() }
            } else {
                DFloat { high: h, low: l }
            }
        }
    }

    /// The difference with a borrowed right-hand side.
    pub fn sub_ref(self, rhs: &DFloat<T>) -> (r: DFloat<T>)
        ensures
            r.spec_high() == self.spec_sub_parts(*rhs).0,
            r.spec_low() == self.spec_sub_parts(*rhs).1,
    {
        self.sub(*rhs)
    }

    /// The product, per [`Self::spec_mul_parts`].
    pub fn mul(self, rhs: DFloat<T>) -> (r: DFloat<T>)
        ensures
            r.spec_high() == self.spec_mul_parts(rhs).0,
            r.spec_low() == self.spec_mul_parts(rhs).1,
    {
        let (mh, ml) = T::safe_product(self.high, rhs.high);
        DFloat { high: mh, low: ml.add(self.low.mul(rhs.high)).add(self.high.mul(rhs.low)) }
    }

    /// The product with a borrowed right-hand side.
    pub fn mul_ref(self, rhs: &DFloat<T>) -> (r: DFloat<T>)
        ensures
            r.spec_high() == self.spec_mul_parts(*rhs).0,
            r.spec_low() == self.spec_mul_parts(*rhs).1,
    {
        self.mul(*rhs)
    }

    /// The quotient, per [`Self::spec_div_parts`]. An infinite high carries
    /// a zero low.
    pub fn div(self, rhs: DFloat<T>) -> (r: DFloat<T>)
        ensures
            r.spec_high() == self.spec_div_parts(rhs).0,
            r.spec_low() == self.spec_div_parts(rhs).1,
            r.spec_high().spec_is_infinite() ==> r.spec_low() == T::spec_zero(),
    {
        let qh = self.high.div(rhs.high);
        if rhs.high.is_infinite() || qh.is_infinite() {
            DFloat { high: qh, low: T::zero() }
        } else {
            let (z3, z4) = T::safe_product(qh.neg(), rhs.high);
            let ql = if z3.is_infinite() {
                let bh = rhs.high.div(T::radix());
                let (z3b, z4b) = T::safe_product(qh.neg(), bh);
                z3b.add(self.high.div(T::radix())).sub(qh.mul(rhs.low.div(T::radix()))).add(
                    self.low.div(T::radix()),
                ).add(z4b).div(bh)
            } else {
                z3.add(self.high).sub(qh.mul(rhs.low)).add(self.low).add(z4).div(rhs.high)
            };
            let (h, l) = T::fast_sum(qh, ql);
            if h.is_infinite() {
                DFloat { high: h, low: T::zero() }
            } else {
                DFloat { high: h, low: l }
            }
        }
    }

    /// The quotient with a borrowed right-hand side.
    pub fn div_ref(self, rhs: &DFloat<T>) -> (r: DFloat<T>)
        ensures
            r.spec_high() == self.spec_div_parts(*rhs).0,
            r.spec_low() == self.spec_div_parts(*rhs).1,
    {
        self.div(*rhs)
    }

    /// The square root, per [`Self::spec_sqrt_parts`]. Negative and
    /// not-a-number inputs propagate through the scalar square root's own
    /// semantics. An infinite high carries a zero low.
    pub fn sqrt(self) -> (r: DFloat<T>)
        ensures
            r.spec_high() == self.spec_sqrt_parts().0,
            r.spec_low() == self.spec_sqrt_parts().1,
            r.spec_high().spec_is_infinite() ==> r.spec_low() == T::spec_zero(),
    {
        let zt = T::zero();
        if self.high.eq_val(&zt) && self.low.eq_val(&zt) {
            DFloat::zero()
        } else if self.high.is_infinite() {
            DFloat { high: self.high, low: T::zero() }
        } else {
            let rh = self.high.sqrt();
            let (r3, r4) = T::safe_product(rh.neg(), rh);
            let rl = r3.add(self.high).add(self.low).add(r4).div(T::radix().mul(rh));
            let (h, l) = T::fast_sum(rh, rl);
            if h.is_infinite() {
                DFloat { high: h, low: T::zero() }
            } else {
                DFloat { high: h, low: l }
            }
        }
    }
}

impl<T: FloatComponent> PartialEq for DFloat<T> {
    /// Equality per [`DFloat::spec_dw_eq`]: equal highs, and equal lows
    /// unless the highs are infinite.
    fn eq(&self, rhs: &DFloat<T>) -> (r: bool) {
        self.high.eq_val(&rhs.high) && (self.low.eq_val(&rhs.low) || self.high.is_infinite())
    }
}

impl<T: FloatComponent> vstd::std_specs::cmp::PartialEqSpecImpl for DFloat<T> {
    open spec fn obeys_eq_spec() -> bool {
        true
    }

    open spec fn eq_spec(&self, rhs: &DFloat<T>) -> bool {
        self.spec_dw_eq(*rhs)
    }
}

impl<T: FloatComponent> PartialOrd for DFloat<T> {
    /// Comparison per [`DFloat::spec_cmp`]: a strict two-level lexicographic
    /// order, with infinity short-circuiting the second level and
    /// not-a-number highs yielding no ordering.
    fn partial_cmp(&self, rhs: &DFloat<T>) -> (r: Option<Ordering>) {
        if !self.high.eq_val(&rhs.high) {
            if self.high.gt_val(&rhs.high) {
                Some(Ordering::Greater)
            } else if self.high.lt_val(&rhs.high) {
                Some(Ordering::Less)
            } else {
                None
            }
        } else if self.high.is_infinite() {
            Some(Ordering::Equal)
        } else {
            if self.low.gt_val(&rhs.low) {
                Some(Ordering::Greater)
            } else if self.low.lt_val(&rhs.low) {
                Some(Ordering::Less)
            } else {
                Some(Ordering::Equal)
            }
        }
    }
}

impl<T: FloatComponent> vstd::std_specs::cmp::PartialOrdSpecImpl for DFloat<T> {
    open spec fn obeys_partial_cmp_spec() -> bool {
        true
    }

    open spec fn partial_cmp_spec(&self, rhs: &DFloat<T>) -> Option<Ordering> {
        self.spec_cmp(*rhs)
    }
}

} // verus!
