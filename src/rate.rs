use std::marker::PhantomData;

use vstd::prelude::*;

use crate::amount::{checked_result, lemma_mul_div_nonneg, AmountU128};
use crate::decimal::{
    dec_inv_raw, dec_mul_raw, div_floor_spec, fractional, inv_spec, mul_ceil_spec,
    mul_floor_spec, rescale, rescale_spec, Decimal,
};
use crate::error::MonetaryError;
use crate::precision::Precise;

verus! {

/// A directed, non-zero exchange ratio: one unit of `A` is worth `rate`
/// units of `B`, so amounts of `A` are multiplied by it to give amounts of `B`.
#[derive(Copy, Debug, PartialEq, Eq)]
pub struct Rate<A, B> {
    rate: Decimal,
    pair: PhantomData<(A, B)>,
}

impl<A, B> Clone for Rate<A, B> {
    fn clone(&self) -> (r: Self)
        ensures
            r@ == self@,
    {
        Rate { rate: self.rate, pair: PhantomData }
    }
}

impl<A, B> View for Rate<A, B> {
    /// The ratio in atomic units (`10^18` is a ratio of one).
    type V = u128;

    closed spec fn view(&self) -> u128 {
        self.rate@
    }
}

impl<A, B> Rate<A, B> {
    /// A rate is never zero.
    pub open spec fn wf(&self) -> bool {
        self@ > 0
    }

    /// The rate with ratio `rate`, or `None` when `rate` is zero.
    pub fn new(rate: Decimal) -> (r: Option<Self>)
        ensures
            r is None <==> rate@ == 0,
            r matches Some(x) ==> x@ == rate@ && x.wf(),
    {
        if rate.is_zero() {
            None
        } else {
            Some(Rate { rate, pair: PhantomData })
        }
    }

    /// The rate with ratio `rate`, for callers that already know it is not zero.
    pub fn new_unchecked(rate: Decimal) -> (r: Self)
        requires
            rate@ > 0,
        ensures
            r@ == rate@,
            r.wf(),
    {
        Rate { rate, pair: PhantomData }
    }

    pub fn rate(&self) -> (r: Decimal)
        ensures
            r@ == self@,
    {
        self.rate
    }

    /// The reverse rate, `1 / rate` rounded down to 18 places. The inverse
    /// must be representable, so the ratio is at most `10^18` whole units.
    pub fn inv(&self) -> (r: Rate<B, A>)
        requires
            self.wf(),
            self@ <= fractional() * fractional(),
        ensures
            r@ == inv_spec(self@ as int),
            r.wf(),
    {
        let a = self.rate.atomics();
        let v = dec_inv_raw(a);
        proof {
            assert(inv_spec(a as int) >= 1) by (nonlinear_arith)
                requires
                    0 < a as int <= fractional() * fractional(),
                    inv_spec(a as int) == fractional() * fractional() / a as int,
            ;
        }
        Rate { rate: Decimal::raw(v), pair: PhantomData }
    }

    /// The rate plus `decimal`, or `Overflow`.
    pub fn add_decimal(&self, decimal: Decimal) -> (r: Result<Rate<A, B>, MonetaryError>)
        requires
            self.wf(),
        ensures
            self@ + decimal@ <= u128::MAX ==> r is Ok && r->Ok_0@ == self@ + decimal@
                && r->Ok_0.wf(),
            self@ + decimal@ > u128::MAX ==> r == Err::<Rate<A, B>, MonetaryError>(
                MonetaryError::Overflow,
            ),
    {
        match self.rate.atomics().checked_add(decimal.atomics()) {
            Some(v) => Ok(Rate { rate: Decimal::raw(v), pair: PhantomData }),
            None => Err(MonetaryError::Overflow),
        }
    }

    /// The rate minus `decimal`, or `Underflow` when that is not above zero:
    /// a rate cannot be zero.
    pub fn sub_decimal(&self, decimal: Decimal) -> (r: Result<Rate<A, B>, MonetaryError>)
        ensures
            decimal@ < self@ ==> r is Ok && r->Ok_0@ == self@ - decimal@ && r->Ok_0.wf(),
            decimal@ >= self@ ==> r == Err::<Rate<A, B>, MonetaryError>(
                MonetaryError::Underflow,
            ),
    {
        let a = self.rate.atomics();
        let d = decimal.atomics();
        if d < a {
            Ok(Rate { rate: Decimal::raw(a - d), pair: PhantomData })
        } else {
            Err(MonetaryError::Underflow)
        }
    }

    /// Chains this rate with one from `B` to `C`: the ratios multiply, rounded
    /// down to 18 places. `None` when the product is zero after rounding or
    /// exceeds the decimal range.
    pub fn checked_mul<C>(self, rhs: Rate<B, C>) -> (r: Option<Rate<A, C>>)
        ensures
            r is Some <==> 0 < mul_floor_spec(self@ as int, rhs@ as int) <= u128::MAX,
            r matches Some(x) ==> x@ == mul_floor_spec(self@ as int, rhs@ as int) && x.wf(),
    {
        proof {
            lemma_mul_div_nonneg(self@ as int, rhs@ as int, fractional());
        }
        match dec_mul_raw(self.rate.atomics(), rhs.rate.atomics()) {
            Some(v) => {
                if v == 0 {
                    None
                } else {
                    Some(Rate { rate: Decimal::raw(v), pair: PhantomData })
                }
            },
            None => None,
        }
    }

    /// Cancels the shared currency `B` of this rate and one from `C` to `B`,
    /// giving a rate from `A` to `C`: the ratios divide, rounded down to 18
    /// places. `None` when the quotient is zero after rounding or exceeds the
    /// decimal range.
    pub fn checked_div<C>(self, rhs: Rate<C, B>) -> (r: Option<Rate<A, C>>)
        requires
            rhs.wf(),
        ensures
            r is Some <==> 0 < self@ as int * fractional() / rhs@ as int <= u128::MAX,
            r matches Some(x) ==> x@ == self@ as int * fractional() / rhs@ as int && x.wf(),
    {
        match Decimal::checked_from_ratio(self.rate.atomics(), rhs.rate.atomics()) {
            Some(d) => {
                if d.is_zero() {
                    None
                } else {
                    Some(Rate { rate: d, pair: PhantomData })
                }
            },
            None => None,
        }
    }

    /// Converts an amount of `A` into `B`, rounding down; `Overflow` when the
    /// result exceeds `u128::MAX`.
    pub fn forward_floor(&self, amount: &AmountU128<A>) -> (r: Result<AmountU128<B>, MonetaryError>)
        ensures
            checked_result(r, mul_floor_spec(amount@ as int, self@ as int)),
    {
        let x: AmountU128<B> = AmountU128::new(amount.u128());
        x.dec_mul_floor(self.rate)
    }

    /// Converts an amount of `A` into `B`, rounding up; `Overflow` when the
    /// result exceeds `u128::MAX`.
    pub fn forward_ceil(&self, amount: &AmountU128<A>) -> (r: Result<AmountU128<B>, MonetaryError>)
        ensures
            checked_result(r, mul_ceil_spec(amount@ as int, self@ as int)),
    {
        let x: AmountU128<B> = AmountU128::new(amount.u128());
        x.dec_mul_ceil(self.rate)
    }

    /// Converts an amount of `B` back into `A`, rounding down; `Overflow`
    /// when the result exceeds `u128::MAX`.
    pub fn reverse_floor(&self, amount: &AmountU128<B>) -> (r: Result<AmountU128<A>, MonetaryError>)
        requires
            self.wf(),
        ensures
            checked_result(r, div_floor_spec(amount@ as int, self@ as int)),
    {
        let x: AmountU128<A> = AmountU128::new(amount.u128());
        x.dec_div_floor(self.rate)
    }

    /// Converts an amount of `B` back into `A`, rounding up; `Overflow` when
    /// the result exceeds `u128::MAX`.
    pub fn reverse_ceil(&self, amount: &AmountU128<B>) -> (r: Result<AmountU128<A>, MonetaryError>)
        requires
            self.wf(),
        ensures
            checked_result(r, crate::decimal::div_ceil_spec(amount@ as int, self@ as int)),
    {
        let x: AmountU128<A> = AmountU128::new(amount.u128());
        x.dec_div_ceil(self.rate)
    }
}

impl<A, B> Rate<Precise<A>, Precise<B>> {
    /// A rate between two precise currencies, with `rate` adjusted by
    /// `10^|from.decimals - to.decimals|`: multiplied when `from` has more
    /// decimals, divided (rounding down) when `to` has more. `None` when the
    /// adjusted ratio is zero or exceeds the decimal range.
    pub fn new_precise(rate: Decimal, from: &Precise<A>, to: &Precise<B>) -> (r: Option<Self>)
        ensures
            r is Some <==> 0 < rescale_spec(
                rate@ as int,
                to.decimals_of() as int,
                from.decimals_of() as int,
            ) <= u128::MAX,
            r matches Some(x) ==> x@ == rescale_spec(
                rate@ as int,
                to.decimals_of() as int,
                from.decimals_of() as int,
            ) && x.wf(),
    {
        match rescale(rate.atomics(), to.decimals(), from.decimals()) {
            Some(v) => Self::new(Decimal::raw(v)),
            None => None,
        }
    }
}

/// Converting an amount forward and back, rounding down both ways, never
/// gains: the amount that comes back is at most the starting one, and short of it
/// by less than `1 + 1 / rate` minor units.
pub proof fn lemma_round_trip_floor<A, B>(r: Rate<A, B>, x: AmountU128<A>)
    requires
        r.wf(),
        mul_floor_spec(x@ as int, r@ as int) <= u128::MAX,
    ensures
        div_floor_spec(mul_floor_spec(x@ as int, r@ as int), r@ as int) <= x@,
        (x@ - div_floor_spec(mul_floor_spec(x@ as int, r@ as int), r@ as int)) * r@ < fractional()
            + r@,
{
    let a = r@ as int;
    let xx = x@ as int;
    let d = fractional();
    let y = mul_floor_spec(xx, a);
    let z = div_floor_spec(y, a);
    assert(y * d <= xx * a && xx * a < y * d + d) by (nonlinear_arith)
        requires
            y == xx * a / d,
            d > 0,
            xx >= 0,
            a > 0,
    ;
    assert(z * a <= y * d && y * d < z * a + a) by (nonlinear_arith)
        requires
            z == y * d / a,
            a > 0,
    ;
    assert(z <= xx) by (nonlinear_arith)
        requires
            z * a <= y * d,
            y * d <= xx * a,
            a > 0,
    ;
    assert((xx - z) * a < d + a) by (nonlinear_arith)
        requires
            xx * a < y * d + d,
            y * d < z * a + a,
    ;
}

/// Rounding the forward conversion up instead gives back at least the
/// starting amount when converted back rounding down.
pub proof fn lemma_round_trip_ceil<A, B>(r: Rate<A, B>, x: AmountU128<A>)
    requires
        r.wf(),
    ensures
        x@ <= div_floor_spec(mul_ceil_spec(x@ as int, r@ as int), r@ as int),
{
    let a = r@ as int;
    let xx = x@ as int;
    let d = fractional();
    let y = mul_ceil_spec(xx, a);
    let z = div_floor_spec(y, a);
    assert(xx * a <= y * d) by (nonlinear_arith)
        requires
            y == (xx * a + d - 1) / d,
            d > 0,
            xx >= 0,
            a > 0,
    ;
    assert(y * d < z * a + a) by (nonlinear_arith)
        requires
            z == y * d / a,
            a > 0,
    ;
    assert(xx <= z) by (nonlinear_arith)
        requires
            xx * a <= y * d,
            y * d < z * a + a,
            a > 0,
    ;
}

/// Applying the product of two rates gives what applying them one after the
/// other gives, up to rounding: both results round down from the exact
/// `x * r1 * r2`, the first by less than `x / 10^18 + 1` units and the second
/// by less than `r2 + 1` units.
pub proof fn lemma_compose_floor<A, B, C>(r1: Rate<A, B>, r2: Rate<B, C>, x: AmountU128<A>)
    requires
        r1.wf(),
        r2.wf(),
        0 < mul_floor_spec(r1@ as int, r2@ as int),
    ensures
        ({
            let d = fractional();
            let exact = x@ * r1@ * r2@;
            let composed = mul_floor_spec(x@ as int, mul_floor_spec(r1@ as int, r2@ as int));
            let chained = mul_floor_spec(mul_floor_spec(x@ as int, r1@ as int), r2@ as int);
            &&& composed * d * d <= exact
            &&& chained * d * d <= exact
            &&& exact < (composed + 1) * d * d + x@ * d
            &&& exact < (chained + 1) * d * d + r2@ * d
        }),
{
    let d = fractional();
    let a = r1@ as int;
    let b = r2@ as int;
    let xx = x@ as int;
    let q = mul_floor_spec(a, b);
    let c = mul_floor_spec(xx, q);
    let y = mul_floor_spec(xx, a);
    let s = mul_floor_spec(y, b);
    assert(q * d <= a * b && a * b < q * d + d) by (nonlinear_arith)
        requires
            q == a * b / d,
            d > 0,
    ;
    assert(c * d <= xx * q && xx * q < c * d + d) by (nonlinear_arith)
        requires
            c == xx * q / d,
            d > 0,
    ;
    assert(y * d <= xx * a && xx * a < y * d + d) by (nonlinear_arith)
        requires
            y == xx * a / d,
            d > 0,
    ;
    assert(s * d <= y * b && y * b < s * d + d) by (nonlinear_arith)
        requires
            s == y * b / d,
            d > 0,
    ;
    assert(c * d * d <= xx * a * b) by (nonlinear_arith)
        requires
            c * d <= xx * q,
            q * d <= a * b,
            xx >= 0,
            d > 0,
    ;
    assert(xx * a * b < (c + 1) * d * d + xx * d) by (nonlinear_arith)
        requires
            a * b < q * d + d,
            xx * q < c * d + d,
            xx >= 0,
            d > 0,
    ;
    assert(s * d * d <= xx * a * b) by (nonlinear_arith)
        requires
            s * d <= y * b,
            y * d <= xx * a,
            b >= 0,
            d > 0,
    ;
    assert(xx * a * b < (s + 1) * d * d + b * d) by (nonlinear_arith)
        requires
            xx * a < y * d + d,
            y * b < s * d + d,
            b > 0,
            d > 0,
    ;
}

/// Inverting a rate twice gives it back, for every rate whose inverse keeps
/// enough digits: those with `10^36 < (r + 1) * (10^36 / r)` in atomics.
pub proof fn lemma_inv_inv<A, B>(r: Rate<A, B>)
    requires
        r.wf(),
        r@ <= fractional() * fractional(),
        fractional() * fractional() < (r@ + 1) * inv_spec(r@ as int),
    ensures
        inv_spec(inv_spec(r@ as int)) == r@,
{
    let n = fractional() * fractional();
    let a = r@ as int;
    let b = inv_spec(a);
    assert(a * b <= n && b >= 1) by (nonlinear_arith)
        requires
            b == n / a,
            0 < a <= n,
    ;
    let q = n / b;
    assert(q * b <= n && n < q * b + b) by (nonlinear_arith)
        requires
            q == n / b,
            b >= 1,
    ;
    assert(q == a) by (nonlinear_arith)
        requires
            a * b <= n,
            n < (a + 1) * b,
            q * b <= n,
            n < q * b + b,
            b >= 1,
    ;
}

} // verus!
