use vstd::prelude::*;

use crate::coin::Coin;
use crate::amount::lemma_mul_div_nonneg;
use crate::decimal::{
    div_floor_raw, div_floor_spec, fit, fractional, lemma_pow10_monotone, mul_floor_raw,
    mul_floor_spec, pow10, rescale, rescale_spec, Decimal,
};
use crate::error::MonetaryError;
use crate::precision::{Imprecise, Precise, Unverified};
use crate::traits::Currency;

verus! {

/// A conversion from the currency `from` to the currency `to`, each tagged
/// with its precision state: `from * rate = to`.
#[derive(Clone, Copy, Debug, PartialEq, Eq)]
pub struct ExchangeRate<F, T> {
    from: F,
    to: T,
    rate: Decimal,
}

/// The amount of a successful conversion whose exact result is `v`, or
/// `Overflow` when `v` is not there or exceeds `u128::MAX`.
pub open spec fn converted<P>(r: Result<Coin<P>, MonetaryError>, v: Option<u128>) -> bool {
    match v {
        Some(x) => r is Ok && r->Ok_0.amount_of() == x,
        None => r == Err::<Coin<P>, MonetaryError>(MonetaryError::Overflow),
    }
}

/// `x` times `a` atomics, rounded down, then moved from `from` to `to`
/// decimal places.
pub open spec fn forward_spec(x: int, a: int, from: int, to: int) -> Option<u128> {
    match fit(mul_floor_spec(x, a)) {
        Some(c) => fit(rescale_spec(c as int, from, to)),
        None => None,
    }
}

/// `x` divided by `a` atomics, rounded down, then moved from `from` to `to`
/// decimal places.
pub open spec fn reverse_spec(x: int, a: int, from: int, to: int) -> Option<u128> {
    match fit(div_floor_spec(x, a)) {
        Some(c) => fit(rescale_spec(c as int, from, to)),
        None => None,
    }
}

impl<F, T> ExchangeRate<F, T> {
    pub closed spec fn from_of(&self) -> F {
        self.from
    }

    pub closed spec fn to_of(&self) -> T {
        self.to
    }

    pub closed spec fn rate_of(&self) -> u128 {
        self.rate@
    }

    /// The rate from `from` to `to`, or `None` when `rate` is zero.
    pub fn new(from: F, to: T, rate: Decimal) -> (r: Option<Self>)
        ensures
            r is None <==> rate@ == 0,
            r matches Some(x) ==> x.from_of() == from && x.to_of() == to && x.rate_of()
                == rate@,
    {
        if rate.is_zero() {
            return None;
        }
        Some(ExchangeRate { from, to, rate })
    }

    pub fn from(&self) -> (r: &F)
        ensures
            *r == self.from_of(),
    {
        &self.from
    }

    pub fn to(&self) -> (r: &T)
        ensures
            *r == self.to_of(),
    {
        &self.to
    }

    pub fn rate(&self) -> (r: Decimal)
        ensures
            r@ == self.rate_of(),
    {
        self.rate
    }

    /// A non-zero ratio.
    pub open spec fn wf(&self) -> bool {
        self.rate_of() > 0
    }

    fn mul_amount(&self, x: u128) -> (r: Option<u128>)
        ensures
            r == fit(mul_floor_spec(x as int, self.rate_of() as int)),
    {
        mul_floor_raw(x, self.rate.atomics())
    }

    fn div_amount(&self, x: u128) -> (r: Option<u128>)
        requires
            self.wf(),
        ensures
            r == fit(div_floor_spec(x as int, self.rate_of() as int)),
    {
        div_floor_raw(x, self.rate.atomics())
    }
}

/// Moves a converted amount between decimal places, with `Overflow` for a
/// missing or oversized result.
fn rescaled(c: Option<u128>, from: u8, to: u8) -> (r: Result<u128, MonetaryError>)
    ensures
        match c {
            Some(x) => match fit(rescale_spec(x as int, from as int, to as int)) {
                Some(v) => r == Ok::<u128, MonetaryError>(v),
                None => r == Err::<u128, MonetaryError>(MonetaryError::Overflow),
            },
            None => r == Err::<u128, MonetaryError>(MonetaryError::Overflow),
        },
{
    match c {
        Some(x) => match rescale(x, from, to) {
            Some(v) => Ok(v),
            None => Err(MonetaryError::Overflow),
        },
        None => Err(MonetaryError::Overflow),
    }
}

impl<T: Currency, U: Currency> ExchangeRate<Precise<T>, Precise<U>> {
    /// Converts a coin of `from` into `to`: multiplies by the rate, rounding
    /// down, then rescales from `from`'s decimals to `to`'s.
    pub fn apply(&self, from: &Coin<Precise<T>>) -> (r: Result<Coin<Precise<U>>, MonetaryError>)
        ensures
            converted(
                r,
                forward_spec(
                    from.amount_of() as int,
                    self.rate_of() as int,
                    self.from_of().decimals_of() as int,
                    self.to_of().decimals_of() as int,
                ),
            ),
            r matches Ok(c) ==> c.precision_of() == self.to_of(),
    {
        let c = self.mul_amount(from.amount());
        match rescaled(c, self.from.decimals(), self.to.decimals()) {
            Ok(v) => Ok(Coin::from_parts(v, self.to)),
            Err(e) => Err(e),
        }
    }

    /// Converts a coin of `to` back into `from`: divides by the rate,
    /// rounding down, then rescales from `to`'s decimals to `from`'s.
    pub fn apply_inv(&self, from: &Coin<Precise<U>>) -> (r: Result<Coin<Precise<T>>, MonetaryError>)
        requires
            self.wf(),
        ensures
            converted(
                r,
                reverse_spec(
                    from.amount_of() as int,
                    self.rate_of() as int,
                    self.to_of().decimals_of() as int,
                    self.from_of().decimals_of() as int,
                ),
            ),
            r matches Ok(c) ==> c.precision_of() == self.from_of(),
    {
        let c = self.div_amount(from.amount());
        match rescaled(c, self.to.decimals(), self.from.decimals()) {
            Ok(v) => Ok(Coin::from_parts(v, self.from)),
            Err(e) => Err(e),
        }
    }
}

impl<T: Currency, U: Currency> ExchangeRate<Imprecise<T>, Precise<U>> {
    /// Converts without rescaling, since `from` has no known decimals; the
    /// result keeps `to`'s decimals, unverified.
    pub fn apply(&self, from: &Coin<Imprecise<T>>) -> (r: Result<Coin<Unverified<U>>, MonetaryError>)
        ensures
            converted(r, fit(mul_floor_spec(from.amount_of() as int, self.rate_of() as int))),
            r matches Ok(c) ==> c.precision_of().currency_of() == self.to_of().currency_of()
                && c.precision_of().decimals_of() == self.to_of().decimals_of(),
    {
        match self.mul_amount(from.amount()) {
            Some(v) => Ok(Coin::from_parts(v, self.to.into_unverified())),
            None => Err(MonetaryError::Overflow),
        }
    }

    /// Converts back without rescaling; the result carries `to`'s decimals,
    /// unverified.
    pub fn apply_inv(&self, from: &Coin<Precise<U>>) -> (r: Result<Coin<Unverified<T>>, MonetaryError>)
        requires
            self.wf(),
        ensures
            converted(r, fit(div_floor_spec(from.amount_of() as int, self.rate_of() as int))),
            r matches Ok(c) ==> c.precision_of().currency_of() == self.from_of().currency_of()
                && c.precision_of().decimals_of() == self.to_of().decimals_of(),
    {
        match self.div_amount(from.amount()) {
            Some(v) => Ok(
                Coin::from_parts(v, self.from.into_unverified(self.to.decimals())),
            ),
            None => Err(MonetaryError::Overflow),
        }
    }
}

impl<T: Currency, U: Currency> ExchangeRate<Precise<T>, Imprecise<U>> {
    /// Converts without rescaling, since `to` has no known decimals; the
    /// result carries `from`'s decimals, unverified.
    pub fn apply(&self, from: &Coin<Precise<T>>) -> (r: Result<Coin<Unverified<U>>, MonetaryError>)
        ensures
            converted(r, fit(mul_floor_spec(from.amount_of() as int, self.rate_of() as int))),
            r matches Ok(c) ==> c.precision_of().currency_of() == self.to_of().currency_of()
                && c.precision_of().decimals_of() == self.from_of().decimals_of(),
    {
        match self.mul_amount(from.amount()) {
            Some(v) => Ok(
                Coin::from_parts(v, self.to.into_unverified(self.from.decimals())),
            ),
            None => Err(MonetaryError::Overflow),
        }
    }

    /// Converts back without rescaling; the result keeps `from`'s decimals,
    /// unverified.
    pub fn apply_inv(&self, from: &Coin<Imprecise<U>>) -> (r: Result<Coin<Unverified<T>>, MonetaryError>)
        requires
            self.wf(),
        ensures
            converted(r, fit(div_floor_spec(from.amount_of() as int, self.rate_of() as int))),
            r matches Ok(c) ==> c.precision_of().currency_of() == self.from_of().currency_of()
                && c.precision_of().decimals_of() == self.from_of().decimals_of(),
    {
        match self.div_amount(from.amount()) {
            Some(v) => Ok(Coin::from_parts(v, self.from.into_unverified())),
            None => Err(MonetaryError::Overflow),
        }
    }
}

impl<T: Currency, U: Currency> ExchangeRate<Imprecise<T>, Imprecise<U>> {
    /// Converts without rescaling; neither side knows its decimals.
    pub fn apply(&self, from: &Coin<Imprecise<T>>) -> (r: Result<Coin<Imprecise<U>>, MonetaryError>)
        ensures
            converted(r, fit(mul_floor_spec(from.amount_of() as int, self.rate_of() as int))),
            r matches Ok(c) ==> c.precision_of() == self.to_of(),
    {
        match self.mul_amount(from.amount()) {
            Some(v) => Ok(Coin::from_parts(v, self.to)),
            None => Err(MonetaryError::Overflow),
        }
    }

    /// Converts back without rescaling.
    pub fn apply_inv(&self, from: &Coin<Imprecise<U>>) -> (r: Result<Coin<Imprecise<T>>, MonetaryError>)
        requires
            self.wf(),
        ensures
            converted(r, fit(div_floor_spec(from.amount_of() as int, self.rate_of() as int))),
            r matches Ok(c) ==> c.precision_of() == self.from_of(),
    {
        match self.div_amount(from.amount()) {
            Some(v) => Ok(Coin::from_parts(v, self.from)),
            None => Err(MonetaryError::Overflow),
        }
    }
}

/// Converting a coin between two precise currencies and back, rounding down
/// both ways and rescaling for their decimals, never gives back more than the
/// starting amount (when the way back does not overflow).
pub proof fn lemma_precise_round_trip<T, U>(rate: ExchangeRate<Precise<T>, Precise<U>>, x: u128)
    requires
        rate.wf(),
    ensures
        ({
            let a = rate.rate_of() as int;
            let f = rate.from_of().decimals_of() as int;
            let t = rate.to_of().decimals_of() as int;
            forward_spec(x as int, a, f, t) matches Some(y) ==> (reverse_spec(y as int, a, t, f) matches Some(z) ==> z <= x)
        }),
{
    let a = rate.rate_of() as int;
    let f = rate.from_of().decimals_of() as int;
    let t = rate.to_of().decimals_of() as int;
    let d = fractional();
    let xx = x as int;
    if let Some(y) = forward_spec(xx, a, f, t) {
        if let Some(z) = reverse_spec(y as int, a, t, f) {
            lemma_mul_div_nonneg(xx, a, d);
            let c = mul_floor_spec(xx, a);
            assert(c * d <= xx * a) by (nonlinear_arith)
                requires
                    c == xx * a / d,
                    d > 0,
            ;
            let yy = y as int;
            let c2 = div_floor_spec(yy, a);
            assert(c2 * a <= yy * d) by (nonlinear_arith)
                requires
                    c2 == yy * d / a,
                    a > 0,
            ;
            let zz = z as int;
            if f >= t {
                let p = pow10((f - t) as nat);
                lemma_pow10_monotone(0, (f - t) as nat);
                assert(yy * p <= c) by (nonlinear_arith)
                    requires
                        yy == c / p,
                        p > 0,
                ;
                if f == t {
                    assert(pow10(0) == 1);
                    assert(zz == c2 / 1);
                }
                assert(zz == c2 * p);
                assert(zz * a <= xx * a) by (nonlinear_arith)
                    requires
                        zz == c2 * p,
                        c2 * a <= yy * d,
                        yy * p <= c,
                        c * d <= xx * a,
                        p > 0,
                        d > 0,
                        a > 0,
                        c2 >= 0,
                ;
                assert(zz <= xx) by (nonlinear_arith)
                    requires
                        zz * a <= xx * a,
                        a > 0,
                ;
            } else {
                let p = pow10((t - f) as nat);
                lemma_pow10_monotone(0, (t - f) as nat);
                assert(yy == c * p);
                assert(zz * p <= c2) by (nonlinear_arith)
                    requires
                        zz == c2 / p,
                        p > 0,
                ;
                assert(zz * p * a <= xx * a * p) by (nonlinear_arith)
                    requires
                        zz * p <= c2,
                        c2 * a <= yy * d,
                        yy == c * p,
                        c * d <= xx * a,
                        p > 0,
                        a > 0,
                ;
                assert(zz <= xx) by (nonlinear_arith)
                    requires
                        zz * p * a <= xx * a * p,
                        p > 0,
                        a > 0,
                ;
            }
        }
    }
}

} // verus!
