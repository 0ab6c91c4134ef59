use std::marker::PhantomData;

use vstd::prelude::*;

use crate::decimal::{
    div_ceil_raw, div_ceil_spec, div_floor_raw, div_floor_spec, mul_ceil_raw, mul_ceil_spec,
    mul_floor_raw, mul_floor_spec, Decimal,
};
use crate::error::MonetaryError;

verus! {

/// An unsigned 128-bit quantity of the currency `T`; the brand `T` takes no
/// room at run time and keeps amounts of different currencies apart.
#[derive(Copy, Debug, PartialEq, Eq, Ord)]
pub struct AmountU128<T> {
    amount: u128,
    denom: PhantomData<T>,
}

impl<T> Clone for AmountU128<T> {
    fn clone(&self) -> (r: Self)
        ensures
            r@ == self@,
    {
        AmountU128 { amount: self.amount, denom: PhantomData }
    }
}

impl<T: PartialEq> PartialOrd for AmountU128<T> {
    fn partial_cmp(&self, other: &Self) -> (r: Option<core::cmp::Ordering>) {
        if self.amount < other.amount {
            Some(core::cmp::Ordering::Less)
        } else if self.amount > other.amount {
            Some(core::cmp::Ordering::Greater)
        } else {
            Some(core::cmp::Ordering::Equal)
        }
    }
}

impl<T: PartialEq> vstd::std_specs::cmp::PartialOrdSpecImpl for AmountU128<T> {
    open spec fn obeys_partial_cmp_spec() -> bool {
        true
    }

    open spec fn partial_cmp_spec(&self, other: &Self) -> Option<core::cmp::Ordering> {
        if self@ < other@ {
            Some(core::cmp::Ordering::Less)
        } else if self@ > other@ {
            Some(core::cmp::Ordering::Greater)
        } else {
            Some(core::cmp::Ordering::Equal)
        }
    }
}

impl<T> Default for AmountU128<T> {
    fn default() -> (r: Self)
        ensures
            r@ == 0,
    {
        AmountU128 { amount: 0, denom: PhantomData }
    }
}

impl<T> View for AmountU128<T> {
    type V = u128;

    closed spec fn view(&self) -> u128 {
        self.amount
    }
}

/// The result of a checked operation whose exact value is `v`.
pub open spec fn checked_result<T>(r: Result<AmountU128<T>, MonetaryError>, v: int) -> bool {
    match r {
        Ok(a) => 0 <= v <= u128::MAX && a@ == v,
        Err(e) => !(0 <= v <= u128::MAX) && e == (if v < 0 {
            MonetaryError::Underflow
        } else {
            MonetaryError::Overflow
        }),
    }
}

impl<T> AmountU128<T> {
    pub fn new(amount: u128) -> (r: Self)
        ensures
            r@ == amount,
    {
        AmountU128 { amount, denom: PhantomData }
    }

    pub fn u128(&self) -> (r: u128)
        ensures
            r == self@,
    {
        self.amount
    }

    pub fn zero() -> (r: Self)
        ensures
            r@ == 0,
    {
        Self::new(0)
    }

    pub fn is_zero(&self) -> (r: bool)
        ensures
            r == (self@ == 0),
    {
        self.amount == 0
    }

    /// The sum, or `Overflow` when it exceeds `u128::MAX`.
    pub fn checked_add(self, other: Self) -> (r: Result<Self, MonetaryError>)
        ensures
            checked_result(r, self@ + other@),
    {
        match self.amount.checked_add(other.amount) {
            Some(v) => Ok(Self::new(v)),
            None => Err(MonetaryError::Overflow),
        }
    }

    /// The difference, or `Underflow` when `other` is the larger.
    pub fn checked_sub(self, other: Self) -> (r: Result<Self, MonetaryError>)
        ensures
            checked_result(r, self@ - other@),
    {
        match self.amount.checked_sub(other.amount) {
            Some(v) => Ok(Self::new(v)),
            None => Err(MonetaryError::Underflow),
        }
    }

    /// The product, or `Overflow` when it exceeds `u128::MAX`.
    pub fn checked_mul(self, other: Self) -> (r: Result<Self, MonetaryError>)
        ensures
            checked_result(r, self@ * other@),
    {
        match self.amount.checked_mul(other.amount) {
            Some(v) => Ok(Self::new(v)),
            None => Err(MonetaryError::Overflow),
        }
    }

    /// The quotient rounded down, or `DivideByZero` when `other` is zero.
    pub fn checked_div(self, other: Self) -> (r: Result<Self, MonetaryError>)
        ensures
            other@ == 0 ==> r == Err::<Self, MonetaryError>(MonetaryError::DivideByZero),
            other@ != 0 ==> r is Ok && r->Ok_0@ == self@ / other@,
    {
        match self.amount.checked_div(other.amount) {
            Some(v) => Ok(Self::new(v)),
            None => Err(MonetaryError::DivideByZero),
        }
    }

    /// The sum, clamped to `u128::MAX`.
    pub fn saturating_add(self, other: Self) -> (r: Self)
        ensures
            r@ == (if self@ + other@ > u128::MAX {
                u128::MAX as int
            } else {
                self@ + other@
            }),
    {
        Self::new(self.amount.saturating_add(other.amount))
    }

    /// The difference, clamped to zero.
    pub fn saturating_sub(self, other: Self) -> (r: Self)
        ensures
            r@ == (if self@ < other@ {
                0
            } else {
                self@ - other@
            }),
    {
        Self::new(self.amount.saturating_sub(other.amount))
    }

    /// The product, clamped to `u128::MAX`.
    pub fn saturating_mul(self, other: Self) -> (r: Self)
        ensures
            r@ == (if self@ * other@ > u128::MAX {
                u128::MAX as int
            } else {
                self@ * other@
            }),
    {
        match self.amount.checked_mul(other.amount) {
            Some(v) => Self::new(v),
            None => Self::new(u128::MAX),
        }
    }

    /// The distance between the two amounts.
    pub fn abs_diff(self, other: Self) -> (r: Self)
        ensures
            r@ == (if self@ < other@ {
                other@ - self@
            } else {
                self@ - other@
            }),
    {
        if self.amount < other.amount {
            Self::new(other.amount - self.amount)
        } else {
            Self::new(self.amount - other.amount)
        }
    }

    /// The amount times `dec`, rounded down, or `Overflow`.
    pub fn dec_mul_floor(self, dec: Decimal) -> (r: Result<Self, MonetaryError>)
        ensures
            checked_result(r, mul_floor_spec(self@ as int, dec@ as int)),
    {
        proof {
            lemma_mul_div_nonneg(self@ as int, dec@ as int, crate::decimal::fractional());
        }
        match mul_floor_raw(self.amount, dec.atomics()) {
            Some(v) => Ok(Self::new(v)),
            None => Err(MonetaryError::Overflow),
        }
    }

    /// The amount times `dec`, rounded up, or `Overflow`.
    pub fn dec_mul_ceil(self, dec: Decimal) -> (r: Result<Self, MonetaryError>)
        ensures
            checked_result(r, mul_ceil_spec(self@ as int, dec@ as int)),
    {
        proof {
            lemma_mul_div_nonneg(
                self@ as int,
                dec@ as int,
                crate::decimal::fractional(),
            );
        }
        match mul_ceil_raw(self.amount, dec.atomics()) {
            Some(v) => Ok(Self::new(v)),
            None => Err(MonetaryError::Overflow),
        }
    }

    /// The amount divided by `dec`, rounded down; `DivideByZero` for a zero
    /// `dec`, `Overflow` when the quotient exceeds `u128::MAX`.
    pub fn dec_div_floor(self, dec: Decimal) -> (r: Result<Self, MonetaryError>)
        ensures
            dec@ == 0 ==> r == Err::<Self, MonetaryError>(MonetaryError::DivideByZero),
            dec@ != 0 ==> checked_result(r, div_floor_spec(self@ as int, dec@ as int)),
    {
        if dec.is_zero() {
            return Err(MonetaryError::DivideByZero);
        }
        proof {
            lemma_mul_div_nonneg(self@ as int, crate::decimal::fractional(), dec@ as int);
        }
        match div_floor_raw(self.amount, dec.atomics()) {
            Some(v) => Ok(Self::new(v)),
            None => Err(MonetaryError::Overflow),
        }
    }

    /// The amount divided by `dec`, rounded up; `DivideByZero` for a zero
    /// `dec`, `Overflow` when the quotient exceeds `u128::MAX`.
    pub fn dec_div_ceil(self, dec: Decimal) -> (r: Result<Self, MonetaryError>)
        ensures
            dec@ == 0 ==> r == Err::<Self, MonetaryError>(MonetaryError::DivideByZero),
            dec@ != 0 ==> checked_result(r, div_ceil_spec(self@ as int, dec@ as int)),
    {
        if dec.is_zero() {
            return Err(MonetaryError::DivideByZero);
        }
        proof {
            lemma_mul_div_nonneg(self@ as int, crate::decimal::fractional(), dec@ as int);
        }
        match div_ceil_raw(self.amount, dec.atomics()) {
            Some(v) => Ok(Self::new(v)),
            None => Err(MonetaryError::Overflow),
        }
    }
}

/// A product of naturals divided by a positive number is a natural, and so is
/// the same quotient rounded up.
pub proof fn lemma_mul_div_nonneg(x: int, a: int, d: int)
    requires
        x >= 0,
        a >= 0,
        d > 0,
    ensures
        x * a / d >= 0,
        (x * a + d - 1) / d >= 0,
{
    assert(x * a >= 0) by (nonlinear_arith)
        requires
            x >= 0,
            a >= 0,
    ;
    assert(x * a / d >= 0) by (nonlinear_arith)
        requires
            x * a >= 0,
            d > 0,
    ;
    assert((x * a + d - 1) / d >= 0) by (nonlinear_arith)
        requires
            x * a >= 0,
            d > 0,
    ;
}

} // verus!
