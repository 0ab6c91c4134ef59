use std::marker::PhantomData;

use vstd::prelude::*;

use crate::amount::AmountU128;
use crate::coin::{same_denom, WireCoin};
use crate::error::MonetaryError;
use crate::precision::Precise;

verus! {

/// A marker type standing for one denomination: small, copyable and with a
/// default value.
pub trait Denomination: Copy + Default + Eq {}

impl<T: Denomination> Denomination for Precise<T> {}

/// A denomination string branded with the currency `T` it names.
#[derive(Debug, PartialEq, Eq)]
pub struct Denom<T> {
    repr: String,
    denom: PhantomData<T>,
}

impl<T> View for Denom<T> {
    type V = Seq<char>;

    closed spec fn view(&self) -> Seq<char> {
        self.repr@
    }
}

impl<T> Clone for Denom<T> {
    fn clone(&self) -> (r: Self)
        ensures
            r@ == self@,
    {
        Denom { repr: self.repr.clone(), denom: PhantomData }
    }
}

/// An amount together with the denomination it is counted in.
#[derive(Clone, Debug, PartialEq, Eq)]
pub struct CheckedCoin<T> {
    pub denom: Denom<T>,
    pub amount: AmountU128<T>,
}

impl<T> Denom<T> {
    pub fn new(repr: String) -> (r: Self)
        ensures
            r@ == repr@,
    {
        Denom { repr, denom: PhantomData }
    }

    pub fn repr(&self) -> (r: &str)
        ensures
            r@ == self@,
    {
        self.repr.as_str()
    }

    /// The denomination string, owned.
    pub fn to_string(&self) -> (r: String)
        ensures
            r@ == self@,
    {
        self.repr.clone()
    }

    /// A coin of `amount` in this denomination.
    pub fn coin(&self, amount: AmountU128<T>) -> (r: CheckedCoin<T>)
        ensures
            r.denom@ == self@,
            r.amount@ == amount@,
    {
        CheckedCoin { denom: self.clone(), amount }
    }

    /// The one coin of `amount` in this denomination, as a list.
    pub fn coins(&self, amount: AmountU128<T>) -> (r: Vec<CheckedCoin<T>>)
        ensures
            r@.len() == 1,
            r@[0].denom@ == self@,
            r@[0].amount@ == amount@,
    {
        let mut v: Vec<CheckedCoin<T>> = Vec::new();
        v.push(self.coin(amount));
        v
    }
}

impl<T> CheckedCoin<T> {
    /// Checks a wire coin against `denom`: `DenomMismatch(received, expected)`
    /// when the denominations differ.
    pub fn from_coin(coin: WireCoin, denom: Denom<T>) -> (r: Result<Self, MonetaryError>)
        ensures
            coin.denom@ == denom@ ==> r is Ok && r->Ok_0.denom@ == denom@ && r->Ok_0.amount@
                == coin.amount,
            coin.denom@ != denom@ ==> r is Err && crate::coin::is_mismatch(
                r->Err_0,
                coin.denom@,
                denom@,
            ),
    {
        if !same_denom(coin.denom.as_str(), denom.repr()) {
            let expected = denom.to_string();
            return Err(MonetaryError::DenomMismatch(coin.denom, expected));
        }
        Ok(CheckedCoin { denom, amount: AmountU128::new(coin.amount) })
    }

    pub fn new(denom: Denom<T>, amount: AmountU128<T>) -> (r: Self)
        ensures
            r.denom@ == denom@,
            r.amount@ == amount@,
    {
        CheckedCoin { denom, amount }
    }

    /// The coin as the chain represents it.
    pub fn to_unchecked(self) -> (r: WireCoin)
        ensures
            r.denom@ == self.denom@,
            r.amount == self.amount@,
    {
        WireCoin { denom: self.denom.to_string(), amount: self.amount.u128() }
    }

    /// Adds `rhs`'s amount, keeping this coin's denomination; `Overflow`
    /// when the sum exceeds `u128::MAX`.
    pub fn checked_add(self, rhs: Self) -> (r: Result<Self, MonetaryError>)
        ensures
            match r {
                Ok(c) => c.denom@ == self.denom@ && c.amount@ == self.amount@ + rhs.amount@,
                Err(e) => self.amount@ + rhs.amount@ > u128::MAX && e == MonetaryError::Overflow,
            },
    {
        let sum = self.amount.checked_add(rhs.amount);
        match sum {
            Ok(a) => Ok(CheckedCoin { denom: self.denom, amount: a }),
            Err(e) => Err(e),
        }
    }

    /// Subtracts `rhs`'s amount, keeping this coin's denomination;
    /// `Underflow` when `rhs` is the larger.
    pub fn checked_sub(self, rhs: Self) -> (r: Result<Self, MonetaryError>)
        ensures
            match r {
                Ok(c) => c.denom@ == self.denom@ && c.amount@ == self.amount@ - rhs.amount@,
                Err(e) => self.amount@ < rhs.amount@ && e == MonetaryError::Underflow,
            },
    {
        let diff = self.amount.checked_sub(rhs.amount);
        match diff {
            Ok(a) => Ok(CheckedCoin { denom: self.denom, amount: a }),
            Err(e) => Err(e),
        }
    }
}

} // verus!
