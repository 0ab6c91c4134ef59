use vstd::prelude::*;

use crate::error::MonetaryError;
use crate::precision::{Imprecise, Precise};
use crate::traits::{Currency, Precision};

verus! {

/// A coin as the chain hands it over: a denomination string and an amount,
/// with nothing checked.
#[derive(Clone, Debug, PartialEq, Eq)]
pub struct WireCoin {
    pub denom: String,
    pub amount: u128,
}

/// An amount of a currency, together with what is known of that currency's
/// decimal places.
#[derive(Clone, Copy, Debug, PartialEq, Eq)]
pub struct Coin<P> {
    amount: u128,
    denom: P,
}

/// Whether two strings are equal.
pub fn same_denom(a: &str, b: &str) -> (r: bool)
    ensures
        r == (a@ == b@),
{
    let x: String = a.to_owned();
    let y: String = b.to_owned();
    x == y
}

/// The error for a coin of denomination `got` where `expected` was wanted.
pub open spec fn is_mismatch(e: MonetaryError, got: Seq<char>, expected: Seq<char>) -> bool {
    match e {
        MonetaryError::DenomMismatch(g, x) => g@ == got && x@ == expected,
        _ => false,
    }
}

impl<P> Coin<P> {
    pub closed spec fn amount_of(&self) -> u128 {
        self.amount
    }

    pub closed spec fn precision_of(&self) -> P {
        self.denom
    }

    pub(crate) fn from_parts(amount: u128, denom: P) -> (r: Self)
        ensures
            r.amount_of() == amount,
            r.precision_of() == denom,
    {
        Coin { amount, denom }
    }
}

impl<P: Precision> Coin<P> {
    pub fn amount(&self) -> (r: u128)
        ensures
            r == self.amount_of(),
    {
        self.amount
    }

    pub fn currency(&self) -> (r: &P::C)
        ensures
            *r == self.precision_of().currency_spec(),
    {
        self.denom.currency()
    }

    /// The precision-tagged currency of the coin.
    pub fn denom(&self) -> (r: &P)
        ensures
            *r == self.precision_of(),
    {
        &self.denom
    }

    /// The coin as the chain represents it: the currency's denomination and
    /// the amount, with nothing lost.
    pub fn to_wire(&self) -> (r: WireCoin)
        ensures
            r.denom@ == self.precision_of().currency_spec().denom_spec(),
            r.amount == self.amount_of(),
    {
        WireCoin { denom: self.denom.currency().denom().to_owned(), amount: self.amount }
    }
}

/// Checks that a wire coin is of denomination `expected`: its amount when it
/// is, `DenomMismatch(received, expected)` when it is not.
pub fn check_denom(coin: &WireCoin, expected: &str) -> (r: Result<u128, MonetaryError>)
    ensures
        coin.denom@ == expected@ ==> r == Ok::<u128, MonetaryError>(coin.amount),
        coin.denom@ != expected@ ==> r is Err && is_mismatch(r->Err_0, coin.denom@, expected@),
{
    if same_denom(coin.denom.as_str(), expected) {
        Ok(coin.amount)
    } else {
        Err(MonetaryError::DenomMismatch(coin.denom.clone(), expected.to_owned()))
    }
}

/// Adds two amounts of coins whose denominations are `mine` and `theirs`:
/// `DenomMismatch(theirs, mine)` when those differ, `Overflow` when the sum
/// exceeds `u128::MAX`.
pub fn add_same_denom(a: u128, b: u128, mine: &str, theirs: &str) -> (r: Result<u128, MonetaryError>)
    ensures
        mine@ != theirs@ ==> r is Err && is_mismatch(r->Err_0, theirs@, mine@),
        mine@ == theirs@ && a + b <= u128::MAX ==> r == Ok::<u128, MonetaryError>((a + b) as u128),
        mine@ == theirs@ && a + b > u128::MAX ==> r == Err::<u128, MonetaryError>(
            MonetaryError::Overflow,
        ),
{
    if !same_denom(mine, theirs) {
        return Err(MonetaryError::DenomMismatch(theirs.to_owned(), mine.to_owned()));
    }
    match a.checked_add(b) {
        Some(v) => Ok(v),
        None => Err(MonetaryError::Overflow),
    }
}

/// Subtracts the amount of a coin of denomination `theirs` from one of
/// denomination `mine`: `DenomMismatch(theirs, mine)` when those differ,
/// `Underflow` when `b` is the larger.
pub fn sub_same_denom(a: u128, b: u128, mine: &str, theirs: &str) -> (r: Result<u128, MonetaryError>)
    ensures
        mine@ != theirs@ ==> r is Err && is_mismatch(r->Err_0, theirs@, mine@),
        mine@ == theirs@ && b <= a ==> r == Ok::<u128, MonetaryError>((a - b) as u128),
        mine@ == theirs@ && b > a ==> r == Err::<u128, MonetaryError>(MonetaryError::Underflow),
{
    if !same_denom(mine, theirs) {
        return Err(MonetaryError::DenomMismatch(theirs.to_owned(), mine.to_owned()));
    }
    match a.checked_sub(b) {
        Some(v) => Ok(v),
        None => Err(MonetaryError::Underflow),
    }
}

/// An arithmetic result on two coins of denominations `mine` and `theirs`:
/// `DenomMismatch(theirs, mine)` when those differ; else the amount `v` with
/// the left coin's precision when `v` fits, or the error `out_of_range`.
pub open spec fn coin_arith<P>(
    r: Result<Coin<P>, MonetaryError>,
    left: Coin<P>,
    mine: Seq<char>,
    theirs: Seq<char>,
    v: int,
    out_of_range: MonetaryError,
) -> bool {
    if mine != theirs {
        r is Err && is_mismatch(r->Err_0, theirs, mine)
    } else if 0 <= v <= u128::MAX {
        r is Ok && r->Ok_0.amount_of() == v && r->Ok_0.precision_of() == left.precision_of()
    } else {
        r == Err::<Coin<P>, MonetaryError>(out_of_range)
    }
}

impl<T: Currency> Coin<Imprecise<T>> {
    /// Checks a wire coin against `currency`: its denomination must be the
    /// currency's, else `DenomMismatch(received, expected)`.
    pub fn from_wire(coin: &WireCoin, currency: &T) -> (r: Result<Self, MonetaryError>)
        ensures
            coin.denom@ == currency.denom_spec() ==> r is Ok && r->Ok_0.amount_of() == coin.amount
                && r->Ok_0.precision_of().currency_of() == *currency,
            coin.denom@ != currency.denom_spec() ==> r is Err && is_mismatch(
                r->Err_0,
                coin.denom@,
                currency.denom_spec(),
            ),
    {
        match check_denom(coin, currency.denom()) {
            Ok(amount) => Ok(Coin { amount, denom: Imprecise::new(*currency) }),
            Err(e) => Err(e),
        }
    }

    /// The same check as `from_wire`.
    pub fn imprecise(coin: &WireCoin, denom: &T) -> (r: Result<Self, MonetaryError>)
        ensures
            coin.denom@ == denom.denom_spec() ==> r is Ok && r->Ok_0.amount_of() == coin.amount
                && r->Ok_0.precision_of().currency_of() == *denom,
            coin.denom@ != denom.denom_spec() ==> r is Err && is_mismatch(
                r->Err_0,
                coin.denom@,
                denom.denom_spec(),
            ),
    {
        Self::from_wire(coin, denom)
    }

    /// Hydrates the coin: the caller vouches that `precision` is the
    /// currency's decimal count.
    pub fn with_precision(&self, precision: u8) -> (r: Coin<Precise<T>>)
        ensures
            r.amount_of() == self.amount_of(),
            r.precision_of().currency_of() == self.precision_of().currency_of(),
            r.precision_of().decimals_of() == precision,
    {
        Coin { amount: self.amount, denom: self.denom.into_precise(precision) }
    }

    /// The sum of two coins of the same denomination: `DenomMismatch` when
    /// the denominations differ, `Overflow` when the sum exceeds `u128::MAX`.
    /// A mismatch is a caller's mistake, reported here as an error rather
    /// than a panic so that the library stays total.
    pub fn checked_add(self, rhs: Self) -> (r: Result<Self, MonetaryError>)
        ensures
            coin_arith(
                r,
                self,
                self.precision_of().currency_of().denom_spec(),
                rhs.precision_of().currency_of().denom_spec(),
                self.amount_of() + rhs.amount_of(),
                MonetaryError::Overflow,
            ),
    {
        let mine = self.denom.currency().denom();
        let theirs = rhs.denom.currency().denom();
        match add_same_denom(self.amount, rhs.amount, mine, theirs) {
            Ok(v) => Ok(Coin { amount: v, denom: self.denom }),
            Err(e) => Err(e),
        }
    }

    /// The difference of two coins of the same denomination: `DenomMismatch`
    /// when the denominations differ, `Underflow` when `rhs` is the larger.
    pub fn checked_sub(self, rhs: Self) -> (r: Result<Self, MonetaryError>)
        ensures
            coin_arith(
                r,
                self,
                self.precision_of().currency_of().denom_spec(),
                rhs.precision_of().currency_of().denom_spec(),
                self.amount_of() - rhs.amount_of(),
                MonetaryError::Underflow,
            ),
    {
        let mine = self.denom.currency().denom();
        let theirs = rhs.denom.currency().denom();
        match sub_same_denom(self.amount, rhs.amount, mine, theirs) {
            Ok(v) => Ok(Coin { amount: v, denom: self.denom }),
            Err(e) => Err(e),
        }
    }
}

impl<T: Currency> Coin<Precise<T>> {
    /// Checks a wire coin against a precise currency: its denomination must
    /// be its currency's, else `DenomMismatch(received, expected)`.
    pub fn precise(coin: &WireCoin, denom: &Precise<T>) -> (r: Result<Self, MonetaryError>)
        ensures
            coin.denom@ == denom.currency_of().denom_spec() ==> r is Ok && r->Ok_0.amount_of()
                == coin.amount && r->Ok_0.precision_of() == *denom,
            coin.denom@ != denom.currency_of().denom_spec() ==> r is Err && is_mismatch(
                r->Err_0,
                coin.denom@,
                denom.currency_of().denom_spec(),
            ),
    {
        match check_denom(coin, denom.currency().denom()) {
            Ok(amount) => Ok(Coin { amount, denom: *denom }),
            Err(e) => Err(e),
        }
    }
}

} // verus!
