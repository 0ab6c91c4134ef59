use vstd::prelude::*;

use crate::currency::Unknown;
use crate::traits::{Currency, Precision};

verus! {

/// A currency with verified decimal precision information.
#[derive(Clone, Copy, Debug, Default, PartialEq, Eq)]
pub struct Precise<T> {
    currency: T,
    decimals: u8,
}

/// A currency with no decimal precision information.
#[derive(Clone, Copy, Debug, PartialEq, Eq)]
pub struct Imprecise<T> {
    currency: T,
}

/// A currency whose decimal count comes from somewhere that was not checked,
/// such as the other leg of an exchange. It is not a `Precise` until someone
/// says so with `into_precise`.
#[derive(Clone, Copy, Debug, PartialEq, Eq)]
pub struct Unverified<T> {
    currency: T,
    decimals: u8,
}

impl<T> Precise<T> {
    pub closed spec fn currency_of(&self) -> T {
        self.currency
    }

    pub closed spec fn decimals_of(&self) -> u8 {
        self.decimals
    }

    pub fn new(currency: T, decimals: u8) -> (r: Self)
        ensures
            r.currency_of() == currency,
            r.decimals_of() == decimals,
    {
        Precise { currency, decimals }
    }

    pub fn decimals(&self) -> (r: u8)
        ensures
            r == self.decimals_of(),
    {
        self.decimals
    }

    /// The currency, with the decimals dropped.
    pub fn unwrap(self) -> (r: T)
        ensures
            r == self.currency_of(),
    {
        self.currency
    }

    /// Forgets the decimals; this is always allowed.
    pub fn into_imprecise(self) -> (r: Imprecise<T>)
        ensures
            r.currency_of() == self.currency_of(),
    {
        Imprecise { currency: self.currency }
    }

    /// Keeps the decimals but marks them as no longer verified.
    pub fn into_unverified(self) -> (r: Unverified<T>)
        ensures
            r.currency_of() == self.currency_of(),
            r.decimals_of() == self.decimals_of(),
    {
        Unverified { currency: self.currency, decimals: self.decimals }
    }
}

impl<T: Currency> Precise<T> {
    /// The same precision over a currency known only by its denomination.
    pub fn map_unknown(&self) -> (r: Precise<Unknown>)
        ensures
            r.currency_of().0@ == self.currency_of().denom_spec(),
            r.decimals_of() == self.decimals_of(),
    {
        Precise { currency: Unknown(self.currency.denom().to_owned()), decimals: self.decimals }
    }
}

impl<T> Imprecise<T> {
    pub closed spec fn currency_of(&self) -> T {
        self.currency
    }

    pub fn new(currency: T) -> (r: Self)
        ensures
            r.currency_of() == currency,
    {
        Imprecise { currency }
    }

    /// Attaches decimals whose source is not vouched for.
    pub fn into_unverified(self, decimals: u8) -> (r: Unverified<T>)
        ensures
            r.currency_of() == self.currency_of(),
            r.decimals_of() == decimals,
    {
        Unverified { currency: self.currency, decimals }
    }

    /// Hydrates the currency: the caller vouches that `decimals` is authoritative.
    pub fn into_precise(self, decimals: u8) -> (r: Precise<T>)
        ensures
            r.currency_of() == self.currency_of(),
            r.decimals_of() == decimals,
    {
        Precise { currency: self.currency, decimals }
    }
}

impl<T: Currency> Imprecise<T> {
    /// The same state over a currency known only by its denomination.
    pub fn map_unknown(&self) -> (r: Imprecise<Unknown>)
        ensures
            r.currency_of().0@ == self.currency_of().denom_spec(),
    {
        Imprecise { currency: Unknown(self.currency.denom().to_owned()) }
    }
}

impl<T> Unverified<T> {
    pub closed spec fn currency_of(&self) -> T {
        self.currency
    }

    pub closed spec fn decimals_of(&self) -> u8 {
        self.decimals
    }

    pub fn decimals(&self) -> (r: u8)
        ensures
            r == self.decimals_of(),
    {
        self.decimals
    }

    /// The explicit re-verification step: the caller vouches for the decimals.
    pub fn into_precise(self) -> (r: Precise<T>)
        ensures
            r.currency_of() == self.currency_of(),
            r.decimals_of() == self.decimals_of(),
    {
        Precise { currency: self.currency, decimals: self.decimals }
    }
}

impl<T: Currency> Precision for Precise<T> {
    type C = T;

    open spec fn currency_spec(&self) -> T {
        self.currency_of()
    }

    fn currency(&self) -> (r: &T) {
        &self.currency
    }
}

impl<T: Currency> Precision for Imprecise<T> {
    type C = T;

    open spec fn currency_spec(&self) -> T {
        self.currency_of()
    }

    fn currency(&self) -> (r: &T) {
        &self.currency
    }
}

impl<T: Currency> Precision for Unverified<T> {
    type C = T;

    open spec fn currency_spec(&self) -> T {
        self.currency_of()
    }

    fn currency(&self) -> (r: &T) {
        &self.currency
    }
}

} // verus!
