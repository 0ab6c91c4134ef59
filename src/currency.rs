use std::marker::PhantomData;

use vstd::prelude::*;

use crate::coin::same_denom;
use crate::traits::Currency;

verus! {

/// A currency known only by its denomination string, for code that handles
/// denominations chosen at run time.
#[derive(Clone, Debug, PartialEq, Eq)]
pub struct Unknown(pub String);

/// The currency with the empty denomination.
#[derive(Clone, Copy, Debug, PartialEq, Eq)]
pub struct Empty;

impl Currency for Empty {
    open spec fn denom_spec(&self) -> Seq<char> {
        Seq::empty()
    }

    fn denom(&self) -> (r: &str) {
        proof {
            reveal_strlit("");
        }
        ""
    }
}

/// A currency with a fixed denomination string, branded by the marker type
/// `B`: `Branded<Eur>` and `Branded<Usd>` are different currencies even when
/// nothing else tells them apart.
#[derive(Debug, PartialEq, Eq)]
pub struct Branded<B> {
    denom: &'static str,
    brand: PhantomData<B>,
}

impl<B> Clone for Branded<B> {
    fn clone(&self) -> (r: Self)
        ensures
            r == *self,
    {
        *self
    }
}

impl<B> Copy for Branded<B> {}

impl<B> View for Branded<B> {
    type V = Seq<char>;

    closed spec fn view(&self) -> Seq<char> {
        self.denom@
    }
}

impl<B> Branded<B> {
    /// The currency of brand `B` with denomination `denom`.
    pub fn new(denom: &'static str) -> (r: Self)
        ensures
            r@ == denom@,
    {
        Branded { denom, brand: PhantomData }
    }
}

impl<B> Currency for Branded<B> {
    open spec fn denom_spec(&self) -> Seq<char> {
        self@
    }

    fn denom(&self) -> (r: &str) {
        self.denom
    }
}

/// A slot that holds a currency's denomination once it is set. Setting it
/// again to the same string is accepted; setting it to another one fails
/// and leaves the first in place.
#[derive(Clone, Copy, Debug, PartialEq, Eq)]
pub struct DenomCell {
    denom: Option<&'static str>,
}

impl DenomCell {
    /// The denomination set so far, if any.
    pub closed spec fn value(&self) -> Option<Seq<char>> {
        match self.denom {
            Some(d) => Some(d@),
            None => None,
        }
    }

    /// An empty slot.
    pub fn new() -> (r: Self)
        ensures
            r.value() is None,
    {
        DenomCell { denom: None }
    }

    /// The denomination, once set.
    pub fn get(&self) -> (r: Option<&'static str>)
        ensures
            r is None <==> self.value() is None,
            r matches Some(d) ==> self.value() == Some(d@),
    {
        self.denom
    }

    /// Sets the denomination. Fails with the rejected string when another
    /// denomination was set before.
    pub fn set(&mut self, denom: &'static str) -> (r: Result<(), String>)
        ensures
            old(self).value() is None ==> r is Ok && final(self).value() == Some(denom@),
            old(self).value() == Some(denom@) ==> r is Ok && *final(self) == *old(self),
            old(self).value() is Some && old(self).value() != Some(denom@) ==> r is Err
                && r->Err_0@ == denom@ && *final(self) == *old(self),
    {
        match self.denom {
            None => {
                self.denom = Some(denom);
                Ok(())
            },
            Some(d) => {
                if same_denom(d, denom) {
                    Ok(())
                } else {
                    Err(denom.to_owned())
                }
            },
        }
    }
}

/// The US dollar, whose denomination is set once at start-up in a `DenomCell`.
#[derive(Clone, Copy, Debug, PartialEq, Eq)]
pub struct Usd(&'static str);

impl Usd {
    /// Sets the dollar's denomination in `cell` and returns the currency;
    /// fails with the rejected string when `cell` already holds another one.
    pub fn init(cell: &mut DenomCell, denom: &'static str) -> (r: Result<Self, String>)
        ensures
            old(cell).value() is None || old(cell).value() == Some(denom@) ==> r is Ok
                && r->Ok_0@ == denom@ && r->Ok_0.denom_spec() == denom@ && final(cell).value() == Some(denom@),
            old(cell).value() is Some && old(cell).value() != Some(denom@) ==> r is Err
                && r->Err_0@ == denom@ && *final(cell) == *old(cell),
    {
        match cell.set(denom) {
            Ok(()) => Ok(Usd(denom)),
            Err(e) => Err(e),
        }
    }

    /// The dollar, once its denomination is set in `cell`.
    pub fn new(cell: &DenomCell) -> (r: Option<Self>)
        ensures
            r is None <==> cell.value() is None,
            r matches Some(u) ==> cell.value() == Some(u@) && u.denom_spec() == u@,
    {
        match cell.get() {
            Some(d) => Some(Usd(d)),
            None => None,
        }
    }
}

impl View for Usd {
    type V = Seq<char>;

    closed spec fn view(&self) -> Seq<char> {
        self.0@
    }
}

impl Currency for Usd {
    open spec fn denom_spec(&self) -> Seq<char> {
        self@
    }

    fn denom(&self) -> (r: &str) {
        self.0
    }
}

} // verus!
