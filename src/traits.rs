use vstd::prelude::*;

verus! {

/// An asset class, identified on the wire by its denomination string.
///
/// A currency is a small copyable marker: a unit struct, or a struct that
/// holds a `&'static str`. Code outside verification can brand its own
/// currencies with `Branded` instead of implementing this trait.
pub trait Currency: Copy {
    /// The denomination that `denom` returns.
    spec fn denom_spec(&self) -> Seq<char>;

    /// The denomination used on the wire, such as `"uusd"`.
    fn denom(&self) -> (r: &str)
        ensures
            r@ == self.denom_spec(),
    ;
}

/// A currency together with what is known of its decimal places.
pub trait Precision {
    type C: Currency;

    /// The currency that `currency` returns.
    spec fn currency_spec(&self) -> Self::C;

    fn currency(&self) -> (r: &Self::C)
        ensures
            *r == self.currency_spec(),
    ;
}

} // verus!
