use vstd::prelude::*;

verus! {

/// What can go wrong in this library, with the fields that tell the cases apart.
#[derive(Clone, Debug, PartialEq, Eq)]
pub enum MonetaryError {
    /// A result exceeded the largest `u128`.
    Overflow,
    /// A subtraction went below zero.
    Underflow,
    /// A division by a zero amount or a zero ratio.
    DivideByZero,
    /// A denomination differed from the one expected: the one received, then the expected one.
    DenomMismatch(String, String),
    /// Funds held more than one denomination.
    TooManyDenoms,
    /// The expected denomination was not among the funds.
    DenomNotFound(String),
}

} // verus!
