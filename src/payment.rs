use vstd::prelude::*;

use crate::amount::AmountU128;
use crate::coin::{same_denom, WireCoin};
use crate::denom::{CheckedCoin, Denom};
use crate::error::MonetaryError;

verus! {

/// `DenomNotFound` naming `denom`.
pub open spec fn is_not_found(e: MonetaryError, denom: Seq<char>) -> bool {
    match e {
        MonetaryError::DenomNotFound(d) => d@ == denom,
        _ => false,
    }
}

/// Requires exactly one coin in `funds`, of `denom` and with a non-zero
/// amount, and returns that amount; `DenomNotFound` otherwise.
pub fn must_pay<T>(funds: &[WireCoin], denom: &Denom<T>) -> (r: Result<AmountU128<T>, MonetaryError>)
    ensures
        (funds@.len() == 1 && funds@[0].amount != 0 && funds@[0].denom@ == denom@) ==> r is Ok
            && r->Ok_0@ == funds@[0].amount,
        !(funds@.len() == 1 && funds@[0].amount != 0 && funds@[0].denom@ == denom@) ==> r is Err
            && is_not_found(r->Err_0, denom@),
{
    if funds.len() != 1 {
        return Err(MonetaryError::DenomNotFound(denom.to_string()));
    }
    let coin = &funds[0];
    if coin.amount == 0 || !same_denom(coin.denom.as_str(), denom.repr()) {
        return Err(MonetaryError::DenomNotFound(denom.to_string()));
    }
    Ok(AmountU128::new(coin.amount))
}

/// Like `must_pay`, but paying nothing is allowed: zero for empty `funds`,
/// the amount for one coin of `denom`, `DenomNotFound` for one coin of
/// another denomination and `TooManyDenoms` for more than one coin.
pub fn may_pay<T>(funds: &[WireCoin], denom: &Denom<T>) -> (r: Result<AmountU128<T>, MonetaryError>)
    ensures
        funds@.len() == 0 ==> r is Ok && r->Ok_0@ == 0,
        funds@.len() == 1 && funds@[0].denom@ == denom@ ==> r is Ok && r->Ok_0@
            == funds@[0].amount,
        funds@.len() == 1 && funds@[0].denom@ != denom@ ==> r is Err && is_not_found(
            r->Err_0,
            denom@,
        ),
        funds@.len() > 1 ==> r == Err::<AmountU128<T>, MonetaryError>(
            MonetaryError::TooManyDenoms,
        ),
{
    if funds.len() == 0 {
        Ok(AmountU128::zero())
    } else if funds.len() == 1 {
        if same_denom(funds[0].denom.as_str(), denom.repr()) {
            Ok(AmountU128::new(funds[0].amount))
        } else {
            Err(MonetaryError::DenomNotFound(denom.to_string()))
        }
    } else {
        Err(MonetaryError::TooManyDenoms)
    }
}

/// A coin of `amount` in `denom`.
pub fn coin<T>(amount: u128, denom: &Denom<T>) -> (r: CheckedCoin<T>)
    ensures
        r.denom@ == denom@,
        r.amount@ == amount,
{
    CheckedCoin::new(denom.clone(), AmountU128::new(amount))
}

/// The one coin of `amount` in `denom`, as a list.
pub fn coins<T>(amount: u128, denom: &Denom<T>) -> (r: Vec<CheckedCoin<T>>)
    ensures
        r@.len() == 1,
        r@[0].denom@ == denom@,
        r@[0].amount@ == amount,
{
    let mut v: Vec<CheckedCoin<T>> = Vec::new();
    v.push(coin(amount, denom));
    v
}

} // verus!
