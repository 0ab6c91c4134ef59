use monetary::amount::AmountU128;
use monetary::coin::{add_same_denom, check_denom, sub_same_denom, Coin, WireCoin};
use monetary::currency::Branded;
use monetary::decimal::Decimal;
use monetary::error::MonetaryError;
use monetary::exchange::ExchangeRate;
use monetary::precision::{Imprecise, Precise};
use monetary::rate::Rate;
use monetary::traits::{Currency, Precision};

#[derive(Clone, Copy, Debug, PartialEq, Eq)]
struct UsdTag;
type Usd = Branded<UsdTag>;

fn uusd() -> Usd {
    Branded::new("uusd")
}

#[derive(Clone, Copy, Debug, PartialEq, Eq)]
struct EurTag;
type Eur = Branded<EurTag>;

fn ueur() -> Eur {
    Branded::new("ueur")
}

fn get_exchange_rate(denom: Precise<Eur>) -> ExchangeRate<Precise<Eur>, Precise<Usd>> {
    let precision = denom.decimals();
    ExchangeRate::new(denom, Precise::new(uusd(), precision), Decimal::percent(108)).unwrap()
}

fn wire(denom: &str, amount: u128) -> WireCoin {
    WireCoin { denom: denom.to_string(), amount }
}

#[test]
fn type_checked_currencies() {
    let test_coin = wire("ueur", 1_000_000);

    let _amount = Coin::imprecise(&test_coin, &ueur()).expect("Coin should be EUR");
    let eur = Precise::new(ueur(), 6);
    let amount = Coin::precise(&test_coin, &eur).expect("Coin should be EUR");

    let rate = get_exchange_rate(eur);
    let converted = rate.apply(&amount).expect("Conversion should work");
    let converted_back = rate.apply_inv(&converted).expect("Conversion should work");

    assert_eq!(converted.amount(), 1_080_000u128, "EUR to USD output incorrect");
    assert_eq!(converted_back.amount(), 1_000_000u128, "USD to EUR output incorrect");
}

#[test]
fn from_wire_checks_denomination() {
    let ok = Coin::from_wire(&wire("ueur", 1_000_000), &ueur()).unwrap();
    assert_eq!(ok.amount(), 1_000_000);
    assert_eq!(ok.currency(), &ueur());

    let err = Coin::from_wire(&wire("uusd", 1_000_000), &ueur()).unwrap_err();
    assert_eq!(err, MonetaryError::DenomMismatch("uusd".to_string(), "ueur".to_string()));
}

#[test]
fn precise_checks_denomination() {
    let eur = Precise::new(ueur(), 6);
    let err = Coin::precise(&wire("uusd", 5), &eur).unwrap_err();
    assert_eq!(err, MonetaryError::DenomMismatch("uusd".to_string(), "ueur".to_string()));
    let coin = Coin::precise(&wire("ueur", 5), &eur).unwrap();
    assert_eq!(coin.denom().decimals(), 6);
}

#[test]
fn coin_to_wire_and_hydration() {
    let coin = Coin::imprecise(&wire("ueur", 42), &ueur()).unwrap();
    let precise = coin.with_precision(2);
    assert_eq!(precise.amount(), 42);
    assert_eq!(precise.denom().decimals(), 2);
    assert_eq!(precise.to_wire(), wire("ueur", 42));
    assert_eq!(coin.to_wire(), wire("ueur", 42));
}

#[test]
fn coin_arithmetic() {
    let a = Coin::imprecise(&wire("ueur", 40), &ueur()).unwrap();
    let b = Coin::imprecise(&wire("ueur", 2), &ueur()).unwrap();
    assert_eq!(a.checked_add(b).unwrap().amount(), 42);
    assert_eq!(a.checked_sub(b).unwrap().amount(), 38);
    assert_eq!(b.checked_sub(a), Err(MonetaryError::Underflow));
    let max = Coin::imprecise(&wire("ueur", u128::MAX), &ueur()).unwrap();
    assert_eq!(max.checked_add(b), Err(MonetaryError::Overflow));
}

#[test]
fn exchange_rescales_decimals() {
    // EUR with 6 decimals, USD with 8: one minor EUR unit is 100 minor USD units at par.
    let rate = ExchangeRate::new(Precise::new(ueur(), 6), Precise::new(uusd(), 8), Decimal::one()).unwrap();
    let eur = Coin::precise(&wire("ueur", 1_234), &Precise::new(ueur(), 6)).unwrap();
    let usd = rate.apply(&eur).unwrap();
    assert_eq!(usd.amount(), 123_400);
    assert_eq!(usd.denom().decimals(), 8);
    let back = rate.apply_inv(&usd).unwrap();
    assert_eq!(back.amount(), 1_234);

    let usd_odd = Coin::precise(&wire("uusd", 123_499), &Precise::new(uusd(), 8)).unwrap();
    assert_eq!(rate.apply_inv(&usd_odd).unwrap().amount(), 1_234);

    let big = Coin::precise(&wire("ueur", u128::MAX), &Precise::new(ueur(), 6)).unwrap();
    assert_eq!(rate.apply(&big), Err(MonetaryError::Overflow));
}

#[test]
fn exchange_rejects_zero_rate() {
    assert!(ExchangeRate::new(Precise::new(ueur(), 6), Precise::new(uusd(), 6), Decimal::zero()).is_none());
}

#[test]
fn exchange_mixed_precision() {
    let rate = ExchangeRate::new(Imprecise::new(ueur()), Precise::new(uusd(), 6), Decimal::percent(200)).unwrap();
    let eur = Coin::imprecise(&wire("ueur", 10), &ueur()).unwrap();
    let usd = rate.apply(&eur).unwrap();
    assert_eq!(usd.amount(), 20);
    assert_eq!(usd.denom().decimals(), 6);
    let usd_coin = Coin::precise(&wire("uusd", 20), &Precise::new(uusd(), 6)).unwrap();
    let back = rate.apply_inv(&usd_coin).unwrap();
    assert_eq!(back.amount(), 10);
    assert_eq!(back.denom().decimals(), 6);
    assert_eq!(back.currency(), &ueur());

    let rate = ExchangeRate::new(Precise::new(ueur(), 4), Imprecise::new(uusd()), Decimal::percent(50)).unwrap();
    let eur = Coin::precise(&wire("ueur", 10), &Precise::new(ueur(), 4)).unwrap();
    let usd = rate.apply(&eur).unwrap();
    assert_eq!(usd.amount(), 5);
    assert_eq!(usd.denom().decimals(), 4);
    let usd_coin = Coin::imprecise(&wire("uusd", 5), &uusd()).unwrap();
    let back = rate.apply_inv(&usd_coin).unwrap();
    assert_eq!(back.amount(), 10);
    assert_eq!(back.denom().decimals(), 4);

    let rate = ExchangeRate::new(Imprecise::new(ueur()), Imprecise::new(uusd()), Decimal::percent(150)).unwrap();
    let usd = rate.apply(&Coin::imprecise(&wire("ueur", 3), &ueur()).unwrap()).unwrap();
    assert_eq!(usd.amount(), 4);
    assert_eq!(usd.currency().denom(), "uusd");
    let back = rate.apply_inv(&usd).unwrap();
    assert_eq!(back.amount(), 2);
}

#[test]
fn rate_new_precise_adjusts_ratio() {
    let half = Decimal::percent(50);
    let same = Rate::new_precise(half, &Precise::new(ueur(), 6), &Precise::new(uusd(), 6)).unwrap();
    assert_eq!(same.rate(), half);
    let more = Rate::new_precise(half, &Precise::new(ueur(), 8), &Precise::new(uusd(), 6)).unwrap();
    assert_eq!(more.rate(), Decimal::percent(5_000));
    let fewer = Rate::new_precise(half, &Precise::new(ueur(), 6), &Precise::new(uusd(), 8)).unwrap();
    assert_eq!(fewer.rate(), Decimal::raw(5_000_000_000_000_000));
    assert!(Rate::new_precise(half, &Precise::new(ueur(), 0), &Precise::new(uusd(), 40)).is_none());
    assert!(Rate::new_precise(half, &Precise::new(ueur(), 40), &Precise::new(uusd(), 0)).is_none());
}

#[test]
fn precision_transitions() {
    let p = Precise::new(ueur(), 6);
    assert_eq!(p.decimals(), 6);
    let u = p.into_unverified();
    assert_eq!(u.decimals(), 6);
    let i = p.into_imprecise();
    assert_eq!(i.currency(), &ueur());
    let h = i.into_precise(2);
    assert_eq!(h.decimals(), 2);
    let u2 = i.into_unverified(9);
    assert_eq!(u2.decimals(), 9);
    assert_eq!(u2.into_precise().decimals(), 9);
    assert_eq!(p.unwrap(), ueur());
    assert_eq!(p.map_unknown().unwrap().0, "ueur");
}

#[test]
fn rate_amount_conversion_round_trip() {
    let rate = Rate::<Eur, Usd>::new(Decimal::percent(108)).unwrap();
    let x = AmountU128::new(1_000_000);
    let y = rate.forward_floor(&x).unwrap();
    assert_eq!(y, AmountU128::new(1_080_000));
    assert_eq!(rate.reverse_floor(&y).unwrap(), x);
}

#[test]
fn denomination_checks_on_plain_values() {
    assert_eq!(check_denom(&wire("ueur", 1_000_000), "ueur"), Ok(1_000_000));
    assert_eq!(
        check_denom(&wire("uusd", 1_000_000), "ueur"),
        Err(MonetaryError::DenomMismatch("uusd".to_string(), "ueur".to_string()))
    );
    assert_eq!(add_same_denom(2, 3, "ueur", "ueur"), Ok(5));
    assert_eq!(add_same_denom(u128::MAX, 1, "ueur", "ueur"), Err(MonetaryError::Overflow));
    assert_eq!(
        add_same_denom(2, 3, "ueur", "uusd"),
        Err(MonetaryError::DenomMismatch("uusd".to_string(), "ueur".to_string()))
    );
    assert_eq!(sub_same_denom(5, 3, "ueur", "ueur"), Ok(2));
    assert_eq!(sub_same_denom(3, 5, "ueur", "ueur"), Err(MonetaryError::Underflow));
    assert_eq!(
        sub_same_denom(5, 3, "ueur", "uusd"),
        Err(MonetaryError::DenomMismatch("uusd".to_string(), "ueur".to_string()))
    );
}

#[test]
fn branded_currencies_report_their_denomination() {
    assert_eq!(ueur().denom(), "ueur");
    assert_eq!(uusd().denom(), "uusd");
    let p = Precise::new(ueur(), 6);
    assert_eq!(p.map_unknown().unwrap().0, "ueur");
    assert_eq!(p.map_unknown().decimals(), 6);
    assert_eq!(Imprecise::new(uusd()).map_unknown(), Imprecise::new(monetary::currency::Unknown("uusd".to_string())));
}

#[test]
fn mixed_currency_coins_do_not_add() {
    // Same brand, different denominations: the sum is refused, naming both.
    let a = Coin::imprecise(&wire("ueur", 1), &ueur()).unwrap();
    let other: Eur = Branded::new("ueur2");
    let b = Coin::imprecise(&wire("ueur2", 1), &other).unwrap();
    assert_eq!(
        a.checked_add(b),
        Err(MonetaryError::DenomMismatch("ueur2".to_string(), "ueur".to_string()))
    );
    assert_eq!(
        a.checked_sub(b),
        Err(MonetaryError::DenomMismatch("ueur2".to_string(), "ueur".to_string()))
    );
}
