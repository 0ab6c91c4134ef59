use monetary::amount::AmountU128;
use monetary::decimal::Decimal;
use monetary::error::MonetaryError;
use monetary::precision::Precise;
use monetary::rate::Rate;

#[derive(Clone, Copy, Debug, Default, PartialEq, Eq)]
struct A;
#[derive(Clone, Copy, Debug, Default, PartialEq, Eq)]
struct B;
#[derive(Clone, Copy, Debug, Default, PartialEq, Eq)]
struct Usd;

#[test]
fn mod_do_something() {
    let precise_a = Precise::new(A, 6);
    let precise_b = Precise::new(B, 6);

    let amount = AmountU128::<A>::new(1_000_000u128);
    let rate = Rate::<A, B>::new(Decimal::percent(50)).unwrap();
    let out = rate.reverse_floor(&AmountU128::new(amount.u128())).unwrap();
    let rev = rate.forward_floor(&AmountU128::new(out.u128())).unwrap();
    assert_eq!(amount.u128(), rev.u128());

    let amount = AmountU128::<A>::new(1_000_000u128);
    let rate = Rate::new_precise(Decimal::percent(50), &precise_a, &precise_b).unwrap();
    let out = rate.reverse_floor(&AmountU128::new(amount.u128())).unwrap();
    let rev = rate.forward_floor(&AmountU128::new(out.u128())).unwrap();
    assert_eq!(amount.u128(), rev.u128());
}

fn oracle_rate_a() -> Rate<A, Usd> {
    Rate::new(Decimal::percent(200)).unwrap()
}

fn oracle_rate_b() -> Rate<B, Usd> {
    Rate::new(Decimal::percent(70)).unwrap()
}

#[test]
fn type_checked_currency() {
    let amount_a = AmountU128::<A>::new(1_000_000u128);
    let a_rate = oracle_rate_a(); // A = $2
    let b_rate = oracle_rate_b(); // B = $0.7

    // Rate from A to B: A to USD, then USD to B.
    let rate_a_to_b = a_rate.checked_mul(b_rate.inv()).unwrap();

    let amount_b = rate_a_to_b.forward_floor(&amount_a).unwrap();
    let expected = AmountU128::<B>::new(1_000_000u128)
        .dec_mul_floor(Decimal::checked_from_ratio(200, 70).unwrap())
        .unwrap();
    assert_eq!(amount_b, expected);
    assert_eq!(amount_b.u128(), 2_857_142);
}

#[test]
fn zero_rate_is_rejected() {
    assert!(Rate::<A, B>::new(Decimal::zero()).is_none());
    assert!(Rate::<A, B>::new(Decimal::raw(0)).is_none());
    assert!(Rate::<A, B>::new(Decimal::raw(1)).is_some());
}

#[test]
fn inverse_of_inverse() {
    for r in [Decimal::percent(50), Decimal::percent(70), Decimal::one(), Decimal::raw(7)] {
        let rate = Rate::<A, B>::new(r).unwrap();
        assert_eq!(rate.inv().inv(), rate);
    }
    let half = Rate::<A, B>::new(Decimal::percent(50)).unwrap();
    assert_eq!(half.inv().rate(), Decimal::percent(200));
    // A ratio of 3 has no exact inverse in 18 places, so it does not come back.
    let three = Rate::<A, B>::new(Decimal::percent(300)).unwrap();
    assert_eq!(three.inv().inv().rate(), Decimal::raw(3_000_000_000_000_000_003));
}

#[test]
fn composition_matches_chained_conversion() {
    let r1 = Rate::<A, B>::new(Decimal::percent(150)).unwrap();
    let r2 = Rate::<B, Usd>::new(Decimal::percent(40)).unwrap();
    let r = r1.checked_mul(r2).unwrap();
    assert_eq!(r.rate(), Decimal::percent(60));
    let x = AmountU128::<A>::new(1_000_001);
    let composed = r.forward_floor(&x).unwrap();
    let chained = r2.forward_floor(&AmountU128::new(r1.forward_floor(&x).unwrap().u128())).unwrap();
    assert_eq!(composed.u128(), 600_000);
    assert_eq!(chained.u128(), 600_000);

    let tiny = Rate::<B, Usd>::new(Decimal::raw(1)).unwrap();
    let small = Rate::<A, B>::new(Decimal::raw(1)).unwrap();
    assert!(small.checked_mul(tiny).is_none());
}

#[test]
fn rate_division_cancels_shared_currency() {
    let a_usd = Rate::<A, Usd>::new(Decimal::percent(200)).unwrap();
    let b_usd = Rate::<B, Usd>::new(Decimal::percent(50)).unwrap();
    let a_b = a_usd.checked_div(b_usd).unwrap();
    assert_eq!(a_b.rate(), Decimal::percent(400));
}

#[test]
fn round_trip_bounds() {
    let rate = Rate::<A, B>::new(Decimal::percent(30)).unwrap();
    for v in [0u128, 1, 2, 3, 7, 10, 999, 1_000_000] {
        let x = AmountU128::<A>::new(v);
        let down = rate.reverse_floor(&rate.forward_floor(&x).unwrap()).unwrap();
        let up = rate.reverse_floor(&rate.forward_ceil(&x).unwrap()).unwrap();
        assert!(down.u128() <= v);
        assert!(v <= up.u128());
        // short by less than 1 + 1/0.3 units
        assert!(v - down.u128() < 5);
    }
    let x = AmountU128::<A>::new(10);
    assert_eq!(rate.forward_floor(&x).unwrap().u128(), 3);
    assert_eq!(rate.forward_ceil(&x).unwrap().u128(), 3);
    assert_eq!(rate.reverse_ceil(&AmountU128::new(1)).unwrap().u128(), 4);
}

#[test]
fn rate_decimal_adjustments() {
    let rate = Rate::<A, B>::new(Decimal::percent(50)).unwrap();
    assert_eq!(rate.add_decimal(Decimal::percent(25)).unwrap().rate(), Decimal::percent(75));
    assert_eq!(rate.sub_decimal(Decimal::percent(25)).unwrap().rate(), Decimal::percent(25));
    assert_eq!(rate.sub_decimal(Decimal::percent(50)), Err(MonetaryError::Underflow));
    assert_eq!(rate.add_decimal(Decimal::raw(u128::MAX)), Err(MonetaryError::Overflow));
    assert_eq!(Rate::<A, B>::new_unchecked(Decimal::one()).rate(), Decimal::one());
}
