use monetary::amount::AmountU128;
use monetary::codec::{format_u128, parse_u128};
use monetary::decimal::Decimal;
use monetary::error::MonetaryError;

#[derive(Clone, Copy, Debug, PartialEq, Eq)]
struct Denom;

#[test]
fn amount_serialization() {
    let a = AmountU128::<Denom>::new(12345u128);
    let serialized = a.to_decimal_string();
    assert_eq!(serialized, "12345");

    let b = AmountU128::<Denom>::from_decimal_string(&serialized).unwrap();
    assert_eq!(a, b);
}

#[test]
fn amount_round_trip_edges() {
    for v in [0u128, 1, 9, 10, 99, 100, 1_000_000, u128::MAX] {
        let a = AmountU128::<Denom>::new(v);
        let s = a.to_decimal_string();
        assert_eq!(s, v.to_string());
        assert_eq!(AmountU128::<Denom>::from_decimal_string(&s), Some(a));
    }
}

#[test]
fn amount_parse_rejects() {
    assert_eq!(parse_u128(""), None);
    assert_eq!(parse_u128("12a"), None);
    assert_eq!(parse_u128("-1"), None);
    assert_eq!(parse_u128("1.5"), None);
    assert_eq!(parse_u128("340282366920938463463374607431768211456"), None);
    assert_eq!(parse_u128("340282366920938463463374607431768211455"), Some(u128::MAX));
    assert_eq!(parse_u128("007"), Some(7));
    assert_eq!(parse_u128("+12"), Some(12));
    assert_eq!(parse_u128("+"), None);
    assert_eq!(parse_u128("++1"), None);
    assert_eq!(parse_u128("1+"), None);
    assert_eq!(format_u128(0), "0");
}

#[test]
fn saturating_add_clamps_at_max() {
    let max = AmountU128::<Denom>::new(u128::MAX);
    assert_eq!(max.saturating_add(AmountU128::new(1)), AmountU128::new(u128::MAX));
    assert_eq!(AmountU128::<Denom>::new(2).saturating_add(AmountU128::new(3)), AmountU128::new(5));
}

#[test]
fn saturating_sub_and_mul() {
    let a = AmountU128::<Denom>::new(3);
    let b = AmountU128::<Denom>::new(5);
    assert_eq!(a.saturating_sub(b), AmountU128::zero());
    assert_eq!(b.saturating_sub(a), AmountU128::new(2));
    assert_eq!(AmountU128::<Denom>::new(u128::MAX).saturating_mul(b), AmountU128::new(u128::MAX));
    assert_eq!(a.saturating_mul(b), AmountU128::new(15));
}

#[test]
fn checked_arithmetic() {
    let a = AmountU128::<Denom>::new(10);
    let b = AmountU128::<Denom>::new(4);
    assert_eq!(a.checked_add(b), Ok(AmountU128::new(14)));
    assert_eq!(a.checked_sub(b), Ok(AmountU128::new(6)));
    assert_eq!(b.checked_sub(a), Err(MonetaryError::Underflow));
    assert_eq!(a.checked_mul(b), Ok(AmountU128::new(40)));
    assert_eq!(a.checked_div(b), Ok(AmountU128::new(2)));
    assert_eq!(a.checked_div(AmountU128::zero()), Err(MonetaryError::DivideByZero));
    let max = AmountU128::<Denom>::new(u128::MAX);
    assert_eq!(max.checked_add(AmountU128::new(1)), Err(MonetaryError::Overflow));
    assert_eq!(max.checked_mul(b), Err(MonetaryError::Overflow));
}

#[test]
fn abs_diff_and_zero() {
    let a = AmountU128::<Denom>::new(10);
    let b = AmountU128::<Denom>::new(4);
    assert_eq!(a.abs_diff(b), AmountU128::new(6));
    assert_eq!(b.abs_diff(a), AmountU128::new(6));
    assert!(AmountU128::<Denom>::zero().is_zero());
    assert!(!a.is_zero());
    assert_eq!(a.u128(), 10);
}

#[test]
fn decimal_multiplication_rounds() {
    let a = AmountU128::<Denom>::new(5);
    let ratio = Decimal::percent(99);
    assert_eq!(a.dec_mul_floor(ratio), Ok(AmountU128::new(4)));
    assert_eq!(a.dec_mul_ceil(ratio), Ok(AmountU128::new(5)));
    assert_eq!(a.dec_div_floor(Decimal::percent(50)), Ok(AmountU128::new(10)));
    assert_eq!(AmountU128::<Denom>::new(10).dec_div_floor(Decimal::percent(300)), Ok(AmountU128::new(3)));
    assert_eq!(AmountU128::<Denom>::new(10).dec_div_ceil(Decimal::percent(300)), Ok(AmountU128::new(4)));
    assert_eq!(a.dec_div_floor(Decimal::zero()), Err(MonetaryError::DivideByZero));
    assert_eq!(a.dec_div_ceil(Decimal::zero()), Err(MonetaryError::DivideByZero));
    let max = AmountU128::<Denom>::new(u128::MAX);
    assert_eq!(max.dec_mul_floor(Decimal::percent(200)), Err(MonetaryError::Overflow));
    assert_eq!(max.dec_div_floor(Decimal::percent(50)), Err(MonetaryError::Overflow));
    assert_eq!(max.dec_mul_floor(Decimal::percent(50)), Ok(AmountU128::new(u128::MAX / 2)));
}

#[test]
fn ordering_follows_magnitude() {
    let a = AmountU128::<Denom>::new(3);
    let b = AmountU128::<Denom>::new(5);
    assert!(a < b);
    assert!(b > a);
    assert!(a <= AmountU128::new(3));
    assert_eq!(a.partial_cmp(&b), Some(std::cmp::Ordering::Less));
    assert_eq!(AmountU128::<Denom>::default(), AmountU128::zero());
}
