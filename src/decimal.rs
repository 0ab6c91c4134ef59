use vstd::prelude::*;

verus! {

/// Atomic units in one whole: a `Decimal` holds its value times this factor.
pub const DECIMAL_FRACTIONAL: u128 = 1_000_000_000_000_000_000;

/// The value of one whole in atomic units.
pub open spec fn fractional() -> int {
    1_000_000_000_000_000_000
}

/// `x * a / 10^18`, rounded down: an amount scaled by a ratio of `a` atomics.
pub open spec fn mul_floor_spec(x: int, a: int) -> int {
    x * a / fractional()
}

/// `x * a / 10^18`, rounded up.
pub open spec fn mul_ceil_spec(x: int, a: int) -> int {
    (x * a + fractional() - 1) / fractional()
}

/// `x * 10^18 / a`, rounded down: an amount divided by a ratio of `a` atomics.
pub open spec fn div_floor_spec(x: int, a: int) -> int {
    x * fractional() / a
}

/// `x * 10^18 / a`, rounded up.
pub open spec fn div_ceil_spec(x: int, a: int) -> int {
    (x * fractional() + a - 1) / a
}

/// The atomics of `1 / a`: `10^36 / a`, rounded down.
pub open spec fn inv_spec(a: int) -> int {
    fractional() * fractional() / a
}

/// `Some(v)` where `v` fits in a `u128`, else `None`.
pub open spec fn fit(v: int) -> Option<u128> {
    if 0 <= v <= u128::MAX {
        Some(v as u128)
    } else {
        None
    }
}

/// A fixed-point fraction with 18 decimal places, held as its atomic units.
#[derive(Clone, Copy, Debug, PartialEq, Eq, Structural)]
pub struct Decimal {
    atomics: u128,
}

impl View for Decimal {
    type V = u128;

    closed spec fn view(&self) -> u128 {
        self.atomics
    }
}

impl Decimal {
    /// The decimal whose atomic units are `value` (`value / 10^18`).
    pub fn raw(value: u128) -> (r: Decimal)
        ensures
            r@ == value,
    {
        Decimal { atomics: value }
    }

    pub fn zero() -> (r: Decimal)
        ensures
            r@ == 0,
    {
        Decimal { atomics: 0 }
    }

    pub fn one() -> (r: Decimal)
        ensures
            r@ == fractional(),
    {
        Decimal { atomics: DECIMAL_FRACTIONAL }
    }

    /// `x / 100`.
    pub fn percent(x: u64) -> (r: Decimal)
        ensures
            r@ == x * 10_000_000_000_000_000,
    {
        Decimal { atomics: x as u128 * 10_000_000_000_000_000 }
    }

    /// `x / 1000`.
    pub fn permille(x: u64) -> (r: Decimal)
        ensures
            r@ == x * 1_000_000_000_000_000,
    {
        Decimal { atomics: x as u128 * 1_000_000_000_000_000 }
    }

    /// `numerator / denominator`, rounded down to 18 places; `None` when the
    /// denominator is zero or the quotient does not fit.
    pub fn checked_from_ratio(numerator: u128, denominator: u128) -> (r: Option<Decimal>)
        ensures
            r is Some <==> denominator != 0 && numerator as int * fractional() / denominator as int
                <= u128::MAX,
            r matches Some(d) ==> d@ == numerator as int * fractional() / denominator as int,
    {
        if denominator == 0 {
            return None;
        }
        match ratio_raw(numerator, denominator) {
            Some(v) => Some(Decimal { atomics: v }),
            None => None,
        }
    }

    pub fn atomics(&self) -> (r: u128)
        ensures
            r == self@,
    {
        self.atomics
    }

    pub fn is_zero(&self) -> (r: bool)
        ensures
            r == (self@ == 0),
    {
        self.atomics == 0
    }
}

/// Relies on cosmwasm_std::Decimal::checked_from_ratio: `n * 10^18 / d` rounded
/// down, or an error when `d` is zero or the result exceeds `u128`.
#[verifier::external_body]
fn ratio_raw(n: u128, d: u128) -> (r: Option<u128>)
    requires
        d != 0,
    ensures
        r == fit(n as int * fractional() / d as int),
{
    match cosmwasm_std::Decimal::checked_from_ratio(n, d) {
        Ok(v) => Some(v.atomics().u128()),
        Err(_) => None,
    }
}


/// Relies on cosmwasm_std::Uint128::checked_mul_floor: `x * a / 10^18` rounded
/// down, or an error when that exceeds `u128`.
#[verifier::external_body]
pub(crate) fn mul_floor_raw(x: u128, a: u128) -> (r: Option<u128>)
    ensures
        r == fit(mul_floor_spec(x as int, a as int)),
{
    match cosmwasm_std::Uint128::new(x).checked_mul_floor(cosmwasm_std::Decimal::raw(a)) {
        Ok(v) => Some(v.u128()),
        Err(_) => None,
    }
}

/// Relies on cosmwasm_std::Uint128::checked_mul_ceil: `x * a / 10^18` rounded
/// up, or an error when that exceeds `u128`.
#[verifier::external_body]
pub(crate) fn mul_ceil_raw(x: u128, a: u128) -> (r: Option<u128>)
    ensures
        r == fit(mul_ceil_spec(x as int, a as int)),
{
    match cosmwasm_std::Uint128::new(x).checked_mul_ceil(cosmwasm_std::Decimal::raw(a)) {
        Ok(v) => Some(v.u128()),
        Err(_) => None,
    }
}

/// Relies on cosmwasm_std::Uint128::checked_div_floor: `x * 10^18 / a` rounded
/// down, or an error when that exceeds `u128`.
#[verifier::external_body]
pub(crate) fn div_floor_raw(x: u128, a: u128) -> (r: Option<u128>)
    requires
        a != 0,
    ensures
        r == fit(div_floor_spec(x as int, a as int)),
{
    match cosmwasm_std::Uint128::new(x).checked_div_floor(cosmwasm_std::Decimal::raw(a)) {
        Ok(v) => Some(v.u128()),
        Err(_) => None,
    }
}

/// Relies on cosmwasm_std::Uint128::checked_div_ceil: `x * 10^18 / a` rounded
/// up, or an error when that exceeds `u128`.
#[verifier::external_body]
pub(crate) fn div_ceil_raw(x: u128, a: u128) -> (r: Option<u128>)
    requires
        a != 0,
    ensures
        r == fit(div_ceil_spec(x as int, a as int)),
{
    match cosmwasm_std::Uint128::new(x).checked_div_ceil(cosmwasm_std::Decimal::raw(a)) {
        Ok(v) => Some(v.u128()),
        Err(_) => None,
    }
}

/// Relies on cosmwasm_std::Decimal::checked_mul: the product of two decimals,
/// `a * b / 10^18` in atomics rounded down, or an error when that exceeds `u128`.
#[verifier::external_body]
pub(crate) fn dec_mul_raw(a: u128, b: u128) -> (r: Option<u128>)
    ensures
        r == fit(mul_floor_spec(a as int, b as int)),
{
    match cosmwasm_std::Decimal::raw(a).checked_mul(cosmwasm_std::Decimal::raw(b)) {
        Ok(v) => Some(v.atomics().u128()),
        Err(_) => None,
    }
}

/// Relies on cosmwasm_std::Fraction::inv for Decimal: `10^36 / a` in atomics,
/// rounded down, for a non-zero `a`.
#[verifier::external_body]
pub(crate) fn dec_inv_raw(a: u128) -> (r: u128)
    requires
        a != 0,
    ensures
        r == inv_spec(a as int),
{
    match cosmwasm_std::Fraction::inv(&cosmwasm_std::Decimal::raw(a)) {
        Some(v) => v.atomics().u128(),
        None => 0,
    }
}

/// `10^n`.
pub open spec fn pow10(n: nat) -> int
    decreases n,
{
    if n == 0 {
        1
    } else {
        10 * pow10((n - 1) as nat)
    }
}

/// `x` moved from `from` decimal places to `to` decimal places: divided by
/// `10^(from - to)` (rounded down) when `from` has more, multiplied by
/// `10^(to - from)` when `to` has more.
pub open spec fn rescale_spec(x: int, from: int, to: int) -> int {
    if from >= to {
        x / pow10((from - to) as nat)
    } else {
        x * pow10((to - from) as nat)
    }
}

/// `10^n` is positive and grows with `n`.
pub proof fn lemma_pow10_monotone(m: nat, n: nat)
    requires
        m <= n,
    ensures
        0 < pow10(m) <= pow10(n),
    decreases n,
{
    if n > m {
        lemma_pow10_monotone(m, (n - 1) as nat);
    } else if n > 0 {
        lemma_pow10_monotone(0, (n - 1) as nat);
    }
}

/// Moves `x` from `from` to `to` decimal places; `None` when the result
/// exceeds `u128::MAX`.
pub fn rescale(x: u128, from: u8, to: u8) -> (r: Option<u128>)
    ensures
        r == fit(rescale_spec(x as int, from as int, to as int)),
{
    let mut v: u128 = x;
    let mut i: u8 = 0;
    if from >= to {
        let n: u8 = from - to;
        while i < n
            invariant
                i <= n,
                n == from - to,
                v as int == x as int / pow10(i as nat),
            decreases n - i,
        {
            proof {
                lemma_pow10_monotone(0, i as nat);
                vstd::arithmetic::div_mod::lemma_div_denominator(x as int, pow10(i as nat), 10);
                assert(pow10((i + 1) as nat) == pow10(i as nat) * 10);
            }
            v = v / 10;
            i = i + 1;
        }
        proof {
            lemma_pow10_monotone(0, n as nat);
            assert(v as int >= 0);
        }
        Some(v)
    } else {
        let n: u8 = to - from;
        while i < n
            invariant
                i <= n,
                n == to - from,
                v as int == x as int * pow10(i as nat),
            decreases n - i,
        {
            proof {
                assert(pow10((i + 1) as nat) == 10 * pow10(i as nat));
                assert(x as int * pow10((i + 1) as nat) == (x as int * pow10(i as nat)) * 10)
                    by (nonlinear_arith)
                    requires
                        pow10((i + 1) as nat) == 10 * pow10(i as nat),
                ;
            }
            match v.checked_mul(10) {
                Some(w) => {
                    v = w;
                },
                None => {
                    proof {
                        lemma_pow10_monotone((i + 1) as nat, n as nat);
                        assert(x as int * pow10((i + 1) as nat) <= x as int * pow10(n as nat))
                            by (nonlinear_arith)
                            requires
                                pow10((i + 1) as nat) <= pow10(n as nat),
                                x >= 0,
                        ;
                    }
                    return None;
                },
            }
            i = i + 1;
        }
        proof {
            lemma_pow10_monotone(0, n as nat);
        }
        Some(v)
    }
}

} // verus!
