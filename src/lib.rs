//! Currency-tagged monetary amounts: checked and saturating arithmetic on
//! amounts branded with their currency, a precision model that tracks whether
//! a currency's decimal places are known (`Precise`, `Imprecise`,
//! `Unverified`), exchange rates that convert between currencies and rescale
//! for their decimals, and coins checked against the chain's untyped form.

pub mod amount;
pub mod codec;
pub mod coin;
pub mod currency;
pub mod decimal;
pub mod denom;
pub mod error;
pub mod events;
pub mod exchange;
pub mod payment;
pub mod precision;
pub mod rate;
pub mod traits;
