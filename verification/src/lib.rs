//! Affiliate-fee wrapper around a token swap.
//!
//! A caller deposits a single token. A bounded percentage of the deposit is
//! sent to a fee collector, the remainder is handed to an external swap
//! engine, and once the engine reports back the proceeds are forwarded to the
//! caller. At most one swap is in flight at a time.

pub mod coin;
pub mod contract;
pub mod decimal;
pub mod error;
pub mod fee;
pub mod lifecycle;
pub mod msg;
pub mod payload;

pub use crate::coin::Coin;
pub use crate::decimal::Decimal;
pub use crate::error::{ContractError, PaymentError, RatioError};
