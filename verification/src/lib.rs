//! A contract for the Soroban host of the Stellar network: creators make payment links, and an
//! administrator credits yield to staked balances.
//!
//! `contract` holds the contract's functions. `model` says, as functions of what the host holds,
//! what each of them answers and changes, and `laws` what follows for the contract as a whole.
//! `host` is the boundary to the host itself. `types` holds the data.
pub mod contract;
pub mod host;
pub mod laws;
pub mod model;
pub mod types;

pub use contract::PayLinkContract;
pub use types::{DataKey, Error, PayLinkData, PAYLINK_TTL_BUFFER_LEDGERS};
