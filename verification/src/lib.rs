//! Fee, reward and currency-routing logic of the peaq runtime, with contracts.
//!
//! - `reward`: the block rewards of a collator and of its delegators.
//! - `fee`: transaction fees with the Economy-of-Things adjustment, and their refunds.
//! - `payment`: the choice of the currency that a fee is paid in.
//! - `multi_currency`, `basic_currency`, `local_asset`, `lp`: currency operations routed
//!   between the native currency, the assets pallet and Zenlink.
//! - `per_thing`: the `sp_arithmetic` fractions that the rewards and fees use.
//! - `types`: the plain values shared by the modules.

pub mod basic_currency;
pub mod fee;
pub mod local_asset;
pub mod lp;
pub mod multi_currency;
pub mod payment;
pub mod per_thing;
pub mod reward;
pub mod types;
