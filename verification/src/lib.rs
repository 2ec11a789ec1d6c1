//! An escrow engine for wagers between the holders of two tokens.
//!
//! The holder of a token stakes an amount on a currency and names the
//! currencies that it accepts on the other side. The offer is paired with the
//! first pending offer that it is compatible with, or waits in the registry.
//! A pair of offers is a wager; once it has run out it is settled against the
//! movement of the two prices, and the pool is split into fee, burn and payout.
//!
//! The engine decides and computes; it does not store, look up or send. Its
//! state is a value, [`store::Store`]. The host hands each call the time, the
//! message, and what its collaborators answered (who owns a token, whether
//! an address is valid), and carries out the movements of value that the
//! call hands back.
//!
//! - [`state`], [`msg`], [`response`], [`error`]: the data.
//! - [`order`]: the order in which tokens are kept and scanned.
//! - [`model`]: the state and the operations as mathematics.
//! - [`store`]: the state in memory, well formed by construction.
//! - [`execute`], [`config`], [`contract`]: the operations.
//! - [`laws`]: what holds of the operations together.
//! - [`host`]: the calls into the crates the engine is hosted with.
//!
//! The winner of a wager is always computed from the prices that the
//! administrator reports. No caller can name a winner.

pub mod config;
pub mod contract;
pub mod error;
pub mod execute;
pub mod helpers;
pub mod host;
pub mod laws;
pub mod model;
pub mod msg;
pub mod order;
pub mod response;
pub mod state;
pub mod store;

pub use crate::error::ContractError;
