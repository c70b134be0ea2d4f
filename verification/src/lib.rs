//! Accounting core of an exchange vault: principals deposit a fungible base
//! asset into a shared pool and receive pool shares representing a
//! proportional claim, redeemable later for a proportional amount of the
//! asset.
//!
//! The crate holds the pure logic only: exact widened-precision
//! multiply-then-divide with an explicit rounding direction, the share
//! conversion engine with its virtual-liquidity offset, the bitmask
//! capability model that gates privileged mutation, the pool configuration
//! records, and the decision layer of each operation. Storage, token
//! movement, and event delivery belong to the surrounding ledger: every
//! function here takes plain values (amounts, identities, loaded records)
//! and returns the new records, the planned effects, and the notification
//! records for the caller to apply and emit.

pub mod access;
pub mod account;
pub mod errors;
pub mod factory;
pub mod identity;
pub mod math;
pub mod shares_math;
pub mod vault;
