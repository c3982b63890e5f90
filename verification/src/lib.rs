//! A time-vested escrow ledger.
//!
//! A payer deposits funds that vest linearly over a fixed number of
//! one-second periods. The crate holds the vesting arithmetic, the ledger of
//! deposits per account, and the service operations on top of them. Every
//! operation takes the caller, the clock reading and the attached amount as
//! plain values and hands back plain values, so the host that supplies them
//! stays outside.

pub mod account;
pub mod deposit;
pub mod error;
pub mod laws;
pub mod ledger;
pub mod subscription;
pub mod vesting;

pub use crate::deposit::Deposit;
pub use crate::error::Error;
pub use crate::ledger::Ledger;
pub use crate::subscription::{Subscription, Transfer};
