//! Swap-settlement core of a non-custodial Liquid exchange wallet.
//!
//! The crate turns asynchronous status notifications from an external swap
//! counterparty into validated state transitions, a zero-confirmation claim
//! decision, and durable local swap records with set-once transaction ids.

pub mod error;
pub mod laws;
pub mod model;
pub mod notify;
pub mod persist;
pub mod receive_swap;
pub mod text;
pub mod tx;
