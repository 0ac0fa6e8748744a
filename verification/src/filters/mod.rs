//! Transactions that are not worth running.
pub mod noop_system_transfer;
