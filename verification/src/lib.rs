//! Keeps a rollup's view of base-chain accounts: which accounts to fetch, clone, refresh,
//! subscribe to and let go, and what delegation records say about them.
pub mod account;
pub mod bytes;
pub mod chainlink;
pub mod cloner;
pub mod delegation_record;
pub mod filters;
pub mod laws;
pub mod lists;
pub mod lru_map;
pub mod pda;
pub mod program_ids;
pub mod pubkey;
pub mod sorting;
pub mod text;
