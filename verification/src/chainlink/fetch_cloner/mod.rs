//! Fetches accounts from the chain and clones them into the bank.
pub mod ata_projection;
pub mod batch;
pub mod batch_stages;
pub mod cancel;
pub mod clone_stages;
pub mod collision;
pub mod compression;
pub mod delegation;
pub mod fetching;
pub mod ownership;
pub mod pending;
pub mod pending_ops;
pub mod pipeline;
pub mod program_loader;
pub mod program_reload;
pub mod rules;
pub mod subscription;
pub mod types;
pub mod update_steps;
pub mod updates;
