//! What holds of the library's operations, stated of what they are given and what they give.
pub mod batches;
pub mod chain;
pub mod clones;
pub mod collision;
pub mod counting;
pub mod delegation;
pub mod fetching;
pub mod gathering;
pub mod mirror;
pub mod pending;
pub mod programs;
pub mod projection;
pub mod rules;
pub mod stream;
pub mod texts;
pub mod updates;
