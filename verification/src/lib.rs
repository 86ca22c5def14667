//! Progression ledger for a collectible "Soul": experience points, quest
//! completions granted at most once, and a stage that only ever rises.

pub mod authority;
pub mod error;
pub mod history;
pub mod instructions;
pub mod keys;
pub mod mirror;
pub mod oracle;
pub mod stage;
pub mod state;
pub mod store;
