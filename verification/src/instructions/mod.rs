//! The operations of the ledger.

pub mod complete_quest;
pub mod create_event;
pub mod create_quest;
pub mod evolve;
pub mod grant_xp;
pub mod initialize_pass;
pub mod manage_pulse;
