//! Remitwise: verified core logic of the remittance, insurance, orchestration
//! and data-migration components.

pub mod codec;
pub mod common;
pub mod insurance;
pub mod ledger;
pub mod migration;
pub mod orchestrator;
pub mod remittance_split;
