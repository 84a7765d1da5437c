//! Accounting and orchestration core of an aggregator vault.
//!
//! A deposit in one base denomination is split over three reserve assets by
//! fixed allocation weights and a claim token is minted for it; a redemption
//! burns the claim, liquidates the proportional share of every reserve and
//! pays the proceeds out in a later, self-invoked step.
pub mod allocation;
pub mod contract;
pub mod error;
pub mod host;
pub mod laws;
pub mod math;
pub mod msg;
pub mod redemption;
pub mod state;
