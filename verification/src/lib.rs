//! Dynamic DNS reconciliation for a Cloudflare zone.
//!
//! The library decides; the program around it performs the network calls
//! and hands back what they returned. Every decision carries a contract.

pub mod text;
pub mod config;
pub mod platform;
pub mod provider;
pub mod resolver;
pub mod reconcile;
pub mod laws;
pub mod report;
pub mod scheduler;
