//! Inventory management: the stock ledger, its transfers between locations
//! and its reconciliation with external feeds.

pub mod laws;
pub mod ledger;
pub mod service;
