//! A commerce back end with its rules stated and proved: the stock ledger
//! with its reservations, transfers and reconciliation, the product catalog,
//! carts and orders, and a marketplace with search, escrow and delivery.
//!
//! Every service is a plain value that is changed through `&mut`; whoever
//! shares one between threads puts it behind a lock. Amounts are integers in
//! the smallest unit of their currency. Clock readings are taken where
//! records are stamped, and nothing is claimed of them.

pub mod clock;
pub mod errors;
pub mod implementation;
pub mod keyed;
pub mod marketplace;
pub mod ordering;
pub mod quantity;
pub mod recency;
pub mod text;
pub mod types;
pub mod views;
