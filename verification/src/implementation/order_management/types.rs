//! The types of order management.

pub mod basic_types;
pub mod main_order_types;
pub mod order_types;
pub mod service_types;
