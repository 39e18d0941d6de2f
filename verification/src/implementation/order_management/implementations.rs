//! The operations of order management.

pub mod order_impl;
pub mod service_impl;
