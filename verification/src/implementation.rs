//! The commerce services.

pub mod cart_system;
pub mod inventory_sync;
pub mod order_management;
pub mod product_catalog;
