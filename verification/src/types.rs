//! Data types shared by the commerce services.

pub mod inventory_sync;
pub mod product_catalog;
