//! The product catalog: products, their SKUs, and the hierarchy of
//! categories.

pub mod service;
