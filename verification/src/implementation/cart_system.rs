//! Shopping carts: identifiers, discounts, items, shipping, the cart itself
//! and the service that keeps the carts.

pub mod cart;
pub mod item;
pub mod service;
pub mod shipping;
pub mod types;

pub use cart::{Cart, CartTotals};
pub use item::CartItem;
pub use service::CartService;
pub use shipping::{ShippingAddress, ShippingMethod};
pub use types::{AppliedDiscount, CartId, CartStatus, CouponCode, CustomerId, DiscountType};
