//! Order management: orders, their payments, shipments and history, and
//! the service that keeps them.

pub mod implementations;
pub mod types;

pub use types::basic_types::{
    FulfillmentStatus, OrderCustomerId, OrderId, OrderStatus, PaymentStatus,
};
pub use types::main_order_types::{Order, OrderSource, OrderTotals};
pub use types::order_types::{
    OrderEventType, OrderHistoryEvent, OrderLineItem, OrderNote, PaymentMethod, PaymentTransaction,
    Shipment, ShipmentItem, ShipmentStatus, TransactionStatus, TransactionType,
};
pub use types::service_types::{OrderFilter, OrderService};
