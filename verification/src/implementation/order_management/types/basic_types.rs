//! Order identifiers and statuses.

use crate::clock::unix_nanos;
use crate::implementation::cart_system::types::CustomerId;
use crate::text::{decimal, joined, wide_decimal_string};
use vstd::prelude::*;

verus! {

/// Unique order identifier.
#[derive(Debug, Hash)]
pub struct OrderId(pub String);

impl View for OrderId {
    type V = Seq<char>;

    open spec fn view(&self) -> Seq<char> {
        self.0@
    }
}

impl Clone for OrderId {
    fn clone(&self) -> (r: Self)
        ensures
            r@ == self@,
    {
        OrderId(self.0.clone())
    }
}

impl PartialEq for OrderId {
    fn eq(&self, other: &Self) -> (r: bool) {
        self.0 == other.0
    }
}

impl Eq for OrderId {}

impl vstd::std_specs::cmp::PartialEqSpecImpl for OrderId {
    open spec fn obeys_eq_spec() -> bool {
        true
    }

    open spec fn eq_spec(&self, other: &Self) -> bool {
        self@ == other@
    }
}

impl OrderId {
    /// Creates a new order ID.
    pub fn new(id: &str) -> (r: Self)
        ensures
            r@ == id@,
    {
        OrderId(id.to_owned())
    }

    /// Generates a new order ID from the clock: `ORD-` and the number of
    /// nanoseconds since the Unix epoch.
    pub fn generate() -> (r: Self)
        ensures
            exists|nanos: nat| r@ == "ORD-"@ + decimal(nanos),
    {
        let timestamp = unix_nanos();
        let digits = wide_decimal_string(timestamp);
        let id = joined("ORD-", digits.as_str());
        assert(id@ == "ORD-"@ + decimal(timestamp as nat));
        OrderId(id)
    }
}

/// Customer identifier for orders.
#[derive(Debug, Hash)]
pub struct OrderCustomerId(pub String);

impl View for OrderCustomerId {
    type V = Seq<char>;

    open spec fn view(&self) -> Seq<char> {
        self.0@
    }
}

impl Clone for OrderCustomerId {
    fn clone(&self) -> (r: Self)
        ensures
            r@ == self@,
    {
        OrderCustomerId(self.0.clone())
    }
}

impl PartialEq for OrderCustomerId {
    fn eq(&self, other: &Self) -> (r: bool) {
        self.0 == other.0
    }
}

impl Eq for OrderCustomerId {}

impl vstd::std_specs::cmp::PartialEqSpecImpl for OrderCustomerId {
    open spec fn obeys_eq_spec() -> bool {
        true
    }

    open spec fn eq_spec(&self, other: &Self) -> bool {
        self@ == other@
    }
}

impl OrderCustomerId {
    /// Creates a new customer ID.
    pub fn new(id: &str) -> (r: Self)
        ensures
            r@ == id@,
    {
        OrderCustomerId(id.to_owned())
    }
}

impl From<String> for OrderCustomerId {
    fn from(s: String) -> (r: Self) {
        OrderCustomerId(s)
    }
}

impl vstd::std_specs::convert::FromSpecImpl<String> for OrderCustomerId {
    open spec fn obeys_from_spec() -> bool {
        true
    }

    open spec fn from_spec(s: String) -> Self {
        OrderCustomerId(s)
    }
}

impl From<CustomerId> for OrderCustomerId {
    fn from(customer_id: CustomerId) -> (r: Self) {
        OrderCustomerId(customer_id.0)
    }
}

impl vstd::std_specs::convert::FromSpecImpl<CustomerId> for OrderCustomerId {
    open spec fn obeys_from_spec() -> bool {
        true
    }

    open spec fn from_spec(customer_id: CustomerId) -> Self {
        OrderCustomerId(customer_id.0)
    }
}

/// Order status.
#[derive(Debug, Clone, Copy, PartialEq, Eq, Structural)]
pub enum OrderStatus {
    /// Order is pending payment.
    PendingPayment,
    /// Payment received, processing.
    Processing,
    /// Order is on hold.
    OnHold,
    /// Order has been shipped.
    Shipped,
    /// Order has been delivered.
    Delivered,
    /// Order is complete.
    Completed,
    /// Order was cancelled.
    Cancelled,
    /// Order was refunded.
    Refunded,
    /// Order failed.
    Failed,
    /// Order is partially refunded.
    PartiallyRefunded,
}

impl Default for OrderStatus {
    fn default() -> (r: Self)
        ensures
            r == OrderStatus::PendingPayment,
    {
        OrderStatus::PendingPayment
    }
}

impl OrderStatus {
    /// Whether an order in this status can be cancelled.
    pub open spec fn cancellable(self) -> bool {
        self == OrderStatus::PendingPayment || self == OrderStatus::Processing || self
            == OrderStatus::OnHold
    }

    /// Whether an order in this status can be refunded.
    pub open spec fn refundable(self) -> bool {
        self == OrderStatus::Processing || self == OrderStatus::Shipped || self
            == OrderStatus::Delivered || self == OrderStatus::Completed
    }

    /// The name shown for the status.
    pub open spec fn name(self) -> Seq<char> {
        match self {
            OrderStatus::PendingPayment => "Pending Payment"@,
            OrderStatus::Processing => "Processing"@,
            OrderStatus::OnHold => "On Hold"@,
            OrderStatus::Shipped => "Shipped"@,
            OrderStatus::Delivered => "Delivered"@,
            OrderStatus::Completed => "Completed"@,
            OrderStatus::Cancelled => "Cancelled"@,
            OrderStatus::Refunded => "Refunded"@,
            OrderStatus::Failed => "Failed"@,
            OrderStatus::PartiallyRefunded => "Partially Refunded"@,
        }
    }

    /// Whether the order can be cancelled.
    pub fn is_cancellable(&self) -> (r: bool)
        ensures
            r == self.cancellable(),
    {
        match self {
            OrderStatus::PendingPayment => true,
            OrderStatus::Processing => true,
            OrderStatus::OnHold => true,
            _ => false,
        }
    }

    /// Whether the order can be refunded.
    pub fn is_refundable(&self) -> (r: bool)
        ensures
            r == self.refundable(),
    {
        match self {
            OrderStatus::Processing => true,
            OrderStatus::Shipped => true,
            OrderStatus::Delivered => true,
            OrderStatus::Completed => true,
            _ => false,
        }
    }

    /// Whether the order is in a final state.
    pub fn is_final(&self) -> (r: bool)
        ensures
            r == (*self == OrderStatus::Completed || *self == OrderStatus::Cancelled || *self
                == OrderStatus::Refunded || *self == OrderStatus::Failed),
    {
        match self {
            OrderStatus::Completed => true,
            OrderStatus::Cancelled => true,
            OrderStatus::Refunded => true,
            OrderStatus::Failed => true,
            _ => false,
        }
    }

    /// Human-readable status name.
    pub fn display_name(&self) -> (r: &'static str)
        ensures
            r@ == self.name(),
    {
        match self {
            OrderStatus::PendingPayment => "Pending Payment",
            OrderStatus::Processing => "Processing",
            OrderStatus::OnHold => "On Hold",
            OrderStatus::Shipped => "Shipped",
            OrderStatus::Delivered => "Delivered",
            OrderStatus::Completed => "Completed",
            OrderStatus::Cancelled => "Cancelled",
            OrderStatus::Refunded => "Refunded",
            OrderStatus::Failed => "Failed",
            OrderStatus::PartiallyRefunded => "Partially Refunded",
        }
    }
}

/// Payment status.
#[derive(Debug, Clone, Copy, PartialEq, Eq, Structural)]
pub enum PaymentStatus {
    /// Payment is pending.
    Pending,
    /// Payment is authorized (not captured).
    Authorized,
    /// Payment is captured/completed.
    Captured,
    /// Payment is partially refunded.
    PartiallyRefunded,
    /// Payment is fully refunded.
    Refunded,
    /// Payment failed.
    Failed,
    /// Payment was cancelled/voided.
    Cancelled,
}

impl Default for PaymentStatus {
    fn default() -> (r: Self)
        ensures
            r == PaymentStatus::Pending,
    {
        PaymentStatus::Pending
    }
}

/// Fulfillment status.
#[derive(Debug, Clone, Copy, PartialEq, Eq, Structural)]
pub enum FulfillmentStatus {
    /// Not yet fulfilled.
    Unfulfilled,
    /// Partially fulfilled.
    PartiallyFulfilled,
    /// Fully fulfilled.
    Fulfilled,
    /// Returned.
    Returned,
}

impl Default for FulfillmentStatus {
    fn default() -> (r: Self)
        ensures
            r == FulfillmentStatus::Unfulfilled,
    {
        FulfillmentStatus::Unfulfilled
    }
}

} // verus!
