//! The order service and the filter of its search.

use crate::implementation::order_management::types::basic_types::{
    FulfillmentStatus, OrderCustomerId, OrderId, OrderStatus, PaymentStatus,
};
use crate::implementation::order_management::types::main_order_types::{Order, OrderView};
use crate::keyed::Keyed;
use crate::views::{clone_vec, seq_view};
use vstd::prelude::*;

verus! {

/// The orders that a customer placed, oldest first.
#[derive(Debug)]
pub struct CustomerOrders {
    /// The customer.
    pub customer_id: OrderCustomerId,
    /// The identifiers of the orders.
    pub order_ids: Vec<OrderId>,
}

/// The model of a [`CustomerOrders`].
pub ghost struct CustomerOrdersView {
    pub customer_id: Seq<char>,
    pub order_ids: Seq<Seq<char>>,
}

impl View for CustomerOrders {
    type V = CustomerOrdersView;

    open spec fn view(&self) -> CustomerOrdersView {
        CustomerOrdersView {
            customer_id: self.customer_id@,
            order_ids: seq_view(self.order_ids@),
        }
    }
}

impl Clone for CustomerOrders {
    fn clone(&self) -> (r: Self)
        ensures
            r@ == self@,
    {
        CustomerOrders {
            customer_id: self.customer_id.clone(),
            order_ids: clone_vec(&self.order_ids),
        }
    }
}

impl Keyed for CustomerOrdersView {
    type Key = Seq<char>;

    open spec fn key(self) -> Seq<char> {
        self.customer_id
    }
}

/// Order management service.
#[derive(Debug)]
pub struct OrderService {
    /// The orders, at most one under an identifier.
    pub(crate) orders: Vec<Order>,
    /// The orders of every customer, at most one list for a customer.
    pub(crate) orders_by_customer: Vec<CustomerOrders>,
    /// The number of the next order.
    pub(crate) order_counter: u64,
}

/// Order search filter.
#[derive(Debug, Clone, Copy)]
pub struct OrderFilter {
    /// Filter by status.
    pub status: Option<OrderStatus>,
    /// Filter by payment status.
    pub payment_status: Option<PaymentStatus>,
    /// Filter by fulfillment status.
    pub fulfillment_status: Option<FulfillmentStatus>,
    /// Minimum total.
    pub min_total: Option<u64>,
    /// Maximum total.
    pub max_total: Option<u64>,
    /// Created after.
    pub created_from: Option<u64>,
    /// Created before.
    pub created_to: Option<u64>,
}

impl Default for OrderFilter {
    fn default() -> (r: Self)
        ensures
            r == (OrderFilter {
                status: None,
                payment_status: None,
                fulfillment_status: None,
                min_total: None,
                max_total: None,
                created_from: None,
                created_to: None,
            }),
    {
        OrderFilter {
            status: None,
            payment_status: None,
            fulfillment_status: None,
            min_total: None,
            max_total: None,
            created_from: None,
            created_to: None,
        }
    }
}

impl OrderFilter {
    /// Whether an order passes the filter: it has every status asked for,
    /// its grand total lies within the bounds, and so does the time of its
    /// creation.
    pub open spec fn admits(self, order: OrderView) -> bool {
        &&& self.status is Some ==> order.status == self.status->Some_0
        &&& self.payment_status is Some ==> order.payment_status == self.payment_status->Some_0
        &&& self.fulfillment_status is Some ==> order.fulfillment_status
            == self.fulfillment_status->Some_0
        &&& self.min_total is Some ==> order.totals.grand_total >= self.min_total->Some_0
        &&& self.max_total is Some ==> order.totals.grand_total <= self.max_total->Some_0
        &&& self.created_from is Some ==> order.created_at >= self.created_from->Some_0
        &&& self.created_to is Some ==> order.created_at <= self.created_to->Some_0
    }
}

} // verus!
