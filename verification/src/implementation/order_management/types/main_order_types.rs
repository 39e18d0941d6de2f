//! The order itself and its totals.

use crate::implementation::cart_system::cart::{CartTotals, CartTotalsView};
use crate::implementation::cart_system::shipping::{
    ShippingAddress, ShippingAddressView, ShippingMethod, ShippingMethodView,
};
use crate::implementation::order_management::types::basic_types::{
    FulfillmentStatus, OrderCustomerId, OrderId, OrderStatus, PaymentStatus,
};
use crate::implementation::order_management::types::order_types::{
    OrderHistoryEvent, OrderHistoryEventView, OrderLineItem, OrderLineItemView, OrderNote,
    OrderNoteView, PaymentTransaction, PaymentTransactionView, Shipment, ShipmentView,
};
use crate::keyed::Keyed;
use crate::recency::Dated;
use crate::types::product_catalog::Currency;
use crate::views::{clone_opt, clone_vec, opt_view, seq_view};
use vstd::prelude::*;

verus! {

/// Order totals.
#[derive(Debug, Clone, Copy, PartialEq, Eq, Structural)]
pub struct OrderTotals {
    /// Subtotal before discounts.
    pub subtotal: u64,
    /// Total discounts.
    pub discount_total: u64,
    /// Shipping cost.
    pub shipping_total: u64,
    /// Tax amount.
    pub tax_total: u64,
    /// Grand total.
    pub grand_total: u64,
    /// Amount paid.
    pub amount_paid: u64,
    /// Amount refunded.
    pub amount_refunded: u64,
    /// Amount due.
    pub amount_due: u64,
}

impl Default for OrderTotals {
    fn default() -> (r: Self)
        ensures
            r == (OrderTotals {
                subtotal: 0,
                discount_total: 0,
                shipping_total: 0,
                tax_total: 0,
                grand_total: 0,
                amount_paid: 0,
                amount_refunded: 0,
                amount_due: 0,
            }),
    {
        OrderTotals {
            subtotal: 0,
            discount_total: 0,
            shipping_total: 0,
            tax_total: 0,
            grand_total: 0,
            amount_paid: 0,
            amount_refunded: 0,
            amount_due: 0,
        }
    }
}

impl OrderTotals {
    /// The totals of an order made of a cart with the given totals:
    /// nothing paid or refunded, the grand total due.
    pub open spec fn of_cart_totals(totals: CartTotalsView) -> OrderTotals {
        OrderTotals {
            subtotal: totals.subtotal,
            discount_total: totals.discount_total,
            shipping_total: totals.shipping_total,
            tax_total: totals.tax_total,
            grand_total: totals.grand_total,
            amount_paid: 0,
            amount_refunded: 0,
            amount_due: totals.grand_total,
        }
    }

    /// Creates totals from cart totals.
    pub fn from_cart_totals(totals: &CartTotals) -> (r: Self)
        ensures
            r == Self::of_cart_totals(totals@),
    {
        OrderTotals {
            subtotal: totals.subtotal,
            discount_total: totals.discount_total,
            shipping_total: totals.shipping_total,
            tax_total: totals.tax_total,
            grand_total: totals.grand_total,
            amount_paid: 0,
            amount_refunded: 0,
            amount_due: totals.grand_total,
        }
    }
}

/// Order source/channel.
#[derive(Debug, Clone, Copy, PartialEq, Eq, Structural)]
pub enum OrderSource {
    /// Web storefront.
    Web,
    /// Mobile app.
    Mobile,
    /// API.
    Api,
    /// Point of sale.
    Pos,
    /// Manual/admin created.
    Manual,
    /// Import.
    Import,
}

impl Default for OrderSource {
    fn default() -> (r: Self)
        ensures
            r == OrderSource::Web,
    {
        OrderSource::Web
    }
}

/// Complete order.
#[derive(Debug)]
pub struct Order {
    /// Order ID.
    pub id: OrderId,
    /// Human-readable order number.
    pub order_number: String,
    /// Customer ID.
    pub customer_id: OrderCustomerId,
    /// Customer email.
    pub customer_email: String,
    /// Customer phone.
    pub customer_phone: Option<String>,
    /// Order status.
    pub status: OrderStatus,
    /// Payment status.
    pub payment_status: PaymentStatus,
    /// Fulfillment status.
    pub fulfillment_status: FulfillmentStatus,
    /// Line items.
    pub line_items: Vec<OrderLineItem>,
    /// Shipping address.
    pub shipping_address: ShippingAddress,
    /// Billing address.
    pub billing_address: Option<ShippingAddress>,
    /// Shipping method.
    pub shipping_method: ShippingMethod,
    /// Order totals.
    pub totals: OrderTotals,
    /// Currency.
    pub currency: Currency,
    /// Payment transactions.
    pub transactions: Vec<PaymentTransaction>,
    /// Payment plugin invoice ID.
    pub payment_invoice_id: Option<String>,
    /// Blockchain transaction ID.
    pub blockchain_tx_id: Option<[u8; 32]>,
    /// Shipments.
    pub shipments: Vec<Shipment>,
    /// Order notes.
    pub notes: Vec<OrderNote>,
    /// Order history.
    pub history: Vec<OrderHistoryEvent>,
    /// Customer note from checkout.
    pub customer_note: Option<String>,
    /// IP address at order time.
    pub ip_address: Option<String>,
    /// User agent at order time.
    pub user_agent: Option<String>,
    /// Source/channel.
    pub source: OrderSource,
    /// Tags.
    pub tags: Vec<String>,
    /// Creation timestamp.
    pub created_at: u64,
    /// Last update timestamp.
    pub updated_at: u64,
}

/// The model of an [`Order`]: everything but the time of its last update,
/// which is a clock reading.
pub ghost struct OrderView {
    pub id: Seq<char>,
    pub order_number: Seq<char>,
    pub customer_id: Seq<char>,
    pub customer_email: Seq<char>,
    pub customer_phone: Option<Seq<char>>,
    pub status: OrderStatus,
    pub payment_status: PaymentStatus,
    pub fulfillment_status: FulfillmentStatus,
    pub line_items: Seq<OrderLineItemView>,
    pub shipping_address: ShippingAddressView,
    pub billing_address: Option<ShippingAddressView>,
    pub shipping_method: ShippingMethodView,
    pub totals: OrderTotals,
    pub currency: Seq<char>,
    pub transactions: Seq<PaymentTransactionView>,
    pub payment_invoice_id: Option<Seq<char>>,
    pub blockchain_tx_id: Option<[u8; 32]>,
    pub shipments: Seq<ShipmentView>,
    pub notes: Seq<OrderNoteView>,
    pub history: Seq<OrderHistoryEventView>,
    pub customer_note: Option<Seq<char>>,
    pub ip_address: Option<Seq<char>>,
    pub user_agent: Option<Seq<char>>,
    pub source: OrderSource,
    pub tags: Seq<Seq<char>>,
    pub created_at: u64,
}

impl View for Order {
    type V = OrderView;

    open spec fn view(&self) -> OrderView {
        OrderView {
            id: self.id@,
            order_number: self.order_number@,
            customer_id: self.customer_id@,
            customer_email: self.customer_email@,
            customer_phone: opt_view(self.customer_phone),
            status: self.status,
            payment_status: self.payment_status,
            fulfillment_status: self.fulfillment_status,
            line_items: seq_view(self.line_items@),
            shipping_address: self.shipping_address@,
            billing_address: opt_view(self.billing_address),
            shipping_method: self.shipping_method@,
            totals: self.totals,
            currency: self.currency@,
            transactions: seq_view(self.transactions@),
            payment_invoice_id: opt_view(self.payment_invoice_id),
            blockchain_tx_id: self.blockchain_tx_id,
            shipments: seq_view(self.shipments@),
            notes: seq_view(self.notes@),
            history: seq_view(self.history@),
            customer_note: opt_view(self.customer_note),
            ip_address: opt_view(self.ip_address),
            user_agent: opt_view(self.user_agent),
            source: self.source,
            tags: seq_view(self.tags@),
            created_at: self.created_at,
        }
    }
}

impl Clone for Order {
    fn clone(&self) -> (r: Self)
        ensures
            r@ == self@,
            r.updated_at == self.updated_at,
    {
        Order {
            id: self.id.clone(),
            order_number: self.order_number.clone(),
            customer_id: self.customer_id.clone(),
            customer_email: self.customer_email.clone(),
            customer_phone: clone_opt(&self.customer_phone),
            status: self.status,
            payment_status: self.payment_status,
            fulfillment_status: self.fulfillment_status,
            line_items: clone_vec(&self.line_items),
            shipping_address: self.shipping_address.clone(),
            billing_address: clone_opt(&self.billing_address),
            shipping_method: self.shipping_method.clone(),
            totals: self.totals,
            currency: self.currency.clone(),
            transactions: clone_vec(&self.transactions),
            payment_invoice_id: clone_opt(&self.payment_invoice_id),
            blockchain_tx_id: self.blockchain_tx_id,
            shipments: clone_vec(&self.shipments),
            notes: clone_vec(&self.notes),
            history: clone_vec(&self.history),
            customer_note: clone_opt(&self.customer_note),
            ip_address: clone_opt(&self.ip_address),
            user_agent: clone_opt(&self.user_agent),
            source: self.source,
            tags: clone_vec(&self.tags),
            created_at: self.created_at,
            updated_at: self.updated_at,
        }
    }
}

impl Keyed for OrderView {
    type Key = Seq<char>;

    open spec fn key(self) -> Seq<char> {
        self.id
    }
}

impl Dated for OrderView {
    open spec fn written_at(self) -> u64 {
        self.created_at
    }
}

} // verus!
