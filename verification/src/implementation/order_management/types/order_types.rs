//! Line items, payments, shipments, notes and history of an order.

use crate::clock::unix_seconds;
use crate::implementation::cart_system::item::{
    CartItem, CartItemView, CustomOption, CustomOptionView,
};
use crate::implementation::cart_system::shipping::{ShippingAddress, ShippingAddressView};
use crate::implementation::order_management::types::basic_types::OrderStatus;
use crate::keyed::Keyed;
use crate::quantity::capped;
use crate::text::{decimal, numbered};
use crate::types::product_catalog::{Currency, Price, PriceView, ProductId};
use crate::views::{clone_opt, clone_vec, opt_view, seq_view};
use vstd::prelude::*;

verus! {

// ============================================================================
// ORDER LINE ITEM
// ============================================================================
/// Line item in an order.
#[derive(Debug)]
pub struct OrderLineItem {
    /// Line item ID.
    pub id: String,
    /// Product ID.
    pub product_id: ProductId,
    /// Variant ID.
    pub variant_id: Option<ProductId>,
    /// Product name.
    pub name: String,
    /// SKU.
    pub sku: String,
    /// Quantity ordered.
    pub quantity: u32,
    /// Quantity fulfilled.
    pub quantity_fulfilled: u32,
    /// Quantity refunded.
    pub quantity_refunded: u32,
    /// Unit price.
    pub unit_price: Price,
    /// Total before discount.
    pub subtotal: u64,
    /// Discount amount.
    pub discount: u64,
    /// Tax amount.
    pub tax: u64,
    /// Line total.
    pub total: u64,
    /// Product image URL.
    pub image_url: Option<String>,
    /// Whether item is taxable.
    pub taxable: bool,
    /// Whether item requires shipping.
    pub requires_shipping: bool,
    /// Custom properties, one under a name.
    pub properties: Vec<CustomOption>,
}

/// The model of an [`OrderLineItem`].
pub ghost struct OrderLineItemView {
    pub id: Seq<char>,
    pub product_id: Seq<char>,
    pub variant_id: Option<Seq<char>>,
    pub name: Seq<char>,
    pub sku: Seq<char>,
    pub quantity: u32,
    pub quantity_fulfilled: u32,
    pub quantity_refunded: u32,
    pub unit_price: PriceView,
    pub subtotal: u64,
    pub discount: u64,
    pub tax: u64,
    pub total: u64,
    pub image_url: Option<Seq<char>>,
    pub taxable: bool,
    pub requires_shipping: bool,
    pub properties: Seq<CustomOptionView>,
}

impl View for OrderLineItem {
    type V = OrderLineItemView;

    open spec fn view(&self) -> OrderLineItemView {
        OrderLineItemView {
            id: self.id@,
            product_id: self.product_id@,
            variant_id: opt_view(self.variant_id),
            name: self.name@,
            sku: self.sku@,
            quantity: self.quantity,
            quantity_fulfilled: self.quantity_fulfilled,
            quantity_refunded: self.quantity_refunded,
            unit_price: self.unit_price@,
            subtotal: self.subtotal,
            discount: self.discount,
            tax: self.tax,
            total: self.total,
            image_url: opt_view(self.image_url),
            taxable: self.taxable,
            requires_shipping: self.requires_shipping,
            properties: seq_view(self.properties@),
        }
    }
}

impl Clone for OrderLineItem {
    fn clone(&self) -> (r: Self)
        ensures
            r@ == self@,
    {
        OrderLineItem {
            id: self.id.clone(),
            product_id: self.product_id.clone(),
            variant_id: clone_opt(&self.variant_id),
            name: self.name.clone(),
            sku: self.sku.clone(),
            quantity: self.quantity,
            quantity_fulfilled: self.quantity_fulfilled,
            quantity_refunded: self.quantity_refunded,
            unit_price: self.unit_price.clone(),
            subtotal: self.subtotal,
            discount: self.discount,
            tax: self.tax,
            total: self.total,
            image_url: clone_opt(&self.image_url),
            taxable: self.taxable,
            requires_shipping: self.requires_shipping,
            properties: clone_vec(&self.properties),
        }
    }
}

impl Keyed for OrderLineItemView {
    type Key = Seq<char>;

    open spec fn key(self) -> Seq<char> {
        self.id
    }
}

impl OrderLineItemView {
    /// The line made of a cart item, given the tax due on it: nothing
    /// fulfilled or refunded yet, taxable and to be shipped; its total is
    /// what the item costs after discounts, plus the tax.
    pub open spec fn of_cart_item(item: CartItemView, line_id: Seq<char>, tax: u64) -> Self {
        let subtotal = capped(item.subtotal() as int);
        let discount = capped(item.total_discount() as int);
        OrderLineItemView {
            id: line_id,
            product_id: item.product_id,
            variant_id: item.variant_id,
            name: item.product_name,
            sku: item.product_sku,
            quantity: item.quantity,
            quantity_fulfilled: 0,
            quantity_refunded: 0,
            unit_price: item.unit_price,
            subtotal,
            discount,
            tax,
            total: capped(capped(subtotal - discount) + tax),
            image_url: item.image_url,
            taxable: true,
            requires_shipping: true,
            properties: item.custom_options,
        }
    }
}

impl OrderLineItem {
    /// Creates a line item from a cart item, given the tax due on what the
    /// item costs after discounts.
    pub fn from_cart_item(item: &CartItem, line_id: String, tax: u64) -> (r: Self)
        ensures
            r@ == OrderLineItemView::of_cart_item(item@, line_id@, tax),
    {
        let subtotal = item.subtotal();
        let discount = item.total_discount();
        let taxable_amount = subtotal.saturating_sub(discount);
        let total = taxable_amount.saturating_add(tax);
        OrderLineItem {
            id: line_id,
            product_id: item.product_id.clone(),
            variant_id: clone_opt(&item.variant_id),
            name: item.product_name.clone(),
            sku: item.product_sku.clone(),
            quantity: item.quantity,
            quantity_fulfilled: 0,
            quantity_refunded: 0,
            unit_price: item.unit_price.clone(),
            subtotal,
            discount,
            tax,
            total,
            image_url: clone_opt(&item.image_url),
            taxable: true,
            requires_shipping: true,
            properties: clone_vec(&item.custom_options),
        }
    }

    /// Quantity remaining to fulfill.
    pub fn quantity_remaining(&self) -> (r: u32)
        ensures
            r == if self.quantity >= self.quantity_fulfilled {
                self.quantity - self.quantity_fulfilled
            } else {
                0
            },
    {
        self.quantity.saturating_sub(self.quantity_fulfilled)
    }

    /// Whether item is fully fulfilled.
    pub fn is_fulfilled(&self) -> (r: bool)
        ensures
            r == (self.quantity_fulfilled >= self.quantity),
    {
        self.quantity_fulfilled >= self.quantity
    }
}

// ============================================================================
// PAYMENT & TRANSACTION
// ============================================================================
/// Transaction status.
#[derive(Debug, Clone, Copy, PartialEq, Eq, Structural)]
pub enum TransactionStatus {
    /// Pending.
    Pending,
    /// Success.
    Success,
    /// Failed.
    Failed,
    /// Cancelled.
    Cancelled,
}

impl TransactionStatus {
    /// The name shown for the status.
    pub open spec fn name(self) -> Seq<char> {
        match self {
            TransactionStatus::Pending => "Pending"@,
            TransactionStatus::Success => "Success"@,
            TransactionStatus::Failed => "Failed"@,
            TransactionStatus::Cancelled => "Cancelled"@,
        }
    }

    /// Display name.
    pub fn display_name(&self) -> (r: &'static str)
        ensures
            r@ == self.name(),
    {
        match self {
            TransactionStatus::Pending => "Pending",
            TransactionStatus::Success => "Success",
            TransactionStatus::Failed => "Failed",
            TransactionStatus::Cancelled => "Cancelled",
        }
    }
}

/// Transaction type.
#[derive(Debug, Clone, Copy, PartialEq, Eq, Structural)]
pub enum TransactionType {
    /// Authorization.
    Authorization,
    /// Capture.
    Capture,
    /// Refund.
    Refund,
    /// Void.
    Void,
}

/// Payment method used.
#[derive(Debug)]
pub struct PaymentMethod {
    /// Method identifier.
    pub id: String,
    /// Method type (card, crypto, etc).
    pub method_type: String,
    /// Last 4 digits (for cards).
    pub last_four: Option<String>,
    /// Card brand (Visa, Mastercard, etc).
    pub brand: Option<String>,
    /// Expiry month.
    pub exp_month: Option<u32>,
    /// Expiry year.
    pub exp_year: Option<u32>,
    /// Wallet address (for crypto).
    pub wallet_address: Option<String>,
}

/// The model of a [`PaymentMethod`].
pub ghost struct PaymentMethodView {
    pub id: Seq<char>,
    pub method_type: Seq<char>,
    pub last_four: Option<Seq<char>>,
    pub brand: Option<Seq<char>>,
    pub exp_month: Option<u32>,
    pub exp_year: Option<u32>,
    pub wallet_address: Option<Seq<char>>,
}

impl View for PaymentMethod {
    type V = PaymentMethodView;

    open spec fn view(&self) -> PaymentMethodView {
        PaymentMethodView {
            id: self.id@,
            method_type: self.method_type@,
            last_four: opt_view(self.last_four),
            brand: opt_view(self.brand),
            exp_month: self.exp_month,
            exp_year: self.exp_year,
            wallet_address: opt_view(self.wallet_address),
        }
    }
}

impl Clone for PaymentMethod {
    fn clone(&self) -> (r: Self)
        ensures
            r@ == self@,
    {
        PaymentMethod {
            id: self.id.clone(),
            method_type: self.method_type.clone(),
            last_four: clone_opt(&self.last_four),
            brand: clone_opt(&self.brand),
            exp_month: self.exp_month,
            exp_year: self.exp_year,
            wallet_address: clone_opt(&self.wallet_address),
        }
    }
}

/// Payment transaction record.
#[derive(Debug)]
pub struct PaymentTransaction {
    /// Transaction ID.
    pub id: String,
    /// External transaction reference.
    pub external_id: Option<String>,
    /// Transaction type.
    pub transaction_type: TransactionType,
    /// Amount.
    pub amount: u64,
    /// Currency.
    pub currency: Currency,
    /// Status.
    pub status: TransactionStatus,
    /// Gateway used.
    pub gateway: String,
    /// Payment method.
    pub payment_method: Option<PaymentMethod>,
    /// Error message if failed.
    pub error_message: Option<String>,
    /// Timestamp.
    pub created_at: u64,
}

/// The model of a [`PaymentTransaction`].
pub ghost struct PaymentTransactionView {
    pub id: Seq<char>,
    pub external_id: Option<Seq<char>>,
    pub transaction_type: TransactionType,
    pub amount: u64,
    pub currency: Seq<char>,
    pub status: TransactionStatus,
    pub gateway: Seq<char>,
    pub payment_method: Option<PaymentMethodView>,
    pub error_message: Option<Seq<char>>,
    pub created_at: u64,
}

impl View for PaymentTransaction {
    type V = PaymentTransactionView;

    open spec fn view(&self) -> PaymentTransactionView {
        PaymentTransactionView {
            id: self.id@,
            external_id: opt_view(self.external_id),
            transaction_type: self.transaction_type,
            amount: self.amount,
            currency: self.currency@,
            status: self.status,
            gateway: self.gateway@,
            payment_method: opt_view(self.payment_method),
            error_message: opt_view(self.error_message),
            created_at: self.created_at,
        }
    }
}

impl Clone for PaymentTransaction {
    fn clone(&self) -> (r: Self)
        ensures
            r@ == self@,
    {
        PaymentTransaction {
            id: self.id.clone(),
            external_id: clone_opt(&self.external_id),
            transaction_type: self.transaction_type,
            amount: self.amount,
            currency: self.currency.clone(),
            status: self.status,
            gateway: self.gateway.clone(),
            payment_method: clone_opt(&self.payment_method),
            error_message: clone_opt(&self.error_message),
            created_at: self.created_at,
        }
    }
}

// ============================================================================
// SHIPMENT & TRACKING
// ============================================================================
/// Shipment status.
#[derive(Debug, Clone, Copy, PartialEq, Eq, Structural)]
pub enum ShipmentStatus {
    /// Preparing shipment.
    Pending,
    /// Label created.
    LabelCreated,
    /// Picked up by carrier.
    PickedUp,
    /// In transit.
    InTransit,
    /// Out for delivery.
    OutForDelivery,
    /// Delivered.
    Delivered,
    /// Delivery failed.
    DeliveryFailed,
    /// Returned to sender.
    Returned,
}

impl Default for ShipmentStatus {
    fn default() -> (r: Self)
        ensures
            r == ShipmentStatus::Pending,
    {
        ShipmentStatus::Pending
    }
}

/// Item in a shipment.
#[derive(Debug)]
pub struct ShipmentItem {
    /// Line item ID.
    pub line_item_id: String,
    /// Quantity shipped.
    pub quantity: u32,
}

/// The model of a [`ShipmentItem`].
pub ghost struct ShipmentItemView {
    pub line_item_id: Seq<char>,
    pub quantity: u32,
}

impl View for ShipmentItem {
    type V = ShipmentItemView;

    open spec fn view(&self) -> ShipmentItemView {
        ShipmentItemView {
            line_item_id: self.line_item_id@,
            quantity: self.quantity,
        }
    }
}

impl Clone for ShipmentItem {
    fn clone(&self) -> (r: Self)
        ensures
            r@ == self@,
    {
        ShipmentItem {
            line_item_id: self.line_item_id.clone(),
            quantity: self.quantity,
        }
    }
}

/// Shipment information.
#[derive(Debug)]
pub struct Shipment {
    /// Shipment ID.
    pub id: String,
    /// Carrier name.
    pub carrier: String,
    /// Tracking number.
    pub tracking_number: Option<String>,
    /// Tracking URL.
    pub tracking_url: Option<String>,
    /// Shipment status.
    pub status: ShipmentStatus,
    /// Items in this shipment.
    pub items: Vec<ShipmentItem>,
    /// Shipping address.
    pub shipping_address: ShippingAddress,
    /// Shipped date.
    pub shipped_at: Option<u64>,
    /// Delivered date.
    pub delivered_at: Option<u64>,
    /// Creation date.
    pub created_at: u64,
}

/// The model of a [`Shipment`].
pub ghost struct ShipmentView {
    pub id: Seq<char>,
    pub carrier: Seq<char>,
    pub tracking_number: Option<Seq<char>>,
    pub tracking_url: Option<Seq<char>>,
    pub status: ShipmentStatus,
    pub items: Seq<ShipmentItemView>,
    pub shipping_address: ShippingAddressView,
    pub shipped_at: Option<u64>,
    pub delivered_at: Option<u64>,
    pub created_at: u64,
}

impl View for Shipment {
    type V = ShipmentView;

    open spec fn view(&self) -> ShipmentView {
        ShipmentView {
            id: self.id@,
            carrier: self.carrier@,
            tracking_number: opt_view(self.tracking_number),
            tracking_url: opt_view(self.tracking_url),
            status: self.status,
            items: seq_view(self.items@),
            shipping_address: self.shipping_address@,
            shipped_at: self.shipped_at,
            delivered_at: self.delivered_at,
            created_at: self.created_at,
        }
    }
}

impl Clone for Shipment {
    fn clone(&self) -> (r: Self)
        ensures
            r@ == self@,
    {
        Shipment {
            id: self.id.clone(),
            carrier: self.carrier.clone(),
            tracking_number: clone_opt(&self.tracking_number),
            tracking_url: clone_opt(&self.tracking_url),
            status: self.status,
            items: clone_vec(&self.items),
            shipping_address: self.shipping_address.clone(),
            shipped_at: self.shipped_at,
            delivered_at: self.delivered_at,
            created_at: self.created_at,
        }
    }
}

// ============================================================================
// ORDER NOTES & HISTORY
// ============================================================================
/// Note attached to an order.
#[derive(Debug)]
pub struct OrderNote {
    /// Note ID.
    pub id: String,
    /// Note content.
    pub content: String,
    /// Whether visible to customer.
    pub customer_visible: bool,
    /// Author.
    pub author: String,
    /// Creation timestamp.
    pub created_at: u64,
}

/// The model of an [`OrderNote`].
pub ghost struct OrderNoteView {
    pub id: Seq<char>,
    pub content: Seq<char>,
    pub customer_visible: bool,
    pub author: Seq<char>,
    pub created_at: u64,
}

impl View for OrderNote {
    type V = OrderNoteView;

    open spec fn view(&self) -> OrderNoteView {
        OrderNoteView {
            id: self.id@,
            content: self.content@,
            customer_visible: self.customer_visible,
            author: self.author@,
            created_at: self.created_at,
        }
    }
}

impl Clone for OrderNote {
    fn clone(&self) -> (r: Self)
        ensures
            r@ == self@,
    {
        OrderNote {
            id: self.id.clone(),
            content: self.content.clone(),
            customer_visible: self.customer_visible,
            author: self.author.clone(),
            created_at: self.created_at,
        }
    }
}

impl OrderNoteView {
    /// A note written at the time `now`, named after that second.
    pub open spec fn written(
        content: Seq<char>,
        author: Seq<char>,
        customer_visible: bool,
        now: u64,
    ) -> Self {
        OrderNoteView {
            id: "note-"@ + decimal(now as nat),
            content,
            customer_visible,
            author,
            created_at: now,
        }
    }
}

impl OrderNote {
    /// Creates a new internal note.
    pub fn internal(content: &str, author: &str) -> (r: Self)
        ensures
            r@ == OrderNoteView::written(content@, author@, false, r.created_at),
    {
        let now = unix_seconds();
        OrderNote {
            id: numbered("note-", now),
            content: content.to_owned(),
            customer_visible: false,
            author: author.to_owned(),
            created_at: now,
        }
    }

    /// Creates a customer-visible note.
    pub fn customer_note(content: &str, author: &str) -> (r: Self)
        ensures
            r@ == OrderNoteView::written(content@, author@, true, r.created_at),
    {
        let mut note = OrderNote::internal(content, author);
        note.customer_visible = true;
        note
    }
}

/// Order event type.
#[derive(Debug, Clone, Copy, PartialEq, Eq, Structural)]
pub enum OrderEventType {
    /// Order created.
    Created,
    /// Status changed.
    StatusChanged,
    /// Payment received.
    PaymentReceived,
    /// Payment failed.
    PaymentFailed,
    /// Shipped.
    Shipped,
    /// Delivered.
    Delivered,
    /// Cancelled.
    Cancelled,
    /// Refunded.
    Refunded,
    /// Note added.
    NoteAdded,
    /// Fulfillment updated.
    FulfillmentUpdated,
}

/// Order history event.
#[derive(Debug)]
pub struct OrderHistoryEvent {
    /// Event ID.
    pub id: String,
    /// Event type.
    pub event_type: OrderEventType,
    /// Event description.
    pub description: String,
    /// Previous status (for status changes).
    pub previous_status: Option<OrderStatus>,
    /// New status (for status changes).
    pub new_status: Option<OrderStatus>,
    /// User who triggered the event.
    pub user: Option<String>,
    /// Timestamp.
    pub created_at: u64,
}

/// The model of an [`OrderHistoryEvent`].
pub ghost struct OrderHistoryEventView {
    pub id: Seq<char>,
    pub event_type: OrderEventType,
    pub description: Seq<char>,
    pub previous_status: Option<OrderStatus>,
    pub new_status: Option<OrderStatus>,
    pub user: Option<Seq<char>>,
    pub created_at: u64,
}

impl View for OrderHistoryEvent {
    type V = OrderHistoryEventView;

    open spec fn view(&self) -> OrderHistoryEventView {
        OrderHistoryEventView {
            id: self.id@,
            event_type: self.event_type,
            description: self.description@,
            previous_status: self.previous_status,
            new_status: self.new_status,
            user: opt_view(self.user),
            created_at: self.created_at,
        }
    }
}

impl Clone for OrderHistoryEvent {
    fn clone(&self) -> (r: Self)
        ensures
            r@ == self@,
    {
        OrderHistoryEvent {
            id: self.id.clone(),
            event_type: self.event_type,
            description: self.description.clone(),
            previous_status: self.previous_status,
            new_status: self.new_status,
            user: clone_opt(&self.user),
            created_at: self.created_at,
        }
    }
}

impl OrderHistoryEventView {
    /// An event that happened at the time `now`, named after that second.
    pub open spec fn happened(
        event_type: OrderEventType,
        description: Seq<char>,
        user: Option<Seq<char>>,
        now: u64,
    ) -> Self {
        OrderHistoryEventView {
            id: "event-"@ + decimal(now as nat),
            event_type,
            description,
            previous_status: None,
            new_status: None,
            user,
            created_at: now,
        }
    }

    /// The event of a change of status at the time `now`.
    pub open spec fn status_changed(
        previous: OrderStatus,
        new: OrderStatus,
        user: Option<Seq<char>>,
        now: u64,
    ) -> Self {
        OrderHistoryEventView {
            id: "event-"@ + decimal(now as nat),
            event_type: OrderEventType::StatusChanged,
            description: "Status changed from "@ + previous.name() + " to "@ + new.name(),
            previous_status: Some(previous),
            new_status: Some(new),
            user,
            created_at: now,
        }
    }
}

} // verus!
