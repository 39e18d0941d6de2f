//! The operations on an order.

use crate::clock::unix_seconds;
use crate::implementation::cart_system::cart::{totals_of, Cart, CartView};
use crate::implementation::cart_system::item::CartItemView;
use crate::implementation::cart_system::shipping::{
    ShippingAddress, ShippingAddressView, ShippingMethod, ShippingMethodView,
};
use crate::implementation::order_management::types::basic_types::{
    FulfillmentStatus, OrderCustomerId, OrderId, OrderStatus, PaymentStatus,
};
use crate::implementation::order_management::types::main_order_types::{
    Order, OrderSource, OrderTotals, OrderView,
};
use crate::implementation::order_management::types::order_types::{
    OrderEventType, OrderHistoryEvent, OrderHistoryEventView, OrderLineItem, OrderLineItemView,
    OrderNote, OrderNoteView, PaymentTransaction, PaymentTransactionView, Shipment,
    ShipmentItemView, ShipmentView, TransactionStatus, TransactionType,
};
use crate::keyed::{position, position_found, position_is, Keyed};
use crate::quantity::{capped, capped_u32, total};
use crate::text::{decimal, joined, numbered};
use crate::types::product_catalog::PriceView;
use crate::views::{clone_opt, opt_view, seq_view, seq_view_push, seq_view_update};
use vstd::prelude::*;
use vstd::string::StrSliceExecFns;

verus! {

impl OrderTotals {
    /// The totals after a transaction: a capture that succeeded raises the
    /// amount paid, a refund that succeeded the amount refunded, each up to
    /// the bound of `u64`; the amount due is the grand total less what was
    /// paid, but not less than nothing, plus what was refunded. Any other
    /// transaction leaves the totals as they are.
    pub open spec fn after_transaction(
        self,
        transaction_type: TransactionType,
        status: TransactionStatus,
        amount: u64,
    ) -> OrderTotals {
        if status != TransactionStatus::Success {
            self
        } else {
            let paid = if transaction_type == TransactionType::Capture {
                capped(self.amount_paid + amount)
            } else {
                self.amount_paid
            };
            let refunded = if transaction_type == TransactionType::Refund {
                capped(self.amount_refunded + amount)
            } else {
                self.amount_refunded
            };
            OrderTotals {
                amount_paid: paid,
                amount_refunded: refunded,
                amount_due: capped(capped(self.grand_total - paid) + refunded),
                ..self
            }
        }
    }

    /// The payment status that follows from the totals after a transaction
    /// that succeeded: refunded when all was refunded, partially refunded
    /// when something was, captured when all was paid; else as before.
    pub open spec fn payment_status(self, before: PaymentStatus) -> PaymentStatus {
        if self.amount_refunded >= self.grand_total {
            PaymentStatus::Refunded
        } else if self.amount_refunded > 0 {
            PaymentStatus::PartiallyRefunded
        } else if self.amount_paid >= self.grand_total {
            PaymentStatus::Captured
        } else {
            before
        }
    }
}

/// The kind of event that a transaction is entered in the history as.
pub open spec fn transaction_event(transaction_type: TransactionType, status: TransactionStatus)
    -> OrderEventType {
    if status == TransactionStatus::Success && transaction_type == TransactionType::Refund {
        OrderEventType::Refunded
    } else if status == TransactionStatus::Failed {
        OrderEventType::PaymentFailed
    } else {
        OrderEventType::PaymentReceived
    }
}

/// The number of units that a line orders.
pub open spec fn line_quantity() -> spec_fn(OrderLineItemView) -> nat {
    |line: OrderLineItemView| line.quantity as nat
}

/// The number of units of a line that were fulfilled.
pub open spec fn line_fulfilled() -> spec_fn(OrderLineItemView) -> nat {
    |line: OrderLineItemView| line.quantity_fulfilled as nat
}

/// The lines after the first `n` items of a shipment were counted: each
/// raises the fulfilled quantity of the first line under its identifier, up
/// to the bound of `u32`; an item that names no line counts for nothing.
pub open spec fn fulfilled(lines: Seq<OrderLineItemView>, shipped: Seq<ShipmentItemView>, n: nat)
    -> Seq<OrderLineItemView>
    decreases n,
{
    if n == 0 {
        lines
    } else {
        let so_far = fulfilled(lines, shipped, (n - 1) as nat);
        let item = shipped[n - 1];
        let at = position(so_far, item.line_item_id);
        if at < so_far.len() {
            so_far.update(
                at,
                OrderLineItemView {
                    quantity_fulfilled: capped_u32(so_far[at].quantity_fulfilled + item.quantity),
                    ..so_far[at]
                },
            )
        } else {
            so_far
        }
    }
}

/// The fulfillment status that follows from the lines: unfulfilled when no
/// unit was fulfilled, fulfilled when as many were as ordered, else
/// partially fulfilled.
pub open spec fn fulfillment_of(lines: Seq<OrderLineItemView>) -> FulfillmentStatus {
    let ordered = total(lines, line_quantity(), lines.len());
    let done = total(lines, line_fulfilled(), lines.len());
    if done == 0 {
        FulfillmentStatus::Unfulfilled
    } else if done >= ordered {
        FulfillmentStatus::Fulfilled
    } else {
        FulfillmentStatus::PartiallyFulfilled
    }
}

/// The lines of an order made of the items of a cart, given the tax due on
/// each; an item without one is taxed nothing. The lines are numbered from
/// one.
pub open spec fn lines_of(items: Seq<CartItemView>, taxes: Seq<u64>) -> Seq<OrderLineItemView> {
    Seq::new(
        items.len(),
        |i: int|
            OrderLineItemView::of_cart_item(
                items[i],
                "line-"@ + decimal((i + 1) as nat),
                if i < taxes.len() {
                    taxes[i]
                } else {
                    0
                },
            ),
    )
}

impl OrderView {
    /// The order with one more event in its history.
    pub open spec fn with_event(self, event: OrderHistoryEventView) -> Self {
        OrderView { history: self.history.push(event), ..self }
    }

    /// The order after its status changed at the time `now`.
    pub open spec fn with_status(self, status: OrderStatus, user: Option<Seq<char>>, now: u64)
        -> Self {
        (OrderView { status, ..self }).with_event(
            OrderHistoryEventView::status_changed(self.status, status, user, now),
        )
    }

    /// The order after a transaction was recorded at the time `now`.
    pub open spec fn with_transaction(self, transaction: PaymentTransactionView, now: u64) -> Self {
        let totals = self.totals.after_transaction(
            transaction.transaction_type,
            transaction.status,
            transaction.amount,
        );
        (OrderView {
            totals,
            payment_status: if transaction.status == TransactionStatus::Success {
                totals.payment_status(self.payment_status)
            } else {
                self.payment_status
            },
            transactions: self.transactions.push(transaction),
            ..self
        }).with_event(
            OrderHistoryEventView::happened(
                transaction_event(transaction.transaction_type, transaction.status),
                "Transaction "@ + transaction.id + ": "@ + transaction.status.name(),
                None,
                now,
            ),
        )
    }

    /// The order after a shipment was added at the time `now`.
    pub open spec fn with_shipment(self, shipment: ShipmentView, now: u64) -> Self {
        let lines = fulfilled(self.line_items, shipment.items, shipment.items.len());
        (OrderView {
            line_items: lines,
            fulfillment_status: fulfillment_of(lines),
            shipments: self.shipments.push(shipment),
            ..self
        }).with_event(
            OrderHistoryEventView::happened(
                OrderEventType::Shipped,
                "Shipment "@ + shipment.id + " created"@,
                None,
                now,
            ),
        )
    }

    /// The order after a note was added at the time `now`.
    pub open spec fn with_note(self, note: OrderNoteView, now: u64) -> Self {
        (OrderView { notes: self.notes.push(note), ..self }).with_event(
            OrderHistoryEventView::happened(
                OrderEventType::NoteAdded,
                "Note added"@,
                Some(note.author),
                now,
            ),
        )
    }

    /// The order made of a cart at the time `now`, under the identifier
    /// `id`, given the tax due on the cart and on each of its items: pending
    /// payment and unfulfilled, numbered after its identifier, shipped to
    /// the cart's address by the cart's method or else for free, with its
    /// creation as the one event of its history.
    pub open spec fn of_cart(
        cart: CartView,
        customer_email: Seq<char>,
        tax_total: u64,
        line_taxes: Seq<u64>,
        id: Seq<char>,
        now: u64,
        event_at: u64,
    ) -> Self {
        OrderView {
            id,
            order_number: "#"@ + id.skip(4),
            customer_id: cart.customer_id,
            customer_email,
            customer_phone: None,
            status: OrderStatus::PendingPayment,
            payment_status: PaymentStatus::Pending,
            fulfillment_status: FulfillmentStatus::Unfulfilled,
            line_items: lines_of(cart.items, line_taxes),
            shipping_address: match cart.shipping_address {
                Some(address) => address,
                None => ShippingAddressView {
                    first_name: Seq::empty(),
                    last_name: Seq::empty(),
                    company: None,
                    address_line1: Seq::empty(),
                    address_line2: None,
                    city: Seq::empty(),
                    state: Seq::empty(),
                    postal_code: Seq::empty(),
                    country_code: Seq::empty(),
                    phone: None,
                },
            },
            billing_address: cart.billing_address,
            shipping_method: match cart.shipping_method {
                Some(method) => method,
                None => ShippingMethodView {
                    id: "free"@,
                    name: "Free Shipping"@,
                    description: "Standard free shipping"@,
                    cost: PriceView { amount: 0, currency: "USD"@, decimals: 2 },
                    estimated_days_min: 5,
                    estimated_days_max: 10,
                    has_tracking: false,
                },
            },
            totals: OrderTotals::of_cart_totals(
                totals_of(
                    cart.items,
                    cart.discounts,
                    cart.shipping_method,
                    tax_total,
                    cart.currency,
                ),
            ),
            currency: cart.currency,
            transactions: Seq::empty(),
            payment_invoice_id: None,
            blockchain_tx_id: None,
            shipments: Seq::empty(),
            notes: Seq::empty(),
            history: seq![
                OrderHistoryEventView::happened(
                    OrderEventType::Created,
                    "Order created"@,
                    None,
                    event_at,
                ),
            ],
            customer_note: cart.notes,
            ip_address: None,
            user_agent: None,
            source: OrderSource::Web,
            tags: Seq::empty(),
            created_at: now,
        }
    }
}

/// The number of units ordered and the number fulfilled, over all lines.
fn count_units(lines: &Vec<OrderLineItem>) -> (r: (u128, u128))
    ensures
        r.0 == total(seq_view(lines@), line_quantity(), lines@.len()),
        r.1 == total(seq_view(lines@), line_fulfilled(), lines@.len()),
{
    let mut ordered: u128 = 0;
    let mut done: u128 = 0;
    let mut i: usize = 0;
    while i < lines.len()
        invariant
            i <= lines.len(),
            ordered == total(seq_view(lines@), line_quantity(), i as nat),
            done == total(seq_view(lines@), line_fulfilled(), i as nat),
            ordered <= i * 0x1_0000_0000,
            done <= i * 0x1_0000_0000,
        decreases lines.len() - i,
    {
        ordered = ordered + lines[i].quantity as u128;
        done = done + lines[i].quantity_fulfilled as u128;
        i += 1;
    }
    (ordered, done)
}

impl Order {
    /// Creates an order from a cart, given the tax due on the cart and on
    /// each of its items; an item without one is taxed nothing.
    pub fn from_cart(cart: &Cart, customer_email: &str, tax_total: u64, line_taxes: &Vec<u64>) -> (r:
        Self)
        ensures
            r@ == OrderView::of_cart(
                cart@,
                customer_email@,
                tax_total,
                line_taxes@,
                r@.id,
                r@.created_at,
                r@.history[0].created_at,
            ),
            exists|nanos: nat| r@.id == "ORD-"@ + decimal(nanos),
            r.updated_at == r.created_at,
    {
        let now = unix_seconds();
        let order_id = OrderId::generate();
        proof {
            reveal_strlit("ORD-");
        }
        let id_text = order_id.0.as_str();
        let order_number = joined("#", id_text.substring_char(4, id_text.unicode_len()));
        assert(order_number@ == "#"@ + order_id@.skip(4)) by {
            assert(order_id@.subrange(4, order_id@.len() as int) =~= order_id@.skip(4));
        }
        let cart_totals = cart.calculate_totals(tax_total);

        let mut line_items: Vec<OrderLineItem> = Vec::new();
        let mut i: usize = 0;
        while i < cart.items.len()
            invariant
                i <= cart.items.len(),
                line_items.len() == i,
                forall|j: int|
                    0 <= j < i ==> line_items@[j]@ == lines_of(cart@.items, line_taxes@)[j],
            decreases cart.items.len() - i,
        {
            let tax = if i < line_taxes.len() {
                line_taxes[i]
            } else {
                0
            };
            let line_id = numbered("line-", (i + 1) as u64);
            line_items.push(OrderLineItem::from_cart_item(&cart.items[i], line_id, tax));
            i += 1;
        }
        assert(seq_view(line_items@) =~= lines_of(cart@.items, line_taxes@));

        let totals = OrderTotals::from_cart_totals(&cart_totals);
        let shipping_address = match &cart.shipping_address {
            Some(address) => address.clone(),
            None => ShippingAddress::default(),
        };
        let shipping_method = match &cart.shipping_method {
            Some(method) => method.clone(),
            None => ShippingMethod::free_shipping(),
        };
        let mut order = Order {
            id: order_id,
            order_number,
            customer_id: OrderCustomerId(cart.customer_id.0.clone()),
            customer_email: customer_email.to_owned(),
            customer_phone: None,
            status: OrderStatus::PendingPayment,
            payment_status: PaymentStatus::Pending,
            fulfillment_status: FulfillmentStatus::Unfulfilled,
            line_items,
            shipping_address,
            billing_address: clone_opt(&cart.billing_address),
            shipping_method,
            totals,
            currency: cart.currency.clone(),
            transactions: Vec::new(),
            payment_invoice_id: None,
            blockchain_tx_id: None,
            shipments: Vec::new(),
            notes: Vec::new(),
            history: Vec::new(),
            customer_note: clone_opt(&cart.notes),
            ip_address: None,
            user_agent: None,
            source: OrderSource::Web,
            tags: Vec::new(),
            created_at: now,
            updated_at: now,
        };
        proof {
            assert(order@.transactions =~= Seq::empty());
            assert(order@.shipments =~= Seq::empty());
            assert(order@.notes =~= Seq::empty());
            assert(order@.history =~= Seq::empty());
            assert(order@.tags =~= Seq::empty());
        }
        order.add_history_event(OrderEventType::Created, "Order created", None);
        proof {
            let event = OrderHistoryEventView::happened(
                OrderEventType::Created,
                "Order created"@,
                None,
                order@.history[0].created_at,
            );
            assert(order@.history =~= seq![event]);
        }
        order
    }

    /// Adds a history event, named after the second it is added in.
    pub fn add_history_event(
        &mut self,
        event_type: OrderEventType,
        description: &str,
        user: Option<String>,
    )
        ensures
            final(self)@ == old(self)@.with_event(
                OrderHistoryEventView::happened(
                    event_type,
                    description@,
                    opt_view(user),
                    final(self)@.history.last().created_at,
                ),
            ),
            final(self).updated_at == old(self).updated_at,
    {
        let now = unix_seconds();
        let event = OrderHistoryEvent {
            id: numbered("event-", now),
            event_type,
            description: description.to_owned(),
            previous_status: None,
            new_status: None,
            user,
            created_at: now,
        };
        proof {
            seq_view_push(self.history@, event);
        }
        self.history.push(event);
    }

    /// Updates order status, and enters the change in the history under
    /// the time of the update.
    pub fn update_status(&mut self, new_status: OrderStatus, user: Option<String>)
        ensures
            final(self)@ == old(self)@.with_status(
                new_status,
                opt_view(user),
                final(self).updated_at,
            ),
    {
        let previous_status = self.status;
        self.status = new_status;
        self.touch();
        let changed = joined("Status changed from ", previous_status.display_name());
        let towards = joined(changed.as_str(), " to ");
        let event = OrderHistoryEvent {
            id: numbered("event-", self.updated_at),
            event_type: OrderEventType::StatusChanged,
            description: joined(towards.as_str(), new_status.display_name()),
            previous_status: Some(previous_status),
            new_status: Some(new_status),
            user,
            created_at: self.updated_at,
        };
        proof {
            seq_view_push(self.history@, event);
        }
        self.history.push(event);
    }

    /// Records a payment transaction.
    pub fn record_payment(&mut self, transaction: PaymentTransaction)
        ensures
            final(self)@ == old(self)@.with_transaction(
                transaction@,
                final(self)@.history.last().created_at,
            ),
    {
        if transaction.status == TransactionStatus::Success {
            if transaction.transaction_type == TransactionType::Capture {
                self.totals.amount_paid = self.totals.amount_paid.saturating_add(
                    transaction.amount,
                );
            } else if transaction.transaction_type == TransactionType::Refund {
                self.totals.amount_refunded = self.totals.amount_refunded.saturating_add(
                    transaction.amount,
                );
            }
            self.totals.amount_due = self.totals.grand_total.saturating_sub(
                self.totals.amount_paid,
            ).saturating_add(self.totals.amount_refunded);
            if self.totals.amount_refunded >= self.totals.grand_total {
                self.payment_status = PaymentStatus::Refunded;
            } else if self.totals.amount_refunded > 0 {
                self.payment_status = PaymentStatus::PartiallyRefunded;
            } else if self.totals.amount_paid >= self.totals.grand_total {
                self.payment_status = PaymentStatus::Captured;
            }
        }
        let event_type = if transaction.status == TransactionStatus::Success
            && transaction.transaction_type == TransactionType::Refund {
            OrderEventType::Refunded
        } else if transaction.status == TransactionStatus::Failed {
            OrderEventType::PaymentFailed
        } else {
            OrderEventType::PaymentReceived
        };
        let named = joined("Transaction ", transaction.id.as_str());
        let labelled = joined(named.as_str(), ": ");
        let description = joined(labelled.as_str(), transaction.status.display_name());
        self.add_history_event(event_type, description.as_str(), None);
        proof {
            seq_view_push(self.transactions@, transaction);
        }
        self.transactions.push(transaction);
        self.touch();
    }

    /// The place of the first line under an identifier, or the number of
    /// lines.
    fn line_index(&self, line_item_id: &String) -> (i: usize)
        ensures
            i == position(self@.line_items, line_item_id@),
            i <= self.line_items.len(),
    {
        let mut i: usize = 0;
        while i < self.line_items.len()
            invariant
                i <= self.line_items.len(),
                forall|j: int| 0 <= j < i ==> seq_view(self.line_items@)[j].key() != line_item_id@,
            decreases self.line_items.len() - i,
        {
            if self.line_items[i].id == *line_item_id {
                proof {
                    position_is(self@.line_items, line_item_id@, i as int);
                }
                return i;
            }
            i += 1;
        }
        proof {
            position_is(self@.line_items, line_item_id@, i as int);
        }
        i
    }

    /// Adds a shipment: counts its items as fulfilled on their lines and
    /// sets the fulfillment status after them.
    pub fn add_shipment(&mut self, shipment: Shipment)
        ensures
            final(self)@ == old(self)@.with_shipment(
                shipment@,
                final(self)@.history.last().created_at,
            ),
    {
        let ghost before = self@;
        let ghost shipped = shipment@.items;
        let mut i: usize = 0;
        while i < shipment.items.len()
            invariant
                i <= shipment.items.len(),
                shipped == seq_view(shipment.items@),
                self@ == (OrderView {
                    line_items: fulfilled(before.line_items, shipped, i as nat),
                    ..before
                }),
            decreases shipment.items.len() - i,
        {
            let ship_item = &shipment.items[i];
            proof {
                position_found(self@.line_items, ship_item@.line_item_id);
            }
            let at = self.line_index(&ship_item.line_item_id);
            if at < self.line_items.len() {
                let mut line = self.line_items[at].clone();
                line.quantity_fulfilled = line.quantity_fulfilled.saturating_add(
                    ship_item.quantity,
                );
                proof {
                    seq_view_update(self.line_items@, at as int, line);
                }
                self.line_items[at] = line;
            }
            i += 1;
        }
        let (total_items, fulfilled_items) = count_units(&self.line_items);
        self.fulfillment_status = if fulfilled_items == 0 {
            FulfillmentStatus::Unfulfilled
        } else if fulfilled_items >= total_items {
            FulfillmentStatus::Fulfilled
        } else {
            FulfillmentStatus::PartiallyFulfilled
        };
        let named = joined("Shipment ", shipment.id.as_str());
        let description = joined(named.as_str(), " created");
        self.add_history_event(OrderEventType::Shipped, description.as_str(), None);
        proof {
            seq_view_push(self.shipments@, shipment);
        }
        self.shipments.push(shipment);
        self.touch();
    }

    /// Adds a note.
    pub fn add_note(&mut self, note: OrderNote)
        ensures
            final(self)@ == old(self)@.with_note(note@, final(self)@.history.last().created_at),
    {
        self.add_history_event(OrderEventType::NoteAdded, "Note added", Some(note.author.clone()));
        proof {
            seq_view_push(self.notes@, note);
        }
        self.notes.push(note);
        self.touch();
    }

    /// Whether order can be cancelled.
    pub fn can_cancel(&self) -> (r: bool)
        ensures
            r == self@.status.cancellable(),
    {
        self.status.is_cancellable()
    }

    /// Whether order can be refunded: its status allows it, and more was
    /// paid than refunded.
    pub fn can_refund(&self) -> (r: bool)
        ensures
            r == (self@.status.refundable() && self@.totals.amount_paid
                > self@.totals.amount_refunded),
    {
        self.status.is_refundable() && self.totals.amount_paid > self.totals.amount_refunded
    }

    /// Maximum refundable amount: what was paid less what was refunded,
    /// but not less than nothing.
    pub fn max_refund_amount(&self) -> (r: u64)
        ensures
            r == capped(self@.totals.amount_paid - self@.totals.amount_refunded),
    {
        self.totals.amount_paid.saturating_sub(self.totals.amount_refunded)
    }

    /// Updates timestamp.
    fn touch(&mut self)
        ensures
            final(self)@ == old(self)@,
    {
        self.updated_at = unix_seconds();
    }
}

} // verus!
