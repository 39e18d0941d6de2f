//! The operations of the order service.

use crate::clock::unix_seconds;
use crate::errors::{fails_with, CommerceError, CommerceErrorView};
use crate::implementation::cart_system::cart::{Cart, CartView};
use crate::implementation::order_management::types::basic_types::{
    OrderCustomerId, OrderId, OrderStatus,
};
use crate::implementation::order_management::types::main_order_types::{Order, OrderView};
use crate::implementation::order_management::types::order_types::{OrderNote, OrderNoteView};
use crate::implementation::order_management::types::service_types::{
    CustomerOrders, CustomerOrdersView, OrderFilter, OrderService,
};
use crate::keyed::{
    distinct, find, found_under, position, position_found, position_is, put, put_keeps_distinct,
    Keyed,
};
use crate::ordering::{slot_by, sorted_by_len, sorted_by_of_prefix};
use crate::recency::{newer_first, newest_first};
use crate::text::{decimal, joined, numbered};
use crate::views::{
    clone_vec, filter_take_next, filter_take_none, opt_view, seq_view, seq_view_insert,
    seq_view_push, seq_view_update, take_all,
};
use vstd::prelude::*;

verus! {

/// The model of the order service: the orders, for every customer the
/// identifiers of the orders they placed, and the number of the next order.
pub ghost struct OrdersView {
    pub orders: Seq<OrderView>,
    pub by_customer: Seq<CustomerOrdersView>,
    pub next_number: u64,
}

/// The number of the first order of a service.
pub const FIRST_ORDER_NUMBER: u64 = 1000;

/// Selects the orders that pass a filter.
pub open spec fn admitted(filter: OrderFilter) -> spec_fn(OrderView) -> bool {
    |order: OrderView| filter.admits(order)
}

impl OrdersView {
    /// The invariant of the service: at most one order under an identifier,
    /// and at most one list of orders for a customer.
    pub open spec fn wf(self) -> bool {
        distinct(self.orders) && distinct(self.by_customer)
    }

    /// The identifiers of the orders that a customer placed.
    pub open spec fn orders_of(self, customer_id: Seq<char>) -> Seq<Seq<char>> {
        match find(self.by_customer, customer_id) {
            Some(entry) => entry.order_ids,
            None => Seq::empty(),
        }
    }

    /// The number after the next: one more, but not beyond the bound of
    /// `u64`.
    pub open spec fn following_number(self) -> u64 {
        if self.next_number < u64::MAX {
            (self.next_number + 1) as u64
        } else {
            self.next_number
        }
    }

    /// The service after an order was placed.
    pub open spec fn with_new_order(self, order: OrderView) -> OrdersView {
        OrdersView {
            orders: put(self.orders, order),
            by_customer: put(
                self.by_customer,
                CustomerOrdersView {
                    customer_id: order.customer_id,
                    order_ids: self.orders_of(order.customer_id).push(order.id),
                },
            ),
            next_number: self.following_number(),
        }
    }

    /// Whether the service `after` and the outcome `r` are what creating an
    /// order of a cart at the time `now` gives: the obstacle to the
    /// checkout with nothing changed, or else an order made of the cart
    /// that carries the next number and is stored for its customer.
    pub open spec fn created(
        self,
        cart: CartView,
        customer_email: Seq<char>,
        tax_total: u64,
        line_taxes: Seq<u64>,
        now: u64,
        after: OrdersView,
        r: Result<Order, CommerceError>,
    ) -> bool {
        match cart.checkout_obstacle(now) {
            Some(e) => after == self && fails_with(r, e),
            None => {
                &&& r is Ok
                &&& r->Ok_0@ == (OrderView {
                    order_number: "#"@ + decimal(self.next_number as nat),
                    ..OrderView::of_cart(
                        cart,
                        customer_email,
                        tax_total,
                        line_taxes,
                        r->Ok_0@.id,
                        r->Ok_0@.created_at,
                        r->Ok_0@.history[0].created_at,
                    )
                })
                &&& after == self.with_new_order(r->Ok_0@)
            },
        }
    }
}

impl OrderView {
    /// The order after it was cancelled for a reason: its status changed to
    /// cancelled at the time `changed_at`, and the system left an internal
    /// note of the reason, written at `noted_at` and entered in the history
    /// at `entered_at`.
    pub open spec fn cancelled(self, reason: Seq<char>, changed_at: u64, noted_at: u64, entered_at: u64)
        -> Self {
        self.with_status(OrderStatus::Cancelled, None, changed_at).with_note(
            OrderNoteView::written("Order cancelled: "@ + reason, "System"@, false, noted_at),
            entered_at,
        )
    }
}

impl View for OrderService {
    type V = OrdersView;

    closed spec fn view(&self) -> OrdersView {
        OrdersView {
            orders: seq_view(self.orders@),
            by_customer: seq_view(self.orders_by_customer@),
            next_number: self.order_counter,
        }
    }
}

impl OrderService {
    #[verifier::type_invariant]
    spec fn inv(&self) -> bool {
        self@.wf()
    }

    /// Creates a new order service.
    pub fn new() -> (r: Self)
        ensures
            r@ == (OrdersView {
                orders: Seq::empty(),
                by_customer: Seq::empty(),
                next_number: FIRST_ORDER_NUMBER,
            }),
            r@.wf(),
    {
        let orders: Vec<Order> = Vec::new();
        let orders_by_customer: Vec<CustomerOrders> = Vec::new();
        assert(seq_view(orders@) =~= Seq::<OrderView>::empty());
        assert(seq_view(orders_by_customer@) =~= Seq::<CustomerOrdersView>::empty());
        OrderService { orders, orders_by_customer, order_counter: FIRST_ORDER_NUMBER }
    }

    /// Generates next order number.
    fn next_order_number(&mut self) -> (n: u64)
        ensures
            n == old(self)@.next_number,
            final(self)@ == (OrdersView {
                next_number: old(self)@.following_number(),
                ..old(self)@
            }),
    {
        proof {
            use_type_invariant(&*self);
        }
        let n = self.order_counter;
        if n < u64::MAX {
            self.order_counter = n + 1;
        }
        n
    }

    /// The place of the order `id` in the table, or the table's length.
    fn order_index(&self, id: &OrderId) -> (i: usize)
        ensures
            i == position(self@.orders, id@),
            i <= self.orders.len(),
    {
        let mut i: usize = 0;
        while i < self.orders.len()
            invariant
                i <= self.orders.len(),
                forall|j: int| 0 <= j < i ==> seq_view(self.orders@)[j].key() != id@,
            decreases self.orders.len() - i,
        {
            if self.orders[i].id == *id {
                proof {
                    position_is(self@.orders, id@, i as int);
                }
                return i;
            }
            i += 1;
        }
        proof {
            position_is(self@.orders, id@, i as int);
        }
        i
    }

    /// The place of the customer's list in the index, or the index's length.
    fn customer_index(&self, id: &OrderCustomerId) -> (i: usize)
        ensures
            i == position(self@.by_customer, id@),
            i <= self.orders_by_customer.len(),
    {
        let mut i: usize = 0;
        while i < self.orders_by_customer.len()
            invariant
                i <= self.orders_by_customer.len(),
                forall|j: int| 0 <= j < i ==> seq_view(self.orders_by_customer@)[j].key() != id@,
            decreases self.orders_by_customer.len() - i,
        {
            if self.orders_by_customer[i].customer_id == *id {
                proof {
                    position_is(self@.by_customer, id@, i as int);
                }
                return i;
            }
            i += 1;
        }
        proof {
            position_is(self@.by_customer, id@, i as int);
        }
        i
    }

    /// Puts an order in the table, in the place of the one under its
    /// identifier if there is one.
    fn store(&mut self, order: Order)
        ensures
            final(self)@ == (OrdersView { orders: put(old(self)@.orders, order@), ..old(self)@ }),
    {
        proof {
            use_type_invariant(&*self);
            position_found(self@.orders, order@.key());
            put_keeps_distinct(self@.orders, order@);
        }
        let i = self.order_index(&order.id);
        let mut orders: Vec<Order> = Vec::new();
        core::mem::swap(&mut self.orders, &mut orders);
        if i < orders.len() {
            proof {
                seq_view_update(orders@, i as int, order);
            }
            orders[i] = order;
        } else {
            proof {
                seq_view_push(orders@, order);
            }
            orders.push(order);
        }
        self.orders = orders;
    }

    /// Enters an order in the list of its customer.
    fn enlist(&mut self, customer_id: OrderCustomerId, order_id: OrderId)
        ensures
            final(self)@ == (OrdersView {
                by_customer: put(
                    old(self)@.by_customer,
                    CustomerOrdersView {
                        customer_id: customer_id@,
                        order_ids: old(self)@.orders_of(customer_id@).push(order_id@),
                    },
                ),
                ..old(self)@
            }),
    {
        proof {
            use_type_invariant(&*self);
            position_found(self@.by_customer, customer_id@);
        }
        let i = self.customer_index(&customer_id);
        let mut index: Vec<CustomerOrders> = Vec::new();
        core::mem::swap(&mut self.orders_by_customer, &mut index);
        if i < index.len() {
            let mut order_ids = clone_vec(&index[i].order_ids);
            proof {
                seq_view_push(order_ids@, order_id);
            }
            order_ids.push(order_id);
            let entry = CustomerOrders { customer_id, order_ids };
            proof {
                put_keeps_distinct(seq_view(index@), entry@);
                seq_view_update(index@, i as int, entry);
            }
            index[i] = entry;
        } else {
            let mut order_ids: Vec<OrderId> = Vec::new();
            order_ids.push(order_id);
            let entry = CustomerOrders { customer_id, order_ids };
            proof {
                assert(entry@.order_ids =~= Seq::<Seq<char>>::empty().push(order_id@));
                put_keeps_distinct(seq_view(index@), entry@);
                seq_view_push(index@, entry);
            }
            index.push(entry);
        }
        self.orders_by_customer = index;
    }

    /// Creates an order from a cart, given the tax due on the cart and on
    /// each of its items.
    ///
    /// Fails without any change when the cart does not pass the validation
    /// for checkout by the clock. Otherwise the order carries the next
    /// order number and is stored for its customer.
    pub fn create_order(
        &mut self,
        cart: &Cart,
        customer_email: &str,
        tax_total: u64,
        line_taxes: &Vec<u64>,
    ) -> (r: Result<Order, CommerceError>)
        ensures
            final(self)@.wf(),
            exists|now: u64|
                old(self)@.created(
                    cart@,
                    customer_email@,
                    tax_total,
                    line_taxes@,
                    now,
                    final(self)@,
                    r,
                ),
    {
        proof {
            use_type_invariant(&*self);
        }
        let ghost before = self@;
        let now = unix_seconds();
        match cart.validate_for_checkout_at(now) {
            Ok(()) => {},
            Err(e) => {
                let r = Err(e);
                assert(before.created(
                    cart@,
                    customer_email@,
                    tax_total,
                    line_taxes@,
                    now,
                    self@,
                    r,
                ));
                return r;
            },
        }
        let mut order = Order::from_cart(cart, customer_email, tax_total, line_taxes);
        order.order_number = numbered("#", self.next_order_number());
        self.store(order.clone());
        self.enlist(order.customer_id.clone(), order.id.clone());
        proof {
            use_type_invariant(&*self);
        }
        let r = Ok(order);
        assert(before.created(cart@, customer_email@, tax_total, line_taxes@, now, self@, r));
        r
    }

    /// Gets an order by ID.
    pub fn get_order(&self, id: &OrderId) -> (r: Result<Order, CommerceError>)
        ensures
            self@.wf(),
            match find(self@.orders, id@) {
                Some(order) => r is Ok && r->Ok_0@ == order,
                None => fails_with(r, CommerceErrorView::OrderNotFound(id@)),
            },
    {
        proof {
            use_type_invariant(self);
        }
        let i = self.order_index(id);
        if i < self.orders.len() {
            Ok(self.orders[i].clone())
        } else {
            Err(CommerceError::OrderNotFound(id.0.clone()))
        }
    }

    /// Where an order enters the list: behind every order that is as new.
    fn slot_in(orders: &Vec<Order>, order: &Order) -> (at: usize)
        ensures
            at == slot_by(seq_view(orders@), order@, newer_first(), 0),
            at <= orders.len(),
    {
        let mut at: usize = 0;
        while at < orders.len() && orders[at].created_at >= order.created_at
            invariant
                at <= orders.len(),
                slot_by(seq_view(orders@), order@, newer_first(), 0) == slot_by(
                    seq_view(orders@),
                    order@,
                    newer_first(),
                    at as int,
                ),
            decreases orders.len() - at,
        {
            at += 1;
        }
        at
    }

    /// Gets orders for a customer, from the newest to the oldest; those
    /// created in the same second stay in the order in which they were
    /// placed.
    pub fn get_customer_orders(&self, customer_id: &OrderCustomerId) -> (r: Result<
        Vec<Order>,
        CommerceError,
    >)
        ensures
            self@.wf(),
            r is Ok,
            ({
                let placed = found_under(
                    self@.orders,
                    self@.orders_of(customer_id@),
                    self@.orders_of(customer_id@).len(),
                );
                seq_view(r->Ok_0@) == newest_first(placed, placed.len())
            }),
    {
        proof {
            use_type_invariant(self);
            position_found(self@.by_customer, customer_id@);
        }
        let mut customer_orders: Vec<Order> = Vec::new();
        assert(seq_view(customer_orders@) =~= Seq::<OrderView>::empty());
        let c = self.customer_index(customer_id);
        if c >= self.orders_by_customer.len() {
            return Ok(customer_orders);
        }
        let ids = &self.orders_by_customer[c].order_ids;
        let ghost names = self@.orders_of(customer_id@);
        assert(names == seq_view(ids@));
        let mut i: usize = 0;
        while i < ids.len()
            invariant
                i <= ids.len(),
                names == seq_view(ids@),
                seq_view(customer_orders@) == newest_first(
                    found_under(self@.orders, names, i as nat),
                    found_under(self@.orders, names, i as nat).len(),
                ),
            decreases ids.len() - i,
        {
            let ghost placed = found_under(self@.orders, names, i as nat);
            proof {
                position_found(self@.orders, names[i as int]);
                sorted_by_len(placed, newer_first(), placed.len());
            }
            let at = self.order_index(&ids[i]);
            if at < self.orders.len() {
                let order = self.orders[at].clone();
                let to = Self::slot_in(&customer_orders, &order);
                proof {
                    sorted_by_of_prefix(placed, placed.push(order@), newer_first(), placed.len());
                    seq_view_insert(customer_orders@, to as int, order);
                }
                customer_orders.insert(to, order);
            }
            i += 1;
        }
        Ok(customer_orders)
    }

    /// Updates an order: the order takes the place of the one under its
    /// identifier.
    ///
    /// Fails without any change when there is no order under the
    /// identifier.
    pub fn update_order(&mut self, order: Order) -> (r: Result<(), CommerceError>)
        ensures
            final(self)@.wf(),
            match find(old(self)@.orders, order@.id) {
                Some(_) => r is Ok && final(self)@ == (OrdersView {
                    orders: put(old(self)@.orders, order@),
                    ..old(self)@
                }),
                None => final(self)@ == old(self)@ && fails_with(
                    r,
                    CommerceErrorView::OrderNotFound(order@.id),
                ),
            },
    {
        proof {
            use_type_invariant(&*self);
        }
        if self.order_index(&order.id) >= self.orders.len() {
            return Err(CommerceError::OrderNotFound(order.id.0.clone()));
        }
        self.store(order);
        proof {
            use_type_invariant(&*self);
        }
        Ok(())
    }

    /// Updates order status.
    ///
    /// Fails without any change when there is no order under the
    /// identifier.
    pub fn update_order_status(
        &mut self,
        order_id: &OrderId,
        status: OrderStatus,
        user: Option<String>,
    ) -> (r: Result<(), CommerceError>)
        ensures
            final(self)@.wf(),
            match find(old(self)@.orders, order_id@) {
                Some(order) => r is Ok && exists|now: u64|
                    final(self)@ == (OrdersView {
                        orders: put(
                            old(self)@.orders,
                            #[trigger] order.with_status(status, opt_view(user), now),
                        ),
                        ..old(self)@
                    }),
                None => final(self)@ == old(self)@ && fails_with(
                    r,
                    CommerceErrorView::OrderNotFound(order_id@),
                ),
            },
    {
        proof {
            use_type_invariant(&*self);
            position_found(self@.orders, order_id@);
        }
        let i = self.order_index(order_id);
        if i >= self.orders.len() {
            return Err(CommerceError::OrderNotFound(order_id.0.clone()));
        }
        let mut order = self.orders[i].clone();
        let ghost before = order@;
        let ghost who = opt_view(user);
        order.update_status(status, user);
        assert(order@ == before.with_status(status, who, order.updated_at));
        self.store(order);
        proof {
            use_type_invariant(&*self);
        }
        Ok(())
    }

    /// Cancels an order: its status changes to cancelled, and the system
    /// leaves an internal note of the reason.
    ///
    /// Fails without any change when there is no order under the
    /// identifier, or when the order's status does not allow it.
    pub fn cancel_order(&mut self, order_id: &OrderId, reason: &str) -> (r: Result<
        (),
        CommerceError,
    >)
        ensures
            final(self)@.wf(),
            match find(old(self)@.orders, order_id@) {
                None => final(self)@ == old(self)@ && fails_with(
                    r,
                    CommerceErrorView::OrderNotFound(order_id@),
                ),
                Some(order) => if !order.status.cancellable() {
                    final(self)@ == old(self)@ && fails_with(
                        r,
                        CommerceErrorView::OrderNotCancellable(order_id@),
                    )
                } else {
                    r is Ok && exists|changed_at: u64, noted_at: u64, entered_at: u64|
                        final(self)@ == (OrdersView {
                            orders: put(
                                old(self)@.orders,
                                #[trigger] order.cancelled(
                                    reason@,
                                    changed_at,
                                    noted_at,
                                    entered_at,
                                ),
                            ),
                            ..old(self)@
                        })
                },
            },
    {
        proof {
            use_type_invariant(&*self);
            position_found(self@.orders, order_id@);
        }
        let i = self.order_index(order_id);
        if i >= self.orders.len() {
            return Err(CommerceError::OrderNotFound(order_id.0.clone()));
        }
        if !self.orders[i].can_cancel() {
            return Err(CommerceError::OrderNotCancellable(order_id.0.clone()));
        }
        let mut order = self.orders[i].clone();
        let ghost before = order@;
        order.update_status(OrderStatus::Cancelled, None);
        let ghost changed_at = order.updated_at;
        let text = joined("Order cancelled: ", reason);
        let note = OrderNote::internal(text.as_str(), "System");
        let ghost noted_at = note.created_at;
        order.add_note(note);
        assert(order@ == before.cancelled(
            reason@,
            changed_at,
            noted_at,
            order@.history.last().created_at,
        ));
        self.store(order);
        proof {
            use_type_invariant(&*self);
        }
        Ok(())
    }

    /// Searches orders: those that pass the filter, in the order in which
    /// they were placed.
    pub fn search_orders(&self, filter: &OrderFilter) -> (r: Result<Vec<Order>, CommerceError>)
        ensures
            self@.wf(),
            r is Ok,
            seq_view(r->Ok_0@) == self@.orders.filter(admitted(*filter)),
    {
        let ghost pick = admitted(*filter);
        proof {
            use_type_invariant(self);
            filter_take_none(self@.orders, pick);
        }
        let mut found: Vec<Order> = Vec::new();
        assert(seq_view(found@) =~= Seq::<OrderView>::empty());
        let mut i: usize = 0;
        while i < self.orders.len()
            invariant
                i <= self.orders.len(),
                pick == admitted(*filter),
                seq_view(found@) == self@.orders.take(i as int).filter(pick),
            decreases self.orders.len() - i,
        {
            proof {
                filter_take_next(self@.orders, pick, i as int);
            }
            if self.matches_filter(&self.orders[i], filter) {
                let order = self.orders[i].clone();
                proof {
                    seq_view_push(found@, order);
                }
                found.push(order);
            }
            i += 1;
        }
        proof {
            take_all(self@.orders);
        }
        Ok(found)
    }

    /// Checks if an order matches a filter.
    pub fn matches_filter(&self, order: &Order, filter: &OrderFilter) -> (r: bool)
        ensures
            r == filter.admits(order@),
    {
        if let Some(status) = filter.status {
            if order.status != status {
                return false;
            }
        }
        if let Some(payment_status) = filter.payment_status {
            if order.payment_status != payment_status {
                return false;
            }
        }
        if let Some(fulfillment_status) = filter.fulfillment_status {
            if order.fulfillment_status != fulfillment_status {
                return false;
            }
        }
        if let Some(min_total) = filter.min_total {
            if order.totals.grand_total < min_total {
                return false;
            }
        }
        if let Some(max_total) = filter.max_total {
            if order.totals.grand_total > max_total {
                return false;
            }
        }
        if let Some(from) = filter.created_from {
            if order.created_at < from {
                return false;
            }
        }
        if let Some(to) = filter.created_to {
            if order.created_at > to {
                return false;
            }
        }
        true
    }
}

impl Default for OrderService {
    fn default() -> (r: Self)
        ensures
            r@.wf(),
    {
        OrderService::new()
    }
}

} // verus!
