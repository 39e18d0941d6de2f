//! The cart service: the carts of all customers.

use crate::clock::unix_seconds;
use crate::errors::{fails_with, CommerceError, CommerceErrorView};
use crate::implementation::cart_system::cart::{Cart, CartView};
use crate::implementation::cart_system::item::{CartItem, CartItemView};
use crate::implementation::cart_system::types::{CartId, CartStatus, CustomerId};
use crate::keyed::{
    distinct, filter_keeps_distinct, find, find_after_put, position, position_found, position_is,
    put, put_keeps_distinct, Keyed,
};
use crate::quantity::{capped, capped_u32, saturating_mul_u64};
use crate::views::{
    clone_vec, filter_take_next, filter_take_none, seq_view, seq_view_push, seq_view_update,
    take_all,
};
use vstd::prelude::*;

verus! {

impl Keyed for CartView {
    type Key = Seq<char>;

    open spec fn key(self) -> Seq<char> {
        self.id
    }
}

/// The carts that were created for a customer, oldest first.
#[derive(Debug)]
pub struct CustomerCarts {
    /// The customer.
    pub customer_id: CustomerId,
    /// The identifiers of the carts.
    pub cart_ids: Vec<CartId>,
}

/// The model of a [`CustomerCarts`].
pub ghost struct CustomerCartsView {
    pub customer_id: Seq<char>,
    pub cart_ids: Seq<Seq<char>>,
}

impl View for CustomerCarts {
    type V = CustomerCartsView;

    open spec fn view(&self) -> CustomerCartsView {
        CustomerCartsView {
            customer_id: self.customer_id@,
            cart_ids: seq_view(self.cart_ids@),
        }
    }
}

impl Clone for CustomerCarts {
    fn clone(&self) -> (r: Self)
        ensures
            r@ == self@,
    {
        CustomerCarts {
            customer_id: self.customer_id.clone(),
            cart_ids: clone_vec(&self.cart_ids),
        }
    }
}

impl Keyed for CustomerCartsView {
    type Key = Seq<char>;

    open spec fn key(self) -> Seq<char> {
        self.customer_id
    }
}

/// The model of the cart service: the carts, and for every customer the
/// identifiers of the carts created for them.
pub ghost struct CartsView {
    pub carts: Seq<CartView>,
    pub by_customer: Seq<CustomerCartsView>,
}

impl CartsView {
    /// The invariant of the service: at most one cart under an identifier,
    /// and at most one list of carts for a customer.
    pub open spec fn wf(self) -> bool {
        distinct(self.carts) && distinct(self.by_customer)
    }

    /// The identifiers of the carts created for a customer.
    pub open spec fn carts_of(self, customer_id: Seq<char>) -> Seq<Seq<char>> {
        match find(self.by_customer, customer_id) {
            Some(entry) => entry.cart_ids,
            None => Seq::empty(),
        }
    }

    /// The service after a cart was created for its customer.
    pub open spec fn with_new_cart(self, cart: CartView) -> CartsView {
        CartsView {
            carts: put(self.carts, cart),
            by_customer: put(
                self.by_customer,
                CustomerCartsView {
                    customer_id: cart.customer_id,
                    cart_ids: self.carts_of(cart.customer_id).push(cart.id),
                },
            ),
        }
    }
}

/// Whether a cart can still be shopped with at the time `now`.
pub open spec fn usable(cart: CartView, now: u64) -> bool {
    cart.status == CartStatus::Active && !cart.expired_at(now)
}

/// The cart that was active last among the first `n` of the carts named:
/// of the usable ones the one with the latest activity, and of several with
/// the same activity time the one named last.
pub open spec fn latest_usable(carts: Seq<CartView>, ids: Seq<Seq<char>>, now: u64, n: nat)
    -> Option<CartView>
    decreases n,
{
    if n == 0 {
        None
    } else {
        let best = latest_usable(carts, ids, now, (n - 1) as nat);
        match find(carts, ids[n - 1]) {
            Some(cart) => if usable(cart, now) && (best is None || cart.last_activity_at
                >= best->Some_0.last_activity_at) {
                Some(cart)
            } else {
                best
            },
            None => best,
        }
    }
}

/// The items of a cart after the first `n` of the incoming items were taken
/// in: an item of a product that is in the cart raises the quantity there,
/// up to the bound of `u32`; another is added at the end.
pub open spec fn absorbed(items: Seq<CartItemView>, incoming: Seq<CartItemView>, n: nat) -> Seq<
    CartItemView,
>
    decreases n,
{
    if n == 0 {
        items
    } else {
        let so_far = absorbed(items, incoming, (n - 1) as nat);
        let item = incoming[n - 1];
        let at = position(so_far, item.product_id);
        if at < so_far.len() {
            so_far.update(
                at,
                CartItemView {
                    quantity: capped_u32(so_far[at].quantity + item.quantity),
                    ..so_far[at]
                },
            )
        } else {
            so_far.push(item)
        }
    }
}

/// The carts with the one under `id`, if there is one, marked as merged.
pub open spec fn marked_merged(carts: Seq<CartView>, id: Seq<char>) -> Seq<CartView> {
    match find(carts, id) {
        Some(cart) => put(carts, CartView { status: CartStatus::Merged, ..cart }),
        None => carts,
    }
}

/// Selects the carts that a cleanup at the time `now` keeps: those that
/// were active within `max_age_secs`, and those that are neither converted
/// nor merged nor expired.
pub open spec fn kept_by_cleanup(now: u64, max_age_secs: u64) -> spec_fn(CartView) -> bool {
    |cart: CartView|
        !(capped(now - cart.last_activity_at) > max_age_secs) || !(cart.status
            == CartStatus::Converted || cart.status == CartStatus::Merged || cart.status
            == CartStatus::Expired)
}

/// Cart management service.
#[derive(Debug)]
pub struct CartService {
    /// The carts, at most one under an identifier.
    carts: Vec<Cart>,
    /// The carts of every customer, at most one list for a customer.
    carts_by_customer: Vec<CustomerCarts>,
}

impl View for CartService {
    type V = CartsView;

    closed spec fn view(&self) -> CartsView {
        CartsView {
            carts: seq_view(self.carts@),
            by_customer: seq_view(self.carts_by_customer@),
        }
    }
}

impl CartService {
    #[verifier::type_invariant]
    spec fn inv(&self) -> bool {
        self@.wf()
    }

    /// Creates a new cart service.
    pub fn new() -> (r: Self)
        ensures
            r@ == (CartsView { carts: Seq::empty(), by_customer: Seq::empty() }),
            r@.wf(),
    {
        let carts: Vec<Cart> = Vec::new();
        let carts_by_customer: Vec<CustomerCarts> = Vec::new();
        assert(seq_view(carts@) =~= Seq::<CartView>::empty());
        assert(seq_view(carts_by_customer@) =~= Seq::<CustomerCartsView>::empty());
        CartService { carts, carts_by_customer }
    }

    /// The place of the cart `id` in the table, or the table's length.
    fn cart_index(&self, id: &CartId) -> (i: usize)
        ensures
            i == position(self@.carts, id@),
            i <= self.carts.len(),
    {
        let mut i: usize = 0;
        while i < self.carts.len()
            invariant
                i <= self.carts.len(),
                forall|j: int| 0 <= j < i ==> seq_view(self.carts@)[j].key() != id@,
            decreases self.carts.len() - i,
        {
            if self.carts[i].id == *id {
                proof {
                    position_is(self@.carts, id@, i as int);
                }
                return i;
            }
            i += 1;
        }
        proof {
            position_is(self@.carts, id@, i as int);
        }
        i
    }

    /// The place of the customer's list in the index, or the index's length.
    fn customer_index(&self, id: &CustomerId) -> (i: usize)
        ensures
            i == position(self@.by_customer, id@),
            i <= self.carts_by_customer.len(),
    {
        let mut i: usize = 0;
        while i < self.carts_by_customer.len()
            invariant
                i <= self.carts_by_customer.len(),
                forall|j: int| 0 <= j < i ==> seq_view(self.carts_by_customer@)[j].key() != id@,
            decreases self.carts_by_customer.len() - i,
        {
            if self.carts_by_customer[i].customer_id == *id {
                proof {
                    position_is(self@.by_customer, id@, i as int);
                }
                return i;
            }
            i += 1;
        }
        proof {
            position_is(self@.by_customer, id@, i as int);
        }
        i
    }

    /// Puts a cart in the table, in the place of the one under its
    /// identifier if there is one.
    fn store(&mut self, cart: Cart)
        ensures
            final(self)@ == (CartsView { carts: put(old(self)@.carts, cart@), ..old(self)@ }),
    {
        proof {
            use_type_invariant(&*self);
            position_found(self@.carts, cart@.key());
            put_keeps_distinct(self@.carts, cart@);
        }
        let i = self.cart_index(&cart.id);
        let mut carts: Vec<Cart> = Vec::new();
        core::mem::swap(&mut self.carts, &mut carts);
        if i < carts.len() {
            proof {
                seq_view_update(carts@, i as int, cart);
            }
            carts[i] = cart;
        } else {
            proof {
                seq_view_push(carts@, cart);
            }
            carts.push(cart);
        }
        self.carts = carts;
    }

    /// Enters a cart in the list of its customer.
    fn enlist(&mut self, customer_id: CustomerId, cart_id: CartId)
        ensures
            final(self)@ == (CartsView {
                by_customer: put(
                    old(self)@.by_customer,
                    CustomerCartsView {
                        customer_id: customer_id@,
                        cart_ids: old(self)@.carts_of(customer_id@).push(cart_id@),
                    },
                ),
                ..old(self)@
            }),
    {
        proof {
            use_type_invariant(&*self);
            position_found(self@.by_customer, customer_id@);
        }
        let i = self.customer_index(&customer_id);
        let mut index: Vec<CustomerCarts> = Vec::new();
        core::mem::swap(&mut self.carts_by_customer, &mut index);
        if i < index.len() {
            let mut cart_ids = clone_vec(&index[i].cart_ids);
            proof {
                seq_view_push(cart_ids@, cart_id);
            }
            cart_ids.push(cart_id);
            let entry = CustomerCarts { customer_id, cart_ids };
            proof {
                put_keeps_distinct(seq_view(index@), entry@);
                seq_view_update(index@, i as int, entry);
            }
            index[i] = entry;
        } else {
            let mut cart_ids: Vec<CartId> = Vec::new();
            cart_ids.push(cart_id);
            let entry = CustomerCarts { customer_id, cart_ids };
            proof {
                assert(entry@.cart_ids =~= Seq::<Seq<char>>::empty().push(cart_id@));
                put_keeps_distinct(seq_view(index@), entry@);
                seq_view_push(index@, entry);
            }
            index.push(entry);
        }
        self.carts_by_customer = index;
    }

    /// Creates a new cart for a customer.
    pub fn create_cart(&mut self, customer_id: CustomerId) -> (r: Result<Cart, CommerceError>)
        ensures
            final(self)@.wf(),
            r is Ok,
            r->Ok_0@ == CartView::fresh(r->Ok_0@.id, customer_id@, r->Ok_0@.created_at),
            final(self)@ == old(self)@.with_new_cart(r->Ok_0@),
    {
        let cart = Cart::new(customer_id.clone());
        self.store(cart.clone());
        self.enlist(customer_id, cart.id.clone());
        proof {
            use_type_invariant(&*self);
        }
        Ok(cart)
    }

    /// Gets a cart by ID.
    pub fn get_cart(&self, id: &CartId) -> (r: Result<Cart, CommerceError>)
        ensures
            self@.wf(),
            match find(self@.carts, id@) {
                Some(cart) => r is Ok && r->Ok_0@ == cart,
                None => fails_with(r, CommerceErrorView::CartNotFound(id@)),
            },
    {
        proof {
            use_type_invariant(self);
        }
        let i = self.cart_index(id);
        if i < self.carts.len() {
            Ok(self.carts[i].clone())
        } else {
            Err(CommerceError::CartNotFound(id.to_string()))
        }
    }

    /// Gets the cart that a customer can shop with at the time `now`: of
    /// their active carts that have not expired the one with the latest
    /// activity.
    pub fn get_customer_cart_at(&self, customer_id: &CustomerId, now: u64) -> (r: Result<
        Option<Cart>,
        CommerceError,
    >)
        ensures
            self@.wf(),
            r is Ok,
            match latest_usable(
                self@.carts,
                self@.carts_of(customer_id@),
                now,
                self@.carts_of(customer_id@).len(),
            ) {
                Some(cart) => r->Ok_0 is Some && r->Ok_0->Some_0@ == cart,
                None => r->Ok_0 is None,
            },
    {
        proof {
            use_type_invariant(self);
            position_found(self@.by_customer, customer_id@);
        }
        let c = self.customer_index(customer_id);
        if c >= self.carts_by_customer.len() {
            return Ok(None);
        }
        let ids = &self.carts_by_customer[c].cart_ids;
        let ghost names = self@.carts_of(customer_id@);
        assert(names == seq_view(ids@));
        let mut best: Option<usize> = None;
        let mut i: usize = 0;
        while i < ids.len()
            invariant
                i <= ids.len(),
                names == seq_view(ids@),
                match latest_usable(self@.carts, names, now, i as nat) {
                    Some(cart) => best is Some && best->Some_0 < self.carts.len()
                        && self.carts@[best->Some_0 as int]@ == cart,
                    None => best is None,
                },
            decreases ids.len() - i,
        {
            proof {
                position_found(self@.carts, names[i as int]);
            }
            let at = self.cart_index(&ids[i]);
            if at < self.carts.len() {
                let cart = &self.carts[at];
                if cart.status == CartStatus::Active && !cart.is_expired_at(now) {
                    let newer = match best {
                        Some(b) => cart.last_activity_at >= self.carts[b].last_activity_at,
                        None => true,
                    };
                    if newer {
                        best = Some(at);
                    }
                }
            }
            i += 1;
        }
        match best {
            Some(b) => Ok(Some(self.carts[b].clone())),
            None => Ok(None),
        }
    }

    /// Gets the cart that a customer can shop with by the clock.
    pub fn get_customer_cart(&self, customer_id: &CustomerId) -> (r: Result<
        Option<Cart>,
        CommerceError,
    >)
        ensures
            self@.wf(),
            r is Ok,
            exists|now: u64| self@.offers(customer_id@, now, r->Ok_0),
    {
        let now = unix_seconds();
        let r = self.get_customer_cart_at(customer_id, now);
        assert(self@.offers(customer_id@, now, r->Ok_0));
        r
    }

    /// Gets or creates a cart for a customer.
    pub fn get_or_create_cart(&mut self, customer_id: CustomerId) -> (r: Result<Cart, CommerceError>)
        ensures
            final(self)@.wf(),
            r is Ok,
            exists|now: u64| old(self)@.got_or_created(customer_id@, now, final(self)@, r->Ok_0),
    {
        let now = unix_seconds();
        let ghost customer = customer_id@;
        let ghost before = self@;
        let found = self.get_customer_cart_at(&customer_id, now);
        let r = match found {
            Ok(Some(cart)) => Ok(cart),
            _ => self.create_cart(customer_id),
        };
        assert(before.got_or_created(customer, now, self@, r->Ok_0));
        r
    }

    /// Updates a cart: the cart takes the place of the one under its
    /// identifier.
    ///
    /// Fails without any change when there is no cart under the identifier.
    pub fn update_cart(&mut self, cart: Cart) -> (r: Result<(), CommerceError>)
        ensures
            final(self)@.wf(),
            match find(old(self)@.carts, cart@.id) {
                Some(_) => r is Ok && final(self)@ == (CartsView {
                    carts: put(old(self)@.carts, cart@),
                    ..old(self)@
                }),
                None => final(self)@ == old(self)@ && fails_with(
                    r,
                    CommerceErrorView::CartNotFound(cart@.id),
                ),
            },
    {
        proof {
            use_type_invariant(&*self);
        }
        if self.cart_index(&cart.id) >= self.carts.len() {
            return Err(CommerceError::CartNotFound(cart.id.to_string()));
        }
        self.store(cart);
        proof {
            use_type_invariant(&*self);
        }
        Ok(())
    }

    /// Merges the items of a guest cart into a cart of the customer, marks
    /// the guest cart as merged and stores the customer's cart.
    ///
    /// Fails without any change when there is no cart under the guest
    /// cart's identifier.
    pub fn merge_into(&mut self, guest_cart_id: &CartId, customer_cart: Cart) -> (r: Result<
        Cart,
        CommerceError,
    >)
        ensures
            final(self)@.wf(),
            match find(old(self)@.carts, guest_cart_id@) {
                None => final(self)@ == old(self)@ && fails_with(
                    r,
                    CommerceErrorView::CartNotFound(guest_cart_id@),
                ),
                Some(guest) => {
                    let merged = CartView {
                        items: absorbed(customer_cart@.items, guest.items, guest.items.len()),
                        ..customer_cart@
                    };
                    &&& r is Ok
                    &&& r->Ok_0@ == merged
                    &&& final(self)@ == (CartsView {
                        carts: put(marked_merged(old(self)@.carts, guest_cart_id@), merged),
                        ..old(self)@
                    })
                },
            },
    {
        proof {
            use_type_invariant(&*self);
            position_found(self@.carts, guest_cart_id@);
        }
        let g = self.cart_index(guest_cart_id);
        if g >= self.carts.len() {
            return Err(CommerceError::CartNotFound(guest_cart_id.to_string()));
        }
        let mut guest = self.carts[g].clone();
        let mut customer_cart = customer_cart;
        let ghost start = customer_cart@;
        let ghost incoming = guest@.items;
        let mut i: usize = 0;
        while i < guest.items.len()
            invariant
                i <= guest.items.len(),
                incoming == seq_view(guest.items@),
                customer_cart@ == (CartView {
                    items: absorbed(start.items, incoming, i as nat),
                    ..start
                }),
            decreases guest.items.len() - i,
        {
            let item = guest.items[i].clone();
            proof {
                position_found(customer_cart@.items, item@.product_id);
            }
            let at = Self::item_index(&customer_cart.items, &item);
            if at < customer_cart.items.len() {
                let mut existing = customer_cart.items[at].clone();
                existing.quantity = existing.quantity.saturating_add(item.quantity);
                proof {
                    seq_view_update(customer_cart.items@, at as int, existing);
                }
                customer_cart.items[at] = existing;
            } else {
                proof {
                    seq_view_push(customer_cart.items@, item);
                }
                customer_cart.items.push(item);
            }
            i += 1;
        }
        guest.status = CartStatus::Merged;
        self.store(guest);
        self.store(customer_cart.clone());
        proof {
            use_type_invariant(&*self);
        }
        Ok(customer_cart)
    }

    /// The place of the first item of the product of `wanted`, or the number
    /// of items.
    fn item_index(items: &Vec<CartItem>, wanted: &CartItem) -> (i: usize)
        ensures
            i == position(seq_view(items@), wanted@.product_id),
            i <= items.len(),
    {
        let mut i: usize = 0;
        while i < items.len()
            invariant
                i <= items.len(),
                forall|j: int| 0 <= j < i ==> seq_view(items@)[j].key() != wanted@.product_id,
            decreases items.len() - i,
        {
            if items[i].product_id == wanted.product_id {
                proof {
                    position_is(seq_view(items@), wanted@.product_id, i as int);
                }
                return i;
            }
            i += 1;
        }
        proof {
            position_is(seq_view(items@), wanted@.product_id, i as int);
        }
        i
    }

    /// Merges guest cart into customer cart: the cart that the customer can
    /// shop with by the clock, or a new one.
    ///
    /// Fails without any change when there is no cart under the guest
    /// cart's identifier.
    pub fn merge_carts(&mut self, guest_cart_id: &CartId, customer_id: &CustomerId) -> (r: Result<
        Cart,
        CommerceError,
    >)
        ensures
            final(self)@.wf(),
            match find(old(self)@.carts, guest_cart_id@) {
                None => final(self)@ == old(self)@ && fails_with(
                    r,
                    CommerceErrorView::CartNotFound(guest_cart_id@),
                ),
                Some(guest) => r is Ok && exists|now: u64, mid: CartsView, cart: Cart|
                    #![trigger old(self)@.got_or_created(customer_id@, now, mid, cart)]
                    {
                        &&& old(self)@.got_or_created(customer_id@, now, mid, cart)
                        &&& mid.merged(guest_cart_id@, cart@, final(self)@, r->Ok_0@)
                    },
            },
    {
        proof {
            use_type_invariant(&*self);
            position_found(self@.carts, guest_cart_id@);
        }
        if self.cart_index(guest_cart_id) >= self.carts.len() {
            return Err(CommerceError::CartNotFound(guest_cart_id.to_string()));
        }
        let ghost before = self@;
        let found = self.get_or_create_cart(customer_id.clone());
        let customer_cart = match found {
            Ok(cart) => cart,
            Err(e) => {
                return Err(e);
            },
        };
        let ghost mid = self@;
        let ghost taken = customer_cart;
        proof {
            let now = choose|now: u64| before.got_or_created(customer_id@, now, mid, taken);
            find_after_put(before.carts, taken@, guest_cart_id@);
            assert(find(mid.carts, guest_cart_id@) is Some);
        }
        let r = self.merge_into(guest_cart_id, customer_cart);
        assert(mid.merged(guest_cart_id@, taken@, self@, r->Ok_0@));
        r
    }

    /// Marks a cart as converted to order.
    ///
    /// Fails without any change when there is no cart under the identifier.
    pub fn mark_as_converted(&mut self, cart_id: &CartId) -> (r: Result<(), CommerceError>)
        ensures
            final(self)@.wf(),
            match find(old(self)@.carts, cart_id@) {
                Some(cart) => r is Ok && final(self)@ == (CartsView {
                    carts: put(
                        old(self)@.carts,
                        CartView { status: CartStatus::Converted, ..cart },
                    ),
                    ..old(self)@
                }),
                None => final(self)@ == old(self)@ && fails_with(
                    r,
                    CommerceErrorView::CartNotFound(cart_id@),
                ),
            },
    {
        proof {
            use_type_invariant(&*self);
            position_found(self@.carts, cart_id@);
        }
        let i = self.cart_index(cart_id);
        if i >= self.carts.len() {
            return Err(CommerceError::CartNotFound(cart_id.to_string()));
        }
        let mut cart = self.carts[i].clone();
        cart.status = CartStatus::Converted;
        self.store(cart);
        proof {
            use_type_invariant(&*self);
        }
        Ok(())
    }

    /// Cleans up expired and abandoned carts as of the time `now`: a cart
    /// goes when it is converted, merged or expired and its last activity
    /// lies more than `max_age_days` days back. Returns how many went.
    pub fn cleanup_carts_at(&mut self, max_age_days: u64, now: u64) -> (r: Result<
        usize,
        CommerceError,
    >)
        ensures
            final(self)@.wf(),
            r is Ok,
            final(self)@ == (CartsView {
                carts: old(self)@.carts.filter(
                    kept_by_cleanup(now, capped(max_age_days * 86400)),
                ),
                ..old(self)@
            }),
            r->Ok_0 == old(self)@.carts.len() - final(self)@.carts.len(),
    {
        proof {
            use_type_invariant(&*self);
        }
        let max_age_secs = saturating_mul_u64(max_age_days, 86400);
        let ghost pick = kept_by_cleanup(now, max_age_secs);
        let ghost all = self@.carts;
        let mut kept: Vec<Cart> = Vec::new();
        proof {
            filter_take_none(all, pick);
            assert(seq_view(kept@) =~= Seq::<CartView>::empty());
        }
        let mut i: usize = 0;
        while i < self.carts.len()
            invariant
                i <= self.carts.len(),
                all == self@.carts,
                pick == kept_by_cleanup(now, max_age_secs),
                seq_view(kept@) == all.take(i as int).filter(pick),
                kept.len() <= i,
            decreases self.carts.len() - i,
        {
            proof {
                filter_take_next(all, pick, i as int);
            }
            let cart = &self.carts[i];
            let age = now.saturating_sub(cart.last_activity_at);
            let is_old = age > max_age_secs;
            let is_inactive = match cart.status {
                CartStatus::Converted => true,
                CartStatus::Merged => true,
                CartStatus::Expired => true,
                _ => false,
            };
            if !is_old || !is_inactive {
                let copy = cart.clone();
                proof {
                    seq_view_push(kept@, copy);
                }
                kept.push(copy);
            }
            i += 1;
        }
        proof {
            take_all(all);
            filter_keeps_distinct(all, pick);
        }
        let removed = self.carts.len() - kept.len();
        self.carts = kept;
        Ok(removed)
    }

    /// Cleans up expired and abandoned carts by the clock. Returns how many
    /// went.
    pub fn cleanup_carts(&mut self, max_age_days: u64) -> (r: Result<usize, CommerceError>)
        ensures
            final(self)@.wf(),
            r is Ok,
            exists|now: u64|
                final(self)@ == (CartsView {
                    carts: old(self)@.carts.filter(
                        #[trigger] kept_by_cleanup(now, capped(max_age_days * 86400)),
                    ),
                    ..old(self)@
                }),
            r->Ok_0 == old(self)@.carts.len() - final(self)@.carts.len(),
    {
        let now = unix_seconds();
        self.cleanup_carts_at(max_age_days, now)
    }
}

impl CartsView {
    /// Whether `cart` and the service `after` are what getting or creating
    /// a cart for a customer at the time `now` gives: the cart that the
    /// service offers, with nothing changed, or else a new cart that was
    /// created for the customer.
    pub open spec fn got_or_created(
        self,
        customer_id: Seq<char>,
        now: u64,
        after: CartsView,
        cart: Cart,
    ) -> bool {
        match latest_usable(
            self.carts,
            self.carts_of(customer_id),
            now,
            self.carts_of(customer_id).len(),
        ) {
            Some(best) => after == self && cart@ == best,
            None => {
                &&& cart@ == CartView::fresh(cart@.id, customer_id, cart@.created_at)
                &&& after == self.with_new_cart(cart@)
            },
        }
    }

    /// Whether the service `after` and the cart `result` are what merging
    /// the guest cart into `customer_cart` gives: the items of the guest
    /// cart are taken into the customer's cart, the guest cart is marked as
    /// merged, and the customer's cart is stored.
    pub open spec fn merged(
        self,
        guest_cart_id: Seq<char>,
        customer_cart: CartView,
        after: CartsView,
        result: CartView,
    ) -> bool {
        match find(self.carts, guest_cart_id) {
            None => false,
            Some(guest) => {
                &&& result == (CartView {
                    items: absorbed(customer_cart.items, guest.items, guest.items.len()),
                    ..customer_cart
                })
                &&& after == (CartsView {
                    carts: put(marked_merged(self.carts, guest_cart_id), result),
                    ..self
                })
            },
        }
    }

    /// Whether `cart` is what the service offers a customer to shop with at
    /// the time `now`: the cart with the latest activity among their usable
    /// ones, or none.
    pub open spec fn offers(self, customer_id: Seq<char>, now: u64, cart: Option<Cart>) -> bool {
        match latest_usable(
            self.carts,
            self.carts_of(customer_id),
            now,
            self.carts_of(customer_id).len(),
        ) {
            Some(best) => cart is Some && cart->Some_0@ == best,
            None => cart is None,
        }
    }
}

impl Default for CartService {
    fn default() -> (r: Self)
        ensures
            r@ == (CartsView { carts: Seq::empty(), by_customer: Seq::empty() }),
    {
        CartService::new()
    }
}

} // verus!
