//! The shopping cart and its totals.

use crate::clock::unix_seconds;
use crate::errors::{fails_with, CommerceError, CommerceErrorView};
use crate::implementation::cart_system::item::{CartItem, CartItemView};
use crate::implementation::cart_system::shipping::{
    ShippingAddress, ShippingAddressView, ShippingMethod, ShippingMethodView,
};
use crate::implementation::cart_system::types::{
    AppliedDiscount, AppliedDiscountView, CartId, CartStatus, CustomerId, DiscountType,
};
use crate::keyed::{position, position_found, position_is, Keyed};
use crate::quantity::{capped, capped_sum, capped_u32, total};
use crate::text::decimal;
use crate::types::product_catalog::{Currency, Product, ProductId, ProductStatus};
use crate::views::{
    clone_opt, clone_vec, filter_take_next, filter_take_none, opt_view, seq_view, seq_view_push,
    seq_view_update, take_all,
};
use vstd::prelude::*;

verus! {

/// Cart totals calculation.
#[derive(Debug)]
pub struct CartTotals {
    /// Subtotal (sum of item subtotals).
    pub subtotal: u64,
    /// Total item discounts.
    pub discount_total: u64,
    /// Shipping cost.
    pub shipping_total: u64,
    /// Tax amount.
    pub tax_total: u64,
    /// Grand total.
    pub grand_total: u64,
    /// Total savings (sales + discounts).
    pub total_savings: u64,
    /// Number of items.
    pub item_count: u32,
    /// Currency.
    pub currency: Currency,
}

/// The model of a [`CartTotals`].
pub ghost struct CartTotalsView {
    pub subtotal: u64,
    pub discount_total: u64,
    pub shipping_total: u64,
    pub tax_total: u64,
    pub grand_total: u64,
    pub total_savings: u64,
    pub item_count: u32,
    pub currency: Seq<char>,
}

impl View for CartTotals {
    type V = CartTotalsView;

    open spec fn view(&self) -> CartTotalsView {
        CartTotalsView {
            subtotal: self.subtotal,
            discount_total: self.discount_total,
            shipping_total: self.shipping_total,
            tax_total: self.tax_total,
            grand_total: self.grand_total,
            total_savings: self.total_savings,
            item_count: self.item_count,
            currency: self.currency@,
        }
    }
}

impl Clone for CartTotals {
    fn clone(&self) -> (r: Self)
        ensures
            r@ == self@,
    {
        CartTotals {
            subtotal: self.subtotal,
            discount_total: self.discount_total,
            shipping_total: self.shipping_total,
            tax_total: self.tax_total,
            grand_total: self.grand_total,
            total_savings: self.total_savings,
            item_count: self.item_count,
            currency: self.currency.clone(),
        }
    }
}

impl Default for CartTotals {
    fn default() -> (r: Self)
        ensures
            r@ == (CartTotalsView {
                subtotal: 0,
                discount_total: 0,
                shipping_total: 0,
                tax_total: 0,
                grand_total: 0,
                total_savings: 0,
                item_count: 0,
                currency: Seq::empty(),
            }),
    {
        CartTotals {
            subtotal: 0,
            discount_total: 0,
            shipping_total: 0,
            tax_total: 0,
            grand_total: 0,
            total_savings: 0,
            item_count: 0,
            currency: Currency::default(),
        }
    }
}

/// What an item costs before discounts, held at the upper bound of `u64`.
pub open spec fn item_subtotal() -> spec_fn(CartItemView) -> nat {
    |item: CartItemView| capped(item.subtotal() as int) as nat
}

/// What the discounts of an item save, held at the upper bound of `u64`.
pub open spec fn item_discount() -> spec_fn(CartItemView) -> nat {
    |item: CartItemView| capped(item.total_discount() as int) as nat
}

/// What the sale price of an item saves, held at the upper bound of `u64`.
pub open spec fn item_sale_savings() -> spec_fn(CartItemView) -> nat {
    |item: CartItemView| capped(item.sale_savings() as int) as nat
}

/// The number of units of an item.
pub open spec fn item_quantity() -> spec_fn(CartItemView) -> nat {
    |item: CartItemView| item.quantity as nat
}

/// What a discount on the whole cart takes off a subtotal: the percentage
/// of it, rounded down, or the fixed amount; nothing for the other kinds.
pub open spec fn cart_discount(subtotal: u64) -> spec_fn(AppliedDiscountView) -> nat {
    |discount: AppliedDiscountView|
        match discount.discount_type {
            DiscountType::Percentage => ((subtotal * discount.value) / 100) as nat,
            DiscountType::FixedAmount => discount.value as nat,
            DiscountType::FreeShipping => 0,
            DiscountType::BuyXGetY => 0,
        }
}

/// Whether one of the discounts grants free shipping.
pub open spec fn grants_free_shipping(discounts: Seq<AppliedDiscountView>) -> bool {
    exists|i: int|
        0 <= i < discounts.len() && (#[trigger] discounts[i]).discount_type
            == DiscountType::FreeShipping
}

/// The subtotal of a cart: what its items cost before discounts.
pub open spec fn subtotal_of(items: Seq<CartItemView>) -> u64 {
    capped(total(items, item_subtotal(), items.len()) as int)
}

/// All that is taken off a cart: the discounts of its items and those on
/// the whole cart.
pub open spec fn discount_total_of(
    items: Seq<CartItemView>,
    discounts: Seq<AppliedDiscountView>,
) -> u64 {
    capped(
        capped(total(items, item_discount(), items.len()) as int) + capped(
            total(discounts, cart_discount(subtotal_of(items)), discounts.len()) as int,
        ),
    )
}

/// The amount on which tax is due: the subtotal less all discounts, but not
/// less than nothing.
pub open spec fn taxable_amount_of(items: Seq<CartItemView>, discounts: Seq<AppliedDiscountView>)
    -> u64 {
    capped(subtotal_of(items) - discount_total_of(items, discounts))
}

/// The totals of a cart, given the tax due on it. Every sum is held at the
/// upper bound of its type.
pub open spec fn totals_of(
    items: Seq<CartItemView>,
    discounts: Seq<AppliedDiscountView>,
    shipping: Option<ShippingMethodView>,
    tax_total: u64,
    currency: Seq<char>,
) -> CartTotalsView {
    let discount_total = discount_total_of(items, discounts);
    let shipping_total = if grants_free_shipping(discounts) {
        0
    } else {
        match shipping {
            Some(method) => method.cost.amount,
            None => 0,
        }
    };
    CartTotalsView {
        subtotal: subtotal_of(items),
        discount_total,
        shipping_total,
        tax_total,
        grand_total: capped(taxable_amount_of(items, discounts) + shipping_total + tax_total),
        total_savings: capped(
            capped(total(items, item_sale_savings(), items.len()) as int) + discount_total,
        ),
        item_count: capped_u32(total(items, item_quantity(), items.len()) as int),
        currency,
    }
}

/// What the items cost before discounts.
fn sum_subtotals(items: &Vec<CartItem>) -> (sum: u64)
    ensures
        sum == subtotal_of(seq_view(items@)),
{
    let mut sum: u64 = 0;
    let mut i: usize = 0;
    while i < items.len()
        invariant
            i <= items.len(),
            sum == capped(total(seq_view(items@), item_subtotal(), i as nat) as int),
        decreases items.len() - i,
    {
        proof {
            capped_sum(
                total(seq_view(items@), item_subtotal(), i as nat),
                items@[i as int]@.subtotal(),
            );
        }
        sum = sum.saturating_add(items[i].subtotal());
        i += 1;
    }
    sum
}

/// What the discounts of the items save.
fn sum_item_discounts(items: &Vec<CartItem>) -> (sum: u64)
    ensures
        sum == capped(total(seq_view(items@), item_discount(), items@.len()) as int),
{
    let mut sum: u64 = 0;
    let mut i: usize = 0;
    while i < items.len()
        invariant
            i <= items.len(),
            sum == capped(total(seq_view(items@), item_discount(), i as nat) as int),
        decreases items.len() - i,
    {
        proof {
            capped_sum(
                total(seq_view(items@), item_discount(), i as nat),
                items@[i as int]@.total_discount(),
            );
        }
        sum = sum.saturating_add(items[i].total_discount());
        i += 1;
    }
    sum
}

/// What the sale prices of the items save.
fn sum_sale_savings(items: &Vec<CartItem>) -> (sum: u64)
    ensures
        sum == capped(total(seq_view(items@), item_sale_savings(), items@.len()) as int),
{
    let mut sum: u64 = 0;
    let mut i: usize = 0;
    while i < items.len()
        invariant
            i <= items.len(),
            sum == capped(total(seq_view(items@), item_sale_savings(), i as nat) as int),
        decreases items.len() - i,
    {
        proof {
            capped_sum(
                total(seq_view(items@), item_sale_savings(), i as nat),
                items@[i as int]@.sale_savings(),
            );
        }
        sum = sum.saturating_add(items[i].sale_savings());
        i += 1;
    }
    sum
}

/// The number of units in the items.
fn sum_quantities(items: &Vec<CartItem>) -> (sum: u32)
    ensures
        sum == capped_u32(total(seq_view(items@), item_quantity(), items@.len()) as int),
{
    let mut sum: u32 = 0;
    let mut i: usize = 0;
    while i < items.len()
        invariant
            i <= items.len(),
            sum == capped_u32(total(seq_view(items@), item_quantity(), i as nat) as int),
        decreases items.len() - i,
    {
        proof {
            capped_sum(
                total(seq_view(items@), item_quantity(), i as nat),
                items@[i as int].quantity as nat,
            );
        }
        sum = sum.saturating_add(items[i].quantity);
        i += 1;
    }
    sum
}

/// What the discounts on the whole cart take off a subtotal.
fn sum_cart_discounts(discounts: &Vec<AppliedDiscount>, subtotal: u64) -> (sum: u64)
    ensures
        sum == capped(
            total(seq_view(discounts@), cart_discount(subtotal), discounts@.len()) as int,
        ),
{
    let mut sum: u64 = 0;
    let mut i: usize = 0;
    while i < discounts.len()
        invariant
            i <= discounts.len(),
            sum == capped(total(seq_view(discounts@), cart_discount(subtotal), i as nat) as int),
        decreases discounts.len() - i,
    {
        let discount = &discounts[i];
        let ghost off = (cart_discount(subtotal))(discount@);
        proof {
            capped_sum(total(seq_view(discounts@), cart_discount(subtotal), i as nat), off);
        }
        let amount: u64 = match discount.discount_type {
            DiscountType::Percentage => {
                assert(subtotal * discount.value <= u64::MAX * u64::MAX) by (nonlinear_arith)
                    requires
                        0 <= subtotal <= u64::MAX,
                        0 <= discount.value <= u64::MAX,
                ;
                let wide: u128 = (subtotal as u128) * (discount.value as u128) / 100;
                if wide > u64::MAX as u128 {
                    u64::MAX
                } else {
                    wide as u64
                }
            },
            DiscountType::FixedAmount => discount.value,
            DiscountType::FreeShipping => 0,
            DiscountType::BuyXGetY => 0,
        };
        assert(amount == capped(off as int));
        sum = sum.saturating_add(amount);
        i += 1;
    }
    sum
}

/// Whether one of the discounts grants free shipping.
fn has_free_shipping(discounts: &Vec<AppliedDiscount>) -> (r: bool)
    ensures
        r == grants_free_shipping(seq_view(discounts@)),
{
    let mut i: usize = 0;
    while i < discounts.len()
        invariant
            i <= discounts.len(),
            forall|j: int|
                0 <= j < i ==> (#[trigger] seq_view(discounts@)[j]).discount_type
                    != DiscountType::FreeShipping,
        decreases discounts.len() - i,
    {
        if discounts[i].discount_type == DiscountType::FreeShipping {
            assert(seq_view(discounts@)[i as int].discount_type == DiscountType::FreeShipping);
            return true;
        }
        i += 1;
    }
    false
}

impl CartTotals {
    /// The amount on which tax is due: the subtotal of the items less all
    /// discounts, but not less than nothing.
    pub fn taxable_amount(items: &Vec<CartItem>, cart_discounts: &Vec<AppliedDiscount>) -> (r: u64)
        ensures
            r == taxable_amount_of(seq_view(items@), seq_view(cart_discounts@)),
    {
        let subtotal = sum_subtotals(items);
        let item_discounts = sum_item_discounts(items);
        let cart_discount_total = sum_cart_discounts(cart_discounts, subtotal);
        let discount_total = item_discounts.saturating_add(cart_discount_total);
        subtotal.saturating_sub(discount_total)
    }

    /// Calculates totals from cart items, given the tax due on the taxable
    /// amount.
    pub fn calculate(
        items: &Vec<CartItem>,
        cart_discounts: &Vec<AppliedDiscount>,
        shipping: Option<&ShippingMethod>,
        tax_total: u64,
        currency: Currency,
    ) -> (r: Self)
        ensures
            r@ == totals_of(
                seq_view(items@),
                seq_view(cart_discounts@),
                match shipping {
                    Some(method) => Some(method@),
                    None => None,
                },
                tax_total,
                currency@,
            ),
    {
        let subtotal = sum_subtotals(items);
        let item_discounts = sum_item_discounts(items);
        let sale_savings = sum_sale_savings(items);
        let cart_discount_total = sum_cart_discounts(cart_discounts, subtotal);
        let discount_total = item_discounts.saturating_add(cart_discount_total);
        let subtotal_after_discount = subtotal.saturating_sub(discount_total);
        let shipping_total = if has_free_shipping(cart_discounts) {
            0
        } else {
            match shipping {
                Some(method) => method.cost.amount,
                None => 0,
            }
        };
        let grand_total = subtotal_after_discount.saturating_add(shipping_total).saturating_add(
            tax_total,
        );
        let total_savings = sale_savings.saturating_add(discount_total);
        let item_count = sum_quantities(items);
        CartTotals {
            subtotal,
            discount_total,
            shipping_total,
            tax_total,
            grand_total,
            total_savings,
            item_count,
            currency,
        }
    }
}

impl Keyed for CartItemView {
    type Key = Seq<char>;

    open spec fn key(self) -> Seq<char> {
        self.product_id
    }
}

/// Shopping cart.
#[derive(Debug)]
pub struct Cart {
    /// Cart ID.
    pub id: CartId,
    /// Customer ID.
    pub customer_id: CustomerId,
    /// Cart status.
    pub status: CartStatus,
    /// Items in cart.
    pub items: Vec<CartItem>,
    /// Applied cart-level discounts.
    pub discounts: Vec<AppliedDiscount>,
    /// Shipping address.
    pub shipping_address: Option<ShippingAddress>,
    /// Billing address (if different from shipping).
    pub billing_address: Option<ShippingAddress>,
    /// Selected shipping method.
    pub shipping_method: Option<ShippingMethod>,
    /// Currency.
    pub currency: Currency,
    /// Notes/special instructions.
    pub notes: Option<String>,
    /// Creation timestamp.
    pub created_at: u64,
    /// Last update timestamp.
    pub updated_at: u64,
    /// Last activity timestamp.
    pub last_activity_at: u64,
    /// Cart expiry timestamp.
    pub expires_at: Option<u64>,
}

/// The model of a [`Cart`]: everything but the time of its last update,
/// which is a clock reading.
pub ghost struct CartView {
    pub id: Seq<char>,
    pub customer_id: Seq<char>,
    pub status: CartStatus,
    pub items: Seq<CartItemView>,
    pub discounts: Seq<AppliedDiscountView>,
    pub shipping_address: Option<ShippingAddressView>,
    pub billing_address: Option<ShippingAddressView>,
    pub shipping_method: Option<ShippingMethodView>,
    pub currency: Seq<char>,
    pub notes: Option<Seq<char>>,
    pub created_at: u64,
    pub last_activity_at: u64,
    pub expires_at: Option<u64>,
}

impl View for Cart {
    type V = CartView;

    open spec fn view(&self) -> CartView {
        CartView {
            id: self.id@,
            customer_id: self.customer_id@,
            status: self.status,
            items: seq_view(self.items@),
            discounts: seq_view(self.discounts@),
            shipping_address: opt_view(self.shipping_address),
            billing_address: opt_view(self.billing_address),
            shipping_method: opt_view(self.shipping_method),
            currency: self.currency@,
            notes: opt_view(self.notes),
            created_at: self.created_at,
            last_activity_at: self.last_activity_at,
            expires_at: self.expires_at,
        }
    }
}

impl Clone for Cart {
    fn clone(&self) -> (r: Self)
        ensures
            r@ == self@,
            r.updated_at == self.updated_at,
    {
        Cart {
            id: self.id.clone(),
            customer_id: self.customer_id.clone(),
            status: self.status,
            items: clone_vec(&self.items),
            discounts: clone_vec(&self.discounts),
            shipping_address: clone_opt(&self.shipping_address),
            billing_address: clone_opt(&self.billing_address),
            shipping_method: clone_opt(&self.shipping_method),
            currency: self.currency.clone(),
            notes: clone_opt(&self.notes),
            created_at: self.created_at,
            updated_at: self.updated_at,
            last_activity_at: self.last_activity_at,
            expires_at: self.expires_at,
        }
    }
}

/// The seconds for which a new cart is kept: seven days.
pub const CART_LIFETIME_SECS: u64 = 604800;

impl CartView {
    /// A cart as it is created at the time `now`: active and empty, priced
    /// in US dollars, kept for seven days.
    pub open spec fn fresh(id: Seq<char>, customer_id: Seq<char>, now: u64) -> Self {
        CartView {
            id,
            customer_id,
            status: CartStatus::Active,
            items: Seq::empty(),
            discounts: Seq::empty(),
            shipping_address: None,
            billing_address: None,
            shipping_method: None,
            currency: "USD"@,
            notes: None,
            created_at: now,
            last_activity_at: now,
            expires_at: Some(capped(now + CART_LIFETIME_SECS)),
        }
    }

    /// Whether the cart has expired at the time `now`.
    pub open spec fn expired_at(self, now: u64) -> bool {
        match self.expires_at {
            Some(expires_at) => now > expires_at,
            None => false,
        }
    }

    /// What stands in the way of a checkout at the time `now`, if anything:
    /// an empty cart, a cart that is not active, an expired cart or a
    /// missing shipping address, in this order.
    pub open spec fn checkout_obstacle(self, now: u64) -> Option<CommerceErrorView> {
        if self.items.len() == 0 {
            Some(CommerceErrorView::CartEmpty)
        } else if self.status != CartStatus::Active {
            Some(CommerceErrorView::CartNotActive)
        } else if self.expired_at(now) {
            Some(CommerceErrorView::CartExpired)
        } else if self.shipping_address is None {
            Some(CommerceErrorView::ShippingAddressRequired)
        } else {
            None
        }
    }

    /// Whether `r` is the outcome of validating the cart for checkout at the
    /// time `now`: the obstacle if there is one, success otherwise.
    pub open spec fn validated_at(self, now: u64, r: Result<(), CommerceError>) -> bool {
        match self.checkout_obstacle(now) {
            Some(e) => fails_with(r, e),
            None => r is Ok,
        }
    }

    /// The cart with other items, touched at the time `at`.
    pub open spec fn with_items(self, items: Seq<CartItemView>, at: u64) -> Self {
        CartView { items, last_activity_at: at, ..self }
    }
}

impl CartItemView {
    /// The item made of a product at the time `now`.
    pub open spec fn of_product(product: Product, quantity: u32, now: u64) -> Self {
        CartItemView {
            product_id: product.id@,
            variant_id: None,
            product_name: product.name@,
            product_sku: product.sku@,
            image_url: CartItem::image_of(product),
            quantity,
            unit_price: match product.sale_price {
                Some(sale) => sale@,
                None => product.price@,
            },
            original_price: product.price@,
            discounts: Seq::empty(),
            custom_options: Seq::empty(),
            added_at: now,
        }
    }
}

/// Whether a product has too little stock for `wanted` units.
pub open spec fn short_of(product: Product, wanted: u32) -> bool {
    !product.backorders_allowed && wanted > product.inventory_quantity
}

/// The failure reported when a product has too little stock.
pub open spec fn shortage(product: Product, wanted: u32) -> CommerceErrorView {
    CommerceErrorView::InsufficientInventory {
        product_id: product.id@,
        available: product.inventory_quantity as u32,
        requested: wanted,
    }
}

/// Selects the items of products other than the given one.
pub open spec fn other_product(product_id: Seq<char>) -> spec_fn(CartItemView) -> bool {
    |item: CartItemView| item.product_id != product_id
}

/// Selects the discounts under codes other than the given one.
pub open spec fn other_code(code: Seq<char>) -> spec_fn(AppliedDiscountView) -> bool {
    |discount: AppliedDiscountView| discount.code != code
}

/// Whether a discount under the code is among the discounts.
pub open spec fn has_code(discounts: Seq<AppliedDiscountView>, code: Seq<char>) -> bool {
    exists|i: int| 0 <= i < discounts.len() && (#[trigger] discounts[i]).code == code
}

impl Cart {
    /// Creates a new cart, named after the clock and kept for seven days.
    pub fn new(customer_id: CustomerId) -> (r: Self)
        ensures
            r@ == CartView::fresh(r@.id, customer_id@, r@.created_at),
            exists|nanos: nat| r@.id == "cart-"@ + decimal(nanos),
            r.updated_at == r.created_at,
    {
        let now = unix_seconds();
        let cart = Cart {
            id: CartId::generate(),
            customer_id,
            status: CartStatus::Active,
            items: Vec::new(),
            discounts: Vec::new(),
            shipping_address: None,
            billing_address: None,
            shipping_method: None,
            currency: Currency::usd(),
            notes: None,
            created_at: now,
            updated_at: now,
            last_activity_at: now,
            expires_at: Some(now.saturating_add(CART_LIFETIME_SECS)),
        };
        assert(cart@.items =~= Seq::empty());
        assert(cart@.discounts =~= Seq::empty());
        cart
    }

    /// Creates a guest cart.
    pub fn guest() -> (r: Self)
        ensures
            r@ == CartView::fresh(r@.id, "guest"@, r@.created_at),
            exists|nanos: nat| r@.id == "cart-"@ + decimal(nanos),
            r.updated_at == r.created_at,
    {
        Cart::new(CustomerId::guest())
    }

    /// Checks if cart is empty.
    pub fn is_empty(&self) -> (r: bool)
        ensures
            r == (self@.items.len() == 0),
    {
        self.items.len() == 0
    }

    /// Gets the number of unique items.
    pub fn unique_item_count(&self) -> (r: usize)
        ensures
            r == self@.items.len(),
    {
        self.items.len()
    }

    /// Gets the total quantity of all items, held at the upper bound of
    /// `u32`.
    pub fn total_quantity(&self) -> (r: u32)
        ensures
            r == capped_u32(total(self@.items, item_quantity(), self@.items.len()) as int),
    {
        sum_quantities(&self.items)
    }

    /// Updates the last activity timestamp: the time of the last activity
    /// and the time of the last update are stamped with one reading of the
    /// clock, and nothing else changes.
    fn touch(&mut self)
        ensures
            final(self)@ == (CartView {
                last_activity_at: final(self)@.last_activity_at,
                ..old(self)@
            }),
            final(self).updated_at == final(self).last_activity_at,
    {
        let now = unix_seconds();
        self.last_activity_at = now;
        self.updated_at = now;
    }

    /// The place of the first item of a product, or the number of items.
    fn item_index(&self, product_id: &ProductId) -> (i: usize)
        ensures
            i == position(self@.items, product_id@),
            i <= self.items.len(),
    {
        let mut i: usize = 0;
        while i < self.items.len()
            invariant
                i <= self.items.len(),
                forall|j: int| 0 <= j < i ==> seq_view(self.items@)[j].key() != product_id@,
            decreases self.items.len() - i,
        {
            if self.items[i].product_id == *product_id {
                proof {
                    position_is(self@.items, product_id@, i as int);
                }
                return i;
            }
            i += 1;
        }
        proof {
            position_is(self@.items, product_id@, i as int);
        }
        i
    }

    /// Adds an item to the cart.
    ///
    /// Fails without any change when the quantity is zero, when the product
    /// cannot be purchased, or when it allows no backorders and has fewer
    /// units in stock than the cart would hold. A product that is in the
    /// cart already has its quantity raised, up to the bound of `u32`;
    /// another enters the cart as its last item.
    pub fn add_item(&mut self, product: &Product, quantity: u32) -> (r: Result<(), CommerceError>)
        ensures
            ({
                let before = old(self)@;
                let after = final(self)@;
                let at = position(before.items, product.id@);
                if quantity == 0 {
                    after == before && fails_with(r, CommerceErrorView::InvalidQuantity)
                } else if product.status != ProductStatus::Active {
                    after == before && fails_with(
                        r,
                        CommerceErrorView::ProductNotAvailable(product.id@),
                    )
                } else if at < before.items.len() {
                    let wanted = capped_u32(before.items[at].quantity + quantity);
                    if short_of(*product, wanted) {
                        after == before && fails_with(r, shortage(*product, wanted))
                    } else {
                        r is Ok && after == before.with_items(
                            before.items.update(
                                at,
                                CartItemView { quantity: wanted, ..before.items[at] },
                            ),
                            after.last_activity_at,
                        )
                    }
                } else if short_of(*product, quantity) {
                    after == before && fails_with(r, shortage(*product, quantity))
                } else {
                    r is Ok && exists|now: u64|
                        after == before.with_items(
                            before.items.push(CartItemView::of_product(*product, quantity, now)),
                            after.last_activity_at,
                        )
                }
            }),
    {
        if quantity == 0 {
            return Err(CommerceError::InvalidQuantity);
        }
        if !product.status.is_purchasable() {
            return Err(CommerceError::ProductNotAvailable(product.id.to_string()));
        }
        proof {
            position_found(self@.items, product.id@);
        }
        let at = self.item_index(&product.id);
        if at < self.items.len() {
            let new_qty = self.items[at].quantity.saturating_add(quantity);
            if !product.backorders_allowed && (new_qty as i64) > product.inventory_quantity {
                return Err(
                    CommerceError::InsufficientInventory {
                        product_id: product.id.to_string(),
                        available: #[verifier::truncate]
                        (product.inventory_quantity as u32),
                        requested: new_qty,
                    },
                );
            }
            let mut item = self.items[at].clone();
            item.set_quantity(new_qty);
            proof {
                seq_view_update(self.items@, at as int, item);
            }
            self.items[at] = item;
        } else {
            if !product.backorders_allowed && (quantity as i64) > product.inventory_quantity {
                return Err(
                    CommerceError::InsufficientInventory {
                        product_id: product.id.to_string(),
                        available: #[verifier::truncate]
                        (product.inventory_quantity as u32),
                        requested: quantity,
                    },
                );
            }
            let item = CartItem::from_product(product, quantity);
            proof {
                seq_view_push(self.items@, item);
                assert(item@ == CartItemView::of_product(*product, quantity, item.added_at));
            }
            self.items.push(item);
        }
        self.touch();
        Ok(())
    }

    /// Updates item quantity. A quantity of zero removes the items of the
    /// product.
    ///
    /// Fails without any change when the product is not in the cart.
    pub fn update_item_quantity(&mut self, product_id: &ProductId, quantity: u32) -> (r: Result<
        (),
        CommerceError,
    >)
        ensures
            ({
                let before = old(self)@;
                let after = final(self)@;
                let at = position(before.items, product_id@);
                if at >= before.items.len() {
                    after == before && fails_with(r, CommerceErrorView::ItemNotInCart(product_id@))
                } else if quantity == 0 {
                    r is Ok && after == before.with_items(
                        before.items.filter(other_product(product_id@)),
                        after.last_activity_at,
                    )
                } else {
                    r is Ok && after == before.with_items(
                        before.items.update(at, CartItemView { quantity, ..before.items[at] }),
                        after.last_activity_at,
                    )
                }
            }),
    {
        if quantity == 0 {
            return self.remove_item(product_id);
        }
        proof {
            position_found(self@.items, product_id@);
        }
        let at = self.item_index(product_id);
        if at >= self.items.len() {
            return Err(CommerceError::ItemNotInCart(product_id.to_string()));
        }
        let mut item = self.items[at].clone();
        item.set_quantity(quantity);
        proof {
            seq_view_update(self.items@, at as int, item);
        }
        self.items[at] = item;
        self.touch();
        Ok(())
    }

    /// Removes an item from the cart: every item of the product goes.
    ///
    /// Fails without any change when the product is not in the cart.
    pub fn remove_item(&mut self, product_id: &ProductId) -> (r: Result<(), CommerceError>)
        ensures
            ({
                let before = old(self)@;
                let after = final(self)@;
                if position(before.items, product_id@) >= before.items.len() {
                    after == before && fails_with(r, CommerceErrorView::ItemNotInCart(product_id@))
                } else {
                    r is Ok && after == before.with_items(
                        before.items.filter(other_product(product_id@)),
                        after.last_activity_at,
                    )
                }
            }),
    {
        proof {
            position_found(self@.items, product_id@);
        }
        if self.item_index(product_id) >= self.items.len() {
            return Err(CommerceError::ItemNotInCart(product_id.to_string()));
        }
        let ghost pick = other_product(product_id@);
        let ghost all = self@.items;
        let mut kept: Vec<CartItem> = Vec::new();
        proof {
            filter_take_none(all, pick);
            assert(seq_view(kept@) =~= Seq::<CartItemView>::empty());
        }
        let mut i: usize = 0;
        while i < self.items.len()
            invariant
                i <= self.items.len(),
                all == self@.items,
                pick == other_product(product_id@),
                seq_view(kept@) == all.take(i as int).filter(pick),
            decreases self.items.len() - i,
        {
            proof {
                filter_take_next(all, pick, i as int);
            }
            if self.items[i].product_id != *product_id {
                let item = self.items[i].clone();
                proof {
                    seq_view_push(kept@, item);
                }
                kept.push(item);
            }
            i += 1;
        }
        proof {
            take_all(all);
        }
        self.items = kept;
        self.touch();
        Ok(())
    }

    /// Clears all items and discounts from the cart.
    pub fn clear(&mut self)
        ensures
            final(self)@ == (CartView {
                items: Seq::empty(),
                discounts: Seq::empty(),
                last_activity_at: final(self)@.last_activity_at,
                ..old(self)@
            }),
    {
        self.items = Vec::new();
        self.discounts = Vec::new();
        assert(self@.items =~= Seq::empty());
        assert(self@.discounts =~= Seq::empty());
        self.touch();
    }

    /// Whether a discount under the code is applied.
    fn has_discount(&self, code: &String) -> (r: bool)
        ensures
            r == has_code(self@.discounts, code@),
    {
        let mut i: usize = 0;
        while i < self.discounts.len()
            invariant
                i <= self.discounts.len(),
                forall|j: int| 0 <= j < i ==> (#[trigger] seq_view(self.discounts@)[j]).code != code@,
            decreases self.discounts.len() - i,
        {
            if self.discounts[i].code.0 == *code {
                assert(seq_view(self.discounts@)[i as int].code == code@);
                return true;
            }
            i += 1;
        }
        false
    }

    /// Applies a discount to the cart.
    ///
    /// Fails without any change when a discount under the same code is
    /// applied already.
    pub fn apply_discount(&mut self, discount: AppliedDiscount) -> (r: Result<(), CommerceError>)
        ensures
            if has_code(old(self)@.discounts, discount@.code) {
                final(self)@ == old(self)@ && fails_with(
                    r,
                    CommerceErrorView::DiscountAlreadyApplied(discount@.code),
                )
            } else {
                r is Ok && final(self)@ == (CartView {
                    discounts: old(self)@.discounts.push(discount@),
                    last_activity_at: final(self)@.last_activity_at,
                    ..old(self)@
                })
            },
    {
        if self.has_discount(&discount.code.0) {
            return Err(CommerceError::DiscountAlreadyApplied(discount.code.0.clone()));
        }
        proof {
            seq_view_push(self.discounts@, discount);
        }
        self.discounts.push(discount);
        self.touch();
        Ok(())
    }

    /// Removes a discount from the cart: every discount under the code
    /// goes.
    ///
    /// Fails without any change when no discount is applied under the code.
    pub fn remove_discount(&mut self, code: &str) -> (r: Result<(), CommerceError>)
        ensures
            if !has_code(old(self)@.discounts, code@) {
                final(self)@ == old(self)@ && fails_with(
                    r,
                    CommerceErrorView::DiscountNotFound(code@),
                )
            } else {
                r is Ok && final(self)@ == (CartView {
                    discounts: old(self)@.discounts.filter(other_code(code@)),
                    last_activity_at: final(self)@.last_activity_at,
                    ..old(self)@
                })
            },
    {
        let wanted = code.to_owned();
        if !self.has_discount(&wanted) {
            return Err(CommerceError::DiscountNotFound(wanted));
        }
        let ghost pick = other_code(code@);
        let ghost all = self@.discounts;
        let mut kept: Vec<AppliedDiscount> = Vec::new();
        proof {
            filter_take_none(all, pick);
            assert(seq_view(kept@) =~= Seq::<AppliedDiscountView>::empty());
        }
        let mut i: usize = 0;
        while i < self.discounts.len()
            invariant
                i <= self.discounts.len(),
                all == self@.discounts,
                wanted@ == code@,
                pick == other_code(code@),
                seq_view(kept@) == all.take(i as int).filter(pick),
            decreases self.discounts.len() - i,
        {
            proof {
                filter_take_next(all, pick, i as int);
            }
            if self.discounts[i].code.0 != wanted {
                let discount = self.discounts[i].clone();
                proof {
                    seq_view_push(kept@, discount);
                }
                kept.push(discount);
            }
            i += 1;
        }
        proof {
            take_all(all);
        }
        self.discounts = kept;
        self.touch();
        Ok(())
    }

    /// Sets the shipping address.
    pub fn set_shipping_address(&mut self, address: ShippingAddress)
        ensures
            final(self)@ == (CartView {
                shipping_address: Some(address@),
                last_activity_at: final(self)@.last_activity_at,
                ..old(self)@
            }),
    {
        self.shipping_address = Some(address);
        self.touch();
    }

    /// Sets the billing address.
    pub fn set_billing_address(&mut self, address: ShippingAddress)
        ensures
            final(self)@ == (CartView {
                billing_address: Some(address@),
                last_activity_at: final(self)@.last_activity_at,
                ..old(self)@
            }),
    {
        self.billing_address = Some(address);
        self.touch();
    }

    /// Sets the shipping method.
    pub fn set_shipping_method(&mut self, method: ShippingMethod)
        ensures
            final(self)@ == (CartView {
                shipping_method: Some(method@),
                last_activity_at: final(self)@.last_activity_at,
                ..old(self)@
            }),
    {
        self.shipping_method = Some(method);
        self.touch();
    }

    /// The amount on which tax is due.
    pub fn taxable_amount(&self) -> (r: u64)
        ensures
            r == taxable_amount_of(self@.items, self@.discounts),
    {
        CartTotals::taxable_amount(&self.items, &self.discounts)
    }

    /// Calculates cart totals, given the tax due on the taxable amount.
    pub fn calculate_totals(&self, tax_total: u64) -> (r: CartTotals)
        ensures
            r@ == totals_of(
                self@.items,
                self@.discounts,
                self@.shipping_method,
                tax_total,
                self@.currency,
            ),
    {
        CartTotals::calculate(
            &self.items,
            &self.discounts,
            self.shipping_method.as_ref(),
            tax_total,
            self.currency.clone(),
        )
    }

    /// Checks if cart has expired at the time `now`.
    pub fn is_expired_at(&self, now: u64) -> (r: bool)
        ensures
            r == self@.expired_at(now),
    {
        match self.expires_at {
            Some(expires_at) => now > expires_at,
            None => false,
        }
    }

    /// Checks if cart has expired by the clock. A cart without expiry time
    /// never has.
    pub fn is_expired(&self) -> (r: bool)
        ensures
            exists|now: u64| r == self@.expired_at(now),
    {
        if self.expires_at.is_some() {
            let now = unix_seconds();
            let r = self.is_expired_at(now);
            assert(r == self@.expired_at(now));
            r
        } else {
            assert(!self@.expired_at(0));
            false
        }
    }

    /// Validates cart for checkout at the time `now`.
    pub fn validate_for_checkout_at(&self, now: u64) -> (r: Result<(), CommerceError>)
        ensures
            self@.validated_at(now, r),
    {
        if self.is_empty() {
            return Err(CommerceError::CartEmpty);
        }
        if self.status != CartStatus::Active {
            return Err(CommerceError::CartNotActive);
        }
        if self.is_expired_at(now) {
            return Err(CommerceError::CartExpired);
        }
        if self.shipping_address.is_none() {
            return Err(CommerceError::ShippingAddressRequired);
        }
        Ok(())
    }

    /// Validates cart for checkout by the clock.
    pub fn validate_for_checkout(&self) -> (r: Result<(), CommerceError>)
        ensures
            exists|now: u64| self@.validated_at(now, r),
    {
        let now = unix_seconds();
        let r = self.validate_for_checkout_at(now);
        assert(self@.validated_at(now, r));
        r
    }
}

} // verus!
