//! Cart items.

use crate::clock::unix_seconds;
use crate::implementation::cart_system::types::{AppliedDiscount, AppliedDiscountView};
use crate::quantity::{capped, capped_sum, saturating_mul_u64, total};
use crate::types::product_catalog::{Price, PriceView, Product, ProductId};
use crate::views::{clone_opt, clone_vec, opt_view, seq_view};
use vstd::prelude::*;

verus! {

/// A configurable option that a customer chose for an item.
#[derive(Debug)]
pub struct CustomOption {
    /// The option's name.
    pub name: String,
    /// The value chosen.
    pub value: String,
}

/// The model of a [`CustomOption`].
pub ghost struct CustomOptionView {
    pub name: Seq<char>,
    pub value: Seq<char>,
}

impl View for CustomOption {
    type V = CustomOptionView;

    open spec fn view(&self) -> CustomOptionView {
        CustomOptionView {
            name: self.name@,
            value: self.value@,
        }
    }
}

impl Clone for CustomOption {
    fn clone(&self) -> (r: Self)
        ensures
            r@ == self@,
    {
        CustomOption {
            name: self.name.clone(),
            value: self.value.clone(),
        }
    }
}

/// Item in the shopping cart.
#[derive(Debug)]
pub struct CartItem {
    /// Product ID.
    pub product_id: ProductId,
    /// Variant ID (if applicable).
    pub variant_id: Option<ProductId>,
    /// Product name (snapshot).
    pub product_name: String,
    /// Product SKU (snapshot).
    pub product_sku: String,
    /// Product image URL (snapshot).
    pub image_url: Option<String>,
    /// Quantity in cart.
    pub quantity: u32,
    /// Unit price at time of adding.
    pub unit_price: Price,
    /// Original price (before sale).
    pub original_price: Price,
    /// Applied item-level discounts.
    pub discounts: Vec<AppliedDiscount>,
    /// Custom options/configurations, one under a name.
    pub custom_options: Vec<CustomOption>,
    /// When item was added.
    pub added_at: u64,
    /// When item was last updated.
    pub updated_at: u64,
}

/// The model of a [`CartItem`]: everything but the time of its last change,
/// which is a clock reading.
pub ghost struct CartItemView {
    pub product_id: Seq<char>,
    pub variant_id: Option<Seq<char>>,
    pub product_name: Seq<char>,
    pub product_sku: Seq<char>,
    pub image_url: Option<Seq<char>>,
    pub quantity: u32,
    pub unit_price: PriceView,
    pub original_price: PriceView,
    pub discounts: Seq<AppliedDiscountView>,
    pub custom_options: Seq<CustomOptionView>,
    pub added_at: u64,
}

impl View for CartItem {
    type V = CartItemView;

    open spec fn view(&self) -> CartItemView {
        CartItemView {
            product_id: self.product_id@,
            variant_id: opt_view(self.variant_id),
            product_name: self.product_name@,
            product_sku: self.product_sku@,
            image_url: opt_view(self.image_url),
            quantity: self.quantity,
            unit_price: self.unit_price@,
            original_price: self.original_price@,
            discounts: seq_view(self.discounts@),
            custom_options: seq_view(self.custom_options@),
            added_at: self.added_at,
        }
    }
}

impl Clone for CartItem {
    fn clone(&self) -> (r: Self)
        ensures
            r@ == self@,
            r.updated_at == self.updated_at,
    {
        CartItem {
            product_id: self.product_id.clone(),
            variant_id: clone_opt(&self.variant_id),
            product_name: self.product_name.clone(),
            product_sku: self.product_sku.clone(),
            image_url: clone_opt(&self.image_url),
            quantity: self.quantity,
            unit_price: self.unit_price.clone(),
            original_price: self.original_price.clone(),
            discounts: clone_vec(&self.discounts),
            custom_options: clone_vec(&self.custom_options),
            added_at: self.added_at,
            updated_at: self.updated_at,
        }
    }
}

/// What a discount saves.
pub open spec fn discount_savings() -> spec_fn(AppliedDiscountView) -> nat {
    |discount: AppliedDiscountView| discount.savings as nat
}

impl CartItemView {
    /// The price of the units before discounts.
    pub open spec fn subtotal(self) -> nat {
        (self.unit_price.amount * self.quantity) as nat
    }

    /// The savings of all the item's discounts.
    pub open spec fn total_discount(self) -> nat {
        total(self.discounts, discount_savings(), self.discounts.len())
    }

    /// Whether the unit price lies below the original one.
    pub open spec fn is_on_sale(self) -> bool {
        self.unit_price.amount < self.original_price.amount
    }

    /// What the sale price saves over all units.
    pub open spec fn sale_savings(self) -> nat {
        if self.is_on_sale() {
            ((self.original_price.amount - self.unit_price.amount) * self.quantity) as nat
        } else {
            0
        }
    }
}

impl CartItem {
    /// The URL of the image shown for a product, if it has one.
    pub open spec fn image_of(product: Product) -> Option<Seq<char>> {
        if product.images@.len() == 0 {
            None
        } else {
            Some(product.images@[Product::primary_index(product.images@, 0)].url@)
        }
    }

    /// Creates a cart item from a product: a snapshot of its name, SKU,
    /// image and prices.
    pub fn from_product(product: &Product, quantity: u32) -> (r: Self)
        ensures
            r@ == (CartItemView {
                product_id: product.id@,
                variant_id: None,
                product_name: product.name@,
                product_sku: product.sku@,
                image_url: Self::image_of(*product),
                quantity,
                unit_price: match product.sale_price {
                    Some(sale) => sale@,
                    None => product.price@,
                },
                original_price: product.price@,
                discounts: Seq::empty(),
                custom_options: Seq::empty(),
                added_at: r.added_at,
            }),
            r.updated_at == r.added_at,
    {
        let now = unix_seconds();
        let image_url = match product.primary_image() {
            Some(image) => Some(image.url.clone()),
            None => None,
        };
        let item = CartItem {
            product_id: product.id.clone(),
            variant_id: None,
            product_name: product.name.clone(),
            product_sku: product.sku.0.clone(),
            image_url,
            quantity,
            unit_price: product.effective_price().clone(),
            original_price: product.price.clone(),
            discounts: Vec::new(),
            custom_options: Vec::new(),
            added_at: now,
            updated_at: now,
        };
        assert(item@.discounts =~= Seq::empty());
        assert(item@.custom_options =~= Seq::empty());
        item
    }

    /// Calculates the subtotal (before discounts), held at the upper bound
    /// of `u64`.
    pub fn subtotal(&self) -> (r: u64)
        ensures
            r == capped(self@.subtotal() as int),
    {
        saturating_mul_u64(self.unit_price.amount, self.quantity as u64)
    }

    /// Calculates total discount amount, held at the upper bound of `u64`.
    pub fn total_discount(&self) -> (r: u64)
        ensures
            r == capped(self@.total_discount() as int),
    {
        let mut sum: u64 = 0;
        let mut i: usize = 0;
        while i < self.discounts.len()
            invariant
                i <= self.discounts.len(),
                sum == capped(total(self@.discounts, discount_savings(), i as nat) as int),
            decreases self.discounts.len() - i,
        {
            proof {
                capped_sum(
                    total(self@.discounts, discount_savings(), i as nat),
                    self.discounts@[i as int].savings as nat,
                );
            }
            sum = sum.saturating_add(self.discounts[i].savings);
            i += 1;
        }
        sum
    }

    /// Calculates the total (after discounts): the subtotal less the
    /// discounts, but not less than nothing.
    pub fn total(&self) -> (r: u64)
        ensures
            r == capped(
                capped(self@.subtotal() as int) - capped(self@.total_discount() as int),
            ),
    {
        self.subtotal().saturating_sub(self.total_discount())
    }

    /// Checks if item is on sale.
    pub fn is_on_sale(&self) -> (r: bool)
        ensures
            r == self@.is_on_sale(),
    {
        self.unit_price.amount < self.original_price.amount
    }

    /// Calculates savings from sale price, held at the upper bound of `u64`.
    pub fn sale_savings(&self) -> (r: u64)
        ensures
            r == capped(self@.sale_savings() as int),
    {
        if self.is_on_sale() {
            saturating_mul_u64(
                self.original_price.amount - self.unit_price.amount,
                self.quantity as u64,
            )
        } else {
            0
        }
    }

    /// Updates quantity.
    pub fn set_quantity(&mut self, quantity: u32)
        ensures
            final(self)@ == (CartItemView { quantity, ..old(self)@ }),
    {
        self.quantity = quantity;
        self.updated_at = unix_seconds();
    }
}

} // verus!
