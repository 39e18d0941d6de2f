//! Cart identifiers and discounts.

use crate::clock::unix_nanos;
use crate::text::{decimal, joined, to_uppercase, uppercase, wide_decimal_string};
use vstd::prelude::*;

verus! {

/// Unique cart identifier.
#[derive(Debug, Hash)]
pub struct CartId(pub String);

impl View for CartId {
    type V = Seq<char>;

    open spec fn view(&self) -> Seq<char> {
        self.0@
    }
}

impl Clone for CartId {
    fn clone(&self) -> (r: Self)
        ensures
            r@ == self@,
    {
        CartId(self.0.clone())
    }
}

impl PartialEq for CartId {
    fn eq(&self, other: &Self) -> (r: bool) {
        self.0 == other.0
    }
}

impl Eq for CartId {}

impl vstd::std_specs::cmp::PartialEqSpecImpl for CartId {
    open spec fn obeys_eq_spec() -> bool {
        true
    }

    open spec fn eq_spec(&self, other: &Self) -> bool {
        self@ == other@
    }
}

impl CartId {
    /// Creates a new cart ID.
    pub fn new(id: &str) -> (r: Self)
        ensures
            r@ == id@,
    {
        CartId(id.to_owned())
    }

    /// Creates a cart ID from a static string slice.
    pub fn from_static(id: &'static str) -> (r: Self)
        ensures
            r@ == id@,
    {
        CartId(id.to_owned())
    }

    /// Generates a cart ID from the clock: `cart-` and the number of
    /// nanoseconds since the Unix epoch.
    pub fn generate() -> (r: Self)
        ensures
            exists|nanos: nat| r@ == "cart-"@ + decimal(nanos),
    {
        let timestamp = unix_nanos();
        let digits = wide_decimal_string(timestamp);
        let id = joined("cart-", digits.as_str());
        assert(id@ == "cart-"@ + decimal(timestamp as nat));
        CartId(id)
    }

    /// The identifier as text.
    pub fn to_string(&self) -> (s: String)
        ensures
            s@ == self@,
    {
        self.0.clone()
    }
}

/// Customer identifier.
#[derive(Debug, Hash)]
pub struct CustomerId(pub String);

impl View for CustomerId {
    type V = Seq<char>;

    open spec fn view(&self) -> Seq<char> {
        self.0@
    }
}

impl Clone for CustomerId {
    fn clone(&self) -> (r: Self)
        ensures
            r@ == self@,
    {
        CustomerId(self.0.clone())
    }
}

impl PartialEq for CustomerId {
    fn eq(&self, other: &Self) -> (r: bool) {
        self.0 == other.0
    }
}

impl Eq for CustomerId {}

impl vstd::std_specs::cmp::PartialEqSpecImpl for CustomerId {
    open spec fn obeys_eq_spec() -> bool {
        true
    }

    open spec fn eq_spec(&self, other: &Self) -> bool {
        self@ == other@
    }
}

impl CustomerId {
    /// Creates a new customer ID.
    pub fn new(id: &str) -> (r: Self)
        ensures
            r@ == id@,
    {
        CustomerId(id.to_owned())
    }

    /// Creates a customer ID from a static string slice.
    pub fn from_static(id: &'static str) -> (r: Self)
        ensures
            r@ == id@,
    {
        CustomerId(id.to_owned())
    }

    /// Guest customer (not logged in).
    pub fn guest() -> (r: Self)
        ensures
            r@ == "guest"@,
    {
        CustomerId("guest".to_owned())
    }
}

/// Cart status.
#[derive(Debug, Clone, Copy, PartialEq, Eq, Structural)]
pub enum CartStatus {
    /// Cart is active and can be modified.
    Active,
    /// Cart has been converted to an order.
    Converted,
    /// Cart was abandoned.
    Abandoned,
    /// Cart has expired.
    Expired,
    /// Cart was merged into another cart.
    Merged,
}

impl Default for CartStatus {
    fn default() -> (r: Self)
        ensures
            r == CartStatus::Active,
    {
        CartStatus::Active
    }
}

/// Coupon/discount code.
#[derive(Debug)]
pub struct CouponCode(pub String);

impl View for CouponCode {
    type V = Seq<char>;

    open spec fn view(&self) -> Seq<char> {
        self.0@
    }
}

impl Clone for CouponCode {
    fn clone(&self) -> (r: Self)
        ensures
            r@ == self@,
    {
        CouponCode(self.0.clone())
    }
}

impl CouponCode {
    /// Creates a new coupon code, brought to uppercase.
    pub fn new(code: &str) -> (r: Self)
        ensures
            r@ == uppercase(code@),
    {
        CouponCode(to_uppercase(code))
    }

    /// Creates a coupon code from a static string slice, which is taken as
    /// it is.
    pub fn from_static(code: &'static str) -> (r: Self)
        ensures
            r@ == code@,
    {
        CouponCode(code.to_owned())
    }
}

/// Type of discount.
#[derive(Debug, Clone, Copy, PartialEq, Eq, Structural)]
pub enum DiscountType {
    /// Percentage off.
    Percentage,
    /// Fixed amount off.
    FixedAmount,
    /// Free shipping.
    FreeShipping,
    /// Buy X get Y.
    BuyXGetY,
}

/// Applied discount.
#[derive(Debug)]
pub struct AppliedDiscount {
    /// Coupon code.
    pub code: CouponCode,
    /// Discount type.
    pub discount_type: DiscountType,
    /// Discount value (percentage or fixed amount).
    pub value: u64,
    /// Description.
    pub description: String,
    /// Amount saved.
    pub savings: u64,
}

/// The model of an [`AppliedDiscount`].
pub ghost struct AppliedDiscountView {
    pub code: Seq<char>,
    pub discount_type: DiscountType,
    pub value: u64,
    pub description: Seq<char>,
    pub savings: u64,
}

impl View for AppliedDiscount {
    type V = AppliedDiscountView;

    open spec fn view(&self) -> AppliedDiscountView {
        AppliedDiscountView {
            code: self.code@,
            discount_type: self.discount_type,
            value: self.value,
            description: self.description@,
            savings: self.savings,
        }
    }
}

impl Clone for AppliedDiscount {
    fn clone(&self) -> (r: Self)
        ensures
            r@ == self@,
    {
        AppliedDiscount {
            code: self.code.clone(),
            discount_type: self.discount_type,
            value: self.value,
            description: self.description.clone(),
            savings: self.savings,
        }
    }
}

impl AppliedDiscount {
    /// Creates a percentage discount.
    pub fn percentage(code: CouponCode, percent: u64, description: &str) -> (r: Self)
        ensures
            r@ == (AppliedDiscountView {
                code: code@,
                discount_type: DiscountType::Percentage,
                value: percent,
                description: description@,
                savings: 0,
            }),
    {
        AppliedDiscount {
            code,
            discount_type: DiscountType::Percentage,
            value: percent,
            description: description.to_owned(),
            savings: 0,
        }
    }

    /// Creates a fixed amount discount.
    pub fn fixed_amount(code: CouponCode, amount: u64, description: &str) -> (r: Self)
        ensures
            r@ == (AppliedDiscountView {
                code: code@,
                discount_type: DiscountType::FixedAmount,
                value: amount,
                description: description@,
                savings: 0,
            }),
    {
        AppliedDiscount {
            code,
            discount_type: DiscountType::FixedAmount,
            value: amount,
            description: description.to_owned(),
            savings: 0,
        }
    }
}

} // verus!
