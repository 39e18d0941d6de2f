//! Shipping addresses and methods.

use crate::text::{decimal, decimal_string, joined};
use crate::types::product_catalog::{Currency, Price, PriceView};
use crate::views::{clone_opt, opt_view};
use vstd::prelude::*;

verus! {

/// Shipping address.
#[derive(Debug)]
pub struct ShippingAddress {
    /// First name.
    pub first_name: String,
    /// Last name.
    pub last_name: String,
    /// Company name.
    pub company: Option<String>,
    /// Address line 1.
    pub address_line1: String,
    /// Address line 2.
    pub address_line2: Option<String>,
    /// City.
    pub city: String,
    /// State/Province.
    pub state: String,
    /// Postal/ZIP code.
    pub postal_code: String,
    /// Country code (ISO 3166-1 alpha-2).
    pub country_code: String,
    /// Phone number.
    pub phone: Option<String>,
}

/// The model of a [`ShippingAddress`].
pub ghost struct ShippingAddressView {
    pub first_name: Seq<char>,
    pub last_name: Seq<char>,
    pub company: Option<Seq<char>>,
    pub address_line1: Seq<char>,
    pub address_line2: Option<Seq<char>>,
    pub city: Seq<char>,
    pub state: Seq<char>,
    pub postal_code: Seq<char>,
    pub country_code: Seq<char>,
    pub phone: Option<Seq<char>>,
}

impl View for ShippingAddress {
    type V = ShippingAddressView;

    open spec fn view(&self) -> ShippingAddressView {
        ShippingAddressView {
            first_name: self.first_name@,
            last_name: self.last_name@,
            company: opt_view(self.company),
            address_line1: self.address_line1@,
            address_line2: opt_view(self.address_line2),
            city: self.city@,
            state: self.state@,
            postal_code: self.postal_code@,
            country_code: self.country_code@,
            phone: opt_view(self.phone),
        }
    }
}

impl Clone for ShippingAddress {
    fn clone(&self) -> (r: Self)
        ensures
            r@ == self@,
    {
        ShippingAddress {
            first_name: self.first_name.clone(),
            last_name: self.last_name.clone(),
            company: clone_opt(&self.company),
            address_line1: self.address_line1.clone(),
            address_line2: clone_opt(&self.address_line2),
            city: self.city.clone(),
            state: self.state.clone(),
            postal_code: self.postal_code.clone(),
            country_code: self.country_code.clone(),
            phone: clone_opt(&self.phone),
        }
    }
}

impl Default for ShippingAddress {
    fn default() -> (r: Self)
        ensures
            r@ == (ShippingAddressView {
                first_name: Seq::empty(),
                last_name: Seq::empty(),
                company: None,
                address_line1: Seq::empty(),
                address_line2: None,
                city: Seq::empty(),
                state: Seq::empty(),
                postal_code: Seq::empty(),
                country_code: Seq::empty(),
                phone: None,
            }),
    {
        ShippingAddress {
            first_name: String::new(),
            last_name: String::new(),
            company: None,
            address_line1: String::new(),
            address_line2: None,
            city: String::new(),
            state: String::new(),
            postal_code: String::new(),
            country_code: String::new(),
            phone: None,
        }
    }
}

impl ShippingAddress {
    /// Creates a new shipping address.
    pub fn new(
        first_name: &str,
        last_name: &str,
        address_line1: &str,
        city: &str,
        state: &str,
        postal_code: &str,
        country_code: &str,
    ) -> (r: Self)
        ensures
            r@ == (ShippingAddressView {
                first_name: first_name@,
                last_name: last_name@,
                company: None,
                address_line1: address_line1@,
                address_line2: None,
                city: city@,
                state: state@,
                postal_code: postal_code@,
                country_code: country_code@,
                phone: None,
            }),
    {
        ShippingAddress {
            first_name: first_name.to_owned(),
            last_name: last_name.to_owned(),
            company: None,
            address_line1: address_line1.to_owned(),
            address_line2: None,
            city: city.to_owned(),
            state: state.to_owned(),
            postal_code: postal_code.to_owned(),
            country_code: country_code.to_owned(),
            phone: None,
        }
    }

    /// Gets the full name: first and last name with a space between them.
    pub fn full_name(&self) -> (r: String)
        ensures
            r@ == self.first_name@ + " "@ + self.last_name@,
    {
        let first = joined(self.first_name.as_str(), " ");
        joined(first.as_str(), self.last_name.as_str())
    }
}

/// Shipping method.
#[derive(Debug)]
pub struct ShippingMethod {
    /// Method ID.
    pub id: String,
    /// Method name.
    pub name: String,
    /// Description.
    pub description: String,
    /// Shipping cost.
    pub cost: Price,
    /// Estimated delivery days (min).
    pub estimated_days_min: u32,
    /// Estimated delivery days (max).
    pub estimated_days_max: u32,
    /// Whether tracking is available.
    pub has_tracking: bool,
}

/// The model of a [`ShippingMethod`].
pub ghost struct ShippingMethodView {
    pub id: Seq<char>,
    pub name: Seq<char>,
    pub description: Seq<char>,
    pub cost: PriceView,
    pub estimated_days_min: u32,
    pub estimated_days_max: u32,
    pub has_tracking: bool,
}

impl View for ShippingMethod {
    type V = ShippingMethodView;

    open spec fn view(&self) -> ShippingMethodView {
        ShippingMethodView {
            id: self.id@,
            name: self.name@,
            description: self.description@,
            cost: self.cost@,
            estimated_days_min: self.estimated_days_min,
            estimated_days_max: self.estimated_days_max,
            has_tracking: self.has_tracking,
        }
    }
}

impl Clone for ShippingMethod {
    fn clone(&self) -> (r: Self)
        ensures
            r@ == self@,
    {
        ShippingMethod {
            id: self.id.clone(),
            name: self.name.clone(),
            description: self.description.clone(),
            cost: self.cost.clone(),
            estimated_days_min: self.estimated_days_min,
            estimated_days_max: self.estimated_days_max,
            has_tracking: self.has_tracking,
        }
    }
}

impl ShippingMethodView {
    /// A method as it is created: without description, delivered in three to
    /// seven days, with tracking.
    pub open spec fn standard(id: Seq<char>, name: Seq<char>, cost: PriceView) -> Self {
        ShippingMethodView {
            id,
            name,
            description: Seq::empty(),
            cost,
            estimated_days_min: 3,
            estimated_days_max: 7,
            has_tracking: true,
        }
    }

    /// The delivery estimate as text: one number of business days when the
    /// bounds agree, else the range.
    pub open spec fn delivery_estimate(self) -> Seq<char> {
        if self.estimated_days_min == self.estimated_days_max {
            decimal(self.estimated_days_min as nat) + " business days"@
        } else {
            decimal(self.estimated_days_min as nat) + "-"@ + decimal(
                self.estimated_days_max as nat,
            ) + " business days"@
        }
    }
}

impl ShippingMethod {
    /// Creates a new shipping method.
    pub fn new(id: &str, name: &str, cost: Price) -> (r: Self)
        ensures
            r@ == ShippingMethodView::standard(id@, name@, cost@),
    {
        ShippingMethod {
            id: id.to_owned(),
            name: name.to_owned(),
            description: String::new(),
            cost,
            estimated_days_min: 3,
            estimated_days_max: 7,
            has_tracking: true,
        }
    }

    /// Creates a shipping method from static strings.
    pub fn from_static(id: &'static str, name: &'static str, cost: Price) -> (r: Self)
        ensures
            r@ == ShippingMethodView::standard(id@, name@, cost@),
    {
        ShippingMethod::new(id, name, cost)
    }

    /// Creates a free shipping method.
    pub fn free_shipping() -> (r: Self)
        ensures
            r@ == (ShippingMethodView {
                id: "free"@,
                name: "Free Shipping"@,
                description: "Standard free shipping"@,
                cost: PriceView { amount: 0, currency: "USD"@, decimals: 2 },
                estimated_days_min: 5,
                estimated_days_max: 10,
                has_tracking: false,
            }),
    {
        ShippingMethod {
            id: "free".to_owned(),
            name: "Free Shipping".to_owned(),
            description: "Standard free shipping".to_owned(),
            cost: Price::new(0, Currency::usd(), 2),
            estimated_days_min: 5,
            estimated_days_max: 10,
            has_tracking: false,
        }
    }

    /// Gets delivery estimate as string.
    pub fn delivery_estimate(&self) -> (r: String)
        ensures
            r@ == self@.delivery_estimate(),
    {
        let least = decimal_string(self.estimated_days_min as u64);
        if self.estimated_days_min == self.estimated_days_max {
            joined(least.as_str(), " business days")
        } else {
            let most = decimal_string(self.estimated_days_max as u64);
            let from = joined(least.as_str(), "-");
            let range = joined(from.as_str(), most.as_str());
            joined(range.as_str(), " business days")
        }
    }
}

} // verus!
