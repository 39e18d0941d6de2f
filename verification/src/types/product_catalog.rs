//! Product catalog types.

use crate::clock::unix_seconds;
use crate::errors::{fails_with, CommerceError, CommerceErrorView};
use crate::text::{dashed, lowercase, slug};
use crate::views::{clone_opt, clone_vec, opt_view, seq_view, seq_view_push};
use vstd::prelude::*;
use vstd::string::*;

verus! {

/// Unique product identifier.
#[derive(Debug, Hash)]
pub struct ProductId(pub String);

impl View for ProductId {
    type V = Seq<char>;

    open spec fn view(&self) -> Seq<char> {
        self.0@
    }
}

impl Clone for ProductId {
    fn clone(&self) -> (r: Self)
        ensures
            r@ == self@,
    {
        ProductId(self.0.clone())
    }
}

impl PartialEq for ProductId {
    fn eq(&self, other: &Self) -> (r: bool) {
        self.0 == other.0
    }
}

impl Eq for ProductId {}

impl vstd::std_specs::cmp::PartialEqSpecImpl for ProductId {
    open spec fn obeys_eq_spec() -> bool {
        true
    }

    open spec fn eq_spec(&self, other: &Self) -> bool {
        self@ == other@
    }
}

impl ProductId {
    /// Creates a new product ID.
    pub fn new(id: &str) -> (r: Self)
        ensures
            r@ == id@,
    {
        ProductId(id.to_owned())
    }

    /// Creates a product ID from a static string slice.
    pub fn from_static(id: &'static str) -> (r: Self)
        ensures
            r@ == id@,
    {
        ProductId(id.to_owned())
    }

    /// The identifier as text.
    pub fn to_string(&self) -> (s: String)
        ensures
            s@ == self@,
    {
        self.0.clone()
    }

    /// Returns the ID as a string slice.
    pub fn as_str(&self) -> (s: &str)
        ensures
            s@ == self@,
    {
        self.0.as_str()
    }
}

/// Unique SKU (Stock Keeping Unit).
#[derive(Debug, Hash)]
pub struct Sku(pub String);

impl View for Sku {
    type V = Seq<char>;

    open spec fn view(&self) -> Seq<char> {
        self.0@
    }
}

impl Clone for Sku {
    fn clone(&self) -> (r: Self)
        ensures
            r@ == self@,
    {
        Sku(self.0.clone())
    }
}

impl PartialEq for Sku {
    fn eq(&self, other: &Self) -> (r: bool) {
        self.0 == other.0
    }
}

impl Eq for Sku {}

impl vstd::std_specs::cmp::PartialEqSpecImpl for Sku {
    open spec fn obeys_eq_spec() -> bool {
        true
    }

    open spec fn eq_spec(&self, other: &Self) -> bool {
        self@ == other@
    }
}

impl Sku {
    /// Creates a new SKU.
    pub fn new(sku: &str) -> (r: Self)
        ensures
            r@ == sku@,
    {
        Sku(sku.to_owned())
    }

    /// Creates a SKU from a static string slice.
    pub fn from_static(sku: &'static str) -> (r: Self)
        ensures
            r@ == sku@,
    {
        Sku(sku.to_owned())
    }

    /// The SKU as text.
    pub fn to_string(&self) -> (s: String)
        ensures
            s@ == self@,
    {
        self.0.clone()
    }
}

/// Category identifier.
#[derive(Debug, Hash)]
pub struct CategoryId(pub String);

impl View for CategoryId {
    type V = Seq<char>;

    open spec fn view(&self) -> Seq<char> {
        self.0@
    }
}

impl Clone for CategoryId {
    fn clone(&self) -> (r: Self)
        ensures
            r@ == self@,
    {
        CategoryId(self.0.clone())
    }
}

impl PartialEq for CategoryId {
    fn eq(&self, other: &Self) -> (r: bool) {
        self.0 == other.0
    }
}

impl Eq for CategoryId {}

impl vstd::std_specs::cmp::PartialEqSpecImpl for CategoryId {
    open spec fn obeys_eq_spec() -> bool {
        true
    }

    open spec fn eq_spec(&self, other: &Self) -> bool {
        self@ == other@
    }
}

impl CategoryId {
    /// Creates a new category ID.
    pub fn new(id: &str) -> (r: Self)
        ensures
            r@ == id@,
    {
        CategoryId(id.to_owned())
    }

    /// Creates a category ID from a static string slice.
    pub fn from_static(id: &'static str) -> (r: Self)
        ensures
            r@ == id@,
    {
        CategoryId(id.to_owned())
    }

    /// The identifier as text.
    pub fn to_string(&self) -> (s: String)
        ensures
            s@ == self@,
    {
        self.0.clone()
    }
}

/// Product status in the catalog.
#[derive(Debug, Clone, Copy, PartialEq, Eq, Structural)]
pub enum ProductStatus {
    /// Product is active and available.
    Active,
    /// Product is inactive but not deleted.
    Inactive,
    /// Product is a draft (not published).
    Draft,
    /// Product is archived.
    Archived,
    /// Product is discontinued.
    Discontinued,
    /// Product is out of stock.
    OutOfStock,
    /// Product is pending approval.
    PendingApproval,
    /// Product is deleted (soft delete).
    Deleted,
}

impl Default for ProductStatus {
    fn default() -> (r: Self)
        ensures
            r == ProductStatus::Active,
    {
        ProductStatus::Active
    }
}

impl ProductStatus {
    /// Whether the product is visible to customers.
    pub fn is_visible(&self) -> (r: bool)
        ensures
            r == (*self == ProductStatus::Active || *self == ProductStatus::OutOfStock),
    {
        match self {
            ProductStatus::Active => true,
            ProductStatus::OutOfStock => true,
            _ => false,
        }
    }

    /// Whether the product can be purchased.
    pub fn is_purchasable(&self) -> (r: bool)
        ensures
            r == (*self == ProductStatus::Active),
    {
        match self {
            ProductStatus::Active => true,
            _ => false,
        }
    }
}

/// Product type classification.
#[derive(Debug, Clone, Copy, PartialEq, Eq, Structural)]
pub enum ProductType {
    /// Physical product requiring shipping.
    Physical,
    /// Digital product (download).
    Digital,
    /// Service offering.
    Service,
    /// Subscription-based product.
    Subscription,
    /// Bundle of multiple products.
    Bundle,
    /// Gift card or voucher.
    GiftCard,
    /// Configurable product with variants.
    Configurable,
    /// Virtual goods (in-game items, etc.).
    Virtual,
}

impl Default for ProductType {
    fn default() -> (r: Self)
        ensures
            r == ProductType::Physical,
    {
        ProductType::Physical
    }
}

/// Currency code (ISO 4217).
#[derive(Debug)]
pub struct Currency(pub String);

impl View for Currency {
    type V = Seq<char>;

    open spec fn view(&self) -> Seq<char> {
        self.0@
    }
}

impl Clone for Currency {
    fn clone(&self) -> (r: Self)
        ensures
            r@ == self@,
    {
        Currency(self.0.clone())
    }
}

impl PartialEq for Currency {
    fn eq(&self, other: &Self) -> (r: bool) {
        self.0 == other.0
    }
}

impl Eq for Currency {}

impl vstd::std_specs::cmp::PartialEqSpecImpl for Currency {
    open spec fn obeys_eq_spec() -> bool {
        true
    }

    open spec fn eq_spec(&self, other: &Self) -> bool {
        self@ == other@
    }
}

impl Default for Currency {
    fn default() -> (r: Self)
        ensures
            r@ == Seq::<char>::empty(),
    {
        Currency(String::new())
    }
}

impl Currency {
    /// Creates a new currency code.
    pub fn new(code: &str) -> (r: Self)
        ensures
            r@ == code@,
    {
        Currency(code.to_owned())
    }

    /// Essentia native token.
    pub fn ess() -> (r: Self)
        ensures
            r@ == "ESS"@,
    {
        Currency("ESS".to_owned())
    }

    /// US Dollar.
    pub fn usd() -> (r: Self)
        ensures
            r@ == "USD"@,
    {
        Currency("USD".to_owned())
    }
}

/// Price with currency.
#[derive(Debug)]
pub struct Price {
    /// Amount in smallest currency unit (cents, satoshi, etc.).
    pub amount: u64,
    /// Currency code.
    pub currency: Currency,
    /// Number of decimal places.
    pub decimals: u8,
}

/// The model of a [`Price`].
pub ghost struct PriceView {
    pub amount: u64,
    pub currency: Seq<char>,
    pub decimals: u8,
}

impl View for Price {
    type V = PriceView;

    open spec fn view(&self) -> PriceView {
        PriceView { amount: self.amount, currency: self.currency@, decimals: self.decimals }
    }
}

impl Clone for Price {
    fn clone(&self) -> (r: Self)
        ensures
            r@ == self@,
    {
        Price { amount: self.amount, currency: self.currency.clone(), decimals: self.decimals }
    }
}

impl PartialEq for Price {
    fn eq(&self, other: &Self) -> (r: bool) {
        self.amount == other.amount && self.currency == other.currency && self.decimals
            == other.decimals
    }
}

impl vstd::std_specs::cmp::PartialEqSpecImpl for Price {
    open spec fn obeys_eq_spec() -> bool {
        true
    }

    open spec fn eq_spec(&self, other: &Self) -> bool {
        self@ == other@
    }
}

impl Default for Price {
    fn default() -> (r: Self)
        ensures
            r@ == (PriceView { amount: 0, currency: "ESS"@, decimals: 18 }),
    {
        Price::ess(0)
    }
}

impl PriceView {
    /// The sum of two prices of one currency: the amounts are added,
    /// saturating at the bound of `u64`; currency and decimals are those of
    /// the first.
    pub open spec fn plus(self, other: PriceView) -> PriceView {
        PriceView {
            amount: if self.amount + other.amount > u64::MAX {
                u64::MAX
            } else {
                (self.amount + other.amount) as u64
            },
            ..self
        }
    }
}

impl Price {
    /// Creates a new price.
    pub fn new(amount: u64, currency: Currency, decimals: u8) -> (r: Self)
        ensures
            r@ == (PriceView { amount, currency: currency@, decimals }),
    {
        Price { amount, currency, decimals }
    }

    /// Creates a price in ESS tokens.
    pub fn ess(amount: u64) -> (r: Self)
        ensures
            r@ == (PriceView { amount, currency: "ESS"@, decimals: 18 }),
    {
        Price::new(amount, Currency::ess(), 18)
    }

    /// Adds another price (must be same currency).
    ///
    /// Fails with a currency mismatch when the currencies differ.
    pub fn add(&self, other: &Price) -> (r: Result<Price, CommerceError>)
        ensures
            if self@.currency == other@.currency {
                r is Ok && r->Ok_0@ == self@.plus(other@)
            } else {
                fails_with(
                    r,
                    CommerceErrorView::CurrencyMismatch {
                        expected: self@.currency,
                        got: other@.currency,
                    },
                )
            },
    {
        if self.currency != other.currency {
            return Err(
                CommerceError::CurrencyMismatch {
                    expected: self.currency.0.clone(),
                    got: other.currency.0.clone(),
                },
            );
        }
        Ok(
            Price::new(
                self.amount.saturating_add(other.amount),
                self.currency.clone(),
                self.decimals,
            ),
        )
    }
}

// ============================================================================
// PRODUCT METADATA
// ============================================================================
/// Product image information.
#[derive(Debug)]
pub struct ProductImage {
    /// Image URL or content hash.
    pub url: String,
    /// Alternative text for accessibility.
    pub alt_text: String,
    /// Sort order in gallery.
    pub sort_order: u32,
    /// Whether this is the main product image.
    pub is_primary: bool,
    /// Image width in pixels.
    pub width: Option<u32>,
    /// Image height in pixels.
    pub height: Option<u32>,
}

/// The model of a [`ProductImage`].
pub ghost struct ProductImageView {
    pub url: Seq<char>,
    pub alt_text: Seq<char>,
    pub sort_order: u32,
    pub is_primary: bool,
    pub width: Option<u32>,
    pub height: Option<u32>,
}

impl View for ProductImage {
    type V = ProductImageView;

    open spec fn view(&self) -> ProductImageView {
        ProductImageView {
            url: self.url@,
            alt_text: self.alt_text@,
            sort_order: self.sort_order,
            is_primary: self.is_primary,
            width: self.width,
            height: self.height,
        }
    }
}

impl Clone for ProductImage {
    fn clone(&self) -> (r: Self)
        ensures
            r@ == self@,
    {
        ProductImage {
            url: self.url.clone(),
            alt_text: self.alt_text.clone(),
            sort_order: self.sort_order,
            is_primary: self.is_primary,
            width: self.width,
            height: self.height,
        }
    }
}

impl ProductImage {
    /// Creates a new product image.
    pub fn new(url: &str, alt_text: &str) -> (r: Self)
        ensures
            r@ == (ProductImageView {
                url: url@,
                alt_text: alt_text@,
                sort_order: 0,
                is_primary: false,
                width: None,
                height: None,
            }),
    {
        ProductImage {
            url: url.to_owned(),
            alt_text: alt_text.to_owned(),
            sort_order: 0,
            is_primary: false,
            width: None,
            height: None,
        }
    }

    /// Marks this image as primary.
    pub fn as_primary(self) -> (r: Self)
        ensures
            r@ == (ProductImageView { is_primary: true, ..self@ }),
    {
        let mut image = self;
        image.is_primary = true;
        image
    }
}

/// Product attribute (configurable properties).
#[derive(Debug)]
pub struct ProductAttribute {
    /// Attribute name (e.g., "Color", "Size").
    pub name: String,
    /// Attribute value.
    pub value: String,
    /// Whether this affects pricing.
    pub affects_pricing: bool,
    /// Whether this affects inventory.
    pub affects_inventory: bool,
}

/// The model of a [`ProductAttribute`].
pub ghost struct ProductAttributeView {
    pub name: Seq<char>,
    pub value: Seq<char>,
    pub affects_pricing: bool,
    pub affects_inventory: bool,
}

impl View for ProductAttribute {
    type V = ProductAttributeView;

    open spec fn view(&self) -> ProductAttributeView {
        ProductAttributeView {
            name: self.name@,
            value: self.value@,
            affects_pricing: self.affects_pricing,
            affects_inventory: self.affects_inventory,
        }
    }
}

impl Clone for ProductAttribute {
    fn clone(&self) -> (r: Self)
        ensures
            r@ == self@,
    {
        ProductAttribute {
            name: self.name.clone(),
            value: self.value.clone(),
            affects_pricing: self.affects_pricing,
            affects_inventory: self.affects_inventory,
        }
    }
}

impl ProductAttribute {
    /// Creates a new attribute.
    pub fn new(name: &str, value: &str) -> (r: Self)
        ensures
            r@ == (ProductAttributeView {
                name: name@,
                value: value@,
                affects_pricing: false,
                affects_inventory: false,
            }),
    {
        ProductAttribute {
            name: name.to_owned(),
            value: value.to_owned(),
            affects_pricing: false,
            affects_inventory: false,
        }
    }
}

/// Product variant for configurable products.
#[derive(Debug)]
pub struct ProductVariant {
    /// Variant ID.
    pub id: ProductId,
    /// Parent product ID.
    pub parent_id: ProductId,
    /// Variant SKU.
    pub sku: Sku,
    /// Attributes that define this variant.
    pub attributes: Vec<ProductAttribute>,
    /// Variant-specific price (if different from parent).
    pub price_override: Option<Price>,
    /// Variant-specific inventory count.
    pub inventory_count: i64,
    /// Whether variant is active.
    pub is_active: bool,
}

/// The model of a [`ProductVariant`].
pub ghost struct ProductVariantView {
    pub id: Seq<char>,
    pub parent_id: Seq<char>,
    pub sku: Seq<char>,
    pub attributes: Seq<ProductAttributeView>,
    pub price_override: Option<PriceView>,
    pub inventory_count: i64,
    pub is_active: bool,
}

impl View for ProductVariant {
    type V = ProductVariantView;

    open spec fn view(&self) -> ProductVariantView {
        ProductVariantView {
            id: self.id@,
            parent_id: self.parent_id@,
            sku: self.sku@,
            attributes: seq_view(self.attributes@),
            price_override: opt_view(self.price_override),
            inventory_count: self.inventory_count,
            is_active: self.is_active,
        }
    }
}

impl Clone for ProductVariant {
    fn clone(&self) -> (r: Self)
        ensures
            r@ == self@,
    {
        ProductVariant {
            id: self.id.clone(),
            parent_id: self.parent_id.clone(),
            sku: self.sku.clone(),
            attributes: clone_vec(&self.attributes),
            price_override: clone_opt(&self.price_override),
            inventory_count: self.inventory_count,
            is_active: self.is_active,
        }
    }
}

impl ProductVariant {
    /// Creates a new variant.
    pub fn new(id: ProductId, parent_id: ProductId, sku: Sku) -> (r: Self)
        ensures
            r@ == (ProductVariantView {
                id: id@,
                parent_id: parent_id@,
                sku: sku@,
                attributes: Seq::empty(),
                price_override: None,
                inventory_count: 0,
                is_active: true,
            }),
    {
        let variant = ProductVariant {
            id,
            parent_id,
            sku,
            attributes: Vec::new(),
            price_override: None,
            inventory_count: 0,
            is_active: true,
        };
        assert(variant@.attributes =~= Seq::empty());
        variant
    }
}

// ============================================================================
// CATEGORY
// ============================================================================
/// Product category in the catalog hierarchy.
#[derive(Debug)]
pub struct Category {
    /// Category ID.
    pub id: CategoryId,
    /// Category name.
    pub name: String,
    /// Category description.
    pub description: String,
    /// Parent category (if not root).
    pub parent_id: Option<CategoryId>,
    /// URL slug for the category.
    pub slug: String,
    /// Sort order within parent.
    pub sort_order: u32,
    /// Whether category is visible.
    pub is_active: bool,
    /// Category image URL.
    pub image_url: Option<String>,
    /// SEO meta title.
    pub meta_title: Option<String>,
    /// SEO meta description.
    pub meta_description: Option<String>,
}

/// The model of a [`Category`].
pub ghost struct CategoryView {
    pub id: Seq<char>,
    pub name: Seq<char>,
    pub description: Seq<char>,
    pub parent_id: Option<Seq<char>>,
    pub slug: Seq<char>,
    pub sort_order: u32,
    pub is_active: bool,
    pub image_url: Option<Seq<char>>,
    pub meta_title: Option<Seq<char>>,
    pub meta_description: Option<Seq<char>>,
}

impl View for Category {
    type V = CategoryView;

    open spec fn view(&self) -> CategoryView {
        CategoryView {
            id: self.id@,
            name: self.name@,
            description: self.description@,
            parent_id: opt_view(self.parent_id),
            slug: self.slug@,
            sort_order: self.sort_order,
            is_active: self.is_active,
            image_url: opt_view(self.image_url),
            meta_title: opt_view(self.meta_title),
            meta_description: opt_view(self.meta_description),
        }
    }
}

impl Clone for Category {
    fn clone(&self) -> (r: Self)
        ensures
            r@ == self@,
    {
        Category {
            id: self.id.clone(),
            name: self.name.clone(),
            description: self.description.clone(),
            parent_id: clone_opt(&self.parent_id),
            slug: self.slug.clone(),
            sort_order: self.sort_order,
            is_active: self.is_active,
            image_url: clone_opt(&self.image_url),
            meta_title: clone_opt(&self.meta_title),
            meta_description: clone_opt(&self.meta_description),
        }
    }
}

impl Category {
    /// Creates a new category. Its slug is the name in lowercase, with a
    /// dash in the place of every space.
    pub fn new(id: CategoryId, name: &str) -> (r: Self)
        ensures
            r@ == (CategoryView {
                id: id@,
                name: name@,
                description: Seq::empty(),
                parent_id: None,
                slug: dashed(lowercase(name@)),
                sort_order: 0,
                is_active: true,
                image_url: None,
                meta_title: None,
                meta_description: None,
            }),
    {
        Category {
            id,
            name: name.to_owned(),
            description: String::new(),
            parent_id: None,
            slug: slug(name),
            sort_order: 0,
            is_active: true,
            image_url: None,
            meta_title: None,
            meta_description: None,
        }
    }

    /// Sets the parent category.
    pub fn with_parent(self, parent_id: CategoryId) -> (r: Self)
        ensures
            r@ == (CategoryView { parent_id: Some(parent_id@), ..self@ }),
    {
        let mut category = self;
        category.parent_id = Some(parent_id);
        category
    }
}

// ============================================================================
// SEARCH & FILTERING
// ============================================================================
/// Search filters for product queries.
#[derive(Debug)]
pub struct ProductFilter {
    /// Filter by category IDs.
    pub categories: Vec<CategoryId>,
    /// Filter by status.
    pub status: Option<ProductStatus>,
    /// Filter by product type.
    pub product_type: Option<ProductType>,
    /// Minimum price filter.
    pub min_price: Option<u64>,
    /// Maximum price filter.
    pub max_price: Option<u64>,
    /// Filter by tags.
    pub tags: Vec<String>,
    /// Filter by vendor ID.
    pub vendor_id: Option<String>,
    /// Only featured products.
    pub featured_only: bool,
    /// Only in-stock products.
    pub in_stock_only: bool,
    /// Only products on sale.
    pub on_sale_only: bool,
    /// Text search query.
    pub search_query: Option<String>,
}

/// The model of a [`ProductFilter`].
pub ghost struct ProductFilterView {
    pub categories: Seq<Seq<char>>,
    pub status: Option<ProductStatus>,
    pub product_type: Option<ProductType>,
    pub min_price: Option<u64>,
    pub max_price: Option<u64>,
    pub tags: Seq<Seq<char>>,
    pub vendor_id: Option<Seq<char>>,
    pub featured_only: bool,
    pub in_stock_only: bool,
    pub on_sale_only: bool,
    pub search_query: Option<Seq<char>>,
}

impl View for ProductFilter {
    type V = ProductFilterView;

    open spec fn view(&self) -> ProductFilterView {
        ProductFilterView {
            categories: seq_view(self.categories@),
            status: self.status,
            product_type: self.product_type,
            min_price: self.min_price,
            max_price: self.max_price,
            tags: seq_view(self.tags@),
            vendor_id: opt_view(self.vendor_id),
            featured_only: self.featured_only,
            in_stock_only: self.in_stock_only,
            on_sale_only: self.on_sale_only,
            search_query: opt_view(self.search_query),
        }
    }
}

impl Clone for ProductFilter {
    fn clone(&self) -> (r: Self)
        ensures
            r@ == self@,
    {
        ProductFilter {
            categories: clone_vec(&self.categories),
            status: self.status,
            product_type: self.product_type,
            min_price: self.min_price,
            max_price: self.max_price,
            tags: clone_vec(&self.tags),
            vendor_id: clone_opt(&self.vendor_id),
            featured_only: self.featured_only,
            in_stock_only: self.in_stock_only,
            on_sale_only: self.on_sale_only,
            search_query: clone_opt(&self.search_query),
        }
    }
}

impl ProductFilterView {
    /// The filter that restricts nothing.
    pub open spec fn empty() -> Self {
        ProductFilterView {
            categories: Seq::empty(),
            status: None,
            product_type: None,
            min_price: None,
            max_price: None,
            tags: Seq::empty(),
            vendor_id: None,
            featured_only: false,
            in_stock_only: false,
            on_sale_only: false,
            search_query: None,
        }
    }
}

impl ProductFilter {
    /// Creates a new empty filter.
    pub fn new() -> (r: Self)
        ensures
            r@ == ProductFilterView::empty(),
    {
        let filter = ProductFilter {
            categories: Vec::new(),
            status: None,
            product_type: None,
            min_price: None,
            max_price: None,
            tags: Vec::new(),
            vendor_id: None,
            featured_only: false,
            in_stock_only: false,
            on_sale_only: false,
            search_query: None,
        };
        assert(filter@.categories =~= Seq::empty());
        assert(filter@.tags =~= Seq::empty());
        filter
    }

    /// Filters by category.
    pub fn with_category(self, category_id: CategoryId) -> (r: Self)
        ensures
            r@ == (ProductFilterView {
                categories: self@.categories.push(category_id@),
                ..self@
            }),
    {
        let mut filter = self;
        proof {
            seq_view_push(filter.categories@, category_id);
        }
        filter.categories.push(category_id);
        filter
    }

    /// Filters by status.
    pub fn with_status(self, status: ProductStatus) -> (r: Self)
        ensures
            r@ == (ProductFilterView { status: Some(status), ..self@ }),
    {
        let mut filter = self;
        filter.status = Some(status);
        filter
    }

    /// Filters by price range.
    pub fn with_price_range(self, min: Option<u64>, max: Option<u64>) -> (r: Self)
        ensures
            r@ == (ProductFilterView { min_price: min, max_price: max, ..self@ }),
    {
        let mut filter = self;
        filter.min_price = min;
        filter.max_price = max;
        filter
    }

    /// Only in-stock products.
    pub fn in_stock_only(self) -> (r: Self)
        ensures
            r@ == (ProductFilterView { in_stock_only: true, ..self@ }),
    {
        let mut filter = self;
        filter.in_stock_only = true;
        filter
    }
}

impl Default for ProductFilter {
    fn default() -> (r: Self)
        ensures
            r@ == ProductFilterView::empty(),
    {
        ProductFilter::new()
    }
}

/// Sort order for product listings.
#[derive(Debug, Clone, Copy, PartialEq, Eq, Structural)]
pub enum ProductSortOrder {
    /// Sort by creation date, newest first.
    Newest,
    /// Sort by price, lowest first.
    PriceAsc,
    /// Sort by price, highest first.
    PriceDesc,
    /// Sort by name alphabetically.
    NameAsc,
    /// Sort by popularity/sales.
    BestSelling,
    /// Sort by rating.
    TopRated,
    /// Sort by featured status.
    Featured,
}

impl Default for ProductSortOrder {
    fn default() -> (r: Self)
        ensures
            r == ProductSortOrder::Newest,
    {
        ProductSortOrder::Newest
    }
}

// ============================================================================
// PRODUCT
// ============================================================================
/// Complete product definition.
#[derive(Debug)]
pub struct Product {
    /// Product ID.
    pub id: ProductId,
    /// Product SKU.
    pub sku: Sku,
    /// Product name.
    pub name: String,
    /// Product description.
    pub description: String,
    /// Short description for listings.
    pub short_description: String,
    /// Product type.
    pub product_type: ProductType,
    /// Product status.
    pub status: ProductStatus,
    /// Base price.
    pub price: Price,
    /// Sale/promotional price.
    pub sale_price: Option<Price>,
    /// Cost price (for profit calculation).
    pub cost_price: Option<Price>,
    /// Category IDs.
    pub categories: Vec<CategoryId>,
    /// Product images.
    pub images: Vec<ProductImage>,
    /// Product attributes.
    pub attributes: Vec<ProductAttribute>,
    /// Product variants.
    pub variants: Vec<ProductVariant>,
    /// URL slug.
    pub slug: String,
    /// SEO meta title.
    pub meta_title: Option<String>,
    /// SEO meta description.
    pub meta_description: Option<String>,
    /// Related product IDs.
    pub related_products: Vec<ProductId>,
    /// Cross-sell product IDs.
    pub cross_sell_products: Vec<ProductId>,
    /// Tags for search.
    pub tags: Vec<String>,
    /// Whether product is featured.
    pub is_featured: bool,
    /// Whether product is taxable.
    pub is_taxable: bool,
    /// Tax class identifier.
    pub tax_class: Option<String>,
    /// Inventory quantity (for simple products).
    pub inventory_quantity: i64,
    /// Low stock threshold.
    pub low_stock_threshold: u32,
    /// Whether backorders are allowed.
    pub backorders_allowed: bool,
    /// Vendor/seller ID.
    pub vendor_id: Option<String>,
    /// Creation timestamp.
    pub created_at: u64,
    /// Last update timestamp.
    pub updated_at: u64,
}

/// The model of a [`Product`]. The physical dimensions of a product are
/// kept apart from it.
pub ghost struct ProductView {
    pub id: Seq<char>,
    pub sku: Seq<char>,
    pub name: Seq<char>,
    pub description: Seq<char>,
    pub short_description: Seq<char>,
    pub product_type: ProductType,
    pub status: ProductStatus,
    pub price: PriceView,
    pub sale_price: Option<PriceView>,
    pub cost_price: Option<PriceView>,
    pub categories: Seq<Seq<char>>,
    pub images: Seq<ProductImageView>,
    pub attributes: Seq<ProductAttributeView>,
    pub variants: Seq<ProductVariantView>,
    pub slug: Seq<char>,
    pub meta_title: Option<Seq<char>>,
    pub meta_description: Option<Seq<char>>,
    pub related_products: Seq<Seq<char>>,
    pub cross_sell_products: Seq<Seq<char>>,
    pub tags: Seq<Seq<char>>,
    pub is_featured: bool,
    pub is_taxable: bool,
    pub tax_class: Option<Seq<char>>,
    pub inventory_quantity: i64,
    pub low_stock_threshold: u32,
    pub backorders_allowed: bool,
    pub vendor_id: Option<Seq<char>>,
    pub created_at: u64,
    pub updated_at: u64,
}

impl View for Product {
    type V = ProductView;

    open spec fn view(&self) -> ProductView {
        ProductView {
            id: self.id@,
            sku: self.sku@,
            name: self.name@,
            description: self.description@,
            short_description: self.short_description@,
            product_type: self.product_type,
            status: self.status,
            price: self.price@,
            sale_price: opt_view(self.sale_price),
            cost_price: opt_view(self.cost_price),
            categories: seq_view(self.categories@),
            images: seq_view(self.images@),
            attributes: seq_view(self.attributes@),
            variants: seq_view(self.variants@),
            slug: self.slug@,
            meta_title: opt_view(self.meta_title),
            meta_description: opt_view(self.meta_description),
            related_products: seq_view(self.related_products@),
            cross_sell_products: seq_view(self.cross_sell_products@),
            tags: seq_view(self.tags@),
            is_featured: self.is_featured,
            is_taxable: self.is_taxable,
            tax_class: opt_view(self.tax_class),
            inventory_quantity: self.inventory_quantity,
            low_stock_threshold: self.low_stock_threshold,
            backorders_allowed: self.backorders_allowed,
            vendor_id: opt_view(self.vendor_id),
            created_at: self.created_at,
            updated_at: self.updated_at,
        }
    }
}

impl Clone for Product {
    fn clone(&self) -> (r: Self)
        ensures
            r@ == self@,
    {
        Product {
            id: self.id.clone(),
            sku: self.sku.clone(),
            name: self.name.clone(),
            description: self.description.clone(),
            short_description: self.short_description.clone(),
            product_type: self.product_type,
            status: self.status,
            price: self.price.clone(),
            sale_price: clone_opt(&self.sale_price),
            cost_price: clone_opt(&self.cost_price),
            categories: clone_vec(&self.categories),
            images: clone_vec(&self.images),
            attributes: clone_vec(&self.attributes),
            variants: clone_vec(&self.variants),
            slug: self.slug.clone(),
            meta_title: clone_opt(&self.meta_title),
            meta_description: clone_opt(&self.meta_description),
            related_products: clone_vec(&self.related_products),
            cross_sell_products: clone_vec(&self.cross_sell_products),
            tags: clone_vec(&self.tags),
            is_featured: self.is_featured,
            is_taxable: self.is_taxable,
            tax_class: clone_opt(&self.tax_class),
            inventory_quantity: self.inventory_quantity,
            low_stock_threshold: self.low_stock_threshold,
            backorders_allowed: self.backorders_allowed,
            vendor_id: clone_opt(&self.vendor_id),
            created_at: self.created_at,
            updated_at: self.updated_at,
        }
    }
}

impl ProductView {
    /// A product as it is created at the time `now`: a physical draft
    /// priced at nothing, taxable, with no stock and nothing attached to it.
    pub open spec fn blank(id: Seq<char>, sku: Seq<char>, name: Seq<char>, now: u64) -> Self {
        ProductView {
            id,
            sku,
            name,
            description: Seq::empty(),
            short_description: Seq::empty(),
            product_type: ProductType::Physical,
            status: ProductStatus::Draft,
            price: PriceView { amount: 0, currency: "ESS"@, decimals: 18 },
            sale_price: None,
            cost_price: None,
            categories: Seq::empty(),
            images: Seq::empty(),
            attributes: Seq::empty(),
            variants: Seq::empty(),
            slug: dashed(lowercase(name)),
            meta_title: None,
            meta_description: None,
            related_products: Seq::empty(),
            cross_sell_products: Seq::empty(),
            tags: Seq::empty(),
            is_featured: false,
            is_taxable: true,
            tax_class: None,
            inventory_quantity: 0,
            low_stock_threshold: 10,
            backorders_allowed: false,
            vendor_id: None,
            created_at: now,
            updated_at: now,
        }
    }

    /// The price that the product sells at: the sale price if there is one.
    pub open spec fn effective_price(self) -> PriceView {
        match self.sale_price {
            Some(sale) => sale,
            None => self.price,
        }
    }

    /// Whether the product has a sale price.
    pub open spec fn is_on_sale(self) -> bool {
        self.sale_price is Some
    }

    /// Whether the product can be had: it is in stock, or may be
    /// backordered.
    pub open spec fn is_in_stock(self) -> bool {
        self.inventory_quantity > 0 || self.backorders_allowed
    }

    /// Whether some stock is left, but no more than the threshold.
    pub open spec fn is_low_stock(self) -> bool {
        0 < self.inventory_quantity <= self.low_stock_threshold
    }

    /// Whether customers see the product.
    pub open spec fn is_visible(self) -> bool {
        self.status == ProductStatus::Active || self.status == ProductStatus::OutOfStock
    }
}

impl Product {
    /// The index of the image shown for the product: the first primary one,
    /// or else the first.
    pub open spec fn primary_index(images: Seq<ProductImage>, from: int) -> int
        decreases images.len() - from,
    {
        if from < 0 || from >= images.len() {
            0
        } else if images[from].is_primary {
            from
        } else {
            Self::primary_index(images, from + 1)
        }
    }

    /// Creates a new product. Its slug is the name in lowercase, with a dash
    /// in the place of every space.
    pub fn new(id: ProductId, sku: Sku, name: &str) -> (r: Self)
        ensures
            r@ == ProductView::blank(id@, sku@, name@, r.created_at),
    {
        let now = unix_seconds();
        let product = Product {
            id,
            sku,
            name: name.to_owned(),
            description: String::new(),
            short_description: String::new(),
            product_type: ProductType::Physical,
            status: ProductStatus::Draft,
            price: Price::default(),
            sale_price: None,
            cost_price: None,
            categories: Vec::new(),
            images: Vec::new(),
            attributes: Vec::new(),
            variants: Vec::new(),
            slug: slug(name),
            meta_title: None,
            meta_description: None,
            related_products: Vec::new(),
            cross_sell_products: Vec::new(),
            tags: Vec::new(),
            is_featured: false,
            is_taxable: true,
            tax_class: None,
            inventory_quantity: 0,
            low_stock_threshold: 10,
            backorders_allowed: false,
            vendor_id: None,
            created_at: now,
            updated_at: now,
        };
        proof {
            assert(product@.categories =~= Seq::empty());
            assert(product@.images =~= Seq::empty());
            assert(product@.attributes =~= Seq::empty());
            assert(product@.variants =~= Seq::empty());
            assert(product@.related_products =~= Seq::empty());
            assert(product@.cross_sell_products =~= Seq::empty());
            assert(product@.tags =~= Seq::empty());
        }
        product
    }

    /// Gets the effective price (sale price if available).
    pub fn effective_price(&self) -> (r: &Price)
        ensures
            r@ == self@.effective_price(),
            *r == match self.sale_price {
                Some(sale) => sale,
                None => self.price,
            },
    {
        match &self.sale_price {
            Some(sale) => sale,
            None => &self.price,
        }
    }

    /// Checks if product is on sale.
    pub fn is_on_sale(&self) -> (r: bool)
        ensures
            r == self@.is_on_sale(),
    {
        self.sale_price.is_some()
    }

    /// Checks if product is in stock.
    pub fn is_in_stock(&self) -> (r: bool)
        ensures
            r == self@.is_in_stock(),
    {
        self.inventory_quantity > 0 || self.backorders_allowed
    }

    /// Checks if product is low on stock.
    pub fn is_low_stock(&self) -> (r: bool)
        ensures
            r == self@.is_low_stock(),
    {
        self.inventory_quantity > 0 && self.inventory_quantity <= self.low_stock_threshold as i64
    }

    /// Gets the primary image: the first image marked primary, or else the
    /// first image.
    pub fn primary_image(&self) -> (r: Option<&ProductImage>)
        ensures
            self.images@.len() == 0 ==> r is None,
            self.images@.len() > 0 ==> r is Some && *r->Some_0 == self.images@[Self::primary_index(
                self.images@,
                0,
            )],
    {
        let mut i: usize = 0;
        while i < self.images.len()
            invariant
                i <= self.images.len(),
                Self::primary_index(self.images@, 0) == Self::primary_index(self.images@, i as int),
            decreases self.images.len() - i,
        {
            if self.images[i].is_primary {
                return Some(&self.images[i]);
            }
            i += 1;
        }
        if self.images.len() > 0 {
            Some(&self.images[0])
        } else {
            None
        }
    }
}

/// Paginated results.
#[derive(Debug, Clone)]
pub struct PaginatedProducts {
    /// Products in this page.
    pub products: Vec<Product>,
    /// Total count of matching products.
    pub total_count: usize,
    /// Current page number (0-indexed).
    pub page: usize,
    /// Items per page.
    pub page_size: usize,
    /// Whether there are more pages.
    pub has_next: bool,
}

/// The number of pages of `page_size` items that `total_count` items fill,
/// the last one possibly in part; none when pages hold nothing.
pub open spec fn pages_needed(total_count: int, page_size: int) -> int {
    if page_size <= 0 {
        0
    } else if total_count % page_size == 0 {
        total_count / page_size
    } else {
        total_count / page_size + 1
    }
}

impl PaginatedProducts {
    /// Total number of pages.
    pub fn total_pages(&self) -> (r: usize)
        ensures
            r == pages_needed(self.total_count as int, self.page_size as int),
    {
        if self.page_size == 0 {
            return 0;
        }
        let full = self.total_count / self.page_size;
        if self.total_count % self.page_size == 0 {
            full
        } else {
            assert(full < usize::MAX) by (nonlinear_arith)
                requires
                    full == self.total_count as int / self.page_size as int,
                    self.page_size >= 2,
                    self.total_count <= usize::MAX,
            ;
            full + 1
        }
    }
}

} // verus!
