//! Error types of the commerce services.

use crate::text::{decimal, joined, numbered};
use vstd::prelude::*;

verus! {

/// Commerce-specific errors.
#[derive(Debug, Clone)]
pub enum CommerceError {
    /// Lock acquisition failed.
    LockError,
    /// Product not found.
    ProductNotFound(String),
    /// Product already exists.
    ProductAlreadyExists(String),
    /// SKU already exists.
    SkuAlreadyExists(String),
    /// Category not found.
    CategoryNotFound(String),
    /// Category already exists.
    CategoryAlreadyExists(String),
    /// Cart not found.
    CartNotFound(String),
    /// Cart is empty.
    CartEmpty,
    /// Cart is not active.
    CartNotActive,
    /// Cart has expired.
    CartExpired,
    /// Item not in cart.
    ItemNotInCart(String),
    /// Invalid quantity.
    InvalidQuantity,
    /// Product not available for purchase.
    ProductNotAvailable(String),
    /// Insufficient inventory.
    InsufficientInventory {
        /// Product ID.
        product_id: String,
        /// Available quantity.
        available: u32,
        /// Requested quantity.
        requested: u32,
    },
    /// Currency mismatch.
    CurrencyMismatch {
        /// Expected currency.
        expected: String,
        /// Received currency.
        got: String,
    },
    /// Discount already applied.
    DiscountAlreadyApplied(String),
    /// Discount not found.
    DiscountNotFound(String),
    /// Shipping address required.
    ShippingAddressRequired,
    /// Order not found.
    OrderNotFound(String),
    /// Order cannot be cancelled.
    OrderNotCancellable(String),
    /// Location not found.
    LocationNotFound(String),
    /// Location already exists.
    LocationAlreadyExists(String),
    /// Inventory record not found.
    InventoryNotFound(String),
    /// Transfer not found.
    TransferNotFound(String),
    /// Invalid transfer status.
    InvalidTransferStatus,
    /// Validation error.
    ValidationError(String),
    /// Internal error.
    InternalError(String),
    /// Payment plugin not configured.
    PaymentPluginNotConfigured,
    /// Payment error.
    PaymentError(String),
    /// Payment failed.
    PaymentFailed(String),
    /// Blockchain plugin not configured.
    BlockchainPluginNotConfigured,
    /// Blockchain error.
    BlockchainError(String),
}

/// What a [`CommerceError`] says, with its texts as character sequences.
pub ghost enum CommerceErrorView {
    LockError,
    ProductNotFound(Seq<char>),
    ProductAlreadyExists(Seq<char>),
    SkuAlreadyExists(Seq<char>),
    CategoryNotFound(Seq<char>),
    CategoryAlreadyExists(Seq<char>),
    CartNotFound(Seq<char>),
    CartEmpty,
    CartNotActive,
    CartExpired,
    ItemNotInCart(Seq<char>),
    InvalidQuantity,
    ProductNotAvailable(Seq<char>),
    InsufficientInventory { product_id: Seq<char>, available: u32, requested: u32 },
    CurrencyMismatch { expected: Seq<char>, got: Seq<char> },
    DiscountAlreadyApplied(Seq<char>),
    DiscountNotFound(Seq<char>),
    ShippingAddressRequired,
    OrderNotFound(Seq<char>),
    OrderNotCancellable(Seq<char>),
    LocationNotFound(Seq<char>),
    LocationAlreadyExists(Seq<char>),
    InventoryNotFound(Seq<char>),
    TransferNotFound(Seq<char>),
    InvalidTransferStatus,
    ValidationError(Seq<char>),
    InternalError(Seq<char>),
    PaymentPluginNotConfigured,
    PaymentError(Seq<char>),
    PaymentFailed(Seq<char>),
    BlockchainPluginNotConfigured,
    BlockchainError(Seq<char>),
}

impl CommerceErrorView {
    /// The message shown for the error.
    pub open spec fn message(self) -> Seq<char> {
        match self {
            CommerceErrorView::LockError => "Failed to acquire lock"@,
            CommerceErrorView::ProductNotFound(s) => "Product not found: "@ + s,
            CommerceErrorView::ProductAlreadyExists(s) => "Product already exists: "@ + s,
            CommerceErrorView::SkuAlreadyExists(s) => "SKU already exists: "@ + s,
            CommerceErrorView::CategoryNotFound(s) => "Category not found: "@ + s,
            CommerceErrorView::CategoryAlreadyExists(s) => "Category already exists: "@ + s,
            CommerceErrorView::CartNotFound(s) => "Cart not found: "@ + s,
            CommerceErrorView::CartEmpty => "Cart is empty"@,
            CommerceErrorView::CartNotActive => "Cart is not active"@,
            CommerceErrorView::CartExpired => "Cart has expired"@,
            CommerceErrorView::ItemNotInCart(s) => "Item not in cart: "@ + s,
            CommerceErrorView::InvalidQuantity => "Invalid quantity"@,
            CommerceErrorView::ProductNotAvailable(s) => "Product not available: "@ + s,
            CommerceErrorView::InsufficientInventory { product_id, available, requested } => {
                "Insufficient inventory for "@ + product_id + ": available "@ + decimal(
                    available as nat,
                ) + ", requested "@ + decimal(requested as nat)
            },
            CommerceErrorView::CurrencyMismatch { expected, got } => {
                "Currency mismatch: expected "@ + expected + ", got "@ + got
            },
            CommerceErrorView::DiscountAlreadyApplied(s) => "Discount already applied: "@ + s,
            CommerceErrorView::DiscountNotFound(s) => "Discount not found: "@ + s,
            CommerceErrorView::ShippingAddressRequired => "Shipping address required"@,
            CommerceErrorView::OrderNotFound(s) => "Order not found: "@ + s,
            CommerceErrorView::OrderNotCancellable(s) => "Order cannot be cancelled: "@ + s,
            CommerceErrorView::LocationNotFound(s) => "Location not found: "@ + s,
            CommerceErrorView::LocationAlreadyExists(s) => "Location already exists: "@ + s,
            CommerceErrorView::InventoryNotFound(s) => "Inventory record not found: "@ + s,
            CommerceErrorView::TransferNotFound(s) => "Transfer not found: "@ + s,
            CommerceErrorView::InvalidTransferStatus => "Invalid transfer status"@,
            CommerceErrorView::ValidationError(s) => "Validation error: "@ + s,
            CommerceErrorView::InternalError(s) => "Internal error: "@ + s,
            CommerceErrorView::PaymentPluginNotConfigured => "Payment plugin not configured"@,
            CommerceErrorView::PaymentError(s) => "Payment error: "@ + s,
            CommerceErrorView::PaymentFailed(s) => "Payment failed: "@ + s,
            CommerceErrorView::BlockchainPluginNotConfigured => "Blockchain plugin not configured"@,
            CommerceErrorView::BlockchainError(s) => "Blockchain error: "@ + s,
        }
    }
}

impl View for CommerceError {
    type V = CommerceErrorView;

    open spec fn view(&self) -> CommerceErrorView {
        match self {
            CommerceError::LockError => CommerceErrorView::LockError,
            CommerceError::ProductNotFound(s) => CommerceErrorView::ProductNotFound(s@),
            CommerceError::ProductAlreadyExists(s) => CommerceErrorView::ProductAlreadyExists(s@),
            CommerceError::SkuAlreadyExists(s) => CommerceErrorView::SkuAlreadyExists(s@),
            CommerceError::CategoryNotFound(s) => CommerceErrorView::CategoryNotFound(s@),
            CommerceError::CategoryAlreadyExists(s) => CommerceErrorView::CategoryAlreadyExists(s@),
            CommerceError::CartNotFound(s) => CommerceErrorView::CartNotFound(s@),
            CommerceError::CartEmpty => CommerceErrorView::CartEmpty,
            CommerceError::CartNotActive => CommerceErrorView::CartNotActive,
            CommerceError::CartExpired => CommerceErrorView::CartExpired,
            CommerceError::ItemNotInCart(s) => CommerceErrorView::ItemNotInCart(s@),
            CommerceError::InvalidQuantity => CommerceErrorView::InvalidQuantity,
            CommerceError::ProductNotAvailable(s) => CommerceErrorView::ProductNotAvailable(s@),
            CommerceError::InsufficientInventory { product_id, available, requested } => {
                CommerceErrorView::InsufficientInventory {
                    product_id: product_id@,
                    available: *available,
                    requested: *requested,
                }
            },
            CommerceError::CurrencyMismatch { expected, got } => {
                CommerceErrorView::CurrencyMismatch { expected: expected@, got: got@ }
            },
            CommerceError::DiscountAlreadyApplied(s) => CommerceErrorView::DiscountAlreadyApplied(s@),
            CommerceError::DiscountNotFound(s) => CommerceErrorView::DiscountNotFound(s@),
            CommerceError::ShippingAddressRequired => CommerceErrorView::ShippingAddressRequired,
            CommerceError::OrderNotFound(s) => CommerceErrorView::OrderNotFound(s@),
            CommerceError::OrderNotCancellable(s) => CommerceErrorView::OrderNotCancellable(s@),
            CommerceError::LocationNotFound(s) => CommerceErrorView::LocationNotFound(s@),
            CommerceError::LocationAlreadyExists(s) => CommerceErrorView::LocationAlreadyExists(s@),
            CommerceError::InventoryNotFound(s) => CommerceErrorView::InventoryNotFound(s@),
            CommerceError::TransferNotFound(s) => CommerceErrorView::TransferNotFound(s@),
            CommerceError::InvalidTransferStatus => CommerceErrorView::InvalidTransferStatus,
            CommerceError::ValidationError(s) => CommerceErrorView::ValidationError(s@),
            CommerceError::InternalError(s) => CommerceErrorView::InternalError(s@),
            CommerceError::PaymentPluginNotConfigured => CommerceErrorView::PaymentPluginNotConfigured,
            CommerceError::PaymentError(s) => CommerceErrorView::PaymentError(s@),
            CommerceError::PaymentFailed(s) => CommerceErrorView::PaymentFailed(s@),
            CommerceError::BlockchainPluginNotConfigured => CommerceErrorView::BlockchainPluginNotConfigured,
            CommerceError::BlockchainError(s) => CommerceErrorView::BlockchainError(s@),
        }
    }
}

/// Whether `r` is the failure `e`.
pub open spec fn fails_with<T>(r: Result<T, CommerceError>, e: CommerceErrorView) -> bool {
    match r {
        Ok(_) => false,
        Err(err) => err@ == e,
    }
}

impl CommerceError {
    /// The message shown for the error.
    pub fn to_string(&self) -> (s: String)
        ensures
            s@ == self@.message(),
    {
        match self {
            CommerceError::LockError => "Failed to acquire lock".to_owned(),
            CommerceError::ProductNotFound(s) => joined("Product not found: ", s.as_str()),
            CommerceError::ProductAlreadyExists(s) => joined("Product already exists: ", s.as_str()),
            CommerceError::SkuAlreadyExists(s) => joined("SKU already exists: ", s.as_str()),
            CommerceError::CategoryNotFound(s) => joined("Category not found: ", s.as_str()),
            CommerceError::CategoryAlreadyExists(s) => joined("Category already exists: ", s.as_str()),
            CommerceError::CartNotFound(s) => joined("Cart not found: ", s.as_str()),
            CommerceError::CartEmpty => "Cart is empty".to_owned(),
            CommerceError::CartNotActive => "Cart is not active".to_owned(),
            CommerceError::CartExpired => "Cart has expired".to_owned(),
            CommerceError::ItemNotInCart(s) => joined("Item not in cart: ", s.as_str()),
            CommerceError::InvalidQuantity => "Invalid quantity".to_owned(),
            CommerceError::ProductNotAvailable(s) => joined("Product not available: ", s.as_str()),
            CommerceError::InsufficientInventory { product_id, available, requested } => {
                let named = joined("Insufficient inventory for ", product_id.as_str());
                let labelled = joined(named.as_str(), ": available ");
                let counted = numbered(labelled.as_str(), *available as u64);
                let asked = joined(counted.as_str(), ", requested ");
                numbered(asked.as_str(), *requested as u64)
            },
            CommerceError::CurrencyMismatch { expected, got } => {
                let wanted = joined("Currency mismatch: expected ", expected.as_str());
                let labelled = joined(wanted.as_str(), ", got ");
                joined(labelled.as_str(), got.as_str())
            },
            CommerceError::DiscountAlreadyApplied(s) => joined("Discount already applied: ", s.as_str()),
            CommerceError::DiscountNotFound(s) => joined("Discount not found: ", s.as_str()),
            CommerceError::ShippingAddressRequired => "Shipping address required".to_owned(),
            CommerceError::OrderNotFound(s) => joined("Order not found: ", s.as_str()),
            CommerceError::OrderNotCancellable(s) => joined("Order cannot be cancelled: ", s.as_str()),
            CommerceError::LocationNotFound(s) => joined("Location not found: ", s.as_str()),
            CommerceError::LocationAlreadyExists(s) => joined("Location already exists: ", s.as_str()),
            CommerceError::InventoryNotFound(s) => joined("Inventory record not found: ", s.as_str()),
            CommerceError::TransferNotFound(s) => joined("Transfer not found: ", s.as_str()),
            CommerceError::InvalidTransferStatus => "Invalid transfer status".to_owned(),
            CommerceError::ValidationError(s) => joined("Validation error: ", s.as_str()),
            CommerceError::InternalError(s) => joined("Internal error: ", s.as_str()),
            CommerceError::PaymentPluginNotConfigured => "Payment plugin not configured".to_owned(),
            CommerceError::PaymentError(s) => joined("Payment error: ", s.as_str()),
            CommerceError::PaymentFailed(s) => joined("Payment failed: ", s.as_str()),
            CommerceError::BlockchainPluginNotConfigured => "Blockchain plugin not configured".to_owned(),
            CommerceError::BlockchainError(s) => joined("Blockchain error: ", s.as_str()),
        }
    }
}

/// Marketplace-specific errors.
#[derive(Debug, Clone)]
pub enum MarketplaceError {
    /// Listing not found.
    ListingNotFound,
    /// Listing not active.
    ListingNotActive,
    /// Seller not found.
    SellerNotFound,
    /// Invalid listing data.
    InvalidListing,
    /// Payment amount required.
    AmountRequired,
    /// Payment amount below minimum.
    BelowMinimum,
    /// Order not found.
    OrderNotFound,
    /// Insufficient funds.
    InsufficientFunds,
    /// Payment failed.
    PaymentFailed,
    /// Escrow error.
    EscrowError(String),
    /// Search error.
    SearchError(String),
    /// Serialization error.
    SerializationError(String),
    /// IO error.
    IoError(String),
    /// Invalid access token.
    InvalidToken,
    /// Token expired.
    TokenExpired,
    /// Download limit reached.
    DownloadLimitReached,
    /// No content providers available.
    NoProviders,
    /// Content not found.
    ContentNotFound,
    /// Insufficient funds for escrow.
    InsufficientFundsForEscrow,
    /// Escrow already exists.
    EscrowExists,
    /// Escrow not found.
    EscrowNotFound,
    /// Invalid escrow state for operation.
    InvalidEscrowState,
    /// Release conditions not met.
    ReleaseConditionsNotMet,
}

/// What a [`MarketplaceError`] says, with its texts as character sequences.
pub ghost enum MarketplaceErrorView {
    ListingNotFound,
    ListingNotActive,
    SellerNotFound,
    InvalidListing,
    AmountRequired,
    BelowMinimum,
    OrderNotFound,
    InsufficientFunds,
    PaymentFailed,
    EscrowError(Seq<char>),
    SearchError(Seq<char>),
    SerializationError(Seq<char>),
    IoError(Seq<char>),
    InvalidToken,
    TokenExpired,
    DownloadLimitReached,
    NoProviders,
    ContentNotFound,
    InsufficientFundsForEscrow,
    EscrowExists,
    EscrowNotFound,
    InvalidEscrowState,
    ReleaseConditionsNotMet,
}

impl MarketplaceErrorView {
    /// The message shown for the error.
    pub open spec fn message(self) -> Seq<char> {
        match self {
            MarketplaceErrorView::ListingNotFound => "Listing not found"@,
            MarketplaceErrorView::ListingNotActive => "Listing not active"@,
            MarketplaceErrorView::SellerNotFound => "Seller not found"@,
            MarketplaceErrorView::InvalidListing => "Invalid listing data"@,
            MarketplaceErrorView::AmountRequired => "Payment amount required"@,
            MarketplaceErrorView::BelowMinimum => "Payment amount below minimum"@,
            MarketplaceErrorView::OrderNotFound => "Order not found"@,
            MarketplaceErrorView::InsufficientFunds => "Insufficient funds"@,
            MarketplaceErrorView::PaymentFailed => "Payment failed"@,
            MarketplaceErrorView::EscrowError(s) => "Escrow error: "@ + s,
            MarketplaceErrorView::SearchError(s) => "Search error: "@ + s,
            MarketplaceErrorView::SerializationError(s) => "Serialization error: "@ + s,
            MarketplaceErrorView::IoError(s) => "IO error: "@ + s,
            MarketplaceErrorView::InvalidToken => "Invalid access token"@,
            MarketplaceErrorView::TokenExpired => "Token expired"@,
            MarketplaceErrorView::DownloadLimitReached => "Download limit reached"@,
            MarketplaceErrorView::NoProviders => "No content providers available"@,
            MarketplaceErrorView::ContentNotFound => "Content not found"@,
            MarketplaceErrorView::InsufficientFundsForEscrow => "Insufficient funds for escrow"@,
            MarketplaceErrorView::EscrowExists => "Escrow already exists"@,
            MarketplaceErrorView::EscrowNotFound => "Escrow not found"@,
            MarketplaceErrorView::InvalidEscrowState => "Invalid escrow state for operation"@,
            MarketplaceErrorView::ReleaseConditionsNotMet => "Release conditions not met"@,
        }
    }
}

impl View for MarketplaceError {
    type V = MarketplaceErrorView;

    open spec fn view(&self) -> MarketplaceErrorView {
        match self {
            MarketplaceError::ListingNotFound => MarketplaceErrorView::ListingNotFound,
            MarketplaceError::ListingNotActive => MarketplaceErrorView::ListingNotActive,
            MarketplaceError::SellerNotFound => MarketplaceErrorView::SellerNotFound,
            MarketplaceError::InvalidListing => MarketplaceErrorView::InvalidListing,
            MarketplaceError::AmountRequired => MarketplaceErrorView::AmountRequired,
            MarketplaceError::BelowMinimum => MarketplaceErrorView::BelowMinimum,
            MarketplaceError::OrderNotFound => MarketplaceErrorView::OrderNotFound,
            MarketplaceError::InsufficientFunds => MarketplaceErrorView::InsufficientFunds,
            MarketplaceError::PaymentFailed => MarketplaceErrorView::PaymentFailed,
            MarketplaceError::EscrowError(s) => MarketplaceErrorView::EscrowError(s@),
            MarketplaceError::SearchError(s) => MarketplaceErrorView::SearchError(s@),
            MarketplaceError::SerializationError(s) => MarketplaceErrorView::SerializationError(s@),
            MarketplaceError::IoError(s) => MarketplaceErrorView::IoError(s@),
            MarketplaceError::InvalidToken => MarketplaceErrorView::InvalidToken,
            MarketplaceError::TokenExpired => MarketplaceErrorView::TokenExpired,
            MarketplaceError::DownloadLimitReached => MarketplaceErrorView::DownloadLimitReached,
            MarketplaceError::NoProviders => MarketplaceErrorView::NoProviders,
            MarketplaceError::ContentNotFound => MarketplaceErrorView::ContentNotFound,
            MarketplaceError::InsufficientFundsForEscrow => MarketplaceErrorView::InsufficientFundsForEscrow,
            MarketplaceError::EscrowExists => MarketplaceErrorView::EscrowExists,
            MarketplaceError::EscrowNotFound => MarketplaceErrorView::EscrowNotFound,
            MarketplaceError::InvalidEscrowState => MarketplaceErrorView::InvalidEscrowState,
            MarketplaceError::ReleaseConditionsNotMet => MarketplaceErrorView::ReleaseConditionsNotMet,
        }
    }
}

impl MarketplaceError {
    /// The message shown for the error.
    pub fn to_string(&self) -> (s: String)
        ensures
            s@ == self@.message(),
    {
        match self {
            MarketplaceError::ListingNotFound => "Listing not found".to_owned(),
            MarketplaceError::ListingNotActive => "Listing not active".to_owned(),
            MarketplaceError::SellerNotFound => "Seller not found".to_owned(),
            MarketplaceError::InvalidListing => "Invalid listing data".to_owned(),
            MarketplaceError::AmountRequired => "Payment amount required".to_owned(),
            MarketplaceError::BelowMinimum => "Payment amount below minimum".to_owned(),
            MarketplaceError::OrderNotFound => "Order not found".to_owned(),
            MarketplaceError::InsufficientFunds => "Insufficient funds".to_owned(),
            MarketplaceError::PaymentFailed => "Payment failed".to_owned(),
            MarketplaceError::EscrowError(s) => joined("Escrow error: ", s.as_str()),
            MarketplaceError::SearchError(s) => joined("Search error: ", s.as_str()),
            MarketplaceError::SerializationError(s) => joined("Serialization error: ", s.as_str()),
            MarketplaceError::IoError(s) => joined("IO error: ", s.as_str()),
            MarketplaceError::InvalidToken => "Invalid access token".to_owned(),
            MarketplaceError::TokenExpired => "Token expired".to_owned(),
            MarketplaceError::DownloadLimitReached => "Download limit reached".to_owned(),
            MarketplaceError::NoProviders => "No content providers available".to_owned(),
            MarketplaceError::ContentNotFound => "Content not found".to_owned(),
            MarketplaceError::InsufficientFundsForEscrow => "Insufficient funds for escrow".to_owned(),
            MarketplaceError::EscrowExists => "Escrow already exists".to_owned(),
            MarketplaceError::EscrowNotFound => "Escrow not found".to_owned(),
            MarketplaceError::InvalidEscrowState => "Invalid escrow state for operation".to_owned(),
            MarketplaceError::ReleaseConditionsNotMet => "Release conditions not met".to_owned(),
        }
    }
}

} // verus!
