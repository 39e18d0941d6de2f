//! The peer-to-peer marketplace: listings, orders, reviews, escrow, content
//! delivery, search and catalog synchronization.

pub mod delivery;
pub mod escrow;
pub mod orders;
pub mod reviews;
pub mod search;
pub mod service;
pub mod sync;

pub use delivery::{AccessToken, ContentDeliveryService, ContentHash, DownloadInfo};
pub use orders::{
    DisputeDecision, DisputeEvidence, DisputeReason, DisputeResolution, EscrowStatus, EvidenceType,
    Order, OrderDispute, OrderEscrow, OrderId, OrderReview, OrderStatus, ReleaseCondition,
};
pub use service::{MarketplaceService, VcsPaymentService};
pub use reviews::{
    CategoryRatings, Review, ReviewFilter, ReviewId, ReviewSort, SellerProfile, SellerResponse,
    VerificationLevel,
};

use crate::errors::MarketplaceError;
use crate::text::joined;
use crate::views::{clone_opt, clone_vec, opt_view, seq_view};
use vstd::prelude::*;

verus! {

/// Marketplace result type.
pub type MarketplaceResult<T> = Result<T, MarketplaceError>;

/// Unique listing identifier (content-addressed).
#[derive(Debug, Hash, PartialOrd, Ord)]
pub struct ListingId(pub String);

impl View for ListingId {
    type V = Seq<char>;

    open spec fn view(&self) -> Seq<char> {
        self.0@
    }
}

impl Clone for ListingId {
    fn clone(&self) -> (r: Self)
        ensures
            r@ == self@,
    {
        ListingId(self.0.clone())
    }
}

impl PartialEq for ListingId {
    fn eq(&self, other: &Self) -> (r: bool) {
        self.0 == other.0
    }
}

impl Eq for ListingId {}

impl vstd::std_specs::cmp::PartialEqSpecImpl for ListingId {
    open spec fn obeys_eq_spec() -> bool {
        true
    }

    open spec fn eq_spec(&self, other: &Self) -> bool {
        self@ == other@
    }
}

impl ListingId {
    /// Create from content hash: `listing-` and the hash. A listing that is
    /// not addressed by its content is named in the same way after a unique
    /// text.
    pub fn from_content_hash(hash: &str) -> (r: Self)
        ensures
            r@ == "listing-"@ + hash@,
    {
        ListingId(joined("listing-", hash))
    }
}

/// Category of marketplace listing.
#[derive(Debug, Clone, Copy, PartialEq, Eq, Hash, Structural)]
pub enum ListingCategory {
    /// A plugin.
    Plugin,
    /// An editor extension.
    Extension,
    /// A theme.
    Theme,
    /// A code template.
    Template,
    /// A library.
    Library,
    /// A framework.
    Framework,
    /// A tutorial.
    Tutorial,
    /// A course.
    Course,
    /// Documentation.
    Documentation,
    /// An e-book.
    EBook,
    /// A code review service.
    CodeReview,
    /// A testing service.
    Testing,
    /// Consulting.
    Consulting,
    /// Freelance work.
    Freelance,
    /// Mentoring.
    Mentoring,
    /// A repository license.
    RepositoryLicense,
    /// A component license.
    ComponentLicense,
    /// Access to a hosted service.
    SaaSAccess,
}

impl ListingCategory {
    /// The name shown for the category.
    pub open spec fn name(self) -> Seq<char> {
        match self {
            ListingCategory::Plugin => "VCS Plugin"@,
            ListingCategory::Extension => "Editor Extension"@,
            ListingCategory::Theme => "Theme"@,
            ListingCategory::Template => "Code Template"@,
            ListingCategory::Library => "Library"@,
            ListingCategory::Framework => "Framework"@,
            ListingCategory::Tutorial => "Tutorial"@,
            ListingCategory::Course => "Course"@,
            ListingCategory::Documentation => "Documentation"@,
            ListingCategory::EBook => "E-Book"@,
            ListingCategory::CodeReview => "Code Review Service"@,
            ListingCategory::Testing => "Testing Service"@,
            ListingCategory::Consulting => "Consulting"@,
            ListingCategory::Freelance => "Freelance Work"@,
            ListingCategory::Mentoring => "Mentoring"@,
            ListingCategory::RepositoryLicense => "Repository License"@,
            ListingCategory::ComponentLicense => "Component License"@,
            ListingCategory::SaaSAccess => "SaaS Access"@,
        }
    }

    /// Whether the category is one of services, which require fulfillment.
    pub open spec fn service(self) -> bool {
        self == ListingCategory::CodeReview || self == ListingCategory::Testing || self
            == ListingCategory::Consulting || self == ListingCategory::Freelance || self
            == ListingCategory::Mentoring
    }

    /// Whether the category is one of licenses.
    pub open spec fn license(self) -> bool {
        self == ListingCategory::RepositoryLicense || self == ListingCategory::ComponentLicense
            || self == ListingCategory::SaaSAccess
    }

    /// Get category display name.
    pub fn display_name(&self) -> (r: &'static str)
        ensures
            r@ == self.name(),
    {
        match self {
            ListingCategory::Plugin => "VCS Plugin",
            ListingCategory::Extension => "Editor Extension",
            ListingCategory::Theme => "Theme",
            ListingCategory::Template => "Code Template",
            ListingCategory::Library => "Library",
            ListingCategory::Framework => "Framework",
            ListingCategory::Tutorial => "Tutorial",
            ListingCategory::Course => "Course",
            ListingCategory::Documentation => "Documentation",
            ListingCategory::EBook => "E-Book",
            ListingCategory::CodeReview => "Code Review Service",
            ListingCategory::Testing => "Testing Service",
            ListingCategory::Consulting => "Consulting",
            ListingCategory::Freelance => "Freelance Work",
            ListingCategory::Mentoring => "Mentoring",
            ListingCategory::RepositoryLicense => "Repository License",
            ListingCategory::ComponentLicense => "Component License",
            ListingCategory::SaaSAccess => "SaaS Access",
        }
    }

    /// Is this a digital product (instant delivery)? Software and content
    /// are; services and licenses are not.
    pub fn is_digital_product(&self) -> (r: bool)
        ensures
            r == (!self.service() && !self.license()),
    {
        match self {
            ListingCategory::Plugin => true,
            ListingCategory::Extension => true,
            ListingCategory::Theme => true,
            ListingCategory::Template => true,
            ListingCategory::Library => true,
            ListingCategory::Framework => true,
            ListingCategory::Tutorial => true,
            ListingCategory::Course => true,
            ListingCategory::Documentation => true,
            ListingCategory::EBook => true,
            _ => false,
        }
    }

    /// Is this a service (requires fulfillment)?
    pub fn is_service(&self) -> (r: bool)
        ensures
            r == self.service(),
    {
        match self {
            ListingCategory::CodeReview => true,
            ListingCategory::Testing => true,
            ListingCategory::Consulting => true,
            ListingCategory::Freelance => true,
            ListingCategory::Mentoring => true,
            _ => false,
        }
    }
}

/// Subscription billing interval.
#[derive(Debug, Clone, Copy, PartialEq, Eq, Structural)]
pub enum SubscriptionInterval {
    /// Every week.
    Weekly,
    /// Every month.
    Monthly,
    /// Every year.
    Yearly,
}

/// Project milestone for fixed-price projects.
#[derive(Debug)]
pub struct Milestone {
    /// Name of the milestone.
    pub name: String,
    /// What the milestone covers.
    pub description: String,
    /// Percentage of total price.
    pub percentage: u8,
    /// What is delivered with the milestone.
    pub deliverables: Vec<String>,
}

/// The model of a [`Milestone`].
pub ghost struct MilestoneView {
    pub name: Seq<char>,
    pub description: Seq<char>,
    pub percentage: u8,
    pub deliverables: Seq<Seq<char>>,
}

impl View for Milestone {
    type V = MilestoneView;

    open spec fn view(&self) -> MilestoneView {
        MilestoneView {
            name: self.name@,
            description: self.description@,
            percentage: self.percentage,
            deliverables: seq_view(self.deliverables@),
        }
    }
}

impl Clone for Milestone {
    fn clone(&self) -> (r: Self)
        ensures
            r@ == self@,
    {
        Milestone {
            name: self.name.clone(),
            description: self.description.clone(),
            percentage: self.percentage,
            deliverables: clone_vec(&self.deliverables),
        }
    }
}

/// Pricing model for a listing.
#[derive(Debug)]
pub enum PricingModel {
    /// One-time purchase.
    OneTime {
        /// The price in satoshis.
        price_sats: u64,
    },
    /// Subscription (recurring).
    Subscription {
        /// The price of an interval in satoshis.
        price_sats: u64,
        /// The billing interval.
        interval: SubscriptionInterval,
    },
    /// Pay what you want.
    PayWhatYouWant {
        /// The least that is accepted, in satoshis.
        minimum_sats: u64,
        /// The amount suggested, in satoshis.
        suggested_sats: u64,
    },
    /// Free.
    Free,
    /// Hourly rate (for services).
    Hourly {
        /// The rate of an hour in satoshis.
        rate_sats: u64,
        /// The least number of hours.
        minimum_hours: u32,
    },
    /// Fixed project price.
    FixedProject {
        /// The price in satoshis.
        price_sats: u64,
        /// The milestones of the project.
        milestones: Vec<Milestone>,
    },
}

/// The model of a [`PricingModel`].
pub ghost enum PricingModelView {
    OneTime { price_sats: u64 },
    Subscription { price_sats: u64, interval: SubscriptionInterval },
    PayWhatYouWant { minimum_sats: u64, suggested_sats: u64 },
    Free,
    Hourly { rate_sats: u64, minimum_hours: u32 },
    FixedProject { price_sats: u64, milestones: Seq<MilestoneView> },
}

impl View for PricingModel {
    type V = PricingModelView;

    open spec fn view(&self) -> PricingModelView {
        match self {
            PricingModel::OneTime { price_sats } => PricingModelView::OneTime {
                price_sats: *price_sats,
            },
            PricingModel::Subscription { price_sats, interval } => PricingModelView::Subscription {
                price_sats: *price_sats,
                interval: *interval,
            },
            PricingModel::PayWhatYouWant {
                minimum_sats,
                suggested_sats,
            } => PricingModelView::PayWhatYouWant {
                minimum_sats: *minimum_sats,
                suggested_sats: *suggested_sats,
            },
            PricingModel::Free => PricingModelView::Free,
            PricingModel::Hourly { rate_sats, minimum_hours } => PricingModelView::Hourly {
                rate_sats: *rate_sats,
                minimum_hours: *minimum_hours,
            },
            PricingModel::FixedProject { price_sats, milestones } => PricingModelView::FixedProject {
                price_sats: *price_sats,
                milestones: seq_view(milestones@),
            },
        }
    }
}

impl Clone for PricingModel {
    fn clone(&self) -> (r: Self)
        ensures
            r@ == self@,
    {
        match self {
            PricingModel::OneTime { price_sats } => PricingModel::OneTime { price_sats: *price_sats },
            PricingModel::Subscription { price_sats, interval } => PricingModel::Subscription {
                price_sats: *price_sats,
                interval: *interval,
            },
            PricingModel::PayWhatYouWant { minimum_sats, suggested_sats } => {
                PricingModel::PayWhatYouWant {
                    minimum_sats: *minimum_sats,
                    suggested_sats: *suggested_sats,
                }
            },
            PricingModel::Free => PricingModel::Free,
            PricingModel::Hourly { rate_sats, minimum_hours } => PricingModel::Hourly {
                rate_sats: *rate_sats,
                minimum_hours: *minimum_hours,
            },
            PricingModel::FixedProject { price_sats, milestones } => PricingModel::FixedProject {
                price_sats: *price_sats,
                milestones: clone_vec(milestones),
            },
        }
    }
}

/// Type of preview asset.
#[derive(Debug, Clone, Copy, PartialEq, Eq, Structural)]
pub enum AssetType {
    /// An image.
    Image,
    /// A video.
    Video,
    /// A demo.
    Demo,
    /// Documentation.
    Documentation,
}

/// Preview asset (image, video, demo).
#[derive(Debug)]
pub struct PreviewAsset {
    /// The kind of asset.
    pub asset_type: AssetType,
    /// Where the asset is found.
    pub url: String,
    /// The hash of the asset.
    pub hash: String,
    /// Alternative text.
    pub alt_text: String,
}

/// The model of a [`PreviewAsset`].
pub ghost struct PreviewAssetView {
    pub asset_type: AssetType,
    pub url: Seq<char>,
    pub hash: Seq<char>,
    pub alt_text: Seq<char>,
}

impl View for PreviewAsset {
    type V = PreviewAssetView;

    open spec fn view(&self) -> PreviewAssetView {
        PreviewAssetView {
            asset_type: self.asset_type,
            url: self.url@,
            hash: self.hash@,
            alt_text: self.alt_text@,
        }
    }
}

impl Clone for PreviewAsset {
    fn clone(&self) -> (r: Self)
        ensures
            r@ == self@,
    {
        PreviewAsset {
            asset_type: self.asset_type,
            url: self.url.clone(),
            hash: self.hash.clone(),
            alt_text: self.alt_text.clone(),
        }
    }
}

/// License type for digital products.
#[derive(Debug)]
pub enum LicenseType {
    /// Open source (MIT, Apache, etc.).
    OpenSource {
        /// The SPDX identifier of the license.
        spdx_id: String,
    },
    /// Proprietary with usage rights.
    Proprietary {
        /// The hash of the terms.
        terms_hash: String,
    },
    /// Creative Commons.
    CreativeCommons {
        /// The kind of Creative Commons license.
        cc_type: String,
    },
}

/// The model of a [`LicenseType`].
pub ghost enum LicenseTypeView {
    OpenSource { spdx_id: Seq<char> },
    Proprietary { terms_hash: Seq<char> },
    CreativeCommons { cc_type: Seq<char> },
}

impl View for LicenseType {
    type V = LicenseTypeView;

    open spec fn view(&self) -> LicenseTypeView {
        match self {
            LicenseType::OpenSource { spdx_id } => LicenseTypeView::OpenSource {
                spdx_id: spdx_id@,
            },
            LicenseType::Proprietary { terms_hash } => LicenseTypeView::Proprietary {
                terms_hash: terms_hash@,
            },
            LicenseType::CreativeCommons { cc_type } => LicenseTypeView::CreativeCommons {
                cc_type: cc_type@,
            },
        }
    }
}

impl Clone for LicenseType {
    fn clone(&self) -> (r: Self)
        ensures
            r@ == self@,
    {
        match self {
            LicenseType::OpenSource { spdx_id } => LicenseType::OpenSource {
                spdx_id: spdx_id.clone(),
            },
            LicenseType::Proprietary { terms_hash } => LicenseType::Proprietary {
                terms_hash: terms_hash.clone(),
            },
            LicenseType::CreativeCommons { cc_type } => LicenseType::CreativeCommons {
                cc_type: cc_type.clone(),
            },
        }
    }
}

/// Listing status.
#[derive(Debug, Clone, Copy, PartialEq, Eq, Structural)]
pub enum ListingStatus {
    /// Draft - not published.
    Draft,
    /// Active - published and available.
    Active,
    /// Paused - temporarily unavailable.
    Paused,
    /// Discontinued - no longer available.
    Discontinued,
}

/// Experience level for services.
#[derive(Debug, Clone, Copy, PartialEq, Eq, Structural)]
pub enum ExperienceLevel {
    /// A beginner.
    Beginner,
    /// Of some experience.
    Intermediate,
    /// An expert.
    Expert,
}

/// Service requirements.
#[derive(Debug)]
pub struct ServiceRequirements {
    /// Required skills.
    pub skills: Vec<String>,
    /// Experience level required.
    pub experience_level: ExperienceLevel,
    /// Estimated delivery time in days.
    pub delivery_days: u32,
    /// Communication requirements.
    pub communication: Vec<String>,
}

/// The model of a [`ServiceRequirements`].
pub ghost struct ServiceRequirementsView {
    pub skills: Seq<Seq<char>>,
    pub experience_level: ExperienceLevel,
    pub delivery_days: u32,
    pub communication: Seq<Seq<char>>,
}

impl View for ServiceRequirements {
    type V = ServiceRequirementsView;

    open spec fn view(&self) -> ServiceRequirementsView {
        ServiceRequirementsView {
            skills: seq_view(self.skills@),
            experience_level: self.experience_level,
            delivery_days: self.delivery_days,
            communication: seq_view(self.communication@),
        }
    }
}

impl Clone for ServiceRequirements {
    fn clone(&self) -> (r: Self)
        ensures
            r@ == self@,
    {
        ServiceRequirements {
            skills: clone_vec(&self.skills),
            experience_level: self.experience_level,
            delivery_days: self.delivery_days,
            communication: clone_vec(&self.communication),
        }
    }
}

/// A marketplace listing.
#[derive(Debug)]
pub struct MarketplaceListing {
    /// Unique listing ID.
    pub id: ListingId,
    /// Seller node.
    pub seller: String,
    /// Category.
    pub category: ListingCategory,
    /// Title.
    pub title: String,
    /// Description (Markdown).
    pub description: String,
    /// Short description for previews.
    pub short_description: String,
    /// Pricing.
    pub pricing: PricingModel,
    /// Tags for searchability.
    pub tags: Vec<String>,
    /// Preview images/screenshots.
    pub previews: Vec<PreviewAsset>,
    /// Version (for digital products).
    pub version: Option<String>,
    /// Repository reference (if applicable).
    pub repo_id: Option<String>,
    /// License type.
    pub license: LicenseType,
    /// Creation timestamp.
    pub created_at: u64,
    /// Last updated.
    pub updated_at: u64,
    /// Status.
    pub status: ListingStatus,
    /// Requirements (for services).
    pub requirements: Option<ServiceRequirements>,
}

/// The model of a [`MarketplaceListing`].
pub ghost struct MarketplaceListingView {
    pub id: Seq<char>,
    pub seller: Seq<char>,
    pub category: ListingCategory,
    pub title: Seq<char>,
    pub description: Seq<char>,
    pub short_description: Seq<char>,
    pub pricing: PricingModelView,
    pub tags: Seq<Seq<char>>,
    pub previews: Seq<PreviewAssetView>,
    pub version: Option<Seq<char>>,
    pub repo_id: Option<Seq<char>>,
    pub license: LicenseTypeView,
    pub created_at: u64,
    pub updated_at: u64,
    pub status: ListingStatus,
    pub requirements: Option<ServiceRequirementsView>,
}

impl View for MarketplaceListing {
    type V = MarketplaceListingView;

    open spec fn view(&self) -> MarketplaceListingView {
        MarketplaceListingView {
            id: self.id@,
            seller: self.seller@,
            category: self.category,
            title: self.title@,
            description: self.description@,
            short_description: self.short_description@,
            pricing: self.pricing@,
            tags: seq_view(self.tags@),
            previews: seq_view(self.previews@),
            version: opt_view(self.version),
            repo_id: opt_view(self.repo_id),
            license: self.license@,
            created_at: self.created_at,
            updated_at: self.updated_at,
            status: self.status,
            requirements: opt_view(self.requirements),
        }
    }
}

impl Clone for MarketplaceListing {
    fn clone(&self) -> (r: Self)
        ensures
            r@ == self@,
    {
        MarketplaceListing {
            id: self.id.clone(),
            seller: self.seller.clone(),
            category: self.category,
            title: self.title.clone(),
            description: self.description.clone(),
            short_description: self.short_description.clone(),
            pricing: self.pricing.clone(),
            tags: clone_vec(&self.tags),
            previews: clone_vec(&self.previews),
            version: clone_opt(&self.version),
            repo_id: clone_opt(&self.repo_id),
            license: self.license.clone(),
            created_at: self.created_at,
            updated_at: self.updated_at,
            status: self.status,
            requirements: clone_opt(&self.requirements),
        }
    }
}

/// Transaction status.
#[derive(Debug, Clone, Copy, PartialEq, Eq, Structural)]
pub enum TransactionStatus {
    /// Transaction initiated.
    Pending,
    /// Payment confirmed.
    Paid,
    /// Content delivered.
    Delivered,
    /// Transaction completed.
    Completed,
    /// Transaction failed.
    Failed,
    /// Transaction disputed.
    Disputed,
}

/// Purchase transaction.
#[derive(Debug, Clone)]
pub struct PurchaseTransaction {
    /// Transaction ID.
    pub id: String,
    /// Listing being purchased.
    pub listing_id: ListingId,
    /// Buyer peer ID.
    pub buyer_peer_id: String,
    /// Seller peer ID.
    pub seller_peer_id: String,
    /// Purchase amount in satoshis.
    pub amount_sats: u64,
    /// Transaction timestamp.
    pub timestamp: u64,
    /// Transaction status.
    pub status: TransactionStatus,
}

/// Sort order for search results.
#[derive(Debug, Clone, Copy, PartialEq, Eq, Structural)]
pub enum SortOrder {
    /// Sort by relevance.
    Relevance,
    /// Sort by price (low to high).
    PriceAsc,
    /// Sort by price (high to low).
    PriceDesc,
    /// Sort by rating.
    Rating,
    /// Sort by newest first.
    Newest,
}

/// Search filters for marketplace queries.
#[derive(Debug, Clone, Copy)]
pub struct SearchFilters {
    /// Category filter.
    pub category: Option<ListingCategory>,
    /// Price range (min, max) in satoshis.
    pub price_range: Option<(u64, u64)>,
    /// Seller reputation threshold.
    pub min_seller_reputation: Option<u32>,
    /// Listing status filter.
    pub status: Option<ListingStatus>,
}

impl Default for SearchFilters {
    fn default() -> (r: Self)
        ensures
            r == (SearchFilters {
                category: None,
                price_range: None,
                min_seller_reputation: None,
                status: None,
            }),
    {
        SearchFilters { category: None, price_range: None, min_seller_reputation: None, status: None }
    }
}

/// Pagination parameters.
#[derive(Debug, Clone, Copy)]
pub struct Pagination {
    /// Offset for results.
    pub offset: usize,
    /// Maximum number of results.
    pub limit: usize,
}

impl Default for Pagination {
    fn default() -> (r: Self)
        ensures
            r == (Pagination { offset: 0, limit: 20 }),
    {
        Pagination { offset: 0, limit: 20 }
    }
}

/// Search results.
#[derive(Debug, Clone)]
pub struct SearchResults {
    /// Matching listings.
    pub listings: Vec<MarketplaceListing>,
    /// Total number of matches.
    pub total_count: usize,
    /// Current page number.
    pub page: usize,
    /// Whether there are more results.
    pub has_more: bool,
}

} // verus!
