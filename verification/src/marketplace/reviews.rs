//! Reviews of marketplace listings and the profiles of sellers.

use crate::marketplace::ListingId;
use crate::marketplace::orders::OrderId;
use crate::text::joined;
use crate::views::{clone_opt, clone_vec, opt_view, seq_view};
use vstd::prelude::*;

verus! {

/// Review identifier.
#[derive(Debug, Hash)]
pub struct ReviewId(pub String);

impl View for ReviewId {
    type V = Seq<char>;

    open spec fn view(&self) -> Seq<char> {
        self.0@
    }
}

impl Clone for ReviewId {
    fn clone(&self) -> (r: Self)
        ensures
            r@ == self@,
    {
        ReviewId(self.0.clone())
    }
}

impl PartialEq for ReviewId {
    fn eq(&self, other: &Self) -> (r: bool) {
        self.0 == other.0
    }
}

impl Eq for ReviewId {}

impl vstd::std_specs::cmp::PartialEqSpecImpl for ReviewId {
    open spec fn obeys_eq_spec() -> bool {
        true
    }

    open spec fn eq_spec(&self, other: &Self) -> bool {
        self@ == other@
    }
}

impl ReviewId {
    /// The review identifier made of a unique text: `review-` and the text.
    pub fn from_unique(unique: &str) -> (r: Self)
        ensures
            r@ == "review-"@ + unique@,
    {
        ReviewId(joined("review-", unique))
    }
}

/// Verification level of a seller.
#[derive(Debug, Clone, Copy, PartialEq, Eq, Structural)]
pub enum VerificationLevel {
    /// Not verified.
    Unverified,
    /// The email address is verified.
    Email,
    /// The identity is verified.
    Identity,
    /// The business is verified.
    Business,
    /// A premium seller.
    Premium,
}

/// Sort order of reviews.
#[derive(Debug, Clone, Copy, PartialEq, Eq, Structural)]
pub enum ReviewSort {
    /// The newest first.
    Newest,
    /// The oldest first.
    Oldest,
    /// The highest rated first.
    HighestRated,
    /// The lowest rated first.
    LowestRated,
    /// The most helpful first.
    MostHelpful,
}

/// Ratings by category.
#[derive(Debug, Clone, Copy)]
pub struct CategoryRatings {
    /// The quality.
    pub quality: u8,
    /// The value for the price.
    pub value: u8,
    /// The communication.
    pub communication: Option<u8>,
    /// The timeliness.
    pub timeliness: Option<u8>,
    /// The documentation.
    pub documentation: Option<u8>,
}

/// Response of a seller to a review.
#[derive(Debug, Clone)]
pub struct SellerResponse {
    /// The text of the response.
    pub text: String,
    /// When the seller responded.
    pub responded_at: u64,
}

/// Review of a listing.
#[derive(Debug, Clone)]
pub struct Review {
    /// The review.
    pub id: ReviewId,
    /// The order that the review is of.
    pub order_id: OrderId,
    /// The listing reviewed.
    pub listing_id: ListingId,
    /// Who wrote it.
    pub reviewer: String,
    /// The seller.
    pub seller: String,
    /// The rating.
    pub rating: u8,
    /// The ratings by category.
    pub category_ratings: CategoryRatings,
    /// The text of the review.
    pub text: String,
    /// What the author liked.
    pub pros: Vec<String>,
    /// What the author did not like.
    pub cons: Vec<String>,
    /// When the review was written.
    pub created_at: u64,
    /// Whether the author bought the listing.
    pub verified_purchase: bool,
    /// How many found the review helpful.
    pub helpful_count: u32,
    /// The response of the seller.
    pub seller_response: Option<SellerResponse>,
}

/// Profile of a seller. The reputation of the seller is kept apart from it.
#[derive(Debug)]
pub struct SellerProfile {
    /// The node of the seller.
    pub node_id: String,
    /// The name shown.
    pub display_name: String,
    /// What the seller says of themselves.
    pub bio: String,
    /// The hash of the avatar.
    pub avatar_hash: Option<String>,
    /// When the seller joined.
    pub joined_at: u64,
    /// The reputation in version control.
    pub vcs_reputation: u32,
    /// The number of active listings.
    pub active_listings: u32,
    /// The number of completed orders.
    pub completed_orders: u32,
    /// The level of verification.
    pub verification: VerificationLevel,
    /// What the seller specializes in.
    pub specializations: Vec<String>,
}

/// The model of a [`SellerProfile`].
pub ghost struct SellerProfileView {
    pub node_id: Seq<char>,
    pub display_name: Seq<char>,
    pub bio: Seq<char>,
    pub avatar_hash: Option<Seq<char>>,
    pub joined_at: u64,
    pub vcs_reputation: u32,
    pub active_listings: u32,
    pub completed_orders: u32,
    pub verification: VerificationLevel,
    pub specializations: Seq<Seq<char>>,
}

impl View for SellerProfile {
    type V = SellerProfileView;

    open spec fn view(&self) -> SellerProfileView {
        SellerProfileView {
            node_id: self.node_id@,
            display_name: self.display_name@,
            bio: self.bio@,
            avatar_hash: opt_view(self.avatar_hash),
            joined_at: self.joined_at,
            vcs_reputation: self.vcs_reputation,
            active_listings: self.active_listings,
            completed_orders: self.completed_orders,
            verification: self.verification,
            specializations: seq_view(self.specializations@),
        }
    }
}

impl Clone for SellerProfile {
    fn clone(&self) -> (r: Self)
        ensures
            r@ == self@,
    {
        SellerProfile {
            node_id: self.node_id.clone(),
            display_name: self.display_name.clone(),
            bio: self.bio.clone(),
            avatar_hash: clone_opt(&self.avatar_hash),
            joined_at: self.joined_at,
            vcs_reputation: self.vcs_reputation,
            active_listings: self.active_listings,
            completed_orders: self.completed_orders,
            verification: self.verification,
            specializations: clone_vec(&self.specializations),
        }
    }
}

/// Filter of reviews.
#[derive(Debug, Clone, Copy)]
pub struct ReviewFilter {
    /// The least rating.
    pub min_rating: Option<u8>,
    /// Whether only reviews of buyers are wanted.
    pub verified_only: bool,
    /// Whether the seller has responded.
    pub has_response: Option<bool>,
    /// The range of dates.
    pub date_range: Option<(u64, u64)>,
    /// The sort order.
    pub sort_by: ReviewSort,
}

} // verus!
