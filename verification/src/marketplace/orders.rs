//! Marketplace orders, their escrow, reviews and disputes.

use crate::marketplace::ListingId;
use crate::text::joined;
use vstd::prelude::*;

verus! {

/// Order identifier.
#[derive(Debug, Hash)]
pub struct OrderId(pub String);

impl View for OrderId {
    type V = Seq<char>;

    open spec fn view(&self) -> Seq<char> {
        self.0@
    }
}

impl Clone for OrderId {
    fn clone(&self) -> (r: Self)
        ensures
            r@ == self@,
    {
        OrderId(self.0.clone())
    }
}

impl PartialEq for OrderId {
    fn eq(&self, other: &Self) -> (r: bool) {
        self.0 == other.0
    }
}

impl Eq for OrderId {}

impl vstd::std_specs::cmp::PartialEqSpecImpl for OrderId {
    open spec fn obeys_eq_spec() -> bool {
        true
    }

    open spec fn eq_spec(&self, other: &Self) -> bool {
        self@ == other@
    }
}

impl OrderId {
    /// The order identifier made of a unique text: `order-` and the text.
    pub fn from_unique(unique: &str) -> (r: Self)
        ensures
            r@ == "order-"@ + unique@,
    {
        OrderId(joined("order-", unique))
    }
}

/// Order status.
#[derive(Debug, Clone, Copy, PartialEq, Eq, Structural)]
pub enum OrderStatus {
    /// Order placed, awaiting payment.
    Pending,
    /// Payment confirmed.
    Paid,
    /// Content delivered.
    Delivered,
    /// Work in progress.
    InProgress,
    /// Order completed.
    Completed,
    /// Order cancelled.
    Cancelled,
    /// Order disputed.
    Disputed,
    /// Dispute resolved.
    Resolved,
}

/// Escrow status.
#[derive(Debug, Clone, Copy, PartialEq, Eq, Structural)]
pub enum EscrowStatus {
    /// Funds are held.
    Held,
    /// Part of the funds was released.
    PartialRelease,
    /// The funds were released.
    Released,
    /// The funds were refunded.
    Refunded,
    /// The escrow is disputed.
    Disputed,
}

/// Kind of evidence in a dispute.
#[derive(Debug, Clone, Copy, PartialEq, Eq, Structural)]
pub enum EvidenceType {
    /// A screenshot.
    Screenshot,
    /// A log of messages.
    MessageLog,
    /// A file.
    File,
    /// A video.
    Video,
    /// Something else.
    Other,
}

/// Decision of a dispute.
#[derive(Debug, Clone, Copy, PartialEq, Eq, Structural)]
pub enum DisputeDecision {
    /// The buyer is refunded.
    RefundBuyer,
    /// The funds go to the seller.
    ReleaseToSeller,
    /// The buyer is refunded in part.
    PartialRefund,
    /// The dispute goes to arbitration.
    Arbitration,
}

/// Release condition for escrow.
#[derive(Debug, Clone)]
pub enum ReleaseCondition {
    /// The buyer approves the release.
    BuyerApproval,
    /// A milestone is reached.
    Milestone {
        /// The milestone.
        milestone_id: String,
    },
    /// A time is reached.
    TimeBased {
        /// The time of the release.
        release_at: u64,
    },
    /// An arbitrator decides.
    Arbitration {
        /// The arbitrator.
        arbitrator: String,
    },
}

/// Order escrow details.
#[derive(Debug, Clone)]
pub struct OrderEscrow {
    /// The amount held, in satoshis.
    pub amount_sats: u64,
    /// The conditions of the release.
    pub release_conditions: Vec<ReleaseCondition>,
    /// The status of the escrow.
    pub status: EscrowStatus,
}

/// Marketplace order.
#[derive(Debug, Clone)]
pub struct Order {
    /// The order.
    pub id: OrderId,
    /// The listing ordered.
    pub listing_id: ListingId,
    /// The buyer.
    pub buyer: String,
    /// The seller.
    pub seller: String,
    /// The status of the order.
    pub status: OrderStatus,
    /// The total in satoshis.
    pub total_sats: u64,
    /// The hash of the payment.
    pub payment_hash: Option<String>,
    /// The escrow of the order.
    pub escrow: Option<OrderEscrow>,
    /// When the order was placed.
    pub created_at: u64,
    /// When the order was paid.
    pub paid_at: Option<u64>,
    /// When the order was delivered.
    pub delivered_at: Option<u64>,
    /// When the order was completed.
    pub completed_at: Option<u64>,
}

/// Order review.
#[derive(Debug, Clone)]
pub struct OrderReview {
    /// The order reviewed.
    pub order_id: OrderId,
    /// Who wrote it.
    pub reviewer: String,
    /// The rating.
    pub rating: u8,
    /// The text of the review.
    pub review_text: String,
    /// When the review was written.
    pub created_at: u64,
    /// How many found the review helpful.
    pub helpful_votes: u64,
}

/// Reason of a dispute.
#[derive(Debug, Clone)]
pub enum DisputeReason {
    /// Nothing was delivered.
    NonDelivery,
    /// The quality was not as promised.
    QualityIssue,
    /// The delivery was late.
    LateDelivery,
    /// The communication failed.
    CommunicationIssue,
    /// The payment went wrong.
    PaymentIssue,
    /// Another reason.
    Other {
        /// What the reason is.
        description: String,
    },
}

/// Evidence in a dispute.
#[derive(Debug, Clone)]
pub struct DisputeEvidence {
    /// The kind of evidence.
    pub evidence_type: EvidenceType,
    /// What the evidence shows.
    pub description: String,
    /// Where the evidence is found.
    pub reference: String,
}

/// Resolution of a dispute.
#[derive(Debug, Clone)]
pub struct DisputeResolution {
    /// The decision.
    pub decision: DisputeDecision,
    /// What the buyer gets.
    pub buyer_amount: u64,
    /// What the seller gets.
    pub seller_amount: u64,
    /// Notes on the resolution.
    pub notes: String,
    /// When the dispute was resolved.
    pub resolved_at: u64,
}

/// Order dispute.
#[derive(Debug, Clone)]
pub struct OrderDispute {
    /// The order disputed.
    pub order_id: OrderId,
    /// Who raised the dispute.
    pub raised_by: String,
    /// The reason of the dispute.
    pub reason: DisputeReason,
    /// What the dispute is about.
    pub description: String,
    /// The evidence brought.
    pub evidence: Vec<DisputeEvidence>,
    /// The resolution, once there is one.
    pub resolution: Option<DisputeResolution>,
    /// When the dispute was raised.
    pub created_at: u64,
}

} // verus!
