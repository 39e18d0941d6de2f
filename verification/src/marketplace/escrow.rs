//! Escrow of marketplace orders: funds held until they are released to
//! the seller or refunded to the buyer.
//!
//! The service keeps the books. Moving the funds on a chain is the caller's
//! part: a release or a refund is begun here, carried out there, and
//! finished here with the identifier of the transaction.

use crate::clock::unix_seconds;
use crate::errors::{MarketplaceError, MarketplaceErrorView};
use crate::keyed::{
    distinct, find, find_after_put, position, position_found, position_is, put, put_keeps_distinct,
    put_twice, Keyed,
};
use crate::marketplace::delivery::refused_with;
use crate::marketplace::orders::OrderId;
use crate::text::joined;
use crate::views::{clone_vec, seq_view, seq_view_push, seq_view_update};
use vstd::prelude::*;

verus! {

/// Escrow service result type.
pub type EscrowResult<T> = Result<T, MarketplaceError>;

/// Unique escrow identifier.
#[derive(Debug, Hash)]
pub struct EscrowId(pub String);

impl View for EscrowId {
    type V = Seq<char>;

    open spec fn view(&self) -> Seq<char> {
        self.0@
    }
}

impl Clone for EscrowId {
    fn clone(&self) -> (r: Self)
        ensures
            r@ == self@,
    {
        EscrowId(self.0.clone())
    }
}

impl PartialEq for EscrowId {
    fn eq(&self, other: &Self) -> (r: bool) {
        self.0 == other.0
    }
}

impl Eq for EscrowId {}

impl vstd::std_specs::cmp::PartialEqSpecImpl for EscrowId {
    open spec fn obeys_eq_spec() -> bool {
        true
    }

    open spec fn eq_spec(&self, other: &Self) -> bool {
        self@ == other@
    }
}

impl EscrowId {
    /// The escrow identifier made of a unique text: `escrow_` and the text.
    pub fn from_unique(unique: &str) -> (r: Self)
        ensures
            r@ == "escrow_"@ + unique@,
    {
        EscrowId(joined("escrow_", unique))
    }

    /// Get as string.
    pub fn as_str(&self) -> (s: &str)
        ensures
            s@ == self@,
    {
        self.0.as_str()
    }
}

/// Escrow status.
#[derive(Debug, Clone, Copy, PartialEq, Eq, Structural)]
pub enum EscrowStatus {
    /// Funds deposited, awaiting release.
    Active,
    /// Some funds released.
    PartialRelease,
    /// All funds released to seller.
    Released,
    /// Funds refunded to buyer.
    Refunded,
    /// Dispute raised.
    Disputed,
    /// Dispute resolved.
    Resolved,
}

/// Conditions for releasing escrow funds.
#[derive(Debug)]
pub enum ReleaseCondition {
    /// Buyer approval required.
    BuyerApproval,
    /// All milestones completed.
    MilestonesCompleted,
    /// Time-based release.
    TimeBased {
        /// The time from which the funds may be released.
        release_at: u64,
    },
    /// Arbitration decision.
    Arbitration {
        /// The arbitrator.
        arbitrator: String,
    },
    /// Quality verification.
    QualityVerified,
}

/// The model of a [`ReleaseCondition`].
pub ghost enum ReleaseConditionView {
    BuyerApproval,
    MilestonesCompleted,
    TimeBased { release_at: u64 },
    Arbitration { arbitrator: Seq<char> },
    QualityVerified,
}

impl View for ReleaseCondition {
    type V = ReleaseConditionView;

    open spec fn view(&self) -> ReleaseConditionView {
        match self {
            ReleaseCondition::BuyerApproval => ReleaseConditionView::BuyerApproval,
            ReleaseCondition::MilestonesCompleted => ReleaseConditionView::MilestonesCompleted,
            ReleaseCondition::TimeBased { release_at } => ReleaseConditionView::TimeBased {
                release_at: *release_at,
            },
            ReleaseCondition::Arbitration { arbitrator } => ReleaseConditionView::Arbitration {
                arbitrator: arbitrator@,
            },
            ReleaseCondition::QualityVerified => ReleaseConditionView::QualityVerified,
        }
    }
}

impl Clone for ReleaseCondition {
    fn clone(&self) -> (r: Self)
        ensures
            r@ == self@,
    {
        match self {
            ReleaseCondition::BuyerApproval => ReleaseCondition::BuyerApproval,
            ReleaseCondition::MilestonesCompleted => ReleaseCondition::MilestonesCompleted,
            ReleaseCondition::TimeBased { release_at } => ReleaseCondition::TimeBased {
                release_at: *release_at,
            },
            ReleaseCondition::Arbitration { arbitrator } => ReleaseCondition::Arbitration {
                arbitrator: arbitrator.clone(),
            },
            ReleaseCondition::QualityVerified => ReleaseCondition::QualityVerified,
        }
    }
}

/// Dispute resolution options.
#[derive(Debug, Clone, Copy, PartialEq, Eq, Structural)]
pub enum DisputeResolution {
    /// Release all or part to seller.
    ReleaseToSeller(u64),
    /// Refund all or part to buyer.
    RefundToBuyer(u64),
    /// Split between buyer and seller.
    Split {
        /// What goes to the seller.
        seller_amount: u64,
        /// What goes back to the buyer.
        buyer_amount: u64,
    },
}

/// Escrow account holding funds.
#[derive(Debug)]
pub struct EscrowAccount {
    /// The escrow.
    pub id: EscrowId,
    /// The order that the funds are held for.
    pub order_id: OrderId,
    /// The buyer.
    pub buyer: String,
    /// The seller.
    pub seller: String,
    /// The amount deposited.
    pub total_amount: u64,
    /// The amount released to the seller.
    pub released_amount: u64,
    /// The amount refunded to the buyer.
    pub refunded_amount: u64,
    /// The conditions of a release.
    pub release_conditions: Vec<ReleaseCondition>,
    /// The status of the escrow.
    pub status: EscrowStatus,
    /// The transaction of the deposit.
    pub deposit_tx_id: Option<[u8; 32]>,
    /// The transaction of the last release.
    pub release_tx_id: Option<[u8; 32]>,
    /// The transaction of the last refund.
    pub refund_tx_id: Option<[u8; 32]>,
    /// When the escrow was created.
    pub created_at: u64,
    /// When the escrow last changed.
    pub updated_at: u64,
}

/// The model of an [`EscrowAccount`]: everything but the time of its last
/// change, which is a clock reading.
pub ghost struct EscrowAccountView {
    pub id: Seq<char>,
    pub order_id: Seq<char>,
    pub buyer: Seq<char>,
    pub seller: Seq<char>,
    pub total_amount: u64,
    pub released_amount: u64,
    pub refunded_amount: u64,
    pub release_conditions: Seq<ReleaseConditionView>,
    pub status: EscrowStatus,
    pub deposit_tx_id: Option<[u8; 32]>,
    pub release_tx_id: Option<[u8; 32]>,
    pub refund_tx_id: Option<[u8; 32]>,
    pub created_at: u64,
}

impl View for EscrowAccount {
    type V = EscrowAccountView;

    open spec fn view(&self) -> EscrowAccountView {
        EscrowAccountView {
            id: self.id@,
            order_id: self.order_id@,
            buyer: self.buyer@,
            seller: self.seller@,
            total_amount: self.total_amount,
            released_amount: self.released_amount,
            refunded_amount: self.refunded_amount,
            release_conditions: seq_view(self.release_conditions@),
            status: self.status,
            deposit_tx_id: self.deposit_tx_id,
            release_tx_id: self.release_tx_id,
            refund_tx_id: self.refund_tx_id,
            created_at: self.created_at,
        }
    }
}

impl Clone for EscrowAccount {
    fn clone(&self) -> (r: Self)
        ensures
            r@ == self@,
            r.updated_at == self.updated_at,
    {
        EscrowAccount {
            id: self.id.clone(),
            order_id: self.order_id.clone(),
            buyer: self.buyer.clone(),
            seller: self.seller.clone(),
            total_amount: self.total_amount,
            released_amount: self.released_amount,
            refunded_amount: self.refunded_amount,
            release_conditions: clone_vec(&self.release_conditions),
            status: self.status,
            deposit_tx_id: self.deposit_tx_id,
            release_tx_id: self.release_tx_id,
            refund_tx_id: self.refund_tx_id,
            created_at: self.created_at,
            updated_at: self.updated_at,
        }
    }
}

/// The escrow of an order.
#[derive(Debug)]
pub struct OrderEscrowEntry {
    /// The order.
    pub order_id: OrderId,
    /// The escrow.
    pub escrow_id: EscrowId,
}

/// The model of an [`OrderEscrowEntry`].
pub ghost struct OrderEscrowEntryView {
    pub order_id: Seq<char>,
    pub escrow_id: Seq<char>,
}

impl View for OrderEscrowEntry {
    type V = OrderEscrowEntryView;

    open spec fn view(&self) -> OrderEscrowEntryView {
        OrderEscrowEntryView {
            order_id: self.order_id@,
            escrow_id: self.escrow_id@,
        }
    }
}

impl Clone for OrderEscrowEntry {
    fn clone(&self) -> (r: Self)
        ensures
            r@ == self@,
    {
        OrderEscrowEntry {
            order_id: self.order_id.clone(),
            escrow_id: self.escrow_id.clone(),
        }
    }
}

impl Keyed for EscrowAccountView {
    type Key = Seq<char>;

    open spec fn key(self) -> Seq<char> {
        self.id
    }
}

impl Keyed for OrderEscrowEntryView {
    type Key = Seq<char>;

    open spec fn key(self) -> Seq<char> {
        self.order_id
    }
}

impl EscrowAccountView {
    /// The books of the escrow are sound: no more was released and
    /// refunded than was deposited.
    pub open spec fn wf(self) -> bool {
        self.released_amount + self.refunded_amount <= self.total_amount
    }

    /// What is still held.
    pub open spec fn available(self) -> int {
        self.total_amount - self.released_amount - self.refunded_amount
    }

    /// The part of `amount` that can be had of what is still held.
    pub open spec fn granted(self, amount: u64) -> u64 {
        if amount <= self.available() {
            amount
        } else {
            self.available() as u64
        }
    }

    /// Whether the conditions of a release are met at the time `now`: the
    /// time of every time-based condition is reached. The other conditions
    /// are taken as met.
    pub open spec fn conditions_met(self, now: u64) -> bool {
        forall|i: int|
            0 <= i < self.release_conditions.len() ==> match #[trigger] self.release_conditions[i] {
                ReleaseConditionView::TimeBased { release_at } => now >= release_at,
                _ => true,
            }
    }

    /// The escrow as it is created at the time `now`.
    pub open spec fn opened(
        id: Seq<char>,
        order_id: Seq<char>,
        buyer: Seq<char>,
        seller: Seq<char>,
        amount: u64,
        conditions: Seq<ReleaseConditionView>,
        deposit_tx_id: Option<[u8; 32]>,
        now: u64,
    ) -> Self {
        EscrowAccountView {
            id,
            order_id,
            buyer,
            seller,
            total_amount: amount,
            released_amount: 0,
            refunded_amount: 0,
            release_conditions: conditions,
            status: EscrowStatus::Active,
            deposit_tx_id,
            release_tx_id: None,
            refund_tx_id: None,
            created_at: now,
        }
    }

    /// What stands in the way of a release by `releaser` at the time `now`,
    /// if anything: the releaser is not the buyer, or the conditions are
    /// not met.
    pub open spec fn release_obstacle(self, releaser: Seq<char>, now: u64) -> Option<
        MarketplaceErrorView,
    > {
        if releaser != self.buyer {
            Some(MarketplaceErrorView::InvalidEscrowState)
        } else if !self.conditions_met(now) {
            Some(MarketplaceErrorView::ReleaseConditionsNotMet)
        } else {
            None
        }
    }

    /// The escrow after a release of `amount` was begun: what can be had of
    /// it counts as released.
    pub open spec fn releasing(self, amount: u64) -> Self {
        EscrowAccountView {
            released_amount: (self.released_amount + self.granted(amount)) as u64,
            ..self
        }
    }

    /// The escrow after a refund of `amount` was begun: what can be had of
    /// it counts as refunded.
    pub open spec fn refunding(self, amount: u64) -> Self {
        EscrowAccountView {
            refunded_amount: (self.refunded_amount + self.granted(amount)) as u64,
            ..self
        }
    }

    /// The escrow after a release was finished with the transaction that
    /// carried it, if there was one. When nothing is held any more, the
    /// escrow is released if all went to the seller, refunded if all went
    /// to the buyer, and released in part otherwise.
    pub open spec fn released(self, tx_id: Option<[u8; 32]>) -> Self {
        EscrowAccountView {
            release_tx_id: if tx_id is Some {
                tx_id
            } else {
                self.release_tx_id
            },
            status: if self.released_amount + self.refunded_amount >= self.total_amount {
                if self.released_amount > 0 && self.refunded_amount == 0 {
                    EscrowStatus::Released
                } else if self.refunded_amount > 0 && self.released_amount == 0 {
                    EscrowStatus::Refunded
                } else {
                    EscrowStatus::PartialRelease
                }
            } else {
                self.status
            },
            ..self
        }
    }

    /// The escrow after a refund was finished with the transaction that
    /// carried it, if there was one. When nothing is held any more, the
    /// escrow is refunded if all went to the buyer, and released in part
    /// otherwise.
    pub open spec fn refunded(self, tx_id: Option<[u8; 32]>) -> Self {
        EscrowAccountView {
            refund_tx_id: if tx_id is Some {
                tx_id
            } else {
                self.refund_tx_id
            },
            status: if self.released_amount + self.refunded_amount >= self.total_amount {
                if self.refunded_amount > 0 && self.released_amount == 0 {
                    EscrowStatus::Refunded
                } else {
                    EscrowStatus::PartialRelease
                }
            } else {
                self.status
            },
            ..self
        }
    }

    /// The escrow after a dispute over it was resolved at the time `now`,
    /// the funds moving without transactions; or the failure of the
    /// release, which leaves the escrow as it is.
    pub open spec fn resolved(self, resolution: DisputeResolution, now: u64) -> Result<
        EscrowAccountView,
        MarketplaceErrorView,
    > {
        let settled = match resolution {
            DisputeResolution::ReleaseToSeller(amount) => match self.release_obstacle(
                self.buyer,
                now,
            ) {
                Some(e) => Err(e),
                None => Ok(self.releasing(amount).released(None)),
            },
            DisputeResolution::RefundToBuyer(amount) => Ok(self.refunding(amount).refunded(None)),
            DisputeResolution::Split { seller_amount, buyer_amount } => match self.release_obstacle(
                self.buyer,
                now,
            ) {
                Some(e) => Err(e),
                None => Ok(
                    self.releasing(seller_amount).released(None).refunding(buyer_amount).refunded(
                        None,
                    ),
                ),
            },
        };
        match settled {
            Ok(escrow) => Ok(EscrowAccountView { status: EscrowStatus::Resolved, ..escrow }),
            Err(e) => Err(e),
        }
    }
}

/// The model of the escrow manager: the escrows, and the escrow of every
/// order.
pub ghost struct EscrowsView {
    pub escrows: Seq<EscrowAccountView>,
    pub by_order: Seq<OrderEscrowEntryView>,
}

/// The books of every escrow are sound.
pub open spec fn all_sound(escrows: Seq<EscrowAccountView>) -> bool {
    forall|i: int| 0 <= i < escrows.len() ==> (#[trigger] escrows[i]).wf()
}

impl EscrowsView {
    /// The invariant of the manager: at most one escrow under an
    /// identifier and for an order, and the books of every escrow sound.
    pub open spec fn wf(self) -> bool {
        &&& distinct(self.escrows)
        &&& distinct(self.by_order)
        &&& all_sound(self.escrows)
    }

    /// The escrow of an order, if it has one.
    pub open spec fn of_order(self, order_id: Seq<char>) -> Option<EscrowAccountView> {
        match find(self.by_order, order_id) {
            Some(entry) => find(self.escrows, entry.escrow_id),
            None => None,
        }
    }

    /// The manager after an escrow changed.
    pub open spec fn with_escrow(self, escrow: EscrowAccountView) -> Self {
        EscrowsView { escrows: put(self.escrows, escrow), ..self }
    }

    /// Whether the manager `after` and the outcome `r` are what beginning a
    /// release at the time `now` gives: a failure with nothing changed when
    /// the escrow is unknown or something stands in the way; else what can
    /// be had of the amount counts as released, and is returned.
    pub open spec fn release_begun(
        self,
        escrow_id: Seq<char>,
        amount: u64,
        releaser: Seq<char>,
        now: u64,
        after: EscrowsView,
        r: Result<u64, MarketplaceError>,
    ) -> bool {
        match find(self.escrows, escrow_id) {
            None => after == self && refused_with(r, MarketplaceErrorView::EscrowNotFound),
            Some(escrow) => match escrow.release_obstacle(releaser, now) {
                Some(e) => after == self && refused_with(r, e),
                None => r == Ok::<u64, MarketplaceError>(escrow.granted(amount)) && after
                    == self.with_escrow(escrow.releasing(amount)),
            },
        }
    }

    /// Whether the manager `after` and the outcome `r` are what releasing
    /// funds without a transaction at the time `now` gives.
    pub open spec fn release_done(
        self,
        escrow_id: Seq<char>,
        amount: u64,
        releaser: Seq<char>,
        now: u64,
        after: EscrowsView,
        r: Result<(), MarketplaceError>,
    ) -> bool {
        match find(self.escrows, escrow_id) {
            None => after == self && refused_with(r, MarketplaceErrorView::EscrowNotFound),
            Some(escrow) => match escrow.release_obstacle(releaser, now) {
                Some(e) => after == self && refused_with(r, e),
                None => r is Ok && after == self.with_escrow(
                    escrow.releasing(amount).released(None),
                ),
            },
        }
    }

    /// Whether the manager `after` and the outcome `r` are what resolving a
    /// dispute without transactions at the time `now` gives: a failure with
    /// nothing changed when the escrow is unknown, is not disputed, or the
    /// release fails; else the funds move as resolved and the escrow is
    /// resolved.
    pub open spec fn dispute_resolved(
        self,
        escrow_id: Seq<char>,
        resolution: DisputeResolution,
        now: u64,
        after: EscrowsView,
        r: Result<(), MarketplaceError>,
    ) -> bool {
        match find(self.escrows, escrow_id) {
            None => after == self && refused_with(r, MarketplaceErrorView::EscrowNotFound),
            Some(escrow) => if escrow.status != EscrowStatus::Disputed {
                after == self && refused_with(r, MarketplaceErrorView::InvalidEscrowState)
            } else {
                match escrow.resolved(resolution, now) {
                    Err(e) => after == self && refused_with(r, e),
                    Ok(resolved) => r is Ok && after == self.with_escrow(resolved),
                }
            },
        }
    }
}

/// Escrow manager for marketplace transactions.
#[derive(Debug)]
pub struct EscrowManager {
    /// Active escrow accounts, at most one under an identifier.
    escrows: Vec<EscrowAccount>,
    /// Escrows by order ID, at most one for an order.
    escrows_by_order: Vec<OrderEscrowEntry>,
}

impl View for EscrowManager {
    type V = EscrowsView;

    closed spec fn view(&self) -> EscrowsView {
        EscrowsView {
            escrows: seq_view(self.escrows@),
            by_order: seq_view(self.escrows_by_order@),
        }
    }
}

impl EscrowManager {
    #[verifier::type_invariant]
    spec fn inv(&self) -> bool {
        self@.wf()
    }

    /// Create new escrow manager.
    pub fn new() -> (r: EscrowResult<Self>)
        ensures
            r is Ok,
            r->Ok_0@ == (EscrowsView { escrows: Seq::empty(), by_order: Seq::empty() }),
    {
        Ok(EscrowManager::default())
    }

    /// The place of an escrow in the table, or the table's length.
    fn escrow_index(&self, id: &EscrowId) -> (i: usize)
        ensures
            i == position(self@.escrows, id@),
            i <= self.escrows.len(),
    {
        let mut i: usize = 0;
        while i < self.escrows.len()
            invariant
                i <= self.escrows.len(),
                forall|j: int| 0 <= j < i ==> seq_view(self.escrows@)[j].key() != id@,
            decreases self.escrows.len() - i,
        {
            if self.escrows[i].id == *id {
                proof {
                    position_is(self@.escrows, id@, i as int);
                }
                return i;
            }
            i += 1;
        }
        proof {
            position_is(self@.escrows, id@, i as int);
        }
        i
    }

    /// The place of an order in the index, or the index's length.
    fn order_index(&self, id: &OrderId) -> (i: usize)
        ensures
            i == position(self@.by_order, id@),
            i <= self.escrows_by_order.len(),
    {
        let mut i: usize = 0;
        while i < self.escrows_by_order.len()
            invariant
                i <= self.escrows_by_order.len(),
                forall|j: int| 0 <= j < i ==> seq_view(self.escrows_by_order@)[j].key() != id@,
            decreases self.escrows_by_order.len() - i,
        {
            if self.escrows_by_order[i].order_id == *id {
                proof {
                    position_is(self@.by_order, id@, i as int);
                }
                return i;
            }
            i += 1;
        }
        proof {
            position_is(self@.by_order, id@, i as int);
        }
        i
    }

    /// Puts an escrow in the table, in the place of the one under its
    /// identifier if there is one.
    fn store(&mut self, escrow: EscrowAccount)
        requires
            escrow@.wf(),
        ensures
            final(self)@ == old(self)@.with_escrow(escrow@),
    {
        proof {
            use_type_invariant(&*self);
            position_found(self@.escrows, escrow@.key());
            put_keeps_distinct(self@.escrows, escrow@);
        }
        let i = self.escrow_index(&escrow.id);
        let mut escrows: Vec<EscrowAccount> = Vec::new();
        core::mem::swap(&mut self.escrows, &mut escrows);
        if i < escrows.len() {
            proof {
                seq_view_update(escrows@, i as int, escrow);
            }
            escrows[i] = escrow;
        } else {
            proof {
                seq_view_push(escrows@, escrow);
            }
            escrows.push(escrow);
        }
        self.escrows = escrows;
    }

    /// Create escrow for an order, named after the unique text given, with
    /// the transaction of the deposit if there was one.
    ///
    /// Fails without any change when the order has an escrow already.
    pub fn create_escrow(
        &mut self,
        order_id: OrderId,
        buyer: String,
        seller: String,
        amount: u64,
        conditions: Vec<ReleaseCondition>,
        unique: &str,
        deposit_tx_id: Option<[u8; 32]>,
    ) -> (r: EscrowResult<EscrowId>)
        ensures
            final(self)@.wf(),
            match find(old(self)@.by_order, order_id@) {
                Some(_) => final(self)@ == old(self)@ && refused_with(
                    r,
                    MarketplaceErrorView::EscrowExists,
                ),
                None => {
                    &&& r is Ok
                    &&& r->Ok_0@ == "escrow_"@ + unique@
                    &&& exists|now: u64|
                        final(self)@ == (EscrowsView {
                            escrows: put(
                                old(self)@.escrows,
                                #[trigger] EscrowAccountView::opened(
                                    r->Ok_0@,
                                    order_id@,
                                    buyer@,
                                    seller@,
                                    amount,
                                    seq_view(conditions@),
                                    deposit_tx_id,
                                    now,
                                ),
                            ),
                            by_order: old(self)@.by_order.push(
                                OrderEscrowEntryView { order_id: order_id@, escrow_id: r->Ok_0@ },
                            ),
                        })
                },
            },
    {
        proof {
            use_type_invariant(&*self);
            position_found(self@.by_order, order_id@);
        }
        if self.order_index(&order_id) < self.escrows_by_order.len() {
            return Err(MarketplaceError::EscrowExists);
        }
        let escrow_id = EscrowId::from_unique(unique);
        let now = unix_seconds();
        let escrow = EscrowAccount {
            id: escrow_id.clone(),
            order_id: order_id.clone(),
            buyer,
            seller,
            total_amount: amount,
            released_amount: 0,
            refunded_amount: 0,
            release_conditions: conditions,
            status: EscrowStatus::Active,
            deposit_tx_id,
            release_tx_id: None,
            refund_tx_id: None,
            created_at: now,
            updated_at: now,
        };
        assert(escrow@ == EscrowAccountView::opened(
            escrow_id@,
            order_id@,
            buyer@,
            seller@,
            amount,
            seq_view(conditions@),
            deposit_tx_id,
            now,
        ));
        self.store(escrow);
        let entry = OrderEscrowEntry { order_id, escrow_id: escrow_id.clone() };
        proof {
            use_type_invariant(&*self);
            put_keeps_distinct(self@.by_order, entry@);
            seq_view_push(self.escrows_by_order@, entry);
        }
        let mut index: Vec<OrderEscrowEntry> = Vec::new();
        core::mem::swap(&mut self.escrows_by_order, &mut index);
        index.push(entry);
        self.escrows_by_order = index;
        Ok(escrow_id)
    }

    /// Check if release conditions are met at the time `now`.
    fn check_release_conditions_static(escrow: &EscrowAccount, now: u64) -> (r: bool)
        ensures
            r == escrow@.conditions_met(now),
    {
        let mut i: usize = 0;
        while i < escrow.release_conditions.len()
            invariant
                i <= escrow.release_conditions.len(),
                forall|j: int|
                    0 <= j < i ==> match #[trigger] escrow@.release_conditions[j] {
                        ReleaseConditionView::TimeBased { release_at } => now >= release_at,
                        _ => true,
                    },
            decreases escrow.release_conditions.len() - i,
        {
            match &escrow.release_conditions[i] {
                ReleaseCondition::TimeBased { release_at } => {
                    if now < *release_at {
                        assert(escrow@.release_conditions[i as int] == (
                        ReleaseConditionView::TimeBased { release_at: *release_at }));
                        return false;
                    }
                },
                _ => {},
            }
            i += 1;
        }
        true
    }

    /// Begins a release of funds to the seller at the time `now`: what can
    /// be had of the amount counts as released, and is returned for the
    /// caller to move.
    pub fn begin_release_at(&mut self, escrow_id: &EscrowId, amount: u64, releaser: &str, now: u64)
        -> (r: EscrowResult<u64>)
        ensures
            final(self)@.wf(),
            old(self)@.release_begun(escrow_id@, amount, releaser@, now, final(self)@, r),
    {
        proof {
            use_type_invariant(&*self);
            position_found(self@.escrows, escrow_id@);
        }
        let i = self.escrow_index(escrow_id);
        if i >= self.escrows.len() {
            return Err(MarketplaceError::EscrowNotFound);
        }
        let mut escrow = self.escrows[i].clone();
        if releaser.to_owned() != escrow.buyer {
            return Err(MarketplaceError::InvalidEscrowState);
        }
        if !Self::check_release_conditions_static(&escrow, now) {
            return Err(MarketplaceError::ReleaseConditionsNotMet);
        }
        let available = escrow.total_amount - escrow.released_amount - escrow.refunded_amount;
        let release_amount = if amount <= available {
            amount
        } else {
            available
        };
        escrow.released_amount = escrow.released_amount + release_amount;
        escrow.updated_at = unix_seconds();
        self.store(escrow);
        proof {
            use_type_invariant(&*self);
        }
        Ok(release_amount)
    }

    /// Finishes a release with the transaction that carried it, if there
    /// was one, and sets the status after it.
    ///
    /// Fails without any change when the escrow is unknown.
    pub fn finish_release(&mut self, escrow_id: &EscrowId, tx_id: Option<[u8; 32]>) -> (r:
        EscrowResult<()>)
        ensures
            final(self)@.wf(),
            match find(old(self)@.escrows, escrow_id@) {
                None => final(self)@ == old(self)@ && refused_with(
                    r,
                    MarketplaceErrorView::EscrowNotFound,
                ),
                Some(escrow) => r is Ok && final(self)@ == old(self)@.with_escrow(
                    escrow.released(tx_id),
                ),
            },
    {
        proof {
            use_type_invariant(&*self);
            position_found(self@.escrows, escrow_id@);
        }
        let i = self.escrow_index(escrow_id);
        if i >= self.escrows.len() {
            return Err(MarketplaceError::EscrowNotFound);
        }
        let mut escrow = self.escrows[i].clone();
        if tx_id.is_some() {
            escrow.release_tx_id = tx_id;
        }
        if escrow.released_amount + escrow.refunded_amount >= escrow.total_amount {
            if escrow.released_amount > 0 && escrow.refunded_amount == 0 {
                escrow.status = EscrowStatus::Released;
            } else if escrow.refunded_amount > 0 && escrow.released_amount == 0 {
                escrow.status = EscrowStatus::Refunded;
            } else {
                escrow.status = EscrowStatus::PartialRelease;
            }
        }
        self.store(escrow);
        proof {
            use_type_invariant(&*self);
        }
        Ok(())
    }

    /// Release funds to seller at the time `now`, without a transaction.
    pub fn release_funds_at(&mut self, escrow_id: &EscrowId, amount: u64, releaser: &str, now: u64)
        -> (r: EscrowResult<()>)
        ensures
            final(self)@.wf(),
            old(self)@.release_done(escrow_id@, amount, releaser@, now, final(self)@, r),
    {
        proof {
            use_type_invariant(&*self);
            position_found(self@.escrows, escrow_id@);
        }
        let ghost before = self@;
        match self.begin_release_at(escrow_id, amount, releaser, now) {
            Ok(_) => {},
            Err(e) => {
                return Err(e);
            },
        }
        proof {
            let escrow = find(before.escrows, escrow_id@)->Some_0;
            find_after_put(before.escrows, escrow.releasing(amount), escrow_id@);
            put_twice(before.escrows, escrow.releasing(amount), escrow.releasing(amount).released(None));
        }
        self.finish_release(escrow_id, None)
    }

    /// Release funds to seller by the clock, without a transaction.
    pub fn release_funds(&mut self, escrow_id: &EscrowId, amount: u64, releaser: &str) -> (r:
        EscrowResult<()>)
        ensures
            final(self)@.wf(),
            exists|now: u64|
                old(self)@.release_done(escrow_id@, amount, releaser@, now, final(self)@, r),
    {
        let now = unix_seconds();
        self.release_funds_at(escrow_id, amount, releaser, now)
    }

    /// Begins a refund to the buyer: what can be had of the amount counts
    /// as refunded, and is returned for the caller to move.
    ///
    /// Fails without any change when the escrow is unknown.
    pub fn begin_refund(&mut self, escrow_id: &EscrowId, amount: u64) -> (r: EscrowResult<u64>)
        ensures
            final(self)@.wf(),
            match find(old(self)@.escrows, escrow_id@) {
                None => final(self)@ == old(self)@ && refused_with(
                    r,
                    MarketplaceErrorView::EscrowNotFound,
                ),
                Some(escrow) => r == Ok::<u64, MarketplaceError>(escrow.granted(amount))
                    && final(self)@ == old(self)@.with_escrow(escrow.refunding(amount)),
            },
    {
        proof {
            use_type_invariant(&*self);
            position_found(self@.escrows, escrow_id@);
        }
        let i = self.escrow_index(escrow_id);
        if i >= self.escrows.len() {
            return Err(MarketplaceError::EscrowNotFound);
        }
        let mut escrow = self.escrows[i].clone();
        let available = escrow.total_amount - escrow.released_amount - escrow.refunded_amount;
        let refund_amount = if amount <= available {
            amount
        } else {
            available
        };
        escrow.refunded_amount = escrow.refunded_amount + refund_amount;
        escrow.updated_at = unix_seconds();
        self.store(escrow);
        proof {
            use_type_invariant(&*self);
        }
        Ok(refund_amount)
    }

    /// Finishes a refund with the transaction that carried it, if there
    /// was one, and sets the status after it.
    ///
    /// Fails without any change when the escrow is unknown.
    pub fn finish_refund(&mut self, escrow_id: &EscrowId, tx_id: Option<[u8; 32]>) -> (r:
        EscrowResult<()>)
        ensures
            final(self)@.wf(),
            match find(old(self)@.escrows, escrow_id@) {
                None => final(self)@ == old(self)@ && refused_with(
                    r,
                    MarketplaceErrorView::EscrowNotFound,
                ),
                Some(escrow) => r is Ok && final(self)@ == old(self)@.with_escrow(
                    escrow.refunded(tx_id),
                ),
            },
    {
        proof {
            use_type_invariant(&*self);
            position_found(self@.escrows, escrow_id@);
        }
        let i = self.escrow_index(escrow_id);
        if i >= self.escrows.len() {
            return Err(MarketplaceError::EscrowNotFound);
        }
        let mut escrow = self.escrows[i].clone();
        if tx_id.is_some() {
            escrow.refund_tx_id = tx_id;
        }
        if escrow.released_amount + escrow.refunded_amount >= escrow.total_amount {
            if escrow.refunded_amount > 0 && escrow.released_amount == 0 {
                escrow.status = EscrowStatus::Refunded;
            } else {
                escrow.status = EscrowStatus::PartialRelease;
            }
        }
        self.store(escrow);
        proof {
            use_type_invariant(&*self);
        }
        Ok(())
    }

    /// Refund funds to buyer, without a transaction.
    ///
    /// Fails without any change when the escrow is unknown.
    pub fn refund_funds(&mut self, escrow_id: &EscrowId, amount: u64) -> (r: EscrowResult<()>)
        ensures
            final(self)@.wf(),
            match find(old(self)@.escrows, escrow_id@) {
                None => final(self)@ == old(self)@ && refused_with(
                    r,
                    MarketplaceErrorView::EscrowNotFound,
                ),
                Some(escrow) => r is Ok && final(self)@ == old(self)@.with_escrow(
                    escrow.refunding(amount).refunded(None),
                ),
            },
    {
        proof {
            use_type_invariant(&*self);
            position_found(self@.escrows, escrow_id@);
        }
        let ghost before = self@;
        match self.begin_refund(escrow_id, amount) {
            Ok(_) => {},
            Err(e) => {
                return Err(e);
            },
        }
        proof {
            let escrow = find(before.escrows, escrow_id@)->Some_0;
            find_after_put(before.escrows, escrow.refunding(amount), escrow_id@);
            put_twice(before.escrows, escrow.refunding(amount), escrow.refunding(amount).refunded(None));
        }
        self.finish_refund(escrow_id, None)
    }

    /// Raise a dispute.
    ///
    /// Fails without any change when the escrow is unknown, or is neither
    /// active nor released in part.
    pub fn raise_dispute(&mut self, escrow_id: &EscrowId) -> (r: EscrowResult<()>)
        ensures
            final(self)@.wf(),
            match find(old(self)@.escrows, escrow_id@) {
                None => final(self)@ == old(self)@ && refused_with(
                    r,
                    MarketplaceErrorView::EscrowNotFound,
                ),
                Some(escrow) => if escrow.status == EscrowStatus::Active || escrow.status
                    == EscrowStatus::PartialRelease {
                    r is Ok && final(self)@ == old(self)@.with_escrow(
                        EscrowAccountView { status: EscrowStatus::Disputed, ..escrow },
                    )
                } else {
                    final(self)@ == old(self)@ && refused_with(
                        r,
                        MarketplaceErrorView::InvalidEscrowState,
                    )
                },
            },
    {
        proof {
            use_type_invariant(&*self);
            position_found(self@.escrows, escrow_id@);
        }
        let i = self.escrow_index(escrow_id);
        if i >= self.escrows.len() {
            return Err(MarketplaceError::EscrowNotFound);
        }
        let mut escrow = self.escrows[i].clone();
        if escrow.status != EscrowStatus::Active && escrow.status != EscrowStatus::PartialRelease {
            return Err(MarketplaceError::InvalidEscrowState);
        }
        escrow.status = EscrowStatus::Disputed;
        escrow.updated_at = unix_seconds();
        self.store(escrow);
        proof {
            use_type_invariant(&*self);
        }
        Ok(())
    }

    /// Opens the resolution of a dispute: tells the buyer, on whose behalf
    /// funds are released.
    ///
    /// Fails when the escrow is unknown, or is not disputed.
    pub fn open_resolution(&self, escrow_id: &EscrowId) -> (r: EscrowResult<String>)
        ensures
            match find(self@.escrows, escrow_id@) {
                None => refused_with(r, MarketplaceErrorView::EscrowNotFound),
                Some(escrow) => if escrow.status == EscrowStatus::Disputed {
                    r is Ok && r->Ok_0@ == escrow.buyer
                } else {
                    refused_with(r, MarketplaceErrorView::InvalidEscrowState)
                },
            },
    {
        proof {
            position_found(self@.escrows, escrow_id@);
        }
        let i = self.escrow_index(escrow_id);
        if i >= self.escrows.len() {
            return Err(MarketplaceError::EscrowNotFound);
        }
        if self.escrows[i].status != EscrowStatus::Disputed {
            return Err(MarketplaceError::InvalidEscrowState);
        }
        Ok(self.escrows[i].buyer.clone())
    }

    /// Closes the resolution of a dispute: the escrow is resolved.
    ///
    /// Fails without any change when the escrow is unknown.
    pub fn close_resolution(&mut self, escrow_id: &EscrowId) -> (r: EscrowResult<()>)
        ensures
            final(self)@.wf(),
            match find(old(self)@.escrows, escrow_id@) {
                None => final(self)@ == old(self)@ && r is Err,
                Some(escrow) => r is Ok && final(self)@ == old(self)@.with_escrow(
                    EscrowAccountView { status: EscrowStatus::Resolved, ..escrow },
                ),
            },
    {
        proof {
            use_type_invariant(&*self);
            position_found(self@.escrows, escrow_id@);
        }
        let i = self.escrow_index(escrow_id);
        if i >= self.escrows.len() {
            return Err(
                MarketplaceError::EscrowError("Escrow disappeared during resolution".to_owned()),
            );
        }
        let mut escrow = self.escrows[i].clone();
        escrow.status = EscrowStatus::Resolved;
        escrow.updated_at = unix_seconds();
        self.store(escrow);
        proof {
            use_type_invariant(&*self);
        }
        Ok(())
    }

    /// Resolve dispute at the time `now`, the funds moving without
    /// transactions.
    pub fn resolve_dispute_at(&mut self, escrow_id: &EscrowId, resolution: DisputeResolution, now: u64)
        -> (r: EscrowResult<()>)
        ensures
            final(self)@.wf(),
            old(self)@.dispute_resolved(escrow_id@, resolution, now, final(self)@, r),
    {
        proof {
            use_type_invariant(&*self);
            position_found(self@.escrows, escrow_id@);
        }
        let ghost before = self@;
        let buyer = match self.open_resolution(escrow_id) {
            Ok(buyer) => buyer,
            Err(e) => {
                return Err(e);
            },
        };
        let ghost escrow = find(before.escrows, escrow_id@)->Some_0;
        match resolution {
            DisputeResolution::ReleaseToSeller(amount) => {
                match self.release_funds_at(escrow_id, amount, buyer.as_str(), now) {
                    Ok(()) => {},
                    Err(e) => {
                        return Err(e);
                    },
                }
                proof {
                    let moved = escrow.releasing(amount).released(None);
                    find_after_put(before.escrows, moved, escrow_id@);
                    put_twice(
                        before.escrows,
                        moved,
                        EscrowAccountView { status: EscrowStatus::Resolved, ..moved },
                    );
                }
            },
            DisputeResolution::RefundToBuyer(amount) => {
                match self.refund_funds(escrow_id, amount) {
                    Ok(()) => {},
                    Err(e) => {
                        return Err(e);
                    },
                }
                proof {
                    let moved = escrow.refunding(amount).refunded(None);
                    find_after_put(before.escrows, moved, escrow_id@);
                    put_twice(
                        before.escrows,
                        moved,
                        EscrowAccountView { status: EscrowStatus::Resolved, ..moved },
                    );
                }
            },
            DisputeResolution::Split { seller_amount, buyer_amount } => {
                match self.release_funds_at(escrow_id, seller_amount, buyer.as_str(), now) {
                    Ok(()) => {},
                    Err(e) => {
                        return Err(e);
                    },
                }
                let ghost first = escrow.releasing(seller_amount).released(None);
                proof {
                    find_after_put(before.escrows, first, escrow_id@);
                }
                match self.refund_funds(escrow_id, buyer_amount) {
                    Ok(()) => {},
                    Err(e) => {
                        return Err(e);
                    },
                }
                proof {
                    let moved = first.refunding(buyer_amount).refunded(None);
                    put_twice(before.escrows, first, moved);
                    find_after_put(before.escrows, moved, escrow_id@);
                    put_twice(
                        before.escrows,
                        moved,
                        EscrowAccountView { status: EscrowStatus::Resolved, ..moved },
                    );
                }
            },
        }
        self.close_resolution(escrow_id)
    }

    /// Resolve dispute by the clock, the funds moving without transactions.
    pub fn resolve_dispute(&mut self, escrow_id: &EscrowId, resolution: DisputeResolution) -> (r:
        EscrowResult<()>)
        ensures
            final(self)@.wf(),
            exists|now: u64|
                old(self)@.dispute_resolved(escrow_id@, resolution, now, final(self)@, r),
    {
        let now = unix_seconds();
        self.resolve_dispute_at(escrow_id, resolution, now)
    }

    /// Get escrow account.
    pub fn get_escrow(&self, escrow_id: &EscrowId) -> (r: Option<&EscrowAccount>)
        ensures
            match find(self@.escrows, escrow_id@) {
                Some(escrow) => r is Some && r->Some_0@ == escrow,
                None => r is None,
            },
    {
        let i = self.escrow_index(escrow_id);
        if i < self.escrows.len() {
            Some(&self.escrows[i])
        } else {
            None
        }
    }

    /// Get escrow by order.
    pub fn get_escrow_by_order(&self, order_id: &OrderId) -> (r: Option<&EscrowAccount>)
        ensures
            match self@.of_order(order_id@) {
                Some(escrow) => r is Some && r->Some_0@ == escrow,
                None => r is None,
            },
    {
        proof {
            position_found(self@.by_order, order_id@);
        }
        let o = self.order_index(order_id);
        if o < self.escrows_by_order.len() {
            self.get_escrow(&self.escrows_by_order[o].escrow_id)
        } else {
            None
        }
    }
}

impl Default for EscrowManager {
    fn default() -> (r: Self)
        ensures
            r@ == (EscrowsView { escrows: Seq::empty(), by_order: Seq::empty() }),
    {
        let escrows: Vec<EscrowAccount> = Vec::new();
        let escrows_by_order: Vec<OrderEscrowEntry> = Vec::new();
        assert(seq_view(escrows@) =~= Seq::<EscrowAccountView>::empty());
        assert(seq_view(escrows_by_order@) =~= Seq::<OrderEscrowEntryView>::empty());
        EscrowManager { escrows, escrows_by_order }
    }
}

} // verus!
