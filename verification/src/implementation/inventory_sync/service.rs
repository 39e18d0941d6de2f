//! The inventory service: the five tables of the ledger and the operations
//! on them.

use crate::clock::{unix_seconds, Stopwatch};
use crate::errors::{fails_with, CommerceError, CommerceErrorView};
use crate::implementation::inventory_sync::ledger::{
    about_product, active_location, available_among, commit_step, history_of, log_grew,
    log_grew_none, log_grew_one, log_grew_twice, longest_name, longest_name_bounds, low_stock,
    marks, moved, moved_stays_stopped, moved_stops_at_missing, moved_when_sourced, next_free_name,
    of_product, out_of_stock, receive_step, record_or_fresh, recordable, release_step,
    reorder_needed, reserve_step, set_step, sourced, sync_status, sync_step, synced,
    total_available, transfer_reference, LedgerView,
};
use crate::keyed::{find, position, position_found, position_is, put, put_keeps_distinct, Keyed};
use crate::ordering::{slot_by, sorted_by_len, sorted_by_of_prefix};
use crate::quantity::{clamp_i64, lower, saturating_add_i64, saturating_sub_i64};
use crate::recency::{newer_first, newest_first};
use crate::text::joined;
use crate::types::inventory_sync::{
    stock_key, AdjustmentType, AuditEntry, ExternalInventorySource, InventoryAdjustment,
    InventoryAdjustmentView, InventoryChange, InventoryChangeType, InventoryLevel,
    InventoryLevelView, InventoryLocation, InventoryLocationView, LocationId, LocationType,
    StockTransfer, StockTransferView, SyncResult, SyncStatus, TransferItemView, TransferStatus,
};
use crate::types::product_catalog::ProductId;
use crate::views::{
    clone_vec, filter_take_next, filter_take_none, seq_view, seq_view_insert, seq_view_push,
    seq_view_take, seq_view_update, take_all,
};
use vstd::prelude::*;

verus! {

/// Inventory management service.
#[derive(Debug)]
pub struct InventoryService {
    /// Inventory levels, at most one for a product and a location.
    levels: Vec<InventoryLevel>,
    /// Locations, at most one under an identifier.
    locations: Vec<InventoryLocation>,
    /// Adjustment history, oldest first.
    adjustments: Vec<InventoryAdjustment>,
    /// Transfers, at most one under an identifier.
    transfers: Vec<StockTransfer>,
    /// External sources, at most one under an identifier.
    sources: Vec<ExternalInventorySource>,
}

impl View for InventoryService {
    type V = LedgerView;

    closed spec fn view(&self) -> LedgerView {
        LedgerView {
            levels: seq_view(self.levels@),
            locations: seq_view(self.locations@),
            adjustments: seq_view(self.adjustments@),
            transfers: seq_view(self.transfers@),
            sources: seq_view(self.sources@),
        }
    }
}

impl LedgerView {
    /// The ledger of a service that was just created: no stock, no history,
    /// and the main warehouse as its one location.
    pub open spec fn initial() -> LedgerView {
        LedgerView {
            levels: Seq::empty(),
            locations: seq![
                InventoryLocationView::plain(
                    "warehouse-main"@,
                    "Main Warehouse"@,
                    LocationType::Warehouse,
                    1,
                    false,
                ),
            ],
            adjustments: Seq::empty(),
            transfers: Seq::empty(),
            sources: Seq::empty(),
        }
    }
}

impl InventoryService {
    #[verifier::type_invariant]
    spec fn inv(&self) -> bool {
        self@.wf()
    }

    /// Creates a new inventory service.
    pub fn new() -> (r: Self)
        ensures
            r@ == LedgerView::initial(),
            r@.wf(),
    {
        let mut locations: Vec<InventoryLocation> = Vec::new();
        locations.push(
            InventoryLocation::warehouse(LocationId::default_warehouse(), "Main Warehouse"),
        );
        let levels: Vec<InventoryLevel> = Vec::new();
        let adjustments: Vec<InventoryAdjustment> = Vec::new();
        let transfers: Vec<StockTransfer> = Vec::new();
        let sources: Vec<ExternalInventorySource> = Vec::new();
        proof {
            assert(seq_view(locations@) =~= LedgerView::initial().locations);
            assert(seq_view(levels@) =~= LedgerView::initial().levels);
            assert(seq_view(adjustments@) =~= LedgerView::initial().adjustments);
            assert(seq_view(transfers@) =~= LedgerView::initial().transfers);
            assert(seq_view(sources@) =~= LedgerView::initial().sources);
        }
        InventoryService { levels, locations, adjustments, transfers, sources }
    }

    // ========================================================================
    // LOCATION MANAGEMENT
    // ========================================================================
    /// The place of the location `id` in the table, or the table's length.
    fn location_index(&self, id: &LocationId) -> (i: usize)
        ensures
            i == position(self@.locations, id@),
            i <= self.locations.len(),
    {
        let mut i: usize = 0;
        while i < self.locations.len()
            invariant
                i <= self.locations.len(),
                forall|j: int| 0 <= j < i ==> seq_view(self.locations@)[j].key() != id@,
            decreases self.locations.len() - i,
        {
            if self.locations[i].id == *id {
                proof {
                    position_is(self@.locations, id@, i as int);
                }
                return i;
            }
            i += 1;
        }
        proof {
            position_is(self@.locations, id@, i as int);
        }
        i
    }

    /// Adds a location.
    pub fn add_location(&mut self, location: InventoryLocation) -> (r: Result<(), CommerceError>)
        ensures
            final(self)@.wf(),
            match find(old(self)@.locations, location@.id) {
                Some(_) => {
                    &&& final(self)@ == old(self)@
                    &&& fails_with(r, CommerceErrorView::LocationAlreadyExists(location@.id))
                },
                None => {
                    &&& r is Ok
                    &&& final(self)@ == (LedgerView {
                        locations: old(self)@.locations.push(location@),
                        ..old(self)@
                    })
                },
            },
    {
        proof {
            use_type_invariant(&*self);
        }
        let i = self.location_index(&location.id);
        if i < self.locations.len() {
            return Err(CommerceError::LocationAlreadyExists(location.id.to_string()));
        }
        proof {
            position_found(self@.locations, location@.id);
            put_keeps_distinct(self@.locations, location@);
            seq_view_push(self.locations@, location);
        }
        let mut locations: Vec<InventoryLocation> = Vec::new();
        core::mem::swap(&mut self.locations, &mut locations);
        locations.push(location);
        self.locations = locations;
        Ok(())
    }

    /// Gets a location.
    pub fn get_location(&self, id: &LocationId) -> (r: Result<InventoryLocation, CommerceError>)
        ensures
            self@.wf(),
            match find(self@.locations, id@) {
                Some(location) => r matches Ok(found) && found@ == location,
                None => fails_with(r, CommerceErrorView::LocationNotFound(id@)),
            },
    {
        proof {
            use_type_invariant(self);
        }
        let i = self.location_index(id);
        if i < self.locations.len() {
            Ok(self.locations[i].clone())
        } else {
            Err(CommerceError::LocationNotFound(id.to_string()))
        }
    }

    // ========================================================================
    // INVENTORY LEVEL MANAGEMENT
    // ========================================================================
    /// The place of the record of a product at a location, or the table's
    /// length.
    fn level_index(&self, product_id: &ProductId, location_id: &LocationId) -> (i: usize)
        ensures
            i == position(self@.levels, stock_key(product_id@, location_id@)),
            i <= self.levels.len(),
    {
        let ghost key = stock_key(product_id@, location_id@);
        let mut i: usize = 0;
        while i < self.levels.len()
            invariant
                i <= self.levels.len(),
                key == stock_key(product_id@, location_id@),
                forall|j: int| 0 <= j < i ==> seq_view(self.levels@)[j].key() != key,
            decreases self.levels.len() - i,
        {
            let level = &self.levels[i];
            if level.product_id == *product_id && level.variant_id.is_none() && level.location_id
                == *location_id {
                proof {
                    position_is(self@.levels, key, i as int);
                }
                return i;
            }
            i += 1;
        }
        proof {
            position_is(self@.levels, key, i as int);
        }
        i
    }

    /// A copy of the record of a product at a location, or a fresh record if
    /// none was written yet.
    fn load_or_create(&self, product_id: &ProductId, location_id: &LocationId) -> (level:
        InventoryLevel)
        ensures
            level@ == record_or_fresh(self@.levels, product_id@, location_id@),
            level@.wf(),
            level@.key() == stock_key(product_id@, location_id@),
    {
        proof {
            use_type_invariant(self);
            position_found(self@.levels, stock_key(product_id@, location_id@));
        }
        let i = self.level_index(product_id, location_id);
        if i < self.levels.len() {
            self.levels[i].clone()
        } else {
            InventoryLevel::new(product_id.clone(), location_id.clone())
        }
    }

    /// Puts a record in the table, in the place of the one under its key if
    /// there is one.
    fn store(&mut self, level: InventoryLevel)
        requires
            level@.wf(),
            level@.variant_id is None,
        ensures
            final(self)@ == (LedgerView {
                levels: put(old(self)@.levels, level@),
                ..old(self)@
            }),
    {
        proof {
            use_type_invariant(&*self);
            position_found(self@.levels, level@.key());
            put_keeps_distinct(self@.levels, level@);
        }
        let i = self.level_index(&level.product_id, &level.location_id);
        let mut levels: Vec<InventoryLevel> = Vec::new();
        core::mem::swap(&mut self.levels, &mut levels);
        if i < levels.len() {
            proof {
                seq_view_update(levels@, i as int, level);
            }
            levels[i] = level;
        } else {
            proof {
                seq_view_push(levels@, level);
            }
            levels.push(level);
        }
        self.levels = levels;
    }

    /// Records an adjustment.
    fn record_adjustment(&mut self, adjustment: InventoryAdjustment)
        ensures
            final(self)@ == (LedgerView {
                adjustments: old(self)@.adjustments.push(adjustment@),
                ..old(self)@
            }),
    {
        proof {
            use_type_invariant(&*self);
            seq_view_push(self.adjustments@, adjustment);
        }
        let mut adjustments: Vec<InventoryAdjustment> = Vec::new();
        core::mem::swap(&mut self.adjustments, &mut adjustments);
        adjustments.push(adjustment);
        self.adjustments = adjustments;
    }

    /// Gets inventory level for a product at a location.
    pub fn get_inventory(&self, product_id: &ProductId, location_id: &LocationId) -> (r: Result<
        InventoryLevel,
        CommerceError,
    >)
        ensures
            self@.wf(),
            match find(self@.levels, stock_key(product_id@, location_id@)) {
                Some(level) => r matches Ok(found) && found@ == level,
                None => fails_with(r, CommerceErrorView::InventoryNotFound(product_id@)),
            },
    {
        proof {
            use_type_invariant(self);
        }
        let i = self.level_index(product_id, location_id);
        if i < self.levels.len() {
            Ok(self.levels[i].clone())
        } else {
            Err(CommerceError::InventoryNotFound(product_id.to_string()))
        }
    }

    /// Stores a changed record and enters the change in the audit log.
    fn apply(&mut self, level: InventoryLevel, adjustment: InventoryAdjustment, Ghost(entry): Ghost<
        AuditEntry,
    >)
        requires
            level@.wf(),
            level@.variant_id is None,
            adjustment@.records(entry),
        ensures
            final(self)@.follows(old(self)@, put(old(self)@.levels, level@), seq![entry]),
    {
        proof {
            log_grew_one(self@.adjustments, adjustment@, entry);
        }
        self.store(level);
        self.record_adjustment(adjustment);
    }

    /// Sets inventory level for a product at a location.
    ///
    /// The record is created if the product has none at the location. Fails
    /// without any change when the audit log cannot hold the change: when
    /// the difference between the new and the previous on-hand quantity is
    /// no 64-bit number.
    pub fn set_inventory(
        &mut self,
        product_id: ProductId,
        location_id: LocationId,
        on_hand: i64,
        reason: &str,
    ) -> (r: Result<(), CommerceError>)
        ensures
            final(self)@.wf(),
            match set_step(old(self)@.levels, product_id@, location_id@, on_hand, reason@) {
                Ok(step) => r is Ok && final(self)@.follows(
                    old(self)@,
                    step.levels,
                    seq![step.entry],
                ),
                Err(e) => final(self)@ == old(self)@ && fails_with(r, e),
            },
    {
        proof {
            use_type_invariant(&*self);
        }
        let mut level = self.load_or_create(&product_id, &location_id);
        let previous_quantity = level.on_hand;
        let delta = match on_hand.checked_sub(previous_quantity) {
            Some(delta) => delta,
            None => {
                return Err(
                    CommerceError::ValidationError("Quantity change out of range".to_owned()),
                );
            },
        };
        level.on_hand = on_hand;
        level.recalculate_available();
        let adjustment = InventoryAdjustment::new(
            product_id,
            location_id,
            AdjustmentType::Adjustment,
            delta,
            previous_quantity,
            reason,
        );
        let ghost step = set_step(
            old(self)@.levels,
            product_id@,
            location_id@,
            on_hand,
            reason@,
        )->Ok_0;
        self.apply(level, adjustment, Ghost(step.entry));
        proof {
            use_type_invariant(&*self);
        }
        Ok(())
    }

    // ========================================================================
    // STOCK OPERATIONS
    // ========================================================================
    /// Reserves stock for an order.
    ///
    /// Fails without any change when the product has no record at the
    /// location, or when fewer than `quantity` units are available.
    pub fn reserve_stock(
        &mut self,
        product_id: &ProductId,
        location_id: &LocationId,
        quantity: u32,
        reference: &str,
    ) -> (r: Result<(), CommerceError>)
        ensures
            final(self)@.wf(),
            match reserve_step(
                old(self)@.levels,
                product_id@,
                location_id@,
                quantity,
                reference@,
            ) {
                Ok(step) => r is Ok && final(self)@.follows(
                    old(self)@,
                    step.levels,
                    seq![step.entry],
                ),
                Err(e) => final(self)@ == old(self)@ && fails_with(r, e),
            },
    {
        proof {
            use_type_invariant(&*self);
            position_found(self@.levels, stock_key(product_id@, location_id@));
        }
        let i = self.level_index(product_id, location_id);
        if i >= self.levels.len() {
            return Err(CommerceError::InventoryNotFound(product_id.to_string()));
        }
        let mut level = self.levels[i].clone();
        if level.available < quantity as i64 {
            return Err(
                CommerceError::InsufficientInventory {
                    product_id: product_id.to_string(),
                    available: if level.available < 0 {
                        0
                    } else {
                        level.available as u32
                    },
                    requested: quantity,
                },
            );
        }
        let previous = level.committed;
        level.committed = saturating_add_i64(level.committed, quantity as i64);
        level.recalculate_available();
        let adjustment = InventoryAdjustment::new(
            product_id.clone(),
            location_id.clone(),
            AdjustmentType::Reserved,
            level.committed - previous,
            previous,
            "Stock reserved for order",
        ).with_reference(reference);
        let ghost step = reserve_step(
            old(self)@.levels,
            product_id@,
            location_id@,
            quantity,
            reference@,
        )->Ok_0;
        self.apply(level, adjustment, Ghost(step.entry));
        proof {
            use_type_invariant(&*self);
        }
        Ok(())
    }

    /// Releases reserved stock (e.g., order cancelled).
    ///
    /// The committed quantity falls by `quantity` but not below zero. Fails
    /// without any change when the product has no record at the location.
    pub fn release_stock(
        &mut self,
        product_id: &ProductId,
        location_id: &LocationId,
        quantity: u32,
        reference: &str,
    ) -> (r: Result<(), CommerceError>)
        ensures
            final(self)@.wf(),
            match release_step(
                old(self)@.levels,
                product_id@,
                location_id@,
                quantity,
                reference@,
            ) {
                Ok(step) => r is Ok && final(self)@.follows(
                    old(self)@,
                    step.levels,
                    seq![step.entry],
                ),
                Err(e) => final(self)@ == old(self)@ && fails_with(r, e),
            },
    {
        proof {
            use_type_invariant(&*self);
            position_found(self@.levels, stock_key(product_id@, location_id@));
        }
        let i = self.level_index(product_id, location_id);
        if i >= self.levels.len() {
            return Err(CommerceError::InventoryNotFound(product_id.to_string()));
        }
        let mut level = self.levels[i].clone();
        let previous = level.committed;
        level.committed = lower(level.committed, quantity);
        level.recalculate_available();
        let adjustment = InventoryAdjustment::new(
            product_id.clone(),
            location_id.clone(),
            AdjustmentType::Unreserved,
            level.committed - previous,
            previous,
            "Stock released",
        ).with_reference(reference);
        let ghost step = release_step(
            old(self)@.levels,
            product_id@,
            location_id@,
            quantity,
            reference@,
        )->Ok_0;
        self.apply(level, adjustment, Ghost(step.entry));
        proof {
            use_type_invariant(&*self);
        }
        Ok(())
    }

    /// Commits stock (deduct from on-hand for shipped order).
    ///
    /// The on-hand and the committed quantity both fall by `quantity` but
    /// not below zero. Fails without any change when the product has no
    /// record at the location.
    pub fn commit_stock(
        &mut self,
        product_id: &ProductId,
        location_id: &LocationId,
        quantity: u32,
        reference: &str,
    ) -> (r: Result<(), CommerceError>)
        ensures
            final(self)@.wf(),
            match commit_step(
                old(self)@.levels,
                product_id@,
                location_id@,
                quantity,
                reference@,
            ) {
                Ok(step) => r is Ok && final(self)@.follows(
                    old(self)@,
                    step.levels,
                    seq![step.entry],
                ),
                Err(e) => final(self)@ == old(self)@ && fails_with(r, e),
            },
    {
        proof {
            use_type_invariant(&*self);
            position_found(self@.levels, stock_key(product_id@, location_id@));
        }
        let i = self.level_index(product_id, location_id);
        if i >= self.levels.len() {
            return Err(CommerceError::InventoryNotFound(product_id.to_string()));
        }
        let mut level = self.levels[i].clone();
        let previous = level.on_hand;
        level.on_hand = lower(level.on_hand, quantity);
        level.committed = lower(level.committed, quantity);
        level.recalculate_available();
        let adjustment = InventoryAdjustment::new(
            product_id.clone(),
            location_id.clone(),
            AdjustmentType::Shipped,
            level.on_hand - previous,
            previous,
            "Stock shipped",
        ).with_reference(reference);
        let ghost step = commit_step(
            old(self)@.levels,
            product_id@,
            location_id@,
            quantity,
            reference@,
        )->Ok_0;
        self.apply(level, adjustment, Ghost(step.entry));
        proof {
            use_type_invariant(&*self);
        }
        Ok(())
    }

    /// Receives stock (add to on-hand).
    ///
    /// The record is created if the product has none at the location.
    pub fn receive_stock(
        &mut self,
        product_id: &ProductId,
        location_id: &LocationId,
        quantity: u32,
        reference: &str,
    ) -> (r: Result<(), CommerceError>)
        ensures
            final(self)@.wf(),
            r is Ok,
            final(self)@.follows(
                old(self)@,
                receive_step(
                    old(self)@.levels,
                    product_id@,
                    location_id@,
                    quantity,
                    reference@,
                ).levels,
                seq![
                    receive_step(
                        old(self)@.levels,
                        product_id@,
                        location_id@,
                        quantity,
                        reference@,
                    ).entry,
                ],
            ),
    {
        let mut level = self.load_or_create(product_id, location_id);
        let previous = level.on_hand;
        level.on_hand = saturating_add_i64(level.on_hand, quantity as i64);
        level.recalculate_available();
        let adjustment = InventoryAdjustment::new(
            product_id.clone(),
            location_id.clone(),
            AdjustmentType::Received,
            level.on_hand - previous,
            previous,
            "Stock received",
        ).with_reference(reference);
        let ghost step = receive_step(
            old(self)@.levels,
            product_id@,
            location_id@,
            quantity,
            reference@,
        );
        self.apply(level, adjustment, Ghost(step.entry));
        proof {
            use_type_invariant(&*self);
        }
        Ok(())
    }

    // ========================================================================
    // TRANSFER OPERATIONS
    // ========================================================================
    /// The place of the transfer `id` in the table, or the table's length.
    fn transfer_index(&self, id: &str) -> (i: usize)
        ensures
            i == position(self@.transfers, id@),
            i <= self.transfers.len(),
    {
        let wanted = id.to_owned();
        let mut i: usize = 0;
        while i < self.transfers.len()
            invariant
                i <= self.transfers.len(),
                wanted@ == id@,
                forall|j: int| 0 <= j < i ==> seq_view(self.transfers@)[j].key() != id@,
            decreases self.transfers.len() - i,
        {
            if self.transfers[i].id == wanted {
                proof {
                    position_is(self@.transfers, id@, i as int);
                }
                return i;
            }
            i += 1;
        }
        proof {
            position_is(self@.transfers, id@, i as int);
        }
        i
    }

    /// Puts a transfer in the table, in the place of the one under its
    /// identifier if there is one.
    fn store_transfer(&mut self, transfer: StockTransfer)
        ensures
            final(self)@ == (LedgerView {
                transfers: put(old(self)@.transfers, transfer@),
                ..old(self)@
            }),
    {
        proof {
            use_type_invariant(&*self);
            position_found(self@.transfers, transfer@.key());
            put_keeps_distinct(self@.transfers, transfer@);
        }
        let i = self.transfer_index(transfer.id.as_str());
        let mut transfers: Vec<StockTransfer> = Vec::new();
        core::mem::swap(&mut self.transfers, &mut transfers);
        if i < transfers.len() {
            proof {
                seq_view_update(transfers@, i as int, transfer);
            }
            transfers[i] = transfer;
        } else {
            proof {
                seq_view_push(transfers@, transfer);
            }
            transfers.push(transfer);
        }
        self.transfers = transfers;
    }

    /// Creates a stock transfer.
    ///
    /// Both locations must be registered. The transfer is pending and has no
    /// items. It is named after the second it is created in; where a
    /// transfer bears that name already, marks are added to the name until
    /// no transfer bears it. The transfers that are stored stay as they are.
    pub fn create_transfer(&mut self, from_location: LocationId, to_location: LocationId) -> (r:
        Result<StockTransfer, CommerceError>)
        ensures
            final(self)@.wf(),
            if find(old(self)@.locations, from_location@) is None {
                &&& final(self)@ == old(self)@
                &&& fails_with(r, CommerceErrorView::LocationNotFound(from_location@))
            } else if find(old(self)@.locations, to_location@) is None {
                &&& final(self)@ == old(self)@
                &&& fails_with(r, CommerceErrorView::LocationNotFound(to_location@))
            } else {
                let first = StockTransferView::pending(
                    from_location@,
                    to_location@,
                    r->Ok_0.created_at,
                );
                &&& r is Ok
                &&& r->Ok_0@ == (StockTransferView { id: r->Ok_0@.id, ..first })
                &&& next_free_name(old(self)@.transfers, first.id, r->Ok_0@.id)
                &&& final(self)@ == (LedgerView {
                    transfers: old(self)@.transfers.push(r->Ok_0@),
                    ..old(self)@
                })
            },
    {
        proof {
            use_type_invariant(&*self);
        }
        if self.location_index(&from_location) >= self.locations.len() {
            return Err(CommerceError::LocationNotFound(from_location.to_string()));
        }
        if self.location_index(&to_location) >= self.locations.len() {
            return Err(CommerceError::LocationNotFound(to_location.to_string()));
        }
        let mut transfer = StockTransfer::new(from_location, to_location);
        let ghost first = transfer@;
        let ghost stored = self@.transfers;
        let ghost mut k: nat = 0;
        assert(first.id + marks(0) =~= first.id);
        let mut at = self.transfer_index(transfer.id.as_str());
        while at < self.transfers.len()
            invariant
                self@ == old(self)@,
                stored == self@.transfers,
                at == position(stored, transfer@.id),
                transfer@ == (StockTransferView { id: first.id + marks(k), ..first }),
                forall|j: nat| j < k ==> find(stored, first.id + #[trigger] marks(j)) is Some,
            decreases longest_name(stored, stored.len()) + 1 - transfer@.id.len(),
        {
            proof {
                reveal_strlit("+");
                position_found(stored, transfer@.id);
                longest_name_bounds(stored, stored.len(), at as int);
                assert(first.id + marks(k) + "+"@ =~= first.id + marks(k + 1));
            }
            transfer.id = joined(transfer.id.as_str(), "+");
            proof {
                k = k + 1;
            }
            at = self.transfer_index(transfer.id.as_str());
        }
        proof {
            position_found(stored, transfer@.id);
            assert(transfer@.id == first.id + marks(k));
        }
        self.store_transfer(transfer.clone());
        proof {
            use_type_invariant(&*self);
        }
        Ok(transfer)
    }

    /// Adds an item to a transfer that was created.
    ///
    /// Fails without any change when the transfer is unknown.
    pub fn add_transfer_item(&mut self, transfer_id: &str, product_id: ProductId, quantity: u32)
        -> (r: Result<(), CommerceError>)
        ensures
            final(self)@.wf(),
            match find(old(self)@.transfers, transfer_id@) {
                None => {
                    &&& final(self)@ == old(self)@
                    &&& fails_with(r, CommerceErrorView::TransferNotFound(transfer_id@))
                },
                Some(transfer) => {
                    &&& r is Ok
                    &&& final(self)@ == (LedgerView {
                        transfers: put(
                            old(self)@.transfers,
                            StockTransferView {
                                items: transfer.items.push(
                                    TransferItemView {
                                        product_id: product_id@,
                                        variant_id: None,
                                        quantity,
                                        quantity_received: 0,
                                    },
                                ),
                                ..transfer
                            },
                        ),
                        ..old(self)@
                    })
                },
            },
    {
        proof {
            use_type_invariant(&*self);
            position_found(self@.transfers, transfer_id@);
        }
        let i = self.transfer_index(transfer_id);
        if i >= self.transfers.len() {
            return Err(CommerceError::TransferNotFound(transfer_id.to_owned()));
        }
        let mut transfer = self.transfers[i].clone();
        transfer.add_item(product_id, quantity);
        self.store_transfer(transfer);
        proof {
            use_type_invariant(&*self);
        }
        Ok(())
    }

    /// Gets a transfer.
    pub fn get_transfer(&self, id: &str) -> (r: Result<StockTransfer, CommerceError>)
        ensures
            self@.wf(),
            match find(self@.transfers, id@) {
                Some(transfer) => r is Ok && r->Ok_0@ == transfer,
                None => fails_with(r, CommerceErrorView::TransferNotFound(id@)),
            },
    {
        proof {
            use_type_invariant(self);
        }
        let i = self.transfer_index(id);
        if i < self.transfers.len() {
            Ok(self.transfers[i].clone())
        } else {
            Err(CommerceError::TransferNotFound(id.to_owned()))
        }
    }

    /// Completes a transfer.
    ///
    /// Fails without any change when the transfer is unknown, when it is
    /// neither pending nor in progress, or when one of its items has no
    /// record at the source; the failure names the first such item.
    /// Otherwise every item is shipped at the source and received at the
    /// destination, in order, each movement with its own entry in the audit
    /// log under the transfer's reference; then the transfer is marked
    /// completed and stamped with the time.
    pub fn complete_transfer(&mut self, transfer_id: &str) -> (r: Result<(), CommerceError>)
        ensures
            final(self)@.wf(),
            match find(old(self)@.transfers, transfer_id@) {
                None => {
                    &&& final(self)@ == old(self)@
                    &&& fails_with(r, CommerceErrorView::TransferNotFound(transfer_id@))
                },
                Some(transfer) => if !transfer.status.is_open() {
                    &&& final(self)@ == old(self)@
                    &&& fails_with(r, CommerceErrorView::InvalidTransferStatus)
                } else {
                    let batch = moved(
                        old(self)@.levels,
                        transfer.items,
                        transfer.from_location,
                        transfer.to_location,
                        transfer_reference(transfer_id@),
                        transfer.items.len(),
                    );
                    match batch.failure {
                        Some(e) => final(self)@ == old(self)@ && fails_with(r, e),
                        None => {
                            &&& r is Ok
                            &&& final(self)@.levels == batch.levels
                            &&& log_grew(
                                old(self)@.adjustments,
                                final(self)@.adjustments,
                                batch.entries,
                            )
                            &&& final(self)@.locations == old(self)@.locations
                            &&& final(self)@.sources == old(self)@.sources
                            &&& exists|at: u64|
                                final(self)@.transfers == put(
                                    old(self)@.transfers,
                                    transfer.completed(at),
                                )
                        },
                    }
                },
            },
    {
        proof {
            use_type_invariant(&*self);
            position_found(self@.transfers, transfer_id@);
            log_grew_none(self@.adjustments);
        }
        let t = self.transfer_index(transfer_id);
        if t >= self.transfers.len() {
            return Err(CommerceError::TransferNotFound(transfer_id.to_owned()));
        }
        if self.transfers[t].status != TransferStatus::Pending && self.transfers[t].status
            != TransferStatus::InProgress {
            return Err(CommerceError::InvalidTransferStatus);
        }
        let mut transfer = self.transfers[t].clone();
        let items = clone_vec(&transfer.items);
        let from_location = transfer.from_location.clone();
        let to_location = transfer.to_location.clone();
        let reference = joined("Transfer ", transfer_id);
        let ghost before = old(self)@;
        let ghost model = transfer@;
        let ghost its = model.items;
        let ghost from = model.from_location;
        let ghost to = model.to_location;
        let ghost tag = transfer_reference(transfer_id@);

        let mut k: usize = 0;
        while k < items.len()
            invariant
                k <= items.len(),
                seq_view(items@) == its,
                from_location@ == from,
                before == old(self)@,
                self@ == before,
                tag == transfer_reference(transfer_id@),
                find(before.transfers, transfer_id@) == Some(model),
                model.status.is_open(),
                its == model.items,
                from == model.from_location,
                to == model.to_location,
                sourced(before.levels, its, from, k as nat),
            decreases items.len() - k,
        {
            assert(its[k as int] == items@[k as int]@);
            proof {
                position_found(before.levels, stock_key(its[k as int].product_id, from));
            }
            if self.level_index(&items[k].product_id, &from_location) >= self.levels.len() {
                proof {
                    use_type_invariant(&*self);
                    moved_stops_at_missing(before.levels, its, from, to, tag, k as nat);
                }
                return Err(CommerceError::InventoryNotFound(items[k].product_id.to_string()));
            }
            k += 1;
        }
        proof {
            moved_when_sourced(before.levels, its, from, to, tag, its.len());
        }

        let mut i: usize = 0;
        while i < items.len()
            invariant
                i <= items.len(),
                seq_view(items@) == its,
                from_location@ == from,
                moved(before.levels, its, from, to, tag, its.len()).failure is None,
                to_location@ == to,
                reference@ == tag,
                before == old(self)@,
                tag == transfer_reference(transfer_id@),
                find(before.transfers, transfer_id@) == Some(model),
                model.status.is_open(),
                its == model.items,
                from == model.from_location,
                to == model.to_location,
                moved(before.levels, its, from, to, tag, i as nat).failure is None,
                self@.follows(
                    before,
                    moved(before.levels, its, from, to, tag, i as nat).levels,
                    moved(before.levels, its, from, to, tag, i as nat).entries,
                ),
            decreases items.len() - i,
        {
            let item = &items[i];
            let ghost done = moved(before.levels, its, from, to, tag, i as nat);
            let ghost mid = self@;
            assert(its[i as int] == item@);
            proof {
                if commit_step(done.levels, item@.product_id, from, item.quantity, tag) is Err {
                    moved_stays_stopped(
                        before.levels,
                        its,
                        from,
                        to,
                        tag,
                        (i + 1) as nat,
                        its.len(),
                    );
                }
            }
            match self.commit_stock(
                &item.product_id,
                &from_location,
                item.quantity,
                reference.as_str(),
            ) {
                Ok(()) => {},
                Err(e) => {
                    return Err(e);
                },
            }
            let ghost shipped = self@;
            let ghost out = commit_step(done.levels, item@.product_id, from, item.quantity, tag)->Ok_0;
            let _ = self.receive_stock(&item.product_id, &to_location, item.quantity, reference.as_str());
            proof {
                let inn = receive_step(out.levels, item@.product_id, to, item.quantity, tag);
                log_grew_twice(
                    mid.adjustments,
                    shipped.adjustments,
                    self@.adjustments,
                    seq![out.entry],
                    seq![inn.entry],
                );
                assert(seq![out.entry] + seq![inn.entry] =~= seq![out.entry, inn.entry]);
                log_grew_twice(
                    before.adjustments,
                    mid.adjustments,
                    self@.adjustments,
                    done.entries,
                    seq![out.entry, inn.entry],
                );
                assert(done.entries + seq![out.entry, inn.entry] =~= done.entries.push(
                    out.entry,
                ).push(inn.entry));
            }
            i += 1;
        }

        transfer.status = TransferStatus::Completed;
        let now = unix_seconds();
        transfer.arrived_at = Some(now);
        assert(transfer@ == model.completed(now));
        self.store_transfer(transfer);
        proof {
            use_type_invariant(&*self);
        }
        Ok(())
    }

    // ========================================================================
    // SYNC OPERATIONS
    // ========================================================================
    /// The place of the source `id` in the table, or the table's length.
    fn source_index(&self, id: &String) -> (i: usize)
        ensures
            i == position(self@.sources, id@),
            i <= self.sources.len(),
    {
        let mut i: usize = 0;
        while i < self.sources.len()
            invariant
                i <= self.sources.len(),
                forall|j: int| 0 <= j < i ==> seq_view(self.sources@)[j].key() != id@,
            decreases self.sources.len() - i,
        {
            if self.sources[i].id == *id {
                proof {
                    position_is(self@.sources, id@, i as int);
                }
                return i;
            }
            i += 1;
        }
        proof {
            position_is(self@.sources, id@, i as int);
        }
        i
    }

    /// Registers an external inventory source, in the place of the one
    /// registered under the same identifier if there is one.
    pub fn register_source(&mut self, source: ExternalInventorySource) -> (r: Result<
        (),
        CommerceError,
    >)
        ensures
            final(self)@.wf(),
            r is Ok,
            final(self)@ == (LedgerView {
                sources: put(old(self)@.sources, source@),
                ..old(self)@
            }),
    {
        proof {
            use_type_invariant(&*self);
            position_found(self@.sources, source@.key());
            put_keeps_distinct(self@.sources, source@);
        }
        let i = self.source_index(&source.id);
        let mut sources: Vec<ExternalInventorySource> = Vec::new();
        core::mem::swap(&mut self.sources, &mut sources);
        if i < sources.len() {
            proof {
                seq_view_update(sources@, i as int, source);
            }
            sources[i] = source;
        } else {
            proof {
                seq_view_push(sources@, source);
            }
            sources.push(source);
        }
        self.sources = sources;
        Ok(())
    }

    /// Applies inventory changes from external source.
    ///
    /// The changes are applied in order. One that fails is counted and
    /// reported in `errors`, and does not stop the batch. The result counts
    /// every change as processed and each as either updated or failed; its
    /// status is a success when none failed, partial when some failed and
    /// some were applied, and a failure when none was applied.
    pub fn apply_sync_changes(&mut self, source_id: &str, changes: Vec<InventoryChange>) -> (r:
        Result<SyncResult, CommerceError>)
        requires
            changes.len() <= u32::MAX,
        ensures
            final(self)@.wf(),
            r is Ok,
            ({
                let batch = synced(
                    old(self)@.levels,
                    seq_view(changes@),
                    source_id@,
                    changes.len() as nat,
                );
                let result = r->Ok_0;
                &&& final(self)@.follows(old(self)@, batch.levels, batch.entries)
                &&& result.source_id@ == source_id@
                &&& result.items_processed == changes.len()
                &&& result.items_updated == batch.updated
                &&& result.items_failed == batch.failed
                &&& result.items_updated + result.items_failed == result.items_processed
                &&& result.status == sync_status(batch.updated, batch.failed)
                &&& seq_view(result.errors@) == batch.errors
            }),
    {
        let start = Stopwatch::start();
        let mut processed: u32 = 0;
        let mut updated: u32 = 0;
        let mut failed: u32 = 0;
        let mut errors: Vec<String> = Vec::new();
        let ghost before = old(self)@;
        let ghost all = seq_view(changes@);
        proof {
            use_type_invariant(&*self);
            log_grew_none(self@.adjustments);
            assert(seq_view(errors@) =~= Seq::<Seq<char>>::empty());
        }

        let mut i: usize = 0;
        while i < changes.len()
            invariant
                i <= changes.len(),
                changes.len() <= u32::MAX,
                all == seq_view(changes@),
                processed == i,
                updated == synced(before.levels, all, source_id@, i as nat).updated,
                failed == synced(before.levels, all, source_id@, i as nat).failed,
                updated + failed == i,
                seq_view(errors@) == synced(before.levels, all, source_id@, i as nat).errors,
                self@.wf(),
                self@.follows(
                    before,
                    synced(before.levels, all, source_id@, i as nat).levels,
                    synced(before.levels, all, source_id@, i as nat).entries,
                ),
            decreases changes.len() - i,
        {
            let change = &changes[i];
            let ghost done = synced(before.levels, all, source_id@, i as nat);
            let ghost mid = self@;
            assert(all[i as int] == change@);
            processed += 1;
            match self.apply_single_change(change, source_id) {
                Ok(()) => {
                    updated += 1;
                    proof {
                        let step = sync_step(done.levels, change@, source_id@)->Ok_0;
                        log_grew_twice(
                            before.adjustments,
                            mid.adjustments,
                            self@.adjustments,
                            done.entries,
                            seq![step.entry],
                        );
                        assert(done.entries + seq![step.entry] =~= done.entries.push(step.entry));
                    }
                },
                Err(e) => {
                    failed += 1;
                    let product = joined("Product ", change.product_id.as_str());
                    let labelled = joined(product.as_str(), ": ");
                    let message = joined(labelled.as_str(), e.to_string().as_str());
                    proof {
                        seq_view_push(errors@, message);
                    }
                    errors.push(message);
                },
            }
            i += 1;
        }

        let now = unix_seconds();
        let status = if failed == 0 {
            SyncStatus::Success
        } else if updated > 0 {
            SyncStatus::Partial
        } else {
            SyncStatus::Failed
        };
        Ok(
            SyncResult {
                source_id: source_id.to_owned(),
                status,
                items_processed: processed,
                items_updated: updated,
                items_failed: failed,
                errors,
                synced_at: now,
                duration_ms: start.elapsed_millis(),
            },
        )
    }

    /// Applies a single inventory change.
    ///
    /// Fails without any change when the difference between the new and the
    /// previous on-hand quantity is no 64-bit number.
    pub fn apply_single_change(&mut self, change: &InventoryChange, source_id: &str) -> (r: Result<
        (),
        CommerceError,
    >)
        ensures
            final(self)@.wf(),
            match sync_step(old(self)@.levels, change@, source_id@) {
                Ok(step) => r is Ok && final(self)@.follows(
                    old(self)@,
                    step.levels,
                    seq![step.entry],
                ),
                Err(e) => final(self)@ == old(self)@ && fails_with(r, e),
            },
    {
        proof {
            use_type_invariant(&*self);
        }
        let product_id = ProductId::new(change.product_id.as_str());
        let location_id = LocationId::new(change.location_id.as_str());
        let mut level = self.load_or_create(&product_id, &location_id);
        let previous = level.on_hand;
        let target = match change.change_type {
            InventoryChangeType::Absolute => change.quantity,
            InventoryChangeType::Increment => saturating_add_i64(previous, change.quantity),
            InventoryChangeType::Decrement => saturating_sub_i64(previous, change.quantity),
        };
        let delta = match target.checked_sub(previous) {
            Some(delta) => delta,
            None => {
                return Err(
                    CommerceError::ValidationError("Quantity change out of range".to_owned()),
                );
            },
        };
        level.on_hand = target;
        level.recalculate_available();
        let reason = joined("Sync from ", source_id);
        let adjustment = InventoryAdjustment::new(
            product_id,
            location_id,
            AdjustmentType::Adjustment,
            delta,
            previous,
            reason.as_str(),
        );
        let ghost step = sync_step(old(self)@.levels, change@, source_id@)->Ok_0;
        self.apply(level, adjustment, Ghost(step.entry));
        proof {
            use_type_invariant(&*self);
        }
        Ok(())
    }

    // ========================================================================
    // QUERIES
    // ========================================================================
    /// Gets all active locations, in the order in which they were added.
    pub fn get_active_locations(&self) -> (r: Result<Vec<InventoryLocation>, CommerceError>)
        ensures
            self@.wf(),
            r is Ok,
            seq_view(r->Ok_0@) == self@.locations.filter(active_location()),
    {
        proof {
            use_type_invariant(self);
            filter_take_none(self@.locations, active_location());
        }
        let mut found: Vec<InventoryLocation> = Vec::new();
        assert(seq_view(found@) =~= Seq::<InventoryLocationView>::empty());
        let mut i: usize = 0;
        while i < self.locations.len()
            invariant
                i <= self.locations.len(),
                seq_view(found@) == self@.locations.take(i as int).filter(active_location()),
            decreases self.locations.len() - i,
        {
            proof {
                filter_take_next(self@.locations, active_location(), i as int);
            }
            if self.locations[i].is_active {
                let location = self.locations[i].clone();
                proof {
                    seq_view_push(found@, location);
                }
                found.push(location);
            }
            i += 1;
        }
        proof {
            take_all(self@.locations);
        }
        Ok(found)
    }

    /// Gets total available quantity across all locations, held at the
    /// bounds of `i64`.
    pub fn get_total_available(&self, product_id: &ProductId) -> (r: Result<i64, CommerceError>)
        ensures
            self@.wf(),
            r is Ok,
            r->Ok_0 == clamp_i64(total_available(self@.levels, product_id@)),
    {
        proof {
            use_type_invariant(self);
        }
        let mut total: i128 = 0;
        let mut i: usize = 0;
        while i < self.levels.len()
            invariant
                i <= self.levels.len(),
                total == available_among(self@.levels, product_id@, i as nat),
                -(i as int) * 0x8000_0000_0000_0000 <= total <= (i as int)
                    * 0x8000_0000_0000_0000,
            decreases self.levels.len() - i,
        {
            if self.levels[i].product_id == *product_id {
                total = total + self.levels[i].available as i128;
            }
            i += 1;
        }
        if total > i64::MAX as i128 {
            Ok(i64::MAX)
        } else if total < i64::MIN as i128 {
            Ok(i64::MIN)
        } else {
            Ok(total as i64)
        }
    }

    /// The records that a selection picks, in the order of the table.
    fn select_levels(&self, selection: &Selection) -> (found: Vec<InventoryLevel>)
        ensures
            seq_view(found@) == self@.levels.filter(selection.picks()),
    {
        proof {
            filter_take_none(self@.levels, selection.picks());
        }
        let mut found: Vec<InventoryLevel> = Vec::new();
        assert(seq_view(found@) =~= Seq::<InventoryLevelView>::empty());
        let mut i: usize = 0;
        while i < self.levels.len()
            invariant
                i <= self.levels.len(),
                seq_view(found@) == self@.levels.take(i as int).filter(selection.picks()),
            decreases self.levels.len() - i,
        {
            proof {
                filter_take_next(self@.levels, selection.picks(), i as int);
            }
            if selection.accepts(&self.levels[i]) {
                let level = self.levels[i].clone();
                proof {
                    seq_view_push(found@, level);
                }
                found.push(level);
            }
            i += 1;
        }
        proof {
            take_all(self@.levels);
        }
        found
    }

    /// Gets inventory levels across all locations, in the order in which
    /// the records were created.
    pub fn get_all_inventory_for_product(&self, product_id: &ProductId) -> (r: Result<
        Vec<InventoryLevel>,
        CommerceError,
    >)
        ensures
            self@.wf(),
            r is Ok,
            seq_view(r->Ok_0@) == self@.levels.filter(of_product(product_id@)),
    {
        proof {
            use_type_invariant(self);
        }
        Ok(self.select_levels(&Selection::OfProduct(product_id.clone())))
    }

    // ========================================================================
    // LOW STOCK & REORDER
    // ========================================================================
    /// Gets products with low stock.
    pub fn get_low_stock_products(&self) -> (r: Result<Vec<InventoryLevel>, CommerceError>)
        ensures
            self@.wf(),
            r is Ok,
            seq_view(r->Ok_0@) == self@.levels.filter(low_stock()),
    {
        proof {
            use_type_invariant(self);
        }
        Ok(self.select_levels(&Selection::LowStock))
    }

    /// Gets products needing reorder.
    pub fn get_reorder_needed(&self) -> (r: Result<Vec<InventoryLevel>, CommerceError>)
        ensures
            self@.wf(),
            r is Ok,
            seq_view(r->Ok_0@) == self@.levels.filter(reorder_needed()),
    {
        proof {
            use_type_invariant(self);
        }
        Ok(self.select_levels(&Selection::NeedsReorder))
    }

    /// Gets out-of-stock products.
    pub fn get_out_of_stock(&self) -> (r: Result<Vec<InventoryLevel>, CommerceError>)
        ensures
            self@.wf(),
            r is Ok,
            seq_view(r->Ok_0@) == self@.levels.filter(out_of_stock()),
    {
        proof {
            use_type_invariant(self);
        }
        Ok(self.select_levels(&Selection::OutOfStock))
    }

    // ========================================================================
    // ADJUSTMENT HISTORY
    // ========================================================================
    /// Gets adjustment history for a product: its adjustments from the
    /// newest to the oldest, those of one second in the order in which they
    /// were written, and no more than `limit` of them if a limit is given.
    pub fn get_adjustment_history(&self, product_id: &ProductId, limit: Option<usize>) -> (r:
        Result<Vec<InventoryAdjustment>, CommerceError>)
        ensures
            self@.wf(),
            r is Ok,
            seq_view(r->Ok_0@) == history_of(self@.adjustments, product_id@, limit),
    {
        let ghost log = self@.adjustments;
        let ghost pick = about_product(product_id@);
        proof {
            use_type_invariant(self);
            filter_take_none(log, pick);
        }
        let mut history: Vec<InventoryAdjustment> = Vec::new();
        assert(seq_view(history@) =~= Seq::<InventoryAdjustmentView>::empty());
        let mut i: usize = 0;
        while i < self.adjustments.len()
            invariant
                i <= self.adjustments.len(),
                log == self@.adjustments,
                pick == about_product(product_id@),
                seq_view(history@) == newest_first(
                    log.take(i as int).filter(pick),
                    log.take(i as int).filter(pick).len(),
                ),
            decreases self.adjustments.len() - i,
        {
            let ghost own = log.take(i as int).filter(pick);
            proof {
                filter_take_next(log, pick, i as int);
                sorted_by_len(own, newer_first(), own.len());
            }
            if self.adjustments[i].product_id == *product_id {
                let adjustment = self.adjustments[i].clone();
                let at = Self::slot_in(&history, &adjustment);
                proof {
                    sorted_by_of_prefix(own, own.push(adjustment@), newer_first(), own.len());
                    seq_view_insert(history@, at as int, adjustment);
                }
                history.insert(at, adjustment);
            }
            i += 1;
        }
        proof {
            take_all(log);
            sorted_by_len(log.filter(pick), newer_first(), log.filter(pick).len());
        }
        if let Some(most) = limit {
            if most < history.len() {
                proof {
                    seq_view_take(history@, most as int);
                }
                history.truncate(most);
            }
        }
        Ok(history)
    }

    /// Where an adjustment enters the history: behind every entry that is
    /// as new.
    fn slot_in(history: &Vec<InventoryAdjustment>, adjustment: &InventoryAdjustment) -> (at: usize)
        ensures
            at == slot_by(seq_view(history@), adjustment@, newer_first(), 0),
            at <= history.len(),
    {
        let mut at: usize = 0;
        while at < history.len() && history[at].created_at >= adjustment.created_at
            invariant
                at <= history.len(),
                slot_by(seq_view(history@), adjustment@, newer_first(), 0) == slot_by(
                    seq_view(history@),
                    adjustment@,
                    newer_first(),
                    at as int,
                ),
            decreases history.len() - at,
        {
            at += 1;
        }
        at
    }
}

impl Default for InventoryService {
    fn default() -> (r: Self)
        ensures
            r@ == LedgerView::initial(),
    {
        InventoryService::new()
    }
}

/// A selection of stock records.
enum Selection {
    /// The records of a product.
    OfProduct(ProductId),
    /// The records with low stock.
    LowStock,
    /// The records that need a reorder.
    NeedsReorder,
    /// The records that are out of stock.
    OutOfStock,
}

impl Selection {
    /// The records that the selection picks.
    spec fn picks(self) -> spec_fn(InventoryLevelView) -> bool {
        match self {
            Selection::OfProduct(product_id) => of_product(product_id@),
            Selection::LowStock => low_stock(),
            Selection::NeedsReorder => reorder_needed(),
            Selection::OutOfStock => out_of_stock(),
        }
    }

    /// Whether the selection picks `level`.
    fn accepts(&self, level: &InventoryLevel) -> (r: bool)
        ensures
            r == (self.picks())(level@),
    {
        match self {
            Selection::OfProduct(product_id) => level.product_id == *product_id,
            Selection::LowStock => level.is_low_stock(),
            Selection::NeedsReorder => level.needs_reorder(),
            Selection::OutOfStock => level.is_out_of_stock(),
        }
    }
}

} // verus!
