//! The model of the stock ledger: what each operation does to the table of
//! stock records, and what it enters in the audit log.

use crate::errors::CommerceErrorView;
use crate::keyed::{distinct, find, find_after_put, position_found, put};
use crate::quantity::clamp_i64;
use crate::recency::newest_first;
use crate::types::inventory_sync::{
    stock_key, AdjustmentType, AuditEntry, ExternalInventorySourceView, InventoryAdjustmentView,
    InventoryChangeType, InventoryChangeView, InventoryKeyView, InventoryLevelView,
    InventoryLocationView, StockTransferView, SyncStatus, TransferItemView,
};
use vstd::prelude::*;

verus! {

/// The model of the inventory service: its five tables.
pub ghost struct LedgerView {
    pub levels: Seq<InventoryLevelView>,
    pub locations: Seq<InventoryLocationView>,
    pub adjustments: Seq<InventoryAdjustmentView>,
    pub transfers: Seq<StockTransferView>,
    pub sources: Seq<ExternalInventorySourceView>,
}

/// Every record satisfies the record invariant.
pub open spec fn all_wf(levels: Seq<InventoryLevelView>) -> bool {
    forall|i: int| 0 <= i < levels.len() ==> (#[trigger] levels[i]).wf()
}

/// The audit log grew by the records of `entries`, in order, and lost
/// nothing.
pub open spec fn log_grew(
    before: Seq<InventoryAdjustmentView>,
    after: Seq<InventoryAdjustmentView>,
    entries: Seq<AuditEntry>,
) -> bool {
    &&& after.len() == before.len() + entries.len()
    &&& after.subrange(0, before.len() as int) == before
    &&& forall|i: int|
        0 <= i < entries.len() ==> (#[trigger] after[before.len() + i]).records(entries[i])
}

impl LedgerView {
    /// The invariant of the service: every table holds at most one item
    /// under a key, and every stock record is well formed.
    pub open spec fn wf(self) -> bool {
        &&& distinct(self.levels)
        &&& all_wf(self.levels)
        &&& distinct(self.locations)
        &&& distinct(self.transfers)
        &&& distinct(self.sources)
    }

    /// The ledger is `before` with the stock table replaced by `levels` and
    /// the audit log grown by the records of `entries`.
    pub open spec fn follows(
        self,
        before: LedgerView,
        levels: Seq<InventoryLevelView>,
        entries: Seq<AuditEntry>,
    ) -> bool {
        &&& self.levels == levels
        &&& log_grew(before.adjustments, self.adjustments, entries)
        &&& self.locations == before.locations
        &&& self.transfers == before.transfers
        &&& self.sources == before.sources
    }
}

/// The outcome of one stock operation: the stock table after it, and what
/// it enters in the audit log.
pub ghost struct StockStep {
    pub levels: Seq<InventoryLevelView>,
    pub entry: AuditEntry,
}

/// The record of a product at a location, or a fresh one if none was
/// written yet.
pub open spec fn record_or_fresh(
    levels: Seq<InventoryLevelView>,
    product_id: Seq<char>,
    location_id: Seq<char>,
) -> InventoryLevelView {
    match find(levels, stock_key(product_id, location_id)) {
        Some(level) => level,
        None => InventoryLevelView::fresh(product_id, location_id),
    }
}

/// Whether the change from `before` to `after` can be entered in the log:
/// the difference is a 64-bit number.
pub open spec fn recordable(before: i64, after: i64) -> bool {
    i64::MIN <= after - before <= i64::MAX
}

/// The text of the failure of a change that the audit log cannot hold.
pub open spec fn unrecordable_change() -> Seq<char> {
    "Quantity change out of range"@
}

/// Setting the on-hand quantity of a record, which is created if absent.
/// The entry holds the on-hand quantity before, and the difference; a change
/// whose difference is no 64-bit number fails validation and changes
/// nothing.
pub open spec fn set_step(
    levels: Seq<InventoryLevelView>,
    product_id: Seq<char>,
    location_id: Seq<char>,
    on_hand: i64,
    reason: Seq<char>,
) -> Result<StockStep, CommerceErrorView> {
    let before = record_or_fresh(levels, product_id, location_id);
    if recordable(before.on_hand, on_hand) {
        Ok(
            StockStep {
                levels: put(levels, before.counted(on_hand)),
                entry: AuditEntry {
                    product_id,
                    location_id,
                    adjustment_type: AdjustmentType::Adjustment,
                    quantity: (on_hand - before.on_hand) as i64,
                    previous_quantity: before.on_hand,
                    reason,
                    reference: None,
                },
            },
        )
    } else {
        Err(CommerceErrorView::ValidationError(unrecordable_change()))
    }
}

/// Reserving `quantity` units: refused when there is no record, or when
/// fewer units are available. The entry holds the committed quantity before,
/// and the quantity reserved.
pub open spec fn reserve_step(
    levels: Seq<InventoryLevelView>,
    product_id: Seq<char>,
    location_id: Seq<char>,
    quantity: u32,
    reference: Seq<char>,
) -> Result<StockStep, CommerceErrorView> {
    match find(levels, stock_key(product_id, location_id)) {
        None => Err(CommerceErrorView::InventoryNotFound(product_id)),
        Some(before) => if before.available < quantity {
            Err(
                CommerceErrorView::InsufficientInventory {
                    product_id,
                    available: if before.available < 0 {
                        0
                    } else {
                        before.available as u32
                    },
                    requested: quantity,
                },
            )
        } else {
            let after = before.reserved(quantity);
            Ok(
                StockStep {
                    levels: put(levels, after),
                    entry: AuditEntry {
                        product_id,
                        location_id,
                        adjustment_type: AdjustmentType::Reserved,
                        quantity: (after.committed - before.committed) as i64,
                        previous_quantity: before.committed,
                        reason: "Stock reserved for order"@,
                        reference: Some(reference),
                    },
                },
            )
        },
    }
}

/// Releasing a reservation of `quantity` units: refused when there is no
/// record. The entry holds the committed quantity before, and by how much it
/// fell.
pub open spec fn release_step(
    levels: Seq<InventoryLevelView>,
    product_id: Seq<char>,
    location_id: Seq<char>,
    quantity: u32,
    reference: Seq<char>,
) -> Result<StockStep, CommerceErrorView> {
    match find(levels, stock_key(product_id, location_id)) {
        None => Err(CommerceErrorView::InventoryNotFound(product_id)),
        Some(before) => {
            let after = before.released(quantity);
            Ok(
                StockStep {
                    levels: put(levels, after),
                    entry: AuditEntry {
                        product_id,
                        location_id,
                        adjustment_type: AdjustmentType::Unreserved,
                        quantity: (after.committed - before.committed) as i64,
                        previous_quantity: before.committed,
                        reason: "Stock released"@,
                        reference: Some(reference),
                    },
                },
            )
        },
    }
}

/// Shipping `quantity` reserved units: refused when there is no record. The
/// entry holds the on-hand quantity before, and by how much it fell.
pub open spec fn commit_step(
    levels: Seq<InventoryLevelView>,
    product_id: Seq<char>,
    location_id: Seq<char>,
    quantity: u32,
    reference: Seq<char>,
) -> Result<StockStep, CommerceErrorView> {
    match find(levels, stock_key(product_id, location_id)) {
        None => Err(CommerceErrorView::InventoryNotFound(product_id)),
        Some(before) => {
            let after = before.shipped(quantity);
            Ok(
                StockStep {
                    levels: put(levels, after),
                    entry: AuditEntry {
                        product_id,
                        location_id,
                        adjustment_type: AdjustmentType::Shipped,
                        quantity: (after.on_hand - before.on_hand) as i64,
                        previous_quantity: before.on_hand,
                        reason: "Stock shipped"@,
                        reference: Some(reference),
                    },
                },
            )
        },
    }
}

/// Receiving `quantity` units into a record, which is created if absent.
/// The entry holds the on-hand quantity before, and by how much it rose.
pub open spec fn receive_step(
    levels: Seq<InventoryLevelView>,
    product_id: Seq<char>,
    location_id: Seq<char>,
    quantity: u32,
    reference: Seq<char>,
) -> StockStep {
    let before = record_or_fresh(levels, product_id, location_id);
    let after = before.received(quantity);
    StockStep {
        levels: put(levels, after),
        entry: AuditEntry {
            product_id,
            location_id,
            adjustment_type: AdjustmentType::Received,
            quantity: (after.on_hand - before.on_hand) as i64,
            previous_quantity: before.on_hand,
            reason: "Stock received"@,
            reference: Some(reference),
        },
    }
}

/// Two growths of the log, one after the other, are one growth.
pub proof fn log_grew_twice(
    a: Seq<InventoryAdjustmentView>,
    b: Seq<InventoryAdjustmentView>,
    c: Seq<InventoryAdjustmentView>,
    first: Seq<AuditEntry>,
    second: Seq<AuditEntry>,
)
    requires
        log_grew(a, b, first),
        log_grew(b, c, second),
    ensures
        log_grew(a, c, first + second),
{
    assert(c.subrange(0, a.len() as int) =~= a) by {
        assert forall|i: int| 0 <= i < a.len() implies c[i] == a[i] by {
            assert(c.subrange(0, b.len() as int)[i] == b[i]);
            assert(b.subrange(0, a.len() as int)[i] == a[i]);
        }
    }
    assert forall|i: int| 0 <= i < (first + second).len() implies (#[trigger] c[a.len()
        + i]).records((first + second)[i]) by {
        if i < first.len() {
            assert(c.subrange(0, b.len() as int)[a.len() + i] == b[a.len() + i]);
        } else {
            assert(c[b.len() + (i - first.len())].records(second[i - first.len()]));
        }
    }
}

/// A log that did not change grew by nothing.
pub proof fn log_grew_none(a: Seq<InventoryAdjustmentView>)
    ensures
        log_grew(a, a, Seq::empty()),
{
    assert(a.subrange(0, a.len() as int) =~= a);
}

/// A log that grew by one record.
pub proof fn log_grew_one(
    before: Seq<InventoryAdjustmentView>,
    adjustment: InventoryAdjustmentView,
    entry: AuditEntry,
)
    requires
        adjustment.records(entry),
    ensures
        log_grew(before, before.push(adjustment), seq![entry]),
{
    assert(before.push(adjustment).subrange(0, before.len() as int) =~= before);
}

// ============================================================================
// TRANSFERS
// ============================================================================
/// The outcome of a run of stock operations: the stock table after it, what
/// it entered in the audit log, and the failure that stopped it, if any.
pub ghost struct Batch {
    pub levels: Seq<InventoryLevelView>,
    pub entries: Seq<AuditEntry>,
    pub failure: Option<CommerceErrorView>,
}

/// `k` marks, which tell transfers of one second apart.
pub open spec fn marks(k: nat) -> Seq<char> {
    Seq::new(k, |i: int| '+')
}

/// Whether `id` is the name that a new transfer gets where `base` is the
/// name after the second of its creation: `base` itself if no transfer bears
/// it, and else `base` with as many marks as it takes to find a name that
/// no transfer bears.
pub open spec fn next_free_name(transfers: Seq<StockTransferView>, base: Seq<char>, id: Seq<char>)
    -> bool {
    exists|k: nat|
        {
            &&& id == base + #[trigger] marks(k)
            &&& find(transfers, id) is None
            &&& forall|j: nat| j < k ==> find(transfers, base + #[trigger] marks(j)) is Some
        }
}

/// The length of the longest name among the first `n` transfers.
pub open spec fn longest_name(transfers: Seq<StockTransferView>, n: nat) -> nat
    decreases n,
{
    if n == 0 {
        0
    } else if transfers[n - 1].id.len() > longest_name(transfers, (n - 1) as nat) {
        transfers[n - 1].id.len()
    } else {
        longest_name(transfers, (n - 1) as nat)
    }
}

/// No name among the first `n` transfers is longer than the longest.
pub proof fn longest_name_bounds(transfers: Seq<StockTransferView>, n: nat, i: int)
    requires
        0 <= i < n <= transfers.len(),
    ensures
        transfers[i].id.len() <= longest_name(transfers, n),
    decreases n,
{
    if i < n - 1 {
        longest_name_bounds(transfers, (n - 1) as nat, i);
    }
}

/// The reference under which the movements of a transfer are logged.
pub open spec fn transfer_reference(transfer_id: Seq<char>) -> Seq<char> {
    "Transfer "@ + transfer_id
}

/// Moving the first `n` items of a transfer, in order: each is shipped at
/// the source, then received at the destination. An item without a record
/// at the source stops the run, which has then failed.
pub open spec fn moved(
    levels: Seq<InventoryLevelView>,
    items: Seq<TransferItemView>,
    from: Seq<char>,
    to: Seq<char>,
    reference: Seq<char>,
    n: nat,
) -> Batch
    decreases n,
{
    if n == 0 {
        Batch { levels, entries: Seq::empty(), failure: None }
    } else {
        let done = moved(levels, items, from, to, reference, (n - 1) as nat);
        let item = items[n - 1];
        if done.failure is Some {
            done
        } else {
            match commit_step(done.levels, item.product_id, from, item.quantity, reference) {
                Err(e) => Batch { failure: Some(e), ..done },
                Ok(out) => {
                    let inn = receive_step(
                        out.levels,
                        item.product_id,
                        to,
                        item.quantity,
                        reference,
                    );
                    Batch {
                        levels: inn.levels,
                        entries: done.entries.push(out.entry).push(inn.entry),
                        failure: None,
                    }
                },
            }
        }
    }
}

/// A run that was stopped stays as it was when more items follow.
pub proof fn moved_stays_stopped(
    levels: Seq<InventoryLevelView>,
    items: Seq<TransferItemView>,
    from: Seq<char>,
    to: Seq<char>,
    reference: Seq<char>,
    n: nat,
    m: nat,
)
    requires
        n <= m,
        moved(levels, items, from, to, reference, n).failure is Some,
    ensures
        moved(levels, items, from, to, reference, m) == moved(
            levels,
            items,
            from,
            to,
            reference,
            n,
        ),
    decreases m,
{
    if n < m {
        moved_stays_stopped(levels, items, from, to, reference, n, (m - 1) as nat);
    }
}

/// Whether each of the first `n` items has a record at the source.
pub open spec fn sourced(
    levels: Seq<InventoryLevelView>,
    items: Seq<TransferItemView>,
    from: Seq<char>,
    n: nat,
) -> bool {
    forall|j: int|
        0 <= j < n ==> find(levels, stock_key((#[trigger] items[j]).product_id, from)) is Some
}

/// While every item has a record at the source, the run does not stop; it
/// keeps every record, and adds records at the destination only.
pub proof fn moved_when_sourced(
    levels: Seq<InventoryLevelView>,
    items: Seq<TransferItemView>,
    from: Seq<char>,
    to: Seq<char>,
    reference: Seq<char>,
    n: nat,
)
    requires
        n <= items.len(),
        sourced(levels, items, from, n),
    ensures
        moved(levels, items, from, to, reference, n).failure is None,
        forall|key: InventoryKeyView| #[trigger]
            find(levels, key) is Some ==> find(
                moved(levels, items, from, to, reference, n).levels,
                key,
            ) is Some,
        forall|key: InventoryKeyView| #[trigger]
            find(moved(levels, items, from, to, reference, n).levels, key) is Some ==> find(
                levels,
                key,
            ) is Some || exists|j: int|
                0 <= j < n && key == stock_key((#[trigger] items[j]).product_id, to),
    decreases n,
{
    if n > 0 {
        moved_when_sourced(levels, items, from, to, reference, (n - 1) as nat);
        let done = moved(levels, items, from, to, reference, (n - 1) as nat);
        let item = items[n - 1];
        let source = stock_key(item.product_id, from);
        let destination = stock_key(item.product_id, to);
        assert(find(levels, source) is Some);
        position_found(done.levels, source);
        let leaving = find(done.levels, source)->Some_0;
        let out = commit_step(done.levels, item.product_id, from, item.quantity, reference)->Ok_0;
        position_found(out.levels, destination);
        let arriving = record_or_fresh(out.levels, item.product_id, to);
        let next = moved(levels, items, from, to, reference, n);
        assert(next.levels == put(out.levels, arriving.received(item.quantity)));
        assert forall|key: InventoryKeyView| #[trigger] find(levels, key) is Some implies find(
            next.levels,
            key,
        ) is Some by {
            find_after_put(done.levels, leaving.shipped(item.quantity), key);
            find_after_put(out.levels, arriving.received(item.quantity), key);
        }
        assert forall|key: InventoryKeyView| #[trigger]
            find(next.levels, key) is Some implies find(levels, key) is Some || exists|j: int|
            0 <= j < n && key == stock_key((#[trigger] items[j]).product_id, to) by {
            find_after_put(done.levels, leaving.shipped(item.quantity), key);
            find_after_put(out.levels, arriving.received(item.quantity), key);
            if key == destination {
                assert(key == stock_key(items[n - 1].product_id, to));
            } else if key == source {
            } else {
                assert(find(done.levels, key) is Some);
                if !(find(levels, key) is Some) {
                    let j = choose|j: int|
                        0 <= j < n - 1 && key == stock_key((#[trigger] items[j]).product_id, to);
                    assert(0 <= j < n && key == stock_key(items[j].product_id, to));
                }
            }
        }
    }
}

/// The first item without a record at the source stops the run, with
/// nothing moved after it.
pub proof fn moved_stops_at_missing(
    levels: Seq<InventoryLevelView>,
    items: Seq<TransferItemView>,
    from: Seq<char>,
    to: Seq<char>,
    reference: Seq<char>,
    i: nat,
)
    requires
        i < items.len(),
        sourced(levels, items, from, i),
        find(levels, stock_key(items[i as int].product_id, from)) is None,
    ensures
        moved(levels, items, from, to, reference, items.len()).failure == Some(
            CommerceErrorView::InventoryNotFound(items[i as int].product_id),
        ),
{
    moved_when_sourced(levels, items, from, to, reference, i);
    let done = moved(levels, items, from, to, reference, i);
    let missing = stock_key(items[i as int].product_id, from);
    if find(done.levels, missing) is Some {
        let j = choose|j: int|
            0 <= j < i && missing == stock_key((#[trigger] items[j]).product_id, to);
        assert(stock_key(items[j].product_id, from) == missing);
    }
    let next = moved(levels, items, from, to, reference, (i + 1) as nat);
    assert(next.failure == Some(
        CommerceErrorView::InventoryNotFound(items[i as int].product_id),
    ));
    moved_stays_stopped(levels, items, from, to, reference, (i + 1) as nat, items.len());
}

// ============================================================================
// RECONCILIATION
// ============================================================================
/// The reason under which the changes of a source are logged.
pub open spec fn sync_reason(source_id: Seq<char>) -> Seq<char> {
    "Sync from "@ + source_id
}

/// The on-hand quantity that a change asks for, given the one before it:
/// the quantity itself, or the previous one raised or lowered by it,
/// saturating at the bounds of `i64`.
pub open spec fn sync_target(before: i64, change: InventoryChangeView) -> i64 {
    match change.change_type {
        InventoryChangeType::Absolute => change.quantity,
        InventoryChangeType::Increment => clamp_i64(before + change.quantity),
        InventoryChangeType::Decrement => clamp_i64(before - change.quantity),
    }
}

/// Applying one change of an external source. The record is created if
/// absent. The entry holds the on-hand quantity before, and the difference;
/// a change whose difference is no 64-bit number fails validation and
/// changes nothing.
pub open spec fn sync_step(
    levels: Seq<InventoryLevelView>,
    change: InventoryChangeView,
    source_id: Seq<char>,
) -> Result<StockStep, CommerceErrorView> {
    let before = record_or_fresh(levels, change.product_id, change.location_id);
    let target = sync_target(before.on_hand, change);
    if recordable(before.on_hand, target) {
        Ok(
            StockStep {
                levels: put(levels, before.counted(target)),
                entry: AuditEntry {
                    product_id: change.product_id,
                    location_id: change.location_id,
                    adjustment_type: AdjustmentType::Adjustment,
                    quantity: (target - before.on_hand) as i64,
                    previous_quantity: before.on_hand,
                    reason: sync_reason(source_id),
                    reference: None,
                },
            },
        )
    } else {
        Err(CommerceErrorView::ValidationError(unrecordable_change()))
    }
}

/// The outcome of a batch of changes: the stock table after it, what it
/// entered in the audit log, the messages of the changes that failed, and
/// how many changes were applied and how many failed.
pub ghost struct SyncBatch {
    pub levels: Seq<InventoryLevelView>,
    pub entries: Seq<AuditEntry>,
    pub errors: Seq<Seq<char>>,
    pub updated: nat,
    pub failed: nat,
}

/// The message reported for a change that failed.
pub open spec fn sync_error(change: InventoryChangeView, e: CommerceErrorView) -> Seq<char> {
    "Product "@ + change.product_id + ": "@ + e.message()
}

/// Applying the first `n` changes of a batch, in order. A change that fails
/// is counted and reported, and the batch goes on.
pub open spec fn synced(
    levels: Seq<InventoryLevelView>,
    changes: Seq<InventoryChangeView>,
    source_id: Seq<char>,
    n: nat,
) -> SyncBatch
    decreases n,
{
    if n == 0 {
        SyncBatch { levels, entries: Seq::empty(), errors: Seq::empty(), updated: 0, failed: 0 }
    } else {
        let done = synced(levels, changes, source_id, (n - 1) as nat);
        let change = changes[n - 1];
        match sync_step(done.levels, change, source_id) {
            Ok(step) => SyncBatch {
                levels: step.levels,
                entries: done.entries.push(step.entry),
                updated: done.updated + 1,
                ..done
            },
            Err(e) => SyncBatch {
                errors: done.errors.push(sync_error(change, e)),
                failed: done.failed + 1,
                ..done
            },
        }
    }
}

/// The status of a batch with the given counts: a success when nothing
/// failed, partial when something failed and something was applied, a
/// failure when nothing was applied.
pub open spec fn sync_status(updated: nat, failed: nat) -> SyncStatus {
    if failed == 0 {
        SyncStatus::Success
    } else if updated > 0 {
        SyncStatus::Partial
    } else {
        SyncStatus::Failed
    }
}

// ============================================================================
// QUERIES
// ============================================================================
/// Selects the active locations.
pub open spec fn active_location() -> spec_fn(InventoryLocationView) -> bool {
    |location: InventoryLocationView| location.is_active
}

/// Selects the records of a product, at any location.
pub open spec fn of_product(product_id: Seq<char>) -> spec_fn(InventoryLevelView) -> bool {
    |level: InventoryLevelView| level.product_id == product_id
}

/// Selects the records with low stock.
pub open spec fn low_stock() -> spec_fn(InventoryLevelView) -> bool {
    |level: InventoryLevelView| level.is_low_stock()
}

/// Selects the records that need a reorder.
pub open spec fn reorder_needed() -> spec_fn(InventoryLevelView) -> bool {
    |level: InventoryLevelView| level.needs_reorder()
}

/// Selects the records that are out of stock.
pub open spec fn out_of_stock() -> spec_fn(InventoryLevelView) -> bool {
    |level: InventoryLevelView| level.is_out_of_stock()
}

/// Selects the adjustments of a product.
pub open spec fn about_product(product_id: Seq<char>) -> spec_fn(InventoryAdjustmentView) -> bool {
    |adjustment: InventoryAdjustmentView| adjustment.product_id == product_id
}

/// The sum of the available quantities of a product over the first `n`
/// records.
pub open spec fn available_among(levels: Seq<InventoryLevelView>, product_id: Seq<char>, n: nat)
    -> int
    decreases n,
{
    if n == 0 {
        0
    } else {
        available_among(levels, product_id, (n - 1) as nat) + if levels[n - 1].product_id
            == product_id {
            levels[n - 1].available as int
        } else {
            0
        }
    }
}

/// The sum of the available quantities of a product over all its records.
/// It may exceed the range of `i64`.
pub open spec fn total_available(levels: Seq<InventoryLevelView>, product_id: Seq<char>) -> int {
    available_among(levels, product_id, levels.len())
}

/// The history of a product: its adjustments from the newest to the
/// oldest, cut to the first `limit` if a limit is given.
pub open spec fn history_of(
    log: Seq<InventoryAdjustmentView>,
    product_id: Seq<char>,
    limit: Option<usize>,
) -> Seq<InventoryAdjustmentView> {
    let own = log.filter(about_product(product_id));
    let sorted = newest_first(own, own.len());
    match limit {
        Some(most) => if most < sorted.len() {
            sorted.take(most as int)
        } else {
            sorted
        },
        None => sorted,
    }
}

} // verus!
